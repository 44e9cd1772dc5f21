use vstd::prelude::*;
use vstd::string::*;

verus! {

/// The tray menu's commands.
#[derive(Clone, Copy, Debug, PartialEq, Eq, Structural)]
pub enum Events {
    /// Leave the program.
    Exit,
    /// Stop bringing the selected program forward on hotkeys.
    Pause,
    /// Start bringing the selected program forward on hotkeys again.
    Resume,
    /// Forget the selected program, so that the next start asks again.
    Switch,
}

/// Label of the menu entry that forgets the selected program.
pub const SWITCH_LABEL: &'static str = "Choose another app on next start";

/// Label of the menu entry that leaves the program.
pub const EXIT_LABEL: &'static str = "Exit";

/// The tray menu: an entry that pauses or resumes, a checkable entry that
/// forgets the selected program, and an entry that exits, in this order.
#[derive(Clone, Copy, Debug, PartialEq, Eq, Structural)]
pub struct MenuSpec {
    /// The command of the first entry: `Pause` (labelled "Stop") or `Resume`
    /// (labelled "Start").
    pub toggle: Events,
    /// Whether the forgetting entry is greyed out.
    pub switch_disabled: bool,
    /// Whether the forgetting entry is checked.
    pub switch_checked: bool,
}

/// The menu offered while hotkeys are active (`auto_start`) or not, after the
/// selected program was forgotten (`reset`) or not.
pub open spec fn menu_for(auto_start: bool, reset: bool) -> MenuSpec {
    MenuSpec {
        toggle: if auto_start { Events::Pause } else { Events::Resume },
        switch_disabled: reset,
        switch_checked: reset,
    }
}

/// Builds the tray menu: "Stop" while hotkeys are active, "Start" while they
/// are not; the forgetting entry is checked and greyed out once the selected
/// program was forgotten.
pub fn build_opts(auto_start: bool, reset: bool) -> (menu: MenuSpec)
    ensures
        menu == menu_for(auto_start, reset),
{
    let toggle = if auto_start {
        Events::Pause
    } else {
        Events::Resume
    };
    MenuSpec { toggle, switch_disabled: reset, switch_checked: reset }
}

impl MenuSpec {
    /// Label of the first entry: "Stop" for pausing, "Start" for resuming.
    pub fn toggle_label(&self) -> (label: &'static str)
        ensures
            self.toggle == Events::Pause ==> label@ == "Stop"@,
            self.toggle != Events::Pause ==> label@ == "Start"@,
    {
        match self.toggle {
            Events::Pause => "Stop",
            _ => "Start",
        }
    }
}

/// The tray icon's two pictures.
#[derive(Clone, Copy, Debug, PartialEq, Eq, Structural)]
pub enum IconKind {
    /// Hotkeys are active.
    Enabled,
    /// Hotkeys are paused.
    Disabled,
}

/// What the tray knows: whether hotkeys are paused, and whether the selected
/// program was forgotten during this run.
#[derive(Clone, Copy, Debug, PartialEq, Eq, Structural)]
pub struct TrayState {
    pub paused: bool,
    pub reset: bool,
}

/// What reaches the tray: a menu command, or the outcome of forgetting the
/// selected program (`true` when the stored selection was removed).
#[derive(Clone, Copy, Debug, PartialEq, Eq, Structural)]
pub enum TrayInput {
    Menu(Events),
    SelectionForgotten(bool),
}

/// What the tray asks of its surroundings after an input.
#[derive(Clone, Copy, Debug, PartialEq, Eq, Structural)]
pub enum TrayAction {
    /// Leave the event loop.
    Quit,
    /// Show this icon and this menu (hotkeys were paused or resumed).
    Show { icon: IconKind, menu: MenuSpec },
    /// Remove the stored selection, then report the outcome as
    /// `TrayInput::SelectionForgotten`.
    ForgetSelection,
    /// Show this menu.
    ShowMenu(MenuSpec),
}

/// Pausing (`pause`) or resuming: the new state, and the icon and menu to show.
pub open spec fn set_state_spec(state: TrayState, pause: bool) -> (TrayState, TrayAction) {
    (
        TrayState { paused: pause, reset: state.reset },
        TrayAction::Show {
            icon: if pause { IconKind::Disabled } else { IconKind::Enabled },
            menu: menu_for(!pause, state.reset),
        },
    )
}

/// The end of a switch: hotkeys are paused, and the menu offers what the
/// state before the switch called for.
pub open spec fn finish_switch_spec(state: TrayState) -> (TrayState, TrayAction) {
    (
        TrayState { paused: true, reset: state.reset },
        TrayAction::ShowMenu(menu_for(!state.paused, state.reset)),
    )
}

/// The tray's reaction to one input: the next state and the action.
pub open spec fn tray_step(state: TrayState, input: TrayInput) -> (TrayState, TrayAction) {
    match input {
        TrayInput::Menu(Events::Exit) => (state, TrayAction::Quit),
        TrayInput::Menu(Events::Pause) => set_state_spec(state, true),
        TrayInput::Menu(Events::Resume) => set_state_spec(state, false),
        TrayInput::Menu(Events::Switch) => if state.reset {
            finish_switch_spec(state)
        } else {
            (state, TrayAction::ForgetSelection)
        },
        TrayInput::SelectionForgotten(removed) => finish_switch_spec(
            TrayState { paused: state.paused, reset: state.reset || removed },
        ),
    }
}

impl TrayState {
    /// The state when the program starts: not paused, nothing forgotten.
    pub fn new() -> (state: Self)
        ensures
            state == (TrayState { paused: false, reset: false }),
    {
        TrayState { paused: false, reset: false }
    }

    /// The menu the tray icon is built with.
    pub fn initial_menu(&self) -> (menu: MenuSpec)
        ensures
            menu == menu_for(false, self.reset),
    {
        build_opts(false, self.reset)
    }

    /// Pauses (`pause`) or resumes hotkeys and returns the icon and menu to show.
    pub fn set_state(&mut self, pause: bool) -> (action: TrayAction)
        ensures
            (*final(self), action) == set_state_spec(*old(self), pause),
    {
        self.paused = pause;
        let icon = if pause {
            IconKind::Disabled
        } else {
            IconKind::Enabled
        };
        TrayAction::Show { icon, menu: build_opts(!pause, self.reset) }
    }

    /// Shows the tray for the first time: hotkeys start paused.
    pub fn start(&mut self) -> (action: TrayAction)
        ensures
            (*final(self), action) == set_state_spec(*old(self), true),
    {
        self.set_state(true)
    }

    fn finish_switch(&mut self) -> (action: TrayAction)
        ensures
            (*final(self), action) == finish_switch_spec(*old(self)),
            final(self).paused,
            final(self).reset == old(self).reset,
            action matches TrayAction::ShowMenu(m) && m.toggle == (if old(self).paused {
                Events::Resume
            } else {
                Events::Pause
            }) && m.switch_checked == old(self).reset && m.switch_disabled == old(self).reset,
    {
        let start = !self.paused;
        self.paused = true;
        TrayAction::ShowMenu(build_opts(start, self.reset))
    }

    /// Handles one input.
    pub fn step(&mut self, input: TrayInput) -> (action: TrayAction)
        ensures
            (*final(self), action) == tray_step(*old(self), input),
            (input == TrayInput::Menu(Events::Switch) || input is SelectionForgotten) ==> (
            action matches TrayAction::ShowMenu(m) ==> m.toggle == (if old(self).paused {
                Events::Resume
            } else {
                Events::Pause
            }) && final(self).paused),
    {
        match input {
            TrayInput::Menu(Events::Exit) => TrayAction::Quit,
            TrayInput::Menu(Events::Pause) => self.set_state(true),
            TrayInput::Menu(Events::Resume) => self.set_state(false),
            TrayInput::Menu(Events::Switch) => {
                if self.reset {
                    self.finish_switch()
                } else {
                    TrayAction::ForgetSelection
                }
            },
            TrayInput::SelectionForgotten(removed) => {
                if removed {
                    self.reset = true;
                }
                self.finish_switch()
            },
        }
    }
}

/// Once the selected program has been forgotten it stays forgotten: no input
/// clears `reset`.
pub proof fn lemma_reset_is_kept(state: TrayState, input: TrayInput)
    requires
        state.reset,
    ensures
        tray_step(state, input).0.reset,
{
}

/// Every menu the tray shows reflects the state it leaves: the forgetting
/// entry is checked and greyed out exactly when the selection was forgotten.
/// When pausing or resuming, the icon shows whether hotkeys are paused and the
/// first entry offers the opposite command.
pub proof fn lemma_shown_menu_matches_state(state: TrayState, input: TrayInput)
    ensures
        ({
            let (next, action) = tray_step(state, input);
            &&& action matches TrayAction::ShowMenu(menu) ==> menu.switch_checked == next.reset
                && menu.switch_disabled == next.reset
            &&& action matches TrayAction::Show { icon, menu } ==> {
                &&& menu.switch_checked == next.reset
                &&& menu.switch_disabled == next.reset
                &&& (icon == IconKind::Disabled) == next.paused
                &&& menu.toggle == (if next.paused { Events::Resume } else { Events::Pause })
            }
        }),
{
}

/// A switch that ends by showing the menu leaves hotkeys paused, and the
/// menu's first entry follows whether hotkeys were paused before the input:
/// "Start" (resume) when they were, "Stop" (pause) when they were not. A
/// stored selection that was removed counts as forgotten from then on.
pub proof fn lemma_switch_menu_follows_prior_pause(state: TrayState, input: TrayInput)
    requires
        input == TrayInput::Menu(Events::Switch) || input is SelectionForgotten,
    ensures
        tray_step(state, input).1 matches TrayAction::ShowMenu(m) ==> m.toggle == (if state.paused {
            Events::Resume
        } else {
            Events::Pause
        }) && tray_step(state, input).0.paused,
        input == TrayInput::SelectionForgotten(true) ==> tray_step(state, input).0.reset,
        input == TrayInput::SelectionForgotten(false) ==> tray_step(state, input).0.reset
            == state.reset,
{
}

/// Pausing pauses, resuming resumes, and a completed switch leaves hotkeys
/// paused; leaving the program and asking to forget the selection change nothing.
pub proof fn lemma_commands_effect(state: TrayState, input: TrayInput)
    ensures
        input == TrayInput::Menu(Events::Pause) ==> tray_step(state, input).0.paused,
        input == TrayInput::Menu(Events::Resume) ==> !tray_step(state, input).0.paused,
        tray_step(state, input).1 matches TrayAction::ShowMenu(_) ==> tray_step(state, input).0.paused,
        tray_step(state, input).1 == TrayAction::Quit ==> tray_step(state, input).0 == state,
        tray_step(state, input).1 == TrayAction::ForgetSelection ==> tray_step(state, input).0
            == state,
{
}

/// Pausing twice is pausing once, and so is resuming twice.
pub proof fn lemma_pause_resume_idempotent(state: TrayState)
    ensures
        tray_step(tray_step(state, TrayInput::Menu(Events::Pause)).0, TrayInput::Menu(Events::Pause))
            == tray_step(state, TrayInput::Menu(Events::Pause)),
        tray_step(tray_step(state, TrayInput::Menu(Events::Resume)).0, TrayInput::Menu(Events::Resume))
            == tray_step(state, TrayInput::Menu(Events::Resume)),
{
}

/// Resuming undoes pausing: from a state with hotkeys active, pausing and then
/// resuming returns to that state.
pub proof fn lemma_resume_undoes_pause(state: TrayState)
    requires
        !state.paused,
    ensures
        tray_step(tray_step(state, TrayInput::Menu(Events::Pause)).0, TrayInput::Menu(Events::Resume)).0
            == state,
{
}

/// Asking to switch before anything was forgotten first asks for the stored
/// selection to be removed; once that succeeded, the selection counts as
/// forgotten and hotkeys are paused.
pub proof fn lemma_switch_forgets_selection(state: TrayState)
    requires
        !state.reset,
    ensures
        tray_step(state, TrayInput::Menu(Events::Switch)) == (state, TrayAction::ForgetSelection),
        ({
            let next = tray_step(state, TrayInput::SelectionForgotten(true)).0;
            next.reset && next.paused
        }),
{
}

/// The tray icon's tooltip for the selected program.
pub fn tooltip(program: &str) -> (text: String)
    ensures
        text@ == "prioritizing: "@ + program@,
{
    String::from_str("prioritizing: ").concat(program)
}

} // verus!
