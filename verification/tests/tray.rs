use rstop::tray::{
    build_opts, tooltip, Events, IconKind, MenuSpec, TrayAction, TrayInput, TrayState, EXIT_LABEL,
    SWITCH_LABEL,
};

#[test]
fn menu_offers_stop_while_active_and_start_while_paused() {
    let active = build_opts(true, false);
    assert_eq!(active.toggle, Events::Pause);
    assert_eq!(active.toggle_label(), "Stop");
    let paused = build_opts(false, false);
    assert_eq!(paused.toggle, Events::Resume);
    assert_eq!(paused.toggle_label(), "Start");
    assert!(!paused.switch_checked && !paused.switch_disabled);
}

#[test]
fn menu_marks_forgotten_selection() {
    let m = build_opts(true, true);
    assert!(m.switch_checked && m.switch_disabled);
    assert_eq!(SWITCH_LABEL, "Choose another app on next start");
    assert_eq!(EXIT_LABEL, "Exit");
}

#[test]
fn tray_starts_paused() {
    let mut state = TrayState::new();
    assert_eq!(state.initial_menu(), build_opts(false, false));
    let action = state.start();
    assert_eq!(state, TrayState { paused: true, reset: false });
    assert_eq!(action, TrayAction::Show { icon: IconKind::Disabled, menu: build_opts(false, false) });
}

#[test]
fn resume_and_pause() {
    let mut state = TrayState { paused: true, reset: false };
    let action = state.step(TrayInput::Menu(Events::Resume));
    assert!(!state.paused);
    assert_eq!(action, TrayAction::Show { icon: IconKind::Enabled, menu: build_opts(true, false) });
    let action = state.step(TrayInput::Menu(Events::Pause));
    assert!(state.paused);
    assert_eq!(action, TrayAction::Show { icon: IconKind::Disabled, menu: build_opts(false, false) });
}

#[test]
fn pausing_twice_is_pausing_once() {
    let mut once = TrayState { paused: false, reset: true };
    let a1 = once.step(TrayInput::Menu(Events::Pause));
    let mut twice = once;
    let a2 = twice.step(TrayInput::Menu(Events::Pause));
    assert_eq!(once, twice);
    assert_eq!(a1, a2);
}

#[test]
fn exit_quits_without_change() {
    let mut state = TrayState { paused: false, reset: true };
    assert_eq!(state.step(TrayInput::Menu(Events::Exit)), TrayAction::Quit);
    assert_eq!(state, TrayState { paused: false, reset: true });
}

#[test]
fn switch_first_forgets_the_selection() {
    let mut state = TrayState { paused: false, reset: false };
    assert_eq!(state.step(TrayInput::Menu(Events::Switch)), TrayAction::ForgetSelection);
    assert_eq!(state, TrayState { paused: false, reset: false });
    let action = state.step(TrayInput::SelectionForgotten(true));
    assert_eq!(state, TrayState { paused: true, reset: true });
    // the menu is built from the state before the switch: hotkeys were active
    assert_eq!(
        action,
        TrayAction::ShowMenu(MenuSpec { toggle: Events::Pause, switch_disabled: true, switch_checked: true })
    );
}

#[test]
fn failed_forgetting_keeps_reset_clear() {
    let mut state = TrayState { paused: true, reset: false };
    let action = state.step(TrayInput::SelectionForgotten(false));
    assert_eq!(state, TrayState { paused: true, reset: false });
    assert_eq!(action, TrayAction::ShowMenu(build_opts(false, false)));
}

#[test]
fn switch_after_forgetting_only_pauses() {
    let mut state = TrayState { paused: false, reset: true };
    let action = state.step(TrayInput::Menu(Events::Switch));
    assert_eq!(state, TrayState { paused: true, reset: true });
    assert_eq!(action, TrayAction::ShowMenu(build_opts(true, true)));
}

#[test]
fn reset_is_never_cleared() {
    let inputs = [
        TrayInput::Menu(Events::Pause),
        TrayInput::Menu(Events::Resume),
        TrayInput::Menu(Events::Switch),
        TrayInput::Menu(Events::Exit),
        TrayInput::SelectionForgotten(false),
    ];
    for input in inputs {
        let mut state = TrayState { paused: false, reset: true };
        state.step(input);
        assert!(state.reset);
    }
}

#[test]
fn tooltip_names_the_program() {
    assert_eq!(tooltip("Spotify"), "prioritizing: Spotify");
    assert_eq!(tooltip(""), "prioritizing: ");
}
