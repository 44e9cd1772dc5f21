use vstd::prelude::*;
use vstd::string::*;
use crate::text::{is_blank, is_blank_text, last_component, last_path_component};
use crate::windows::{first_window_handle, get_window_by_pid, no_window_of, WindowInfo};

verus! {

/// `s` holds no NUL character, so it can be handed to the system as a C string.
pub open spec fn has_no_nul(s: Seq<char>) -> bool {
    forall|i: int| 0 <= i < s.len() ==> s[i] != '\0'
}

/// The name of the window to bring forward: a remembered name when there is
/// one, else the selected program.
pub open spec fn chosen_window(selected: Seq<char>, remembered: Seq<char>) -> Seq<char> {
    if remembered.len() > 0 {
        remembered
    } else {
        selected
    }
}

/// Whether `s` holds a NUL character.
fn contains_nul(s: &str) -> (found: bool)
    ensures
        found == !has_no_nul(s@),
{
    let n = s.unicode_len();
    let mut i: usize = 0;
    while i < n
        invariant
            n == s@.len(),
            i <= n,
            forall|j: int| 0 <= j < i ==> s@[j] != '\0',
        decreases n - i,
    {
        if s.get_char(i) == '\0' {
            return true;
        }
        i = i + 1;
    }
    false
}

/// The window name to look for when the selected program is to be brought
/// forward: the remembered name when it is not empty, else `selected`.
/// `None` when that name is blank; the program then gives up.
pub fn assign(selected: &str, remembered: &str) -> (name: Option<String>)
    requires
        has_no_nul(selected@),
        remembered@.len() > 0 ==> has_no_nul(remembered@),
    ensures
        name is None <==> is_blank_text(chosen_window(selected@, remembered@)),
        name matches Some(n) ==> n@ == chosen_window(selected@, remembered@),
        remembered@.len() == 0 ==> (name is None <==> is_blank_text(selected@)),
        remembered@.len() == 0 ==> (name matches Some(n) ==> n@ == selected@),
        remembered@.len() > 0 ==> (name is None <==> is_blank_text(remembered@)),
        remembered@.len() > 0 ==> (name matches Some(n) ==> n@ == remembered@),
{
    let chosen: &str = if remembered.unicode_len() > 0 {
        remembered
    } else {
        selected
    };
    if is_blank(chosen) {
        None
    } else {
        Some(String::from_str(chosen))
    }
}

/// Like `assign`, but first checks what `assign` requires: `None` when a name
/// that would be handed to the system holds a NUL character.
pub fn checked_assign(selected: &str, remembered: &str) -> (name: Option<Option<String>>)
    ensures
        name is None <==> !(has_no_nul(selected@) && (remembered@.len() > 0 ==> has_no_nul(
            remembered@,
        ))),
        name matches Some(inner) ==> (inner is None <==> is_blank_text(
            chosen_window(selected@, remembered@),
        )),
        name matches Some(Some(n)) ==> n@ == chosen_window(selected@, remembered@),
        remembered@.len() == 0 ==> (name matches Some(Some(n)) ==> n@ == selected@),
        remembered@.len() > 0 ==> (name matches Some(Some(n)) ==> n@ == remembered@),
        remembered@.len() == 0 && has_no_nul(selected@) ==> (name == Some(None::<String>)
            <==> is_blank_text(selected@)),
{
    if contains_nul(selected) {
        return None;
    }
    if remembered.unicode_len() > 0 && contains_nul(remembered) {
        return None;
    }
    Some(assign(selected, remembered))
}

/// A running process: its id and its executable's name.
#[derive(Debug)]
pub struct ProcessInfo {
    pub pid: u32,
    pub name: String,
}

/// The process at index `i` is the first of `processes` whose name is `name`.
pub open spec fn is_first_process_named(processes: Seq<ProcessInfo>, name: Seq<char>, i: int) -> bool {
    &&& 0 <= i < processes.len()
    &&& processes[i].name@ == name
    &&& forall|j: int| 0 <= j < i ==> processes[j].name@ != name
}

/// No process of `processes` is named `name`.
pub open spec fn no_process_named(processes: Seq<ProcessInfo>, name: Seq<char>) -> bool {
    forall|j: int| 0 <= j < processes.len() ==> processes[j].name@ != name
}

/// `pid` is the id of the first process of `processes` named `name`.
pub open spec fn first_process_named(processes: Seq<ProcessInfo>, name: Seq<char>, pid: u32) -> bool {
    exists|i: int| is_first_process_named(processes, name, i) && processes[i].pid == pid
}

/// The id of the first process, in the order given, whose name is the file
/// name at the end of the path `program`; `None` when no process has it.
pub fn find_process(processes: &Vec<ProcessInfo>, program: &str) -> (pid: Option<u32>)
    ensures
        match pid {
            Some(p) => first_process_named(processes@, last_component(program@), p),
            None => no_process_named(processes@, last_component(program@)),
        },
{
    let target = last_path_component(program);
    let mut i: usize = 0;
    while i < processes.len()
        invariant
            i <= processes@.len(),
            target@ == last_component(program@),
            forall|j: int| 0 <= j < i ==> processes@[j].name@ != last_component(program@),
        decreases processes@.len() - i,
    {
        if processes[i].name == target {
            assert(is_first_process_named(processes@, last_component(program@), i as int));
            return Some(processes[i].pid);
        }
        i = i + 1;
    }
    None
}

/// Where the search for the selected program among running processes ended.
#[derive(Clone, Copy, Debug, PartialEq, Eq, Structural)]
pub enum ProcessWindow {
    /// No running process has the program's file name: it is to be launched.
    NotRunning,
    /// The first matching process has this window, which is brought forward.
    Found { pid: u32, handle: usize },
    /// The first matching process has no top-level window.
    NoWindow { pid: u32 },
}

/// Looks for a running process named like the program at the end of the path
/// `program` and for that process's first window.
pub fn locate_process_window(
    processes: &Vec<ProcessInfo>,
    windows: &Vec<WindowInfo>,
    program: &str,
) -> (result: ProcessWindow)
    ensures
        match result {
            ProcessWindow::NotRunning => no_process_named(processes@, last_component(program@)),
            ProcessWindow::Found { pid, handle } => first_process_named(
                processes@,
                last_component(program@),
                pid,
            ) && first_window_handle(windows@, pid, handle),
            ProcessWindow::NoWindow { pid } => first_process_named(
                processes@,
                last_component(program@),
                pid,
            ) && no_window_of(windows@, pid),
        },
{
    let found = find_process(processes, program);
    match found {
        None => ProcessWindow::NotRunning,
        Some(pid) => match get_window_by_pid(windows, pid) {
            Some(handle) => ProcessWindow::Found { pid, handle },
            None => ProcessWindow::NoWindow { pid },
        },
    }
}

} // verus!
