use vstd::prelude::*;

verus! {

/// A top-level window as the system enumerates it: its handle, as a number,
/// and the id of the process that created it.
#[derive(Clone, Copy, Debug, PartialEq, Eq, Structural)]
pub struct WindowInfo {
    pub handle: usize,
    pub pid: u32,
}

/// The first window in enumeration order that belongs to process `pid` is at
/// index `i`: it belongs to `pid`, and no window before it does.
pub open spec fn is_first_window_of(windows: Seq<WindowInfo>, pid: u32, i: int) -> bool {
    &&& 0 <= i < windows.len()
    &&& windows[i].pid == pid
    &&& forall|j: int| 0 <= j < i ==> windows[j].pid != pid
}

/// No window of `windows` belongs to process `pid`.
pub open spec fn no_window_of(windows: Seq<WindowInfo>, pid: u32) -> bool {
    forall|j: int| 0 <= j < windows.len() ==> windows[j].pid != pid
}

/// `handle` is the handle of the first window of `windows` that belongs to `pid`.
pub open spec fn first_window_handle(windows: Seq<WindowInfo>, pid: u32, handle: usize) -> bool {
    exists|i: int| is_first_window_of(windows, pid, i) && windows[i].handle == handle
}

/// The handle of the first window, in the order the system enumerated them,
/// that belongs to process `pid`; enumeration stops there. `None` when the
/// process has no top-level window.
pub fn get_window_by_pid(windows: &Vec<WindowInfo>, pid: u32) -> (found: Option<usize>)
    ensures
        match found {
            Some(h) => first_window_handle(windows@, pid, h),
            None => no_window_of(windows@, pid),
        },
{
    let mut i: usize = 0;
    while i < windows.len()
        invariant
            i <= windows@.len(),
            forall|j: int| 0 <= j < i ==> windows@[j].pid != pid,
        decreases windows@.len() - i,
    {
        if windows[i].pid == pid {
            assert(is_first_window_of(windows@, pid, i as int));
            return Some(windows[i].handle);
        }
        i = i + 1;
    }
    None
}

} // verus!
