//! Foreground-window identity for the optional "stop if the focused window
//! changes" guard.
use vstd::prelude::*;

verus! {

/// The identifier of a foreground window from its native handle: a null
/// handle means no window is focused.
pub fn window_id_from_handle(handle: usize) -> (r: Option<u64>)
    ensures
        handle == 0 ==> r is None,
        handle != 0 ==> r == Some(handle as u64),
{
    if handle == 0 {
        None
    } else {
        Some(handle as u64)
    }
}

/// The foreground window where the platform offers no way to find it:
/// always unknown, which turns the focus guard off.
pub fn foreground_window() -> (r: Option<u64>)
    ensures
        r is None,
{
    None
}

} // verus!
