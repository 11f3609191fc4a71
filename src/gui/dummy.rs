//! The headless variant: nothing is shown and nobody is asked.
use vstd::prelude::*;

verus! {

/// Installs nothing: without a surface there is nobody to notify of a panic.
pub fn set_gui_panic_hook() {
}

/// Does nothing: without a surface there are no notifications to switch.
pub fn enable_panic_gui_current_thread(_enabled: bool) {
}

/// Calls the operation once and hands back its value.
///
/// Nobody can be asked to retry, so a failure would end execution with `title`
/// as the message at once: the operation must be one that does not fail.
pub fn retryable<T, E: core::fmt::Debug, F: FnMut() -> Result<T, E>>(title: &str, func: F) -> (r: T)
    requires
        func.requires(()),
        forall|res: Result<T, E>| #[trigger] func.ensures((), res) ==> res is Ok,
    ensures
        func.ensures((), Ok::<T, E>(r)),
{
    let mut func = func;
    func().expect(title)
}

} // verus!
