//! Hooks that the kernel calls back into.
use vstd::prelude::*;

verus! {

/// Callbacks for kernel events. Each is set at most once, before the scheduler
/// starts, and only read afterwards.
#[derive(Debug)]
pub struct FreeRtosHooks<C> {
    on_assert: Option<C>,
}

impl<C> FreeRtosHooks<C> {
    /// The callback run when the kernel asserts, once set.
    pub closed spec fn assert_hook(self) -> Option<C> {
        self.on_assert
    }

    /// Hooks with no callback set.
    pub fn new() -> (r: Self)
        ensures
            r.assert_hook() is None,
    {
        FreeRtosHooks { on_assert: None }
    }

    /// Sets the callback run when the kernel asserts. It can be set once: a second
    /// callback is handed back and the first stays.
    pub fn set_on_assert(&mut self, c: C) -> (r: Result<(), C>)
        ensures
            old(self).assert_hook() is None ==> r is Ok && final(self).assert_hook() == Some(c),
            old(self).assert_hook() is Some ==> r == Err::<(), C>(c) && final(self).assert_hook() == old(self).assert_hook(),
    {
        if self.on_assert.is_some() {
            Err(c)
        } else {
            self.on_assert = Some(c);
            Ok(())
        }
    }
}

impl<C: Fn()> FreeRtosHooks<C> {
    /// Runs the assert callback, if one is set.
    pub fn do_on_assert(&self)
        requires
            self.assert_hook() matches Some(cb) ==> cb.requires(()),
        ensures
            self.assert_hook() matches Some(cb) ==> cb.ensures((), ()),
    {
        if let Some(cb) = &self.on_assert {
            cb()
        }
    }
}

} // verus!
