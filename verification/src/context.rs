//! The context manager: holds the single live query-engine context and
//! replaces it wholesale. A replacement never reaches back into records
//! that captured the old context; they keep executing against it.

use vstd::prelude::*;

verus! {

/// Holds the one live query-engine context. `C` is the engine's context
/// handle; the broker never looks inside it.
pub struct ContextManager<C> {
    ctx: C,
}

impl<C> ContextManager<C> {
    /// The context currently live.
    pub closed spec fn current_ctx(&self) -> C {
        self.ctx
    }

    pub fn new(ctx: C) -> (r: Self)
        ensures
            r.current_ctx() == ctx,
    {
        ContextManager { ctx }
    }

    /// Read access to the live context.
    pub fn current(&self) -> (r: &C)
        ensures
            *r == self.current_ctx(),
    {
        &self.ctx
    }

    /// Atomically replaces the live context with a new one. Nothing else
    /// about the broker changes: records that captured the old context are
    /// not touched.
    pub fn replace(&mut self, new_ctx: C)
        ensures
            final(self).current_ctx() == new_ctx,
    {
        self.ctx = new_ctx;
    }
}

} // verus!
