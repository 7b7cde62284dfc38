//! The slot in which an object keeps the one system handle that it owns.
use vstd::prelude::*;

verus! {

/// Holds one live system handle, or nothing once it has been released.
#[derive(Debug)]
pub struct HandleSlot {
    handle: Option<isize>,
}

impl View for HandleSlot {
    type V = Option<isize>;

    closed spec fn view(&self) -> Option<isize> {
        self.handle
    }
}

/// What releasing a slot hands out, and what the slot holds afterwards.
pub open spec fn spec_release(slot: Option<isize>) -> (Option<isize>, Option<isize>) {
    (slot, None)
}

impl HandleSlot {
    /// A slot that owns `raw`.
    pub fn holding(raw: isize) -> (r: HandleSlot)
        ensures
            r@ == Some(raw),
    {
        HandleSlot { handle: Some(raw) }
    }

    /// A slot that owns nothing.
    pub fn empty() -> (r: HandleSlot)
        ensures
            r@ is None,
    {
        HandleSlot { handle: None }
    }

    /// Takes what a creating call returned: the system reports failure with
    /// the handle 0, and then no slot comes into being.
    pub fn from_raw(raw: isize) -> (r: Option<HandleSlot>)
        ensures
            r is None <==> raw == 0,
            r matches Some(s) ==> s@ == Some(raw),
    {
        if raw == 0 {
            None
        } else {
            Some(HandleSlot::holding(raw))
        }
    }

    /// The handle, while the slot still owns it.
    pub fn get(&self) -> (r: Option<isize>)
        ensures
            r == self@,
    {
        self.handle
    }

    /// Hands out the handle for closing and leaves the slot empty.
    pub fn release(&mut self) -> (r: Option<isize>)
        ensures
            (r, final(self)@) == spec_release(old(self)@),
    {
        self.handle.take()
    }
}

/// A slot that owns a handle gives it out for closing on the first release
/// and nothing on any later one, so the handle is closed exactly once.
pub proof fn lemma_release_exactly_once(raw: isize)
    ensures
        spec_release(Some(raw)).0 == Some(raw),
        spec_release(spec_release(Some(raw)).1).0 is None,
{
}

} // verus!
