//! The two-word closure handle, and the owner's side of the liveness and
//! reentrancy protocol: word 0 is zero exactly while the closure may not be
//! entered.
use vstd::prelude::*;

verus! {

/// A closure reference broken into its two words.
#[derive(Clone, Copy, Debug, PartialEq, Eq, Structural)]
pub struct ClosureHandle {
    pub data: u32,
    pub len: u32,
}

impl ClosureHandle {
    /// The handle for the reference whose words are `data` and `len`.
    pub fn from_words(data: u32, len: u32) -> (h: ClosureHandle)
        ensures
            h.data == data,
            h.len == len,
    {
        ClosureHandle { data, len }
    }

    /// Whether the closure may be entered: word 0 is not zero.
    pub fn is_live(&self) -> (r: bool)
        ensures
            r == (self.data != 0),
    {
        self.data != 0
    }
}

/// Where a handle stands in its life.
#[derive(Clone, Copy, Debug, PartialEq, Eq, Structural)]
pub enum CallState {
    Live,
    InCall,
    Released,
}

/// The owner's record of one exposed closure: the words it hands to the
/// foreign side, the data word it keeps aside while that word is zeroed,
/// and the state.
pub struct GuardedHandle {
    pub handle: ClosureHandle,
    pub saved: u32,
    pub state: CallState,
}

impl GuardedHandle {
    /// Word 0 is the saved data word while live, and zero otherwise.
    pub open spec fn wf(&self) -> bool {
        &&& self.saved != 0
        &&& match self.state {
            CallState::Live => self.handle.data == self.saved,
            CallState::InCall | CallState::Released => self.handle.data == 0,
        }
    }

    /// Exposes the closure whose reference has the words `data` and `len`;
    /// a null data word cannot be exposed.
    pub fn expose(data: u32, len: u32) -> (r: Option<GuardedHandle>)
        ensures
            data == 0 <==> r is None,
            r matches Some(g) ==> g.wf() && g.state == CallState::Live && g.handle == (
            ClosureHandle { data, len }),
    {
        if data == 0 {
            None
        } else {
            Some(GuardedHandle { handle: ClosureHandle { data, len }, saved: data, state: CallState::Live })
        }
    }

    /// The words that the foreign side holds.
    pub fn words(&self) -> (h: ClosureHandle)
        ensures
            h == self.handle,
    {
        self.handle
    }

    /// Releases the closure: word 0 becomes zero for good.
    pub fn release(&mut self)
        requires
            old(self).wf(),
        ensures
            final(self).wf(),
            final(self).state == CallState::Released,
            final(self).handle.data == 0,
            final(self).handle.len == old(self).handle.len,
            final(self).saved == old(self).saved,
    {
        self.handle.data = 0;
        self.state = CallState::Released;
    }

    /// Marks a call as begun: from a live state, word 0 is zeroed until
    /// `end_call`; otherwise nothing changes and `false` comes back.
    pub fn begin_call(&mut self) -> (entered: bool)
        requires
            old(self).wf(),
        ensures
            final(self).wf(),
            entered == (old(self).state == CallState::Live),
            entered ==> final(self).state == CallState::InCall && final(self).handle.data == 0
                && final(self).handle.len == old(self).handle.len && final(self).saved == old(
            self).saved,
            !entered ==> *final(self) == *old(self),
    {
        match self.state {
            CallState::Live => {
                self.handle.data = 0;
                self.state = CallState::InCall;
                true
            },
            _ => false,
        }
    }

    /// Marks the call as finished: word 0 gets its data word back. Outside a
    /// call nothing changes.
    pub fn end_call(&mut self)
        requires
            old(self).wf(),
        ensures
            final(self).wf(),
            old(self).state == CallState::InCall ==> final(self).state == CallState::Live
                && final(self).handle == (ClosureHandle {
                data: old(self).saved,
                len: old(self).handle.len,
            }) && final(self).saved == old(self).saved,
            old(self).state != CallState::InCall ==> *final(self) == *old(self),
    {
        match self.state {
            CallState::InCall => {
                self.handle.data = self.saved;
                self.state = CallState::Live;
            },
            _ => {},
        }
    }
}

/// A handle that is released, or whose closure is in a call, shows a zero
/// word 0 to the foreign side, so every trampoline refuses to enter it.
pub proof fn lemma_stopped_handle_reads_zero(g: GuardedHandle)
    requires
        g.wf(),
        g.state != CallState::Live,
    ensures
        g.handle.data == 0,
{
}

} // verus!
