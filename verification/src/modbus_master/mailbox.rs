use vstd::prelude::*;

verus! {

/// A mailbox with room for one instruction.
///
/// Sending never waits: an instruction for a mailbox that still holds an
/// earlier one is handed back at once, and the earlier one stays.
pub struct Mailbox<T> {
    slot: Option<T>,
}

impl<T> View for Mailbox<T> {
    type V = Option<T>;

    /// The instruction that waits in the mailbox, if one does.
    closed spec fn view(&self) -> Option<T> {
        self.slot
    }
}

impl<T> Mailbox<T> {
    /// An empty mailbox.
    pub fn new() -> (mailbox: Self)
        ensures
            mailbox@ is None,
    {
        Mailbox { slot: None }
    }

    /// Whether an instruction waits in the mailbox.
    pub fn is_occupied(&self) -> (occupied: bool)
        ensures
            occupied == (self@ is Some),
    {
        self.slot.is_some()
    }

    /// Puts `message` into the mailbox if it is empty, and hands it back if
    /// it is not.
    pub fn try_send(&mut self, message: T) -> (sent: Result<(), T>)
        ensures
            old(self)@ is None ==> sent is Ok && final(self)@ == Some(message),
            old(self)@ is Some ==> sent == Err::<(), T>(message) && final(self)@ == old(self)@,
    {
        if self.slot.is_some() {
            Err(message)
        } else {
            self.slot = Some(message);
            Ok(())
        }
    }

    /// Takes the instruction that waits in the mailbox, if one does, and
    /// leaves the mailbox empty.
    pub fn try_recv(&mut self) -> (message: Option<T>)
        ensures
            message == old(self)@,
            final(self)@ is None,
    {
        self.slot.take()
    }
}

} // verus!
