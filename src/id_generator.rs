use vstd::prelude::*;

verus! {

/// Identifier of a request sent to the macro expander.
pub type RequestId = u64;

/// Issues strictly increasing request identifiers, starting at zero.
pub struct IdGenerator {
    next: u64,
}

impl IdGenerator {
    /// The identifier that the next call of `unique_id` hands out.
    pub closed spec fn next_id(&self) -> nat {
        self.next as nat
    }

    /// A fresh generator; its first identifier is zero.
    pub fn new() -> (r: Self)
        ensures
            r.next_id() == 0,
    {
        IdGenerator { next: 0 }
    }

    /// The identifier that the next call of `unique_id` hands out.
    pub fn next_id_exec(&self) -> (r: u64)
        ensures
            r == self.next_id(),
    {
        self.next
    }

    /// Hands out the next identifier, or `None` once every `u64` has been used.
    pub fn unique_id(&mut self) -> (r: Option<RequestId>)
        ensures
            old(self).next_id() < u64::MAX ==> r == Some(old(self).next_id() as u64)
                && final(self).next_id() == old(self).next_id() + 1,
            old(self).next_id() >= u64::MAX ==> r.is_none() && final(self).next_id()
                == old(self).next_id(),
    {
        if self.next == u64::MAX {
            None
        } else {
            let id = self.next;
            self.next = self.next + 1;
            Some(id)
        }
    }
}

} // verus!
