use vstd::prelude::*;

use crate::errors::StackError;

verus! {

/// Depth of the return-address stack.
pub const STACK_CAPACITY: usize = 16;

/// The fixed-depth return-address stack used by call and return.
pub struct Stack {
    pub entries: Vec<u16>,
}

impl Stack {
    /// The stack never holds more than its fixed capacity.
    pub open spec fn wf(&self) -> bool {
        self.entries@.len() <= STACK_CAPACITY
    }

    /// The stored return addresses, bottom first.
    pub open spec fn view(&self) -> Seq<u16> {
        self.entries@
    }

    pub fn new() -> (s: Stack)
        ensures
            s.wf(),
            s@ == Seq::<u16>::empty(),
    {
        Stack { entries: Vec::new() }
    }

    /// Appends a return address, or reports `Overflow` when the stack
    /// already holds 16 entries; on overflow nothing changes.
    pub fn push(&mut self, addr: u16) -> (r: Result<(), StackError>)
        requires
            old(self).wf(),
        ensures
            final(self).wf(),
            old(self)@.len() < STACK_CAPACITY ==> r == Ok::<(), StackError>(())
                && final(self)@ == old(self)@.push(addr),
            old(self)@.len() == STACK_CAPACITY ==> r == Err::<(), StackError>(StackError::Overflow)
                && final(self)@ == old(self)@,
    {
        if self.entries.len() < STACK_CAPACITY {
            self.entries.push(addr);
            Ok(())
        } else {
            Err(StackError::Overflow)
        }
    }

    /// Removes and returns the top address, or reports `Underflow` on an
    /// empty stack; on underflow nothing changes.
    pub fn pop(&mut self) -> (r: Result<u16, StackError>)
        requires
            old(self).wf(),
        ensures
            final(self).wf(),
            old(self)@.len() > 0 ==> r == Ok::<u16, StackError>(old(self)@.last())
                && final(self)@ == old(self)@.drop_last(),
            old(self)@.len() == 0 ==> r == Err::<u16, StackError>(StackError::Underflow)
                && final(self)@ == old(self)@,
    {
        match self.entries.pop() {
            Some(addr) => Ok(addr),
            None => Err(StackError::Underflow),
        }
    }

    /// Reads the top address without mutating, or reports `Underflow` on an
    /// empty stack.
    pub fn peek(&self) -> (r: Result<u16, StackError>)
        ensures
            self@.len() > 0 ==> r == Ok::<u16, StackError>(self@.last()),
            self@.len() == 0 ==> r == Err::<u16, StackError>(StackError::Underflow),
    {
        if self.entries.len() > 0 {
            Ok(self.entries[self.entries.len() - 1])
        } else {
            Err(StackError::Underflow)
        }
    }
}

} // verus!
