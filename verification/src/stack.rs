use vstd::prelude::*;

use crate::exception::Exception;
use crate::Address;

verus! {

/// Number of usable slots of the stack
pub const STACK_SIZE: usize = 16;

const STACK_POINTER_INIT: Address = 0;
const EMPTY: Address = 0;

/// Abstraction of the CPU's stack: a bounded LIFO of return addresses.
#[derive(Debug)]
pub struct Stack {
    /// Pointer to the top of the stack
    pub pointer: Address,
    /// Content of the stack
    pub content: [Address; STACK_SIZE],
}

impl Stack {
    /// The pointer always stays between zero and the capacity.
    pub open spec fn wf(&self) -> bool {
        self.pointer <= STACK_SIZE
    }

    /// Pushes the specified address at the top of the stack. Succeeds exactly
    /// when the stack holds fewer addresses than its capacity; a push onto a
    /// full stack fails and changes nothing.
    pub fn push(&mut self, content: Address) -> (result: Result<(), Exception>)
        requires
            old(self).wf(),
        ensures
            final(self).wf(),
            old(self).pointer < STACK_SIZE ==> {
                &&& result == Ok::<(), Exception>(())
                &&& final(self).pointer == old(self).pointer + 1
                &&& final(self).content@ == old(self).content@.update(
                    old(self).pointer as int,
                    content,
                )
            },
            old(self).pointer >= STACK_SIZE ==> {
                &&& result == Err::<(), Exception>(Exception::StackOverflow)
                &&& *final(self) == *old(self)
            },
    {
        let i = self.pointer as usize;
        if i >= STACK_SIZE {
            Err(Exception::StackOverflow)
        } else {
            self.content[i] = content;
            self.pointer = self.pointer + 1;
            Ok(())
        }
    }

    /// Takes out the top value of the stack and returns it. Succeeds exactly
    /// when the stack is not empty; a pop from an empty stack fails and
    /// changes nothing.
    pub fn pop(&mut self) -> (result: Result<Address, Exception>)
        requires
            old(self).wf(),
        ensures
            final(self).wf(),
            old(self).pointer == 0 ==> {
                &&& result == Err::<Address, Exception>(Exception::StackUnderflow)
                &&& *final(self) == *old(self)
            },
            old(self).pointer > 0 ==> {
                &&& result == Ok::<Address, Exception>(
                    old(self).content@[old(self).pointer - 1],
                )
                &&& final(self).pointer == old(self).pointer - 1
                &&& final(self).content == old(self).content
            },
    {
        let i = self.pointer as usize;
        if i == 0 {
            Err(Exception::StackUnderflow)
        } else {
            self.pointer = self.pointer - 1;
            Ok(self.content[i - 1])
        }
    }

    /// Returns the value at the top of the stack, if any, without removing it.
    pub fn peek(&self) -> (result: Option<Address>)
        requires
            self.wf(),
        ensures
            self.pointer == 0 ==> result == Option::<Address>::None,
            self.pointer > 0 ==> result == Some(self.content@[self.pointer - 1]),
    {
        if self.pointer == 0 {
            None
        } else {
            Some(self.content[(self.pointer - 1) as usize])
        }
    }
}

impl Default for Stack {
    fn default() -> (stack: Self)
        ensures
            stack.wf(),
            stack.pointer == 0,
            forall|i: int| 0 <= i < STACK_SIZE ==> stack.content@[i] == 0,
    {
        Stack {
            pointer: STACK_POINTER_INIT,
            content: [EMPTY; STACK_SIZE],
        }
    }
}

} // verus!
