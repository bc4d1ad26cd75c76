use vstd::prelude::*;
use crate::error::Chip8Error;

verus! {

/// How many return addresses the stack holds at most.
pub const STACK_DEPTH: usize = 16;

/// The stack of return addresses used by subroutine call and return.
/// Its model is the sequence of addresses pushed and not yet popped,
/// oldest first.
pub struct Stack {
    stack: Vec<u16>,
    stack_pointer: u8,
}

/// What a push does to a stack holding `s`: the new contents, or the
/// overflow condition when all slots are taken.
pub open spec fn push_result(s: Seq<u16>, address: u16) -> Result<Seq<u16>, Chip8Error> {
    if s.len() >= STACK_DEPTH {
        Err(Chip8Error::StackOverflow)
    } else {
        Ok(s.push(address))
    }
}

/// What a pop does to a stack holding `s`: the remaining contents and the
/// most recently pushed address, or the underflow condition when empty.
pub open spec fn pop_result(s: Seq<u16>) -> Result<(Seq<u16>, u16), Chip8Error> {
    if s.len() == 0 {
        Err(Chip8Error::StackUnderflow)
    } else {
        Ok((s.drop_last(), s.last()))
    }
}

/// Pushes `addresses` in order, stopping at the first failure.
pub open spec fn push_all(s: Seq<u16>, addresses: Seq<u16>) -> Result<Seq<u16>, Chip8Error>
    decreases addresses.len(),
{
    if addresses.len() == 0 {
        Ok(s)
    } else {
        match push_all(s, addresses.drop_last()) {
            Ok(t) => push_result(t, addresses.last()),
            Err(e) => Err(e),
        }
    }
}

/// Pops `count` times, giving the remaining contents and the popped
/// addresses in the order they came out.
pub open spec fn pop_many(s: Seq<u16>, count: nat) -> Result<(Seq<u16>, Seq<u16>), Chip8Error>
    decreases count,
{
    if count == 0 {
        Ok((s, Seq::empty()))
    } else {
        match pop_result(s) {
            Ok((t, a)) => match pop_many(t, (count - 1) as nat) {
                Ok((u, rest)) => Ok((u, seq![a] + rest)),
                Err(e) => Err(e),
            },
            Err(e) => Err(e),
        }
    }
}

impl View for Stack {
    type V = Seq<u16>;

    closed spec fn view(&self) -> Seq<u16> {
        self.stack@.subrange(0, self.stack_pointer as int)
    }
}

impl Stack {
    /// The slots and the pointer agree.
    pub closed spec fn inv(&self) -> bool {
        &&& self.stack@.len() == STACK_DEPTH
        &&& self.stack_pointer as int <= STACK_DEPTH
    }

    /// Well-formed: the invariant holds and the stack is within its depth.
    pub open spec fn wf(&self) -> bool {
        &&& self.inv()
        &&& self@.len() <= STACK_DEPTH
    }

    /// An empty stack.
    pub fn new() -> (r: Stack)
        ensures
            r.wf(),
            r@ == Seq::<u16>::empty(),
    {
        let r = Stack { stack: vec![0u16; STACK_DEPTH], stack_pointer: 0 };
        assert(r@ =~= Seq::<u16>::empty());
        r
    }

    /// Pushes a return address; fails, leaving the stack as it was, when
    /// it already holds `STACK_DEPTH` entries.
    pub fn push(&mut self, address: u16) -> (r: Result<(), Chip8Error>)
        requires
            old(self).wf(),
        ensures
            final(self).wf(),
            match push_result(old(self)@, address) {
                Ok(s) => r == Ok::<(), Chip8Error>(()) && final(self)@ == s,
                Err(e) => r == Err::<(), Chip8Error>(e) && final(self)@ == old(self)@,
            },
    {
        if (self.stack_pointer as usize) < STACK_DEPTH {
            let ghost before = self@;
            self.stack.set(self.stack_pointer as usize, address);
            self.stack_pointer = self.stack_pointer + 1;
            assert(self@ =~= before.push(address));
            Ok(())
        } else {
            Err(Chip8Error::StackOverflow)
        }
    }

    /// Removes and returns the most recently pushed address; fails,
    /// leaving the stack as it was, when it is empty.
    pub fn pop(&mut self) -> (r: Result<u16, Chip8Error>)
        requires
            old(self).wf(),
        ensures
            final(self).wf(),
            match pop_result(old(self)@) {
                Ok((s, a)) => r == Ok::<u16, Chip8Error>(a) && final(self)@ == s,
                Err(e) => r == Err::<u16, Chip8Error>(e) && final(self)@ == old(self)@,
            },
    {
        if self.stack_pointer > 0 {
            let ghost before = self@;
            self.stack_pointer = self.stack_pointer - 1;
            let ret = self.stack[self.stack_pointer as usize];
            self.stack.set(self.stack_pointer as usize, 0);
            assert(self@ =~= before.drop_last());
            Ok(ret)
        } else {
            Err(Chip8Error::StackUnderflow)
        }
    }

    /// How many addresses the stack holds.
    pub fn len(&self) -> (r: usize)
        requires
            self.wf(),
        ensures
            r == self@.len(),
    {
        self.stack_pointer as usize
    }
}

/// Pushing addresses that fit and popping as many gives them back in reverse
/// order and restores the stack.
pub proof fn lemma_push_pop_round_trip(s: Seq<u16>, addresses: Seq<u16>)
    requires
        s.len() + addresses.len() <= STACK_DEPTH,
    ensures
        push_all(s, addresses) == Ok::<Seq<u16>, Chip8Error>(s + addresses),
        pop_many(s + addresses, addresses.len()) == Ok::<(Seq<u16>, Seq<u16>), Chip8Error>(
            (s, addresses.reverse()),
        ),
    decreases addresses.len(),
{
    if addresses.len() > 0 {
        let init = addresses.drop_last();
        let a = addresses.last();
        lemma_push_pop_round_trip(s, init);
        assert((s + init).push(a) =~= s + addresses);
        assert((s + addresses).drop_last() =~= s + init);
        assert((s + addresses).last() == a);
        assert(seq![a] + init.reverse() =~= addresses.reverse());
    } else {
        assert(s + addresses =~= s);
        assert(addresses.reverse() =~= Seq::<u16>::empty());
    }
}

/// After `STACK_DEPTH` pushes onto an empty stack, one more push fails
/// with the overflow condition and the entries stay as they were.
pub proof fn lemma_push_past_depth(addresses: Seq<u16>, extra: u16)
    requires
        addresses.len() == STACK_DEPTH,
    ensures
        push_all(Seq::empty(), addresses) == Ok::<Seq<u16>, Chip8Error>(addresses),
        push_result(addresses, extra) == Err::<Seq<u16>, Chip8Error>(Chip8Error::StackOverflow),
{
    lemma_push_pop_round_trip(Seq::empty(), addresses);
    assert(Seq::<u16>::empty() + addresses =~= addresses);
}

} // verus!
