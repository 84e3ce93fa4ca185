//! The pool of scratch registers.

use vstd::prelude::*;

verus! {

/// Number of scratch registers in the pool.
pub const REGISTER_COUNT: usize = 4;

/// Names one scratch register by its slot in the pool.
#[derive(Clone, Copy, Debug, PartialEq, Eq, Structural)]
pub struct RegisterIndex(pub u32);

/// A violation of the allocator's discipline. Neither can be caused by the
/// program being compiled: both point at a fault in the code generator.
#[derive(Clone, Copy, Debug, PartialEq, Eq, Structural)]
pub enum RegisterError {
    /// A register was requested while every slot was in use.
    OutOfRegisters,
    /// The register was handed back while its slot was already free.
    AlreadyFree(RegisterIndex),
}

/// One flag per scratch register; `true` means free.
#[derive(Clone, Copy, Debug)]
pub struct Registers {
    freereg: [bool; REGISTER_COUNT],
}

/// The pool in which every slot is free.
pub open spec fn all_free() -> Seq<bool> {
    Seq::new(REGISTER_COUNT as nat, |i: int| true)
}

/// `i` is the lowest-numbered free slot of `free`.
pub open spec fn is_lowest_free(free: Seq<bool>, i: int) -> bool {
    &&& 0 <= i < free.len()
    &&& free[i]
    &&& forall|j: int| 0 <= j < i ==> !free[j]
}

/// No slot of `free` is free.
pub open spec fn none_free(free: Seq<bool>) -> bool {
    forall|j: int| 0 <= j < free.len() ==> !free[j]
}

/// The slot that an allocation takes from a pool of `REGISTER_COUNT` slots:
/// the lowest-numbered free one, if there is one.
pub open spec fn lowest_free(free: Seq<bool>) -> Option<int> {
    if free.len() > 0 && free[0] {
        Some(0int)
    } else if free.len() > 1 && free[1] {
        Some(1int)
    } else if free.len() > 2 && free[2] {
        Some(2int)
    } else if free.len() > 3 && free[3] {
        Some(3int)
    } else {
        None
    }
}

/// `lowest_free` is what its name says: it gives the one slot that is free
/// while every slot below it is in use, and `None` exactly if no slot is
/// free.
pub proof fn lemma_lowest_free(free: Seq<bool>)
    requires
        free.len() <= REGISTER_COUNT,
    ensures
        match lowest_free(free) {
            Some(i) => is_lowest_free(free, i),
            None => none_free(free),
        },
        forall|i: int| is_lowest_free(free, i) ==> lowest_free(free) == Some(i),
        none_free(free) ==> lowest_free(free) is None,
{
    assert forall|i: int| is_lowest_free(free, i) implies lowest_free(free) == Some(i) by {
        if i > 0 {
            assert(!free[0]);
        }
        if i > 1 {
            assert(!free[1]);
        }
        if i > 2 {
            assert(!free[2]);
        }
    }
    if none_free(free) {
        if free.len() > 0 {
            assert(!free[0]);
        }
        if free.len() > 1 {
            assert(!free[1]);
        }
        if free.len() > 2 {
            assert(!free[2]);
        }
        if free.len() > 3 {
            assert(!free[3]);
        }
    }
}

/// One call on the pool, as a value: the subject of the laws below.
pub enum RegisterCall {
    /// `allocate_register`.
    Allocate,
    /// `free_register` with this argument.
    Free(RegisterIndex),
}

/// Whether `call` succeeds on the pool `free`.
pub open spec fn call_succeeds(free: Seq<bool>, call: RegisterCall) -> bool {
    match call {
        RegisterCall::Allocate => lowest_free(free) is Some,
        RegisterCall::Free(r) => r.valid() && !free[r.slot()],
    }
}

/// The pool that `call` leaves behind; a failing call changes nothing.
pub open spec fn pool_after(free: Seq<bool>, call: RegisterCall) -> Seq<bool> {
    match call {
        RegisterCall::Allocate => match lowest_free(free) {
            Some(i) => free.update(i, false),
            None => free,
        },
        RegisterCall::Free(r) => if r.valid() && !free[r.slot()] {
            free.update(r.slot(), true)
        } else {
            free
        },
    }
}

/// The registers that callers hold after `call`, given that they held
/// `held` before it: an allocation adds the register it returned, a free
/// removes the one it names.
pub open spec fn held_after(held: Set<int>, free: Seq<bool>, call: RegisterCall) -> Set<int> {
    match call {
        RegisterCall::Allocate => match lowest_free(free) {
            Some(i) => held.insert(i),
            None => held,
        },
        RegisterCall::Free(r) => held.remove(r.slot()),
    }
}

/// The calls keep the allocator's discipline: a register is requested only
/// while fewer than `REGISTER_COUNT` are held, and only a held register is
/// handed back.
pub open spec fn disciplined(free: Seq<bool>, held: Set<int>, calls: Seq<RegisterCall>) -> bool
    decreases calls.len(),
{
    calls.len() == 0 || {
        &&& match calls[0] {
            RegisterCall::Allocate => held.len() < REGISTER_COUNT,
            RegisterCall::Free(r) => held.contains(r.slot()),
        }
        &&& disciplined(
            pool_after(free, calls[0]),
            held_after(held, free, calls[0]),
            calls.drop_first(),
        )
    }
}

/// Every one of `calls`, made in order from the pool `free`, succeeds.
pub open spec fn all_succeed(free: Seq<bool>, calls: Seq<RegisterCall>) -> bool
    decreases calls.len(),
{
    calls.len() == 0 || {
        &&& call_succeeds(free, calls[0])
        &&& all_succeed(pool_after(free, calls[0]), calls.drop_first())
    }
}

/// `held` is exactly the set of slots that `free` marks as in use.
pub open spec fn holds(free: Seq<bool>, held: Set<int>) -> bool {
    &&& free.len() == REGISTER_COUNT
    &&& forall|i: int| held.contains(i) <==> 0 <= i < free.len() && !free[i]
}

proof fn lemma_holds_step(free: Seq<bool>, held: Set<int>, call: RegisterCall)
    requires
        holds(free, held),
        match call {
            RegisterCall::Allocate => held.len() < REGISTER_COUNT,
            RegisterCall::Free(r) => held.contains(r.slot()),
        },
    ensures
        call_succeeds(free, call),
        holds(pool_after(free, call), held_after(held, free, call)),
{
    lemma_lowest_free(free);
    match call {
        RegisterCall::Allocate => {
            if none_free(free) {
                assert(held =~= set![0int, 1int, 2int, 3int]);
                assert(set![0int, 1int, 2int, 3int].len() == 4) by {
                    let s0 = Set::<int>::empty();
                    let s1 = s0.insert(0);
                    let s2 = s1.insert(1);
                    let s3 = s2.insert(2);
                    let s4 = s3.insert(3);
                    assert(s4 =~= set![0int, 1int, 2int, 3int]);
                    assert(s1.len() == 1);
                    assert(s2.len() == 2);
                    assert(s3.len() == 3);
                    assert(s4.len() == 4);
                }
            }
        },
        RegisterCall::Free(r) => {},
    }
}

/// From a pool whose in-use slots are exactly the held registers, calls
/// that keep the discipline all succeed.
pub proof fn lemma_disciplined_calls_succeed_from(
    free: Seq<bool>,
    held: Set<int>,
    calls: Seq<RegisterCall>,
)
    requires
        holds(free, held),
        disciplined(free, held, calls),
    ensures
        all_succeed(free, calls),
    decreases calls.len(),
{
    if calls.len() > 0 {
        lemma_holds_step(free, held, calls[0]);
        lemma_disciplined_calls_succeed_from(
            pool_after(free, calls[0]),
            held_after(held, free, calls[0]),
            calls.drop_first(),
        );
    }
}

/// Starting with every register free and none held, any sequence of
/// allocations and frees succeeds call by call, provided that it never asks
/// for a register while `REGISTER_COUNT` are held and never hands back one
/// that is not held.
pub proof fn lemma_disciplined_calls_succeed(calls: Seq<RegisterCall>)
    requires
        disciplined(all_free(), Set::empty(), calls),
    ensures
        all_succeed(all_free(), calls),
{
    lemma_disciplined_calls_succeed_from(all_free(), Set::empty(), calls);
}

/// With every register free, as after `free_all`, an allocation succeeds and
/// takes slot 0, the lowest of the pool.
pub proof fn lemma_first_allocation_takes_slot_zero()
    ensures
        call_succeeds(all_free(), RegisterCall::Allocate),
        lowest_free(all_free()) == Some(0int),
        forall|i: int| is_lowest_free(all_free(), i) <==> i == 0,
{
    assert(is_lowest_free(all_free(), 0));
    assert(all_free()[0]);
    lemma_lowest_free(all_free());
}

impl RegisterIndex {
    /// The index names one of the pool's slots.
    pub open spec fn valid(&self) -> bool {
        self.0 < REGISTER_COUNT
    }

    /// The slot's position in the pool.
    pub open spec fn slot(&self) -> int {
        self.0 as int
    }

    /// The mnemonic of the 64-bit register that the index stands for.
    pub open spec fn spec_name(&self) -> Seq<char> {
        if self.0 == 0 {
            "%r8"@
        } else if self.0 == 1 {
            "%r9"@
        } else if self.0 == 2 {
            "%r10"@
        } else {
            "%r11"@
        }
    }

    /// The mnemonic of the register's low byte.
    pub open spec fn spec_byte_name(&self) -> Seq<char> {
        if self.0 == 0 {
            "%r8b"@
        } else if self.0 == 1 {
            "%r9b"@
        } else if self.0 == 2 {
            "%r10b"@
        } else {
            "%r11b"@
        }
    }

    /// The register's mnemonic: a lookup, nothing is allocated.
    pub fn name(&self) -> (s: &'static str)
        requires
            self.valid(),
        ensures
            s@ == self.spec_name(),
    {
        if self.0 == 0 {
            "%r8"
        } else if self.0 == 1 {
            "%r9"
        } else if self.0 == 2 {
            "%r10"
        } else {
            "%r11"
        }
    }

    /// The mnemonic of the register's low byte, which a comparison writes.
    pub fn byte_name(&self) -> (s: &'static str)
        requires
            self.valid(),
        ensures
            s@ == self.spec_byte_name(),
    {
        if self.0 == 0 {
            "%r8b"
        } else if self.0 == 1 {
            "%r9b"
        } else if self.0 == 2 {
            "%r10b"
        } else {
            "%r11b"
        }
    }
}

impl View for Registers {
    type V = Seq<bool>;

    /// The free flags, slot by slot.
    closed spec fn view(&self) -> Seq<bool> {
        self.freereg@
    }
}

impl Registers {
    /// Every pool has exactly `REGISTER_COUNT` slots.
    pub proof fn lemma_pool_size(self)
        ensures
            self@.len() == REGISTER_COUNT,
    {
    }

    /// A pool with every register free.
    pub fn new() -> (registers: Registers)
        ensures
            registers@ == all_free(),
    {
        let registers = Registers { freereg: [true; REGISTER_COUNT] };
        assert(registers@ =~= all_free());
        registers
    }

    /// Takes the lowest-numbered free register. With none free the pool is
    /// left as it was and the call fails.
    pub fn allocate_register(&mut self) -> (res: Result<RegisterIndex, RegisterError>)
        ensures
            final(self)@.len() == REGISTER_COUNT,
            res is Ok <==> call_succeeds(old(self)@, RegisterCall::Allocate),
            final(self)@ == pool_after(old(self)@, RegisterCall::Allocate),
            match res {
                Ok(r) => {
                    &&& r.valid()
                    &&& lowest_free(old(self)@) == Some(r.slot())
                    &&& is_lowest_free(old(self)@, r.slot())
                    &&& final(self)@ == old(self)@.update(r.slot(), false)
                },
                Err(e) => {
                    &&& e == RegisterError::OutOfRegisters
                    &&& none_free(old(self)@)
                    &&& final(self)@ == old(self)@
                },
            },
    {
        let mut i: usize = 0;
        while i < REGISTER_COUNT
            invariant
                0 <= i <= REGISTER_COUNT,
                *self == *old(self),
                forall|j: int| 0 <= j < i ==> !self@[j],
            decreases REGISTER_COUNT - i,
        {
            if self.freereg[i] {
                self.freereg[i] = false;
                assert(self@ =~= old(self)@.update(i as int, false));
                proof {
                    assert(is_lowest_free(old(self)@, i as int));
                    lemma_lowest_free(old(self)@);
                }
                return Ok(RegisterIndex(i as u32));
            }
            i = i + 1;
        }
        proof {
            lemma_lowest_free(old(self)@);
        }
        Err(RegisterError::OutOfRegisters)
    }

    /// Hands `register` back to the pool. Freeing a register that is already
    /// free leaves the pool as it was and fails.
    pub fn free_register(&mut self, register: RegisterIndex) -> (res: Result<(), RegisterError>)
        requires
            register.valid(),
        ensures
            final(self)@.len() == REGISTER_COUNT,
            res is Ok <==> call_succeeds(old(self)@, RegisterCall::Free(register)),
            final(self)@ == pool_after(old(self)@, RegisterCall::Free(register)),
            match res {
                Ok(_) => {
                    &&& !old(self)@[register.slot()]
                    &&& final(self)@ == old(self)@.update(register.slot(), true)
                },
                Err(e) => {
                    &&& e == RegisterError::AlreadyFree(register)
                    &&& old(self)@[register.slot()]
                    &&& final(self)@ == old(self)@
                },
            },
    {
        let i = register.0 as usize;
        if self.freereg[i] {
            return Err(RegisterError::AlreadyFree(register));
        }
        self.freereg[i] = true;
        assert(self@ =~= old(self)@.update(i as int, true));
        Ok(())
    }

    /// Marks every register free.
    pub fn free_all(&mut self)
        ensures
            final(self)@ == all_free(),
    {
        let mut i: usize = 0;
        while i < REGISTER_COUNT
            invariant
                0 <= i <= REGISTER_COUNT,
                forall|j: int| 0 <= j < i ==> self@[j],
            decreases REGISTER_COUNT - i,
        {
            let ghost before = self@;
            self.freereg[i] = true;
            assert(self@ =~= before.update(i as int, true));
            i = i + 1;
        }
        assert(self@ =~= all_free());
    }
}

} // verus!
