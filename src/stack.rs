use vstd::prelude::*;

use crate::conversions::{high_of, low_of, pair_to_wide, wide_of, wide_to_pair};
use crate::types::{FarAddress, Value, WideValue};

verus! {

/// What a stack holds: `cells[i]` is the byte at address `base - 1 - i`,
/// so the cells grow downwards in memory from `base`.
pub struct StackModel {
    pub cells: Seq<u8>,
    pub base: u16,
}

impl StackModel {
    /// The cell that stands for `address`.
    pub open spec fn index_of(self, address: u16) -> int {
        self.base - 1 - address
    }

    /// The byte at `address`.
    pub open spec fn byte_at(self, address: u16) -> u8 {
        self.cells[self.index_of(address)]
    }

    /// A byte can be pushed with the stack pointer at `sp`: the byte goes to
    /// `sp - 1`, which is at most one cell past the end of the store.
    pub open spec fn can_push(self, sp: u16) -> bool {
        0 < sp <= self.base && self.base - sp <= self.cells.len()
    }

    /// The stack after `value` is written at `sp - 1`.
    pub open spec fn pushed(self, sp: u16, value: u8) -> StackModel {
        let i = self.base - sp;
        StackModel {
            cells: if i < self.cells.len() {
                self.cells.update(i, value)
            } else {
                self.cells.push(value)
            },
            base: self.base,
        }
    }

    /// A byte can be popped with the stack pointer at `sp`.
    pub open spec fn can_pop(self, sp: u16) -> bool {
        sp < self.base && 0 <= self.index_of(sp) < self.cells.len()
    }

    /// Two bytes can be pushed with the stack pointer at `sp`.
    pub open spec fn can_push_wide(self, sp: u16) -> bool {
        1 < sp <= self.base && self.base - sp <= self.cells.len()
    }

    /// The stack after `value` is pushed: high byte at `sp - 1`, low byte at
    /// `sp - 2`.
    pub open spec fn pushed_wide(self, sp: u16, value: u16) -> StackModel {
        self.pushed(sp, high_of(value)).pushed((sp - 1) as u16, low_of(value))
    }

    /// Two bytes can be popped with the stack pointer at `sp`.
    pub open spec fn can_pop_wide(self, sp: u16) -> bool {
        sp + 1 < self.base && self.index_of(sp) < self.cells.len()
    }

    /// The 16-bit value on top of the stack: low byte at `sp`, high byte at
    /// `sp + 1`.
    pub open spec fn top_wide(self, sp: u16) -> u16 {
        wide_of(self.byte_at((sp + 1) as u16), self.byte_at(sp))
    }
}

/// The stack: a store of bytes below a fixed base address, addressed through
/// the stack pointer. Pushes past the end of the store extend it.
pub struct Stack {
    stack: Vec<Value>,
    base_address: FarAddress,
}

impl View for Stack {
    type V = StackModel;

    closed spec fn view(&self) -> StackModel {
        StackModel { cells: self.stack@, base: self.base_address }
    }
}

impl Stack {
    /// An empty stack below `base_addr`.
    pub fn new(base_addr: FarAddress) -> (r: Stack)
        ensures
            r@ == (StackModel { cells: Seq::empty(), base: base_addr }),
    {
        Stack { stack: Vec::new(), base_address: base_addr }
    }

    pub fn base_address(&self) -> (r: FarAddress)
        ensures
            r == self@.base,
    {
        self.base_address
    }

    /// The cell index of `addr`, an address below the base.
    fn addr_to_index(&self, addr: FarAddress) -> (r: usize)
        requires
            addr < self@.base,
        ensures
            r == self@.index_of(addr),
    {
        (self.base_address - 1 - addr) as usize
    }

    /// Whether a 16-bit value can be pushed with the stack pointer at `sp`.
    pub fn can_push_wide(&self, sp: FarAddress) -> (r: bool)
        ensures
            r == self@.can_push_wide(sp),
    {
        1 < sp && sp <= self.base_address && ((self.base_address - sp) as usize) <= self.stack.len()
    }

    /// Whether a 16-bit value can be popped with the stack pointer at `sp`.
    pub fn can_pop_wide(&self, sp: FarAddress) -> (r: bool)
        ensures
            r == self@.can_pop_wide(sp),
    {
        sp < self.base_address && sp + 1 < self.base_address && self.addr_to_index(sp) < self.stack.len()
    }

    /// Decrements the stack pointer, then writes `value` where it points.
    fn push(&mut self, sp: &mut FarAddress, value: Value)
        requires
            old(self)@.can_push(*old(sp)),
        ensures
            *final(sp) == *old(sp) - 1,
            final(self)@ == old(self)@.pushed(*old(sp), value),
    {
        *sp = *sp - 1;
        let index = self.addr_to_index(*sp);
        if index < self.stack.len() {
            self.stack.set(index, value);
        } else {
            self.stack.push(value);
        }
    }

    /// Pushes a 16-bit value: its high byte first, then its low byte, the
    /// stack pointer decremented before each write.
    pub fn push_wide(&mut self, sp: &mut FarAddress, value: WideValue)
        requires
            old(self)@.can_push_wide(*old(sp)),
        ensures
            *final(sp) == *old(sp) - 2,
            final(self)@ == old(self)@.pushed_wide(*old(sp), value),
    {
        let (high, low) = wide_to_pair(value);
        self.push(sp, high);
        self.push(sp, low);
    }

    /// Reads the byte the stack pointer points at, then increments it.
    pub fn pop(&mut self, sp: &mut FarAddress) -> (r: Value)
        requires
            old(self)@.can_pop(*old(sp)),
        ensures
            r == old(self)@.byte_at(*old(sp)),
            *final(sp) == *old(sp) + 1,
            final(self)@ == old(self)@,
    {
        let index = self.addr_to_index(*sp);
        let value = self.stack[index];
        *sp = *sp + 1;
        value
    }

    /// Pops a 16-bit value: its low byte first, then its high byte.
    pub fn pop_wide(&mut self, sp: &mut FarAddress) -> (r: WideValue)
        requires
            old(self)@.can_pop_wide(*old(sp)),
        ensures
            r == old(self)@.top_wide(*old(sp)),
            *final(sp) == *old(sp) + 2,
            final(self)@ == old(self)@,
    {
        let low = self.pop(sp);
        let high = self.pop(sp);
        pair_to_wide(high, low)
    }
}

/// A 16-bit push followed by a 16-bit pop gives back the pushed value and
/// the stack pointer from before the push, for every value.
pub proof fn lemma_push_pop_wide(stack: StackModel, sp: u16, value: u16)
    requires
        stack.can_push_wide(sp),
    ensures
        stack.pushed_wide(sp, value).can_pop_wide((sp - 2) as u16),
        stack.pushed_wide(sp, value).top_wide((sp - 2) as u16) == value,
        (sp - 2) as u16 + 2 == sp,
{
    crate::conversions::lemma_wide_round_trip(value);
}

} // verus!
