use vstd::prelude::*;

use crate::conversions::{high_of, low_of, pair_to_wide, wide_of, wide_to_pair};
use crate::register::RegisterGroup;
use crate::stack::{Stack, StackModel};
use crate::types::{FarAddress, NearAddress, Value, WideValue};

verus! {

/// Where near addresses start: a near address is an offset from here.
pub const NEAR_ADDR_START: usize = 0xFF00;

/// An 8-bit register or the byte that `HL` points at: the operand of the
/// 8-bit instruction families.
#[derive(Clone, Copy, Debug, PartialEq, Eq, Structural)]
pub enum Loc8 {
    A,
    B,
    C,
    D,
    E,
    H,
    L,
    HlAddr,
}

/// A 16-bit register: one of the pairs `BC`, `DE`, `HL`, or `SP`.
#[derive(Clone, Copy, Debug, PartialEq, Eq, Structural)]
pub enum Reg16 {
    BC,
    DE,
    HL,
    SP,
}

/// A register pair that can be pushed to or popped from the stack.
#[derive(Clone, Copy, Debug, PartialEq, Eq, Structural)]
pub enum StackPair {
    AF,
    BC,
    DE,
    HL,
}

/// The whole machine state: the address space, the stack, the registers and
/// the interrupt-enable state.
pub struct MachineState {
    pub bytes: Seq<u8>,
    pub stack: StackModel,
    pub registers: RegisterGroup,
    pub interrupts_enabled: bool,
}

/// The far address of a near address.
pub open spec fn far_of_near(addr: u8) -> int {
    NEAR_ADDR_START + addr
}

impl MachineState {
    /// `address` lies inside the address space.
    pub open spec fn mapped(self, address: int) -> bool {
        0 <= address < self.bytes.len()
    }

    pub open spec fn with_byte(self, address: int, value: u8) -> MachineState {
        MachineState { bytes: self.bytes.update(address, value), ..self }
    }

    pub open spec fn with_registers(self, registers: RegisterGroup) -> MachineState {
        MachineState { registers, ..self }
    }

    /// The four flags replaced, everything else kept.
    pub open spec fn with_flags(self, zero: bool, subtraction: bool, half_carry: bool, carry: bool) -> MachineState {
        self.with_registers(RegisterGroup { zero, subtraction, half_carry, carry, ..self.registers })
    }

    pub open spec fn hl(self) -> u16 {
        self.registers.hl_value()
    }

    /// An access to `loc` stays inside the address space.
    pub open spec fn loc_ok(self, loc: Loc8) -> bool {
        loc == Loc8::HlAddr ==> self.mapped(self.hl() as int)
    }

    pub open spec fn read_loc(self, loc: Loc8) -> u8 {
        match loc {
            Loc8::A => self.registers.a,
            Loc8::B => self.registers.b,
            Loc8::C => self.registers.c,
            Loc8::D => self.registers.d,
            Loc8::E => self.registers.e,
            Loc8::H => self.registers.h,
            Loc8::L => self.registers.l,
            Loc8::HlAddr => self.bytes[self.hl() as int],
        }
    }

    pub open spec fn write_loc(self, loc: Loc8, value: u8) -> MachineState {
        let r = self.registers;
        match loc {
            Loc8::A => self.with_registers(RegisterGroup { a: value, ..r }),
            Loc8::B => self.with_registers(RegisterGroup { b: value, ..r }),
            Loc8::C => self.with_registers(RegisterGroup { c: value, ..r }),
            Loc8::D => self.with_registers(RegisterGroup { d: value, ..r }),
            Loc8::E => self.with_registers(RegisterGroup { e: value, ..r }),
            Loc8::H => self.with_registers(RegisterGroup { h: value, ..r }),
            Loc8::L => self.with_registers(RegisterGroup { l: value, ..r }),
            Loc8::HlAddr => self.with_byte(self.hl() as int, value),
        }
    }

    pub open spec fn reg16(self, reg: Reg16) -> u16 {
        match reg {
            Reg16::BC => self.registers.bc_value(),
            Reg16::DE => self.registers.de_value(),
            Reg16::HL => self.registers.hl_value(),
            Reg16::SP => self.registers.sp,
        }
    }

    pub open spec fn with_reg16(self, reg: Reg16, value: u16) -> MachineState {
        match reg {
            Reg16::BC => self.with_registers(self.registers.with_bc(value)),
            Reg16::DE => self.with_registers(self.registers.with_de(value)),
            Reg16::HL => self.with_registers(self.registers.with_hl(value)),
            Reg16::SP => self.with_registers(RegisterGroup { sp: value, ..self.registers }),
        }
    }

    pub open spec fn pair_value(self, pair: StackPair) -> u16 {
        match pair {
            StackPair::AF => self.registers.af_value(),
            StackPair::BC => self.registers.bc_value(),
            StackPair::DE => self.registers.de_value(),
            StackPair::HL => self.registers.hl_value(),
        }
    }

    pub open spec fn with_pair(self, pair: StackPair, value: u16) -> MachineState {
        match pair {
            StackPair::AF => self.with_registers(self.registers.with_af(value)),
            StackPair::BC => self.with_registers(self.registers.with_bc(value)),
            StackPair::DE => self.with_registers(self.registers.with_de(value)),
            StackPair::HL => self.with_registers(self.registers.with_hl(value)),
        }
    }

    pub open spec fn with_pc(self, pc: u16) -> MachineState {
        self.with_registers(RegisterGroup { pc, ..self.registers })
    }

    /// A 16-bit value can be pushed at the current stack pointer.
    pub open spec fn can_push(self) -> bool {
        self.stack.can_push_wide(self.registers.sp)
    }

    /// `value` pushed: two bytes below the stack pointer, which moves down by 2.
    pub open spec fn pushed(self, value: u16) -> MachineState {
        MachineState {
            stack: self.stack.pushed_wide(self.registers.sp, value),
            registers: RegisterGroup { sp: (self.registers.sp - 2) as u16, ..self.registers },
            ..self
        }
    }

    /// A 16-bit value can be popped at the current stack pointer.
    pub open spec fn can_pop(self) -> bool {
        self.stack.can_pop_wide(self.registers.sp)
    }

    /// The 16-bit value on top of the stack.
    pub open spec fn top(self) -> u16 {
        self.stack.top_wide(self.registers.sp)
    }

    /// The top of the stack dropped: the stack pointer moves up by 2.
    pub open spec fn popped(self) -> MachineState {
        self.with_registers(RegisterGroup { sp: (self.registers.sp + 2) as u16, ..self.registers })
    }
}

/// The address space with the stack and the register file: the state that
/// every instruction reads and changes.
pub struct Memory {
    pub memory: Vec<Value>,
    pub stack: Stack,
    pub registers: RegisterGroup,
    pub interrupts_enabled: bool,
}

impl View for Memory {
    type V = MachineState;

    open spec fn view(&self) -> MachineState {
        MachineState {
            bytes: self.memory@,
            stack: self.stack@,
            registers: self.registers,
            interrupts_enabled: self.interrupts_enabled,
        }
    }
}

impl Memory {
    /// `size` zeroed bytes, cleared registers with the stack pointer at the
    /// top of the 16-bit space, and an empty stack based there.
    pub fn new(size: usize) -> (r: Memory)
        ensures
            r@.bytes == Seq::new(size as nat, |i: int| 0u8),
            r@.stack == (StackModel { cells: Seq::empty(), base: 0xFFFF }),
            r@.registers == (RegisterGroup { sp: 0xFFFF, ..RegisterGroup::cleared() }),
            !r@.interrupts_enabled,
    {
        let mut memory: Vec<Value> = Vec::new();
        let mut i: usize = 0;
        while i < size
            invariant
                i <= size,
                memory@ == Seq::new(i as nat, |j: int| 0u8),
            decreases size - i,
        {
            memory.push(0);
            i = i + 1;
        }
        let mut registers = RegisterGroup::new();
        registers.sp = u16::MAX;
        Memory { memory, stack: Stack::new(u16::MAX), registers, interrupts_enabled: false }
    }

    /// The number of bytes of the address space.
    pub fn size(&self) -> (r: usize)
        ensures
            r == self@.bytes.len(),
    {
        self.memory.len()
    }

    /// The whole address space, for a front end to read.
    pub fn bytes(&self) -> (r: &[Value])
        ensures
            r@ == self@.bytes,
    {
        self.memory.as_slice()
    }

    /// The far address of a near address.
    pub fn near_to_far(addr: NearAddress) -> (r: usize)
        ensures
            r == far_of_near(addr),
    {
        (addr as usize) + NEAR_ADDR_START
    }

    pub fn write_near_addr(&mut self, addr: NearAddress, value: Value)
        requires
            old(self)@.mapped(far_of_near(addr)),
        ensures
            final(self)@ == old(self)@.with_byte(far_of_near(addr), value),
    {
        let addr = Self::near_to_far(addr);
        self.memory.set(addr, value);
    }

    pub fn write_far_addr(&mut self, addr: FarAddress, value: Value)
        requires
            old(self)@.mapped(addr as int),
        ensures
            final(self)@ == old(self)@.with_byte(addr as int, value),
    {
        self.memory.set(addr as usize, value);
    }

    pub fn read_near_addr(&self, addr: NearAddress) -> (r: Value)
        requires
            self@.mapped(far_of_near(addr)),
        ensures
            r == self@.bytes[far_of_near(addr)],
    {
        let addr = Self::near_to_far(addr);
        self.memory[addr]
    }

    pub fn read_far_addr(&self, addr: FarAddress) -> (r: Value)
        requires
            self@.mapped(addr as int),
        ensures
            r == self@.bytes[addr as int],
    {
        self.memory[addr as usize]
    }

    /// Writes a 16-bit value little-endian: low byte at `addr`, high byte
    /// after it.
    pub fn write_wide_far_addr(&mut self, addr: FarAddress, value: WideValue)
        requires
            old(self)@.mapped(addr + 1),
        ensures
            final(self)@ == old(self)@.with_byte(addr as int, low_of(value)).with_byte(addr + 1, high_of(value)),
    {
        let addr = addr as usize;
        let (high, low) = wide_to_pair(value);
        self.memory.set(addr, low);
        self.memory.set(addr + 1, high);
    }

    /// Reads a little-endian 16-bit value.
    pub fn read_wide_far_addr(&self, addr: FarAddress) -> (r: WideValue)
        requires
            self@.mapped(addr + 1),
        ensures
            r == wide_of(self@.bytes[addr + 1], self@.bytes[addr as int]),
    {
        let addr = addr as usize;
        pair_to_wide(self.memory[addr + 1], self.memory[addr])
    }

    /// Writes a 16-bit value little-endian at a near address.
    pub fn write_wide_near_addr(&mut self, addr: NearAddress, value: WideValue)
        requires
            old(self)@.mapped(far_of_near(addr) + 1),
        ensures
            final(self)@ == old(self)@.with_byte(far_of_near(addr), low_of(value)).with_byte(
                far_of_near(addr) + 1,
                high_of(value),
            ),
    {
        let addr = Self::near_to_far(addr);
        let (high, low) = wide_to_pair(value);
        self.memory.set(addr, low);
        self.memory.set(addr + 1, high);
    }

    /// Reads a little-endian 16-bit value at a near address.
    pub fn read_wide_near_addr(&self, addr: NearAddress) -> (r: WideValue)
        requires
            self@.mapped(far_of_near(addr) + 1),
        ensures
            r == wide_of(self@.bytes[far_of_near(addr) + 1], self@.bytes[far_of_near(addr)]),
    {
        let addr = Self::near_to_far(addr);
        pair_to_wide(self.memory[addr + 1], self.memory[addr])
    }

    /// Whether `addr` lies inside the address space.
    pub fn is_mapped(&self, addr: usize) -> (r: bool)
        ensures
            r == self@.mapped(addr as int),
    {
        addr < self.memory.len()
    }

    /// Whether an access to `loc` stays inside the address space.
    pub fn loc_ok(&self, loc: Loc8) -> (r: bool)
        ensures
            r == self@.loc_ok(loc),
    {
        match loc {
            Loc8::HlAddr => self.is_mapped(self.registers.get_hl() as usize),
            _ => true,
        }
    }

    pub fn read_loc(&self, loc: Loc8) -> (r: Value)
        requires
            self@.loc_ok(loc),
        ensures
            r == self@.read_loc(loc),
    {
        match loc {
            Loc8::A => self.registers.a,
            Loc8::B => self.registers.b,
            Loc8::C => self.registers.c,
            Loc8::D => self.registers.d,
            Loc8::E => self.registers.e,
            Loc8::H => self.registers.h,
            Loc8::L => self.registers.l,
            Loc8::HlAddr => self.read_far_addr(self.registers.get_hl()),
        }
    }

    pub fn write_loc(&mut self, loc: Loc8, value: Value)
        requires
            old(self)@.loc_ok(loc),
        ensures
            final(self)@ == old(self)@.write_loc(loc, value),
    {
        match loc {
            Loc8::A => self.registers.a = value,
            Loc8::B => self.registers.b = value,
            Loc8::C => self.registers.c = value,
            Loc8::D => self.registers.d = value,
            Loc8::E => self.registers.e = value,
            Loc8::H => self.registers.h = value,
            Loc8::L => self.registers.l = value,
            Loc8::HlAddr => {
                let hl = self.registers.get_hl();
                self.write_far_addr(hl, value);
            },
        }
    }

    pub fn get_reg16(&self, reg: Reg16) -> (r: WideValue)
        ensures
            r == self@.reg16(reg),
    {
        match reg {
            Reg16::BC => self.registers.get_bc(),
            Reg16::DE => self.registers.get_de(),
            Reg16::HL => self.registers.get_hl(),
            Reg16::SP => self.registers.sp,
        }
    }

    pub fn set_reg16(&mut self, reg: Reg16, value: WideValue)
        ensures
            final(self)@ == old(self)@.with_reg16(reg, value),
    {
        match reg {
            Reg16::BC => self.registers.set_bc(value),
            Reg16::DE => self.registers.set_de(value),
            Reg16::HL => self.registers.set_hl(value),
            Reg16::SP => self.registers.sp = value,
        }
    }

    pub fn get_pair(&self, pair: StackPair) -> (r: WideValue)
        ensures
            r == self@.pair_value(pair),
    {
        match pair {
            StackPair::AF => self.registers.get_af(),
            StackPair::BC => self.registers.get_bc(),
            StackPair::DE => self.registers.get_de(),
            StackPair::HL => self.registers.get_hl(),
        }
    }

    pub fn set_pair(&mut self, pair: StackPair, value: WideValue)
        ensures
            final(self)@ == old(self)@.with_pair(pair, value),
    {
        match pair {
            StackPair::AF => self.registers.set_af(value),
            StackPair::BC => self.registers.set_bc(value),
            StackPair::DE => self.registers.set_de(value),
            StackPair::HL => self.registers.set_hl(value),
        }
    }

    /// Sets all four flags at once.
    pub fn set_flags(&mut self, zero: bool, subtraction: bool, half_carry: bool, carry: bool)
        ensures
            final(self)@ == old(self)@.with_flags(zero, subtraction, half_carry, carry),
    {
        self.registers.set_zero_flag(zero);
        self.registers.set_subtraction_flag(subtraction);
        self.registers.set_half_carry_flag(half_carry);
        self.registers.set_carry_flag(carry);
    }

    /// Whether a 16-bit value can be pushed at the current stack pointer.
    pub fn can_push(&self) -> (r: bool)
        ensures
            r == self@.can_push(),
    {
        self.stack.can_push_wide(self.registers.sp)
    }

    /// Whether a 16-bit value can be popped at the current stack pointer.
    pub fn can_pop(&self) -> (r: bool)
        ensures
            r == self@.can_pop(),
    {
        self.stack.can_pop_wide(self.registers.sp)
    }

    /// Pushes a 16-bit value through the stack pointer.
    pub fn push_wide(&mut self, value: WideValue)
        requires
            old(self)@.can_push(),
        ensures
            final(self)@ == old(self)@.pushed(value),
    {
        let mut sp = self.registers.sp;
        self.stack.push_wide(&mut sp, value);
        self.registers.sp = sp;
    }

    /// Pops a 16-bit value through the stack pointer.
    pub fn pop_wide(&mut self) -> (r: WideValue)
        requires
            old(self)@.can_pop(),
        ensures
            r == old(self)@.top(),
            final(self)@ == old(self)@.popped(),
    {
        let mut sp = self.registers.sp;
        let value = self.stack.pop_wide(&mut sp);
        self.registers.sp = sp;
        value
    }
}

/// Reading a location just written gives the written byte, and the location
/// stays accessible.
pub proof fn lemma_write_then_read(s: MachineState, loc: Loc8, value: u8)
    requires
        s.loc_ok(loc),
    ensures
        s.write_loc(loc, value).read_loc(loc) == value,
        s.write_loc(loc, value).loc_ok(loc),
{
}

/// Setting the flags changes no location.
pub proof fn lemma_flags_keep_locations(s: MachineState, loc: Loc8, z: bool, n: bool, h: bool, c: bool)
    ensures
        s.with_flags(z, n, h, c).read_loc(loc) == s.read_loc(loc),
        s.with_flags(z, n, h, c).loc_ok(loc) == s.loc_ok(loc),
{
}

} // verus!
