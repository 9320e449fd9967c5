//! The processor: its registers, how it reaches memory, and what one clock
//! tick does.

pub mod alu;
pub mod flags;
pub mod instruction;

use vstd::prelude::*;
use crate::board::{Board, BoardView};
use crate::bus::Bus;
use crate::bits::{bit, lemma_byte_bits};
use crate::cpu::alu::{
    adc, asl, lsr, relative, rol, ror, sbc, spec_adc, spec_asl, spec_lsr, spec_relative, spec_rol,
    spec_ror, spec_sbc, spec_to_u16, to_u16, Shifted, Sum,
};
use crate::cpu::flags::Flags;
use crate::cpu::instruction::{AddressingMode, Instruction, Opcode};

verus! {

/// The registers of the processor.
#[derive(Clone, Copy, PartialEq, Eq, Structural, Debug)]
pub struct Registers {
    pub flags: Flags,
    pub a: u8,
    pub x: u8,
    pub y: u8,
    pub pc: u16,
    /// The stack pointer: the stack lives in page 1.
    pub s: u8,
    /// Ticks left until the instruction under way is done.
    pub cycles: u8,
    /// Ticks since the last reset.
    pub total_cycles: u64,
}

pub struct Cpu {
    pub bus: Bus,
    pub regs: Registers,
}

/// The processor and the board it drives, as one value.
pub struct Machine {
    pub bus: Bus,
    pub regs: Registers,
    pub board: BoardView,
}

impl Cpu {
    /// The processor paired with a board.
    pub open spec fn with(self, board: BoardView) -> Machine {
        Machine { bus: self.bus, regs: self.regs, board }
    }

    /// What holds after every step: the bus is the same, and the board
    /// keeps what no access from the CPU changes.
    pub open spec fn stepped(self, board: BoardView, before: Cpu, board_before: BoardView) -> bool {
        &&& self.bus == before.bus
        &&& board.wf()
        &&& board.follows(board_before)
    }
}

/// Memory as the processor sees it. Each function gives the machine after
/// the access, since reading a device may change it.
impl Machine {
    pub open spec fn wf(self) -> bool {
        self.bus.wf() && self.board.wf()
    }

    #[verifier::opaque]
    pub open spec fn read(self, address: u16) -> (u8, Machine) {
        let (data, board) = self.bus.spec_read(self.board, address);
        (data, Machine { board, ..self })
    }

    #[verifier::opaque]
    pub open spec fn write(self, address: u16, data: u8) -> Machine {
        Machine { board: self.bus.spec_write(self.board, address, data), ..self }
    }

    /// The word at `address`: low byte first, the high byte from the next
    /// address, which after 0xffff is 0.
    #[verifier::opaque]
    pub open spec fn read_u16(self, address: u16) -> (u16, Machine) {
        let (low, m) = self.read(address);
        let (high, m) = m.read(address.wrapping_add(1));
        (spec_to_u16(low, high), m)
    }

    /// The word at zero-page address `address`, whose high byte comes from
    /// the next address within the zero page.
    #[verifier::opaque]
    pub open spec fn read_zero_page_u16(self, address: u8) -> (u16, Machine) {
        let (low, m) = self.read(address as u16);
        let (high, m) = m.read(address.wrapping_add(1) as u16);
        (spec_to_u16(low, high), m)
    }

    /// The byte at the program counter, which moves on by one.
    #[verifier::opaque]
    pub open spec fn fetch(self) -> (u8, Machine) {
        let (data, m) = self.read(self.regs.pc);
        (data, Machine { regs: Registers { pc: m.regs.pc.wrapping_add(1), ..m.regs }, ..m })
    }

    /// The word at the program counter, which moves on by two.
    #[verifier::opaque]
    pub open spec fn fetch_u16(self) -> (u16, Machine) {
        let (low, m) = self.fetch();
        let (high, m) = m.fetch();
        (spec_to_u16(low, high), m)
    }

    /// `data` goes to the stack, and the stack pointer moves down, from 0
    /// to 0xff.
    #[verifier::opaque]
    pub open spec fn push(self, data: u8) -> Machine {
        let m = self.write((0x0100 + self.regs.s) as u16, data);
        Machine { regs: Registers { s: m.regs.s.wrapping_sub(1), ..m.regs }, ..m }
    }

    /// A word goes to the stack high byte first.
    #[verifier::opaque]
    pub open spec fn push_u16(self, data: u16) -> Machine {
        self.push((data / 256) as u8).push((data % 256) as u8)
    }

    /// The status byte goes to the stack with break and unused set.
    #[verifier::opaque]
    pub open spec fn push_flags(self) -> Machine {
        self.push(Flags { _break: true, unused: true, ..self.regs.flags }.spec_byte())
    }

    /// The stack pointer moves up, from 0xff to 0, and the byte it then
    /// points at comes off the stack.
    #[verifier::opaque]
    pub open spec fn pop(self) -> (u8, Machine) {
        let s = self.regs.s.wrapping_add(1);
        Machine { regs: Registers { s, ..self.regs }, ..self }.read((0x0100 + s) as u16)
    }

    /// A word comes off the stack low byte first.
    #[verifier::opaque]
    pub open spec fn pop_u16(self) -> (u16, Machine) {
        let (low, m) = self.pop();
        let (high, m) = m.pop();
        (spec_to_u16(low, high), m)
    }
}

impl Cpu {
    pub fn read(&mut self, board: &mut Board, address: u16) -> (data: u8)
        requires
            old(self).with(old(board)@).wf(),
        ensures
            (data, final(self).with(final(board)@)) == old(self).with(old(board)@).read(address),
            final(self).stepped(final(board)@, *old(self), old(board)@),
            final(self).regs == old(self).regs,
    {
        proof {
            reveal(Machine::read);
        }
        self.bus.read(board, address)
    }

    pub fn write(&mut self, board: &mut Board, address: u16, data: u8)
        requires
            old(self).with(old(board)@).wf(),
        ensures
            final(self).with(final(board)@) == old(self).with(old(board)@).write(address, data),
            final(self).stepped(final(board)@, *old(self), old(board)@),
            final(self).regs == old(self).regs,
    {
        proof {
            reveal(Machine::write);
        }
        self.bus.write(board, address, data)
    }

    pub fn read_u16(&mut self, board: &mut Board, address: u16) -> (data: u16)
        requires
            old(self).with(old(board)@).wf(),
        ensures
            (data, final(self).with(final(board)@)) == old(self).with(old(board)@).read_u16(
                address,
            ),
            final(self).stepped(final(board)@, *old(self), old(board)@),
            final(self).regs == old(self).regs,
    {
        proof {
            reveal(Machine::read_u16);
        }
        let low_byte: u8 = self.read(board, address);
        let high_byte: u8 = self.read(board, address.wrapping_add(1));
        to_u16(low_byte, high_byte)
    }

    pub fn read_u8(&mut self, board: &mut Board, address: u8) -> (data: u16)
        requires
            old(self).with(old(board)@).wf(),
        ensures
            (data, final(self).with(final(board)@)) == old(self).with(
                old(board)@,
            ).read_zero_page_u16(address),
            final(self).stepped(final(board)@, *old(self), old(board)@),
            final(self).regs == old(self).regs,
    {
        proof {
            reveal(Machine::read_zero_page_u16);
        }
        let low_byte: u8 = self.read(board, address as u16);
        let high_byte: u8 = self.read(board, address.wrapping_add(1) as u16);
        to_u16(low_byte, high_byte)
    }

    pub fn fetch(&mut self, board: &mut Board) -> (data: u8)
        requires
            old(self).with(old(board)@).wf(),
        ensures
            (data, final(self).with(final(board)@)) == old(self).with(old(board)@).fetch(),
            final(self).stepped(final(board)@, *old(self), old(board)@),
            final(self).regs.cycles == old(self).regs.cycles,
    {
        proof {
            reveal(Machine::fetch);
        }
        let data: u8 = self.read(board, self.regs.pc);
        self.regs.pc = self.regs.pc.wrapping_add(1);
        data
    }

    pub fn read_u16_from_pc(&mut self, board: &mut Board) -> (data: u16)
        requires
            old(self).with(old(board)@).wf(),
        ensures
            (data, final(self).with(final(board)@)) == old(self).with(old(board)@).fetch_u16(),
            final(self).stepped(final(board)@, *old(self), old(board)@),
            final(self).regs.cycles == old(self).regs.cycles,
    {
        proof {
            reveal(Machine::fetch_u16);
        }
        let low_byte: u8 = self.fetch(board);
        let high_byte: u8 = self.fetch(board);
        to_u16(low_byte, high_byte)
    }

    pub fn push(&mut self, board: &mut Board, data: u8)
        requires
            old(self).with(old(board)@).wf(),
        ensures
            final(self).with(final(board)@) == old(self).with(old(board)@).push(data),
            final(self).stepped(final(board)@, *old(self), old(board)@),
            final(self).regs.cycles == old(self).regs.cycles,
    {
        proof {
            reveal(Machine::push);
        }
        self.write(board, 0x0100 + self.regs.s as u16, data);
        self.regs.s = self.regs.s.wrapping_sub(1);
    }

    pub fn push_u16(&mut self, board: &mut Board, data: u16)
        requires
            old(self).with(old(board)@).wf(),
        ensures
            final(self).with(final(board)@) == old(self).with(old(board)@).push_u16(data),
            final(self).stepped(final(board)@, *old(self), old(board)@),
            final(self).regs.cycles == old(self).regs.cycles,
    {
        proof {
            reveal(Machine::push_u16);
        }
        self.push(board, (data / 256) as u8);
        self.push(board, (data % 256) as u8);
    }

    pub fn push_flags(&mut self, board: &mut Board)
        requires
            old(self).with(old(board)@).wf(),
        ensures
            final(self).with(final(board)@) == old(self).with(old(board)@).push_flags(),
            final(self).stepped(final(board)@, *old(self), old(board)@),
            final(self).regs.cycles == old(self).regs.cycles,
    {
        proof {
            reveal(Machine::push_flags);
        }
        let pushed: Flags = Flags { _break: true, unused: true, ..self.regs.flags };
        self.push(board, pushed.byte());
    }

    pub fn pop(&mut self, board: &mut Board) -> (data: u8)
        requires
            old(self).with(old(board)@).wf(),
        ensures
            (data, final(self).with(final(board)@)) == old(self).with(old(board)@).pop(),
            final(self).stepped(final(board)@, *old(self), old(board)@),
            final(self).regs.cycles == old(self).regs.cycles,
    {
        proof {
            reveal(Machine::pop);
        }
        self.regs.s = self.regs.s.wrapping_add(1);
        self.read(board, 0x0100 + self.regs.s as u16)
    }

    pub fn pop_u16(&mut self, board: &mut Board) -> (data: u16)
        requires
            old(self).with(old(board)@).wf(),
        ensures
            (data, final(self).with(final(board)@)) == old(self).with(old(board)@).pop_u16(),
            final(self).stepped(final(board)@, *old(self), old(board)@),
            final(self).regs.cycles == old(self).regs.cycles,
    {
        proof {
            reveal(Machine::pop_u16);
        }
        let low_byte: u8 = self.pop(board);
        let high_byte: u8 = self.pop(board);
        to_u16(low_byte, high_byte)
    }
}

/// What the instructions do to the registers alone.
impl Registers {
    /// The registers after an instruction that reads `value` from its
    /// operand: the arithmetic and logic on the accumulator, the
    /// comparisons, the bit test and the loads.
    pub open spec fn spec_load(self, opcode: Opcode, value: u8) -> Registers {
        match opcode {
            Opcode::ADC => self.spec_with_sum(spec_adc(self.a, value, self.flags.carry)),
            Opcode::SBC => self.spec_with_sum(spec_sbc(self.a, value, self.flags.carry)),
            Opcode::AND => self.spec_set_a(self.a & value),
            Opcode::ORA => self.spec_set_a(self.a | value),
            Opcode::EOR => self.spec_set_a(self.a ^ value),
            Opcode::BIT => self.spec_bit_test(value),
            Opcode::CMP => Registers { flags: self.flags.spec_compare(self.a, value), ..self },
            Opcode::CPX => Registers { flags: self.flags.spec_compare(self.x, value), ..self },
            Opcode::CPY => Registers { flags: self.flags.spec_compare(self.y, value), ..self },
            Opcode::LDA => self.spec_set_a(value),
            Opcode::LDX => self.spec_set_x(value),
            Opcode::LDY => self.spec_set_y(value),
            _ => self,
        }
    }

    /// The flags after one of the seven instructions that switch a flag.
    pub open spec fn spec_switched(self, opcode: Opcode) -> Flags {
        match opcode {
            Opcode::CLC => Flags { carry: false, ..self.flags },
            Opcode::CLD => Flags { decimal: false, ..self.flags },
            Opcode::CLI => Flags { interrupt: false, ..self.flags },
            Opcode::CLV => Flags { overflow: false, ..self.flags },
            Opcode::SEC => Flags { carry: true, ..self.flags },
            Opcode::SED => Flags { decimal: true, ..self.flags },
            Opcode::SEI => Flags { interrupt: true, ..self.flags },
            _ => self.flags,
        }
    }

    /// The registers after an instruction that has no operand: the flag
    /// switches, the register steps and the transfers. Anything else,
    /// `NOP` and `ERR` among it, changes nothing.
    pub open spec fn spec_implied(self, opcode: Opcode) -> Registers {
        match opcode {
            Opcode::CLC
            | Opcode::CLD
            | Opcode::CLI
            | Opcode::CLV
            | Opcode::SEC
            | Opcode::SED
            | Opcode::SEI => Registers { flags: self.spec_switched(opcode), ..self },
            Opcode::DEX => self.spec_set_x(self.x.wrapping_sub(1)),
            Opcode::DEY => self.spec_set_y(self.y.wrapping_sub(1)),
            Opcode::INX => self.spec_set_x(self.x.wrapping_add(1)),
            Opcode::INY => self.spec_set_y(self.y.wrapping_add(1)),
            Opcode::TAX => self.spec_set_x(self.a),
            Opcode::TAY => self.spec_set_y(self.a),
            Opcode::TSX => self.spec_set_x(self.s),
            Opcode::TXA => self.spec_set_a(self.x),
            Opcode::TYA => self.spec_set_a(self.y),
            Opcode::TXS => Registers { s: self.x, ..self },
            _ => self,
        }
    }

    /// The accumulator and the flags after an addition or subtraction.
    pub open spec fn spec_with_sum(self, sum: Sum) -> Registers {
        Registers {
            a: sum.result,
            flags: Flags { carry: sum.carry, overflow: sum.overflow, ..self.flags }.spec_set_zn(
                sum.result,
            ),
            ..self
        }
    }

    /// The bit test: zero says that the accumulator and `value` share no
    /// bit; overflow and negative are bits 6 and 7 of `value`.
    pub open spec fn spec_bit_test(self, value: u8) -> Registers {
        Registers {
            flags: Flags {
                zero: self.a & value == 0,
                overflow: (value / 64) % 2 == 1,
                negative: value >= 128,
                ..self.flags
            },
            ..self
        }
    }

    pub open spec fn spec_set_a(self, value: u8) -> Registers {
        Registers { a: value, flags: self.flags.spec_set_zn(value), ..self }
    }

    pub open spec fn spec_set_x(self, value: u8) -> Registers {
        Registers { x: value, flags: self.flags.spec_set_zn(value), ..self }
    }

    pub open spec fn spec_set_y(self, value: u8) -> Registers {
        Registers { y: value, flags: self.flags.spec_set_zn(value), ..self }
    }

    /// The register that a store instruction writes.
    pub open spec fn spec_stored(self, opcode: Opcode) -> u8 {
        match opcode {
            Opcode::STA => self.a,
            Opcode::STX => self.x,
            _ => self.y,
        }
    }

    /// Whether the flags are as a branch instruction wants them.
    pub open spec fn spec_branch_taken(self, opcode: Opcode) -> bool {
        match opcode {
            Opcode::BCC => !self.flags.carry,
            Opcode::BCS => self.flags.carry,
            Opcode::BEQ => self.flags.zero,
            Opcode::BNE => !self.flags.zero,
            Opcode::BMI => self.flags.negative,
            Opcode::BPL => !self.flags.negative,
            Opcode::BVC => !self.flags.overflow,
            Opcode::BVS => self.flags.overflow,
            _ => false,
        }
    }

    /// A branch that is taken costs a cycle, and one more if it leaves the
    /// page of the instruction that follows.
    pub open spec fn spec_branch(self, address: u16) -> Registers {
        Registers {
            cycles: (self.cycles + 1 + bit(address / 256 != self.pc / 256)) as u8,
            pc: address,
            ..self
        }
    }

    /// What a shift, rotation, increment or decrement makes of `value`, and
    /// the carry after it.
    pub open spec fn spec_modify(self, opcode: Opcode, value: u8) -> Shifted {
        match opcode {
            Opcode::ASL => spec_asl(value),
            Opcode::LSR => spec_lsr(value),
            Opcode::ROL => spec_rol(value, self.flags.carry),
            Opcode::ROR => spec_ror(value, self.flags.carry),
            Opcode::INC => Shifted { result: value.wrapping_add(1), carry: self.flags.carry },
            _ => Shifted { result: value.wrapping_sub(1), carry: self.flags.carry },
        }
    }

    /// The flags after `result` came out of a shift or the like.
    pub open spec fn spec_modified(self, shifted: Shifted) -> Registers {
        Registers {
            flags: Flags { carry: shifted.carry, ..self.flags }.spec_set_zn(shifted.result),
            ..self
        }
    }

    pub fn with_sum(self, sum: Sum) -> (regs: Registers)
        ensures
            regs == self.spec_with_sum(sum),
    {
        Registers {
            a: sum.result,
            flags: Flags { carry: sum.carry, overflow: sum.overflow, ..self.flags }.with_zn(
                sum.result,
            ),
            ..self
        }
    }

    pub fn set_a(self, value: u8) -> (regs: Registers)
        ensures
            regs == self.spec_set_a(value),
    {
        Registers { a: value, flags: self.flags.with_zn(value), ..self }
    }

    pub fn set_x(self, value: u8) -> (regs: Registers)
        ensures
            regs == self.spec_set_x(value),
    {
        Registers { x: value, flags: self.flags.with_zn(value), ..self }
    }

    pub fn set_y(self, value: u8) -> (regs: Registers)
        ensures
            regs == self.spec_set_y(value),
    {
        Registers { y: value, flags: self.flags.with_zn(value), ..self }
    }

    pub fn bit_test(self, value: u8) -> (regs: Registers)
        ensures
            regs == self.spec_bit_test(value),
    {
        proof {
            lemma_byte_bits(value);
        }
        Registers {
            flags: Flags {
                zero: self.a & value == 0,
                overflow: (value & 0x40) != 0,
                negative: (value & 0x80) != 0,
                ..self.flags
            },
            ..self
        }
    }

    pub fn with_flags(self, flags: Flags) -> (regs: Registers)
        ensures
            regs == (Registers { flags, ..self }),
    {
        Registers { flags, ..self }
    }

    pub fn load(self, opcode: Opcode, value: u8) -> (regs: Registers)
        ensures
            regs == self.spec_load(opcode, value),
    {
        match opcode {
            Opcode::ADC => self.with_sum(adc(self.a, value, self.flags.carry)),
            Opcode::SBC => self.with_sum(sbc(self.a, value, self.flags.carry)),
            Opcode::AND => self.set_a(self.a & value),
            Opcode::ORA => self.set_a(self.a | value),
            Opcode::EOR => self.set_a(self.a ^ value),
            Opcode::BIT => self.bit_test(value),
            Opcode::CMP => self.with_flags(self.flags.compared(self.a, value)),
            Opcode::CPX => self.with_flags(self.flags.compared(self.x, value)),
            Opcode::CPY => self.with_flags(self.flags.compared(self.y, value)),
            Opcode::LDA => self.set_a(value),
            Opcode::LDX => self.set_x(value),
            Opcode::LDY => self.set_y(value),
            _ => self,
        }
    }

    pub fn switched(self, opcode: Opcode) -> (flags: Flags)
        ensures
            flags == self.spec_switched(opcode),
    {
        match opcode {
            Opcode::CLC => Flags { carry: false, ..self.flags },
            Opcode::CLD => Flags { decimal: false, ..self.flags },
            Opcode::CLI => Flags { interrupt: false, ..self.flags },
            Opcode::CLV => Flags { overflow: false, ..self.flags },
            Opcode::SEC => Flags { carry: true, ..self.flags },
            Opcode::SED => Flags { decimal: true, ..self.flags },
            Opcode::SEI => Flags { interrupt: true, ..self.flags },
            _ => self.flags,
        }
    }

    pub fn implied(self, opcode: Opcode) -> (regs: Registers)
        ensures
            regs == self.spec_implied(opcode),
    {
        match opcode {
            Opcode::CLC
            | Opcode::CLD
            | Opcode::CLI
            | Opcode::CLV
            | Opcode::SEC
            | Opcode::SED
            | Opcode::SEI => self.with_flags(self.switched(opcode)),
            Opcode::DEX => self.set_x(self.x.wrapping_sub(1)),
            Opcode::DEY => self.set_y(self.y.wrapping_sub(1)),
            Opcode::INX => self.set_x(self.x.wrapping_add(1)),
            Opcode::INY => self.set_y(self.y.wrapping_add(1)),
            Opcode::TAX => self.set_x(self.a),
            Opcode::TAY => self.set_y(self.a),
            Opcode::TSX => self.set_x(self.s),
            Opcode::TXA => self.set_a(self.x),
            Opcode::TYA => self.set_a(self.y),
            Opcode::TXS => Registers { s: self.x, ..self },
            _ => self,
        }
    }

    pub fn stored(self, opcode: Opcode) -> (value: u8)
        ensures
            value == self.spec_stored(opcode),
    {
        match opcode {
            Opcode::STA => self.a,
            Opcode::STX => self.x,
            _ => self.y,
        }
    }

    pub fn branch_taken(self, opcode: Opcode) -> (taken: bool)
        ensures
            taken == self.spec_branch_taken(opcode),
    {
        match opcode {
            Opcode::BCC => !self.flags.carry,
            Opcode::BCS => self.flags.carry,
            Opcode::BEQ => self.flags.zero,
            Opcode::BNE => !self.flags.zero,
            Opcode::BMI => self.flags.negative,
            Opcode::BPL => !self.flags.negative,
            Opcode::BVC => !self.flags.overflow,
            Opcode::BVS => self.flags.overflow,
            _ => false,
        }
    }

    pub fn branch(self, address: u16) -> (regs: Registers)
        requires
            self.cycles <= 253,
        ensures
            regs == self.spec_branch(address),
    {
        let penalty: u8 = if address / 256 != self.pc / 256 {
            1
        } else {
            0
        };
        Registers { cycles: self.cycles + 1 + penalty, pc: address, ..self }
    }

    pub fn modify(self, opcode: Opcode, value: u8) -> (shifted: Shifted)
        ensures
            shifted == self.spec_modify(opcode, value),
    {
        match opcode {
            Opcode::ASL => asl(value),
            Opcode::LSR => lsr(value),
            Opcode::ROL => rol(value, self.flags.carry),
            Opcode::ROR => ror(value, self.flags.carry),
            Opcode::INC => Shifted { result: value.wrapping_add(1), carry: self.flags.carry },
            _ => Shifted { result: value.wrapping_sub(1), carry: self.flags.carry },
        }
    }

    pub fn modified(self, shifted: Shifted) -> (regs: Registers)
        ensures
            regs == self.spec_modified(shifted),
    {
        Registers {
            flags: Flags { carry: shifted.carry, ..self.flags }.with_zn(shifted.result),
            ..self
        }
    }
}

impl Registers {
    /// The registers with one cycle more if `penalty` holds.
    pub open spec fn spec_penalty(self, penalty: bool) -> Registers {
        Registers { cycles: (self.cycles + bit(penalty)) as u8, ..self }
    }

    pub fn penalty(self, penalty: bool) -> (regs: Registers)
        requires
            self.cycles < 255,
        ensures
            regs == self.spec_penalty(penalty),
    {
        if penalty {
            Registers { cycles: self.cycles + 1, ..self }
        } else {
            self
        }
    }

    /// The registers as a reset leaves them, but for the program counter.
    pub open spec fn after_reset() -> Registers {
        Registers {
            flags: Flags { unused: true, interrupt: true, ..Flags::clear() },
            a: 0,
            x: 0,
            y: 0,
            pc: 0,
            s: 0xfd,
            cycles: 7,
            total_cycles: 0,
        }
    }
}

/// The address that follows `pointer` for an indirect jump: the next one,
/// but from the last byte of a page back to the first byte of that page.
pub open spec fn spec_next_in_page(pointer: u16) -> u16 {
    if pointer % 256 == 255 {
        (pointer - 255) as u16
    } else {
        (pointer + 1) as u16
    }
}

/// Where the operand is, and what finding it costs.
impl Machine {
    pub open spec fn with_regs(self, regs: Registers) -> Machine {
        Machine { regs, ..self }
    }

    /// `base` moved on by an index register. An instruction other than a
    /// store pays one cycle if that leaves the page of `base`.
    #[verifier::opaque]
    pub open spec fn indexed(self, base: u16, index: u8, opcode: Opcode) -> (u16, Machine) {
        let address = base.wrapping_add(index as u16);
        (
            address,
            self.with_regs(
                self.regs.spec_penalty(!opcode.spec_is_store() && address / 256 != base / 256),
            ),
        )
    }

    /// The word that the pointer behind the opcode points at, its high byte
    /// taken from the pointer's own page.
    #[verifier::opaque]
    pub open spec fn indirect(self) -> (u16, Machine) {
        let (pointer, m) = self.fetch_u16();
        let (low, m) = m.read(pointer);
        let (high, m) = m.read(spec_next_in_page(pointer));
        (spec_to_u16(low, high), m)
    }

    /// The operand's address for each of the thirteen addressing modes,
    /// and the machine after the bytes behind the opcode are consumed. The
    /// accumulator mode hands back the accumulator itself, the implied
    /// mode 0.
    #[verifier::opaque]
    pub open spec fn operand(self, instruction: Instruction) -> (u16, Machine) {
        match instruction.mode {
            AddressingMode::ABS => self.fetch_u16(),
            AddressingMode::ABX => {
                let (base, m) = self.fetch_u16();
                m.indexed(base, m.regs.x, instruction.opcode)
            },
            AddressingMode::ABY => {
                let (base, m) = self.fetch_u16();
                m.indexed(base, m.regs.y, instruction.opcode)
            },
            AddressingMode::ACC => (self.regs.a as u16, self),
            AddressingMode::IMM => (
                self.regs.pc,
                self.with_regs(Registers { pc: self.regs.pc.wrapping_add(1), ..self.regs }),
            ),
            AddressingMode::IMP => (0, self),
            AddressingMode::IND => self.indirect(),
            AddressingMode::INX => {
                let (pointer, m) = self.fetch();
                m.read_zero_page_u16(pointer.wrapping_add(m.regs.x))
            },
            AddressingMode::INY => {
                let (pointer, m) = self.fetch();
                let (base, m) = m.read_zero_page_u16(pointer);
                m.indexed(base, m.regs.y, instruction.opcode)
            },
            AddressingMode::REL => {
                let (offset, m) = self.fetch();
                (spec_relative(m.regs.pc, offset), m)
            },
            AddressingMode::ZPG => {
                let (address, m) = self.fetch();
                (address as u16, m)
            },
            AddressingMode::ZPX => {
                let (address, m) = self.fetch();
                (address.wrapping_add(m.regs.x) as u16, m)
            },
            AddressingMode::ZPY => {
                let (address, m) = self.fetch();
                (address.wrapping_add(m.regs.y) as u16, m)
            },
        }
    }
}

impl Cpu {
    pub fn indexed(&mut self, base: u16, index: u8, opcode: Opcode) -> (address: u16)
        requires
            old(self).regs.cycles < 255,
        ensures
            forall|board: BoardView|
                (address, final(self).with(board)) == #[trigger] old(self).with(board).indexed(
                    base,
                    index,
                    opcode,
                ),
            final(self).bus == old(self).bus,
            old(self).regs.cycles <= final(self).regs.cycles <= old(self).regs.cycles + 1,
    {
        proof {
            reveal(Machine::indexed);
        }
        let address: u16 = base.wrapping_add(index as u16);
        self.regs = self.regs.penalty(!opcode.is_store() && address / 256 != base / 256);
        address
    }

    pub fn indirect(&mut self, board: &mut Board) -> (address: u16)
        requires
            old(self).with(old(board)@).wf(),
        ensures
            (address, final(self).with(final(board)@)) == old(self).with(old(board)@).indirect(),
            final(self).stepped(final(board)@, *old(self), old(board)@),
            final(self).regs.cycles == old(self).regs.cycles,
    {
        proof {
            reveal(Machine::indirect);
        }
        let pointer: u16 = self.read_u16_from_pc(board);
        let low_byte: u8 = self.read(board, pointer);
        let high_byte: u8 = if pointer % 256 == 255 {
            self.read(board, pointer - 255)
        } else {
            self.read(board, pointer + 1)
        };
        to_u16(low_byte, high_byte)
    }

    /// Finds the operand of `instruction`, whose opcode has just been
    /// fetched.
    pub fn address_from_addressing_mode(
        &mut self,
        board: &mut Board,
        instruction: &Instruction,
    ) -> (address: u16)
        requires
            old(self).with(old(board)@).wf(),
            old(self).regs.cycles < 255,
        ensures
            (address, final(self).with(final(board)@)) == old(self).with(old(board)@).operand(
                *instruction,
            ),
            final(self).stepped(final(board)@, *old(self), old(board)@),
            old(self).regs.cycles <= final(self).regs.cycles <= old(self).regs.cycles + 1,
    {
        proof {
            reveal(Machine::operand);
        }
        match instruction.mode {
            AddressingMode::ABS => self.read_u16_from_pc(board),
            AddressingMode::ABX => {
                let base: u16 = self.read_u16_from_pc(board);
                self.indexed(base, self.regs.x, instruction.opcode)
            },
            AddressingMode::ABY => {
                let base: u16 = self.read_u16_from_pc(board);
                self.indexed(base, self.regs.y, instruction.opcode)
            },
            AddressingMode::ACC => self.regs.a as u16,
            AddressingMode::IMM => {
                let address: u16 = self.regs.pc;
                self.regs.pc = self.regs.pc.wrapping_add(1);
                address
            },
            AddressingMode::IMP => 0x00,
            AddressingMode::IND => self.indirect(board),
            AddressingMode::INX => {
                let pointer: u8 = self.fetch(board);
                self.read_u8(board, pointer.wrapping_add(self.regs.x))
            },
            AddressingMode::INY => {
                let pointer: u8 = self.fetch(board);
                let base: u16 = self.read_u8(board, pointer);
                self.indexed(base, self.regs.y, instruction.opcode)
            },
            AddressingMode::REL => {
                let offset: u8 = self.fetch(board);
                relative(self.regs.pc, offset)
            },
            AddressingMode::ZPG => {
                let address: u8 = self.fetch(board);
                address as u16
            },
            AddressingMode::ZPX => {
                let address: u8 = self.fetch(board);
                address.wrapping_add(self.regs.x) as u16
            },
            AddressingMode::ZPY => {
                let address: u8 = self.fetch(board);
                address.wrapping_add(self.regs.y) as u16
            },
        }
    }
}

/// What each instruction does, and the clock.
impl Machine {
    /// An instruction that reads its operand into the registers.
    #[verifier::opaque]
    pub open spec fn execute_load(self, opcode: Opcode, address: u16) -> Machine {
        let (value, m) = self.read(address);
        m.with_regs(m.regs.spec_load(opcode, value))
    }

    /// An instruction that reads its operand from memory, changes it and
    /// writes it back.
    #[verifier::opaque]
    pub open spec fn execute_modify(self, opcode: Opcode, address: u16) -> Machine {
        let (value, m) = self.read(address);
        let shifted = m.regs.spec_modify(opcode, value);
        m.write(address, shifted.result).with_regs(m.regs.spec_modified(shifted))
    }

    /// A shift or rotation of the accumulator: the same operation with the
    /// accumulator in the place of the memory operand.
    #[verifier::opaque]
    pub open spec fn execute_modify_accumulator(self, opcode: Opcode) -> Machine {
        let shifted = self.regs.spec_modify(opcode, self.regs.a);
        self.with_regs(Registers { a: shifted.result, ..self.regs.spec_modified(shifted) })
    }

    /// A branch: taken if the flags are as the instruction wants them.
    #[verifier::opaque]
    pub open spec fn execute_branch(self, opcode: Opcode, address: u16) -> Machine {
        if self.regs.spec_branch_taken(opcode) {
            self.with_regs(self.regs.spec_branch(address))
        } else {
            self
        }
    }

    /// The software interrupt: skips a byte, sets interrupt disable, pushes
    /// the program counter and the flags, and goes on at the vector at
    /// 0xfffe.
    #[verifier::opaque]
    pub open spec fn execute_brk(self) -> Machine {
        let m = self.with_regs(
            Registers {
                pc: self.regs.pc.wrapping_add(1),
                flags: Flags { interrupt: true, ..self.regs.flags },
                ..self.regs
            },
        );
        let m = m.push_u16(m.regs.pc).push_flags();
        let (target, m) = m.read_u16(0xfffe);
        m.with_regs(Registers { pc: target, ..m.regs })
    }

    /// The call: pushes the address of its own last byte and jumps.
    #[verifier::opaque]
    pub open spec fn execute_jsr(self, address: u16) -> Machine {
        let m = self.with_regs(Registers { pc: self.regs.pc.wrapping_sub(1), ..self.regs });
        let m = m.push_u16(m.regs.pc);
        m.with_regs(Registers { pc: address, ..m.regs })
    }

    #[verifier::opaque]
    pub open spec fn execute_pla(self) -> Machine {
        let (value, m) = self.pop();
        m.with_regs(m.regs.spec_set_a(value))
    }

    #[verifier::opaque]
    pub open spec fn execute_plp(self) -> Machine {
        let (value, m) = self.pop();
        m.with_regs(Registers { flags: m.regs.flags.spec_set_byte(value), ..m.regs })
    }

    /// The return from an interrupt: the flags come off the stack, then
    /// the program counter.
    #[verifier::opaque]
    pub open spec fn execute_rti(self) -> Machine {
        let m = self.execute_plp();
        let (target, m) = m.pop_u16();
        m.with_regs(Registers { pc: target, ..m.regs })
    }

    /// The return from a call: goes on behind the address on the stack.
    #[verifier::opaque]
    pub open spec fn execute_rts(self) -> Machine {
        let (target, m) = self.pop_u16();
        m.with_regs(Registers { pc: target.wrapping_add(1), ..m.regs })
    }

    /// The machine after `instruction` has worked on the operand at
    /// `address`.
    #[verifier::opaque]
    pub open spec fn execute(self, instruction: Instruction, address: u16) -> Machine {
        let opcode = instruction.opcode;
        match opcode {
            Opcode::ADC
            | Opcode::AND
            | Opcode::BIT
            | Opcode::CMP
            | Opcode::CPX
            | Opcode::CPY
            | Opcode::EOR
            | Opcode::LDA
            | Opcode::LDX
            | Opcode::LDY
            | Opcode::ORA
            | Opcode::SBC => self.execute_load(opcode, address),
            Opcode::ASL | Opcode::LSR | Opcode::ROL | Opcode::ROR => if instruction.mode
                == AddressingMode::ACC {
                self.execute_modify_accumulator(opcode)
            } else {
                self.execute_modify(opcode, address)
            },
            Opcode::DEC | Opcode::INC => self.execute_modify(opcode, address),
            Opcode::STA | Opcode::STX | Opcode::STY => self.write(
                address,
                self.regs.spec_stored(opcode),
            ),
            Opcode::BCC
            | Opcode::BCS
            | Opcode::BEQ
            | Opcode::BMI
            | Opcode::BNE
            | Opcode::BPL
            | Opcode::BVC
            | Opcode::BVS => self.execute_branch(opcode, address),
            Opcode::BRK => self.execute_brk(),
            Opcode::JMP => self.with_regs(Registers { pc: address, ..self.regs }),
            Opcode::JSR => self.execute_jsr(address),
            Opcode::PHA => self.push(self.regs.a),
            Opcode::PHP => self.push_flags(),
            Opcode::PLA => self.execute_pla(),
            Opcode::PLP => self.execute_plp(),
            Opcode::RTI => self.execute_rti(),
            Opcode::RTS => self.execute_rts(),
            _ => self.with_regs(self.regs.spec_implied(opcode)),
        }
    }

    /// The instruction at the program counter, carried out whole: fetched,
    /// decoded, its operand found, its work done. The cycle counter holds
    /// what the instruction costs.
    #[verifier::opaque]
    pub open spec fn step(self) -> Machine {
        let (byte, m) = self.fetch();
        let instruction = Instruction::spec_decode(byte);
        let m = m.with_regs(Registers { cycles: instruction.cycles, ..m.regs });
        let (address, m) = m.operand(instruction);
        m.execute(instruction, address)
    }

    /// One tick of the processor's clock. While an instruction is under
    /// way the tick only counts down; otherwise it carries out the next
    /// instruction and counts its first cycle.
    #[verifier::opaque]
    pub open spec fn clock(self) -> Machine {
        let m = self.with_regs(
            Registers { total_cycles: self.regs.total_cycles.wrapping_add(1), ..self.regs },
        );
        if m.regs.cycles > 0 {
            m.with_regs(Registers { cycles: (m.regs.cycles - 1) as u8, ..m.regs })
        } else {
            let m = m.step();
            m.with_regs(Registers { cycles: (m.regs.cycles - 1) as u8, ..m.regs })
        }
    }

    /// The machine after a reset: the registers at their reset values and
    /// the program counter from the vector at 0xfffc.
    #[verifier::opaque]
    pub open spec fn reset(self) -> Machine {
        let (target, m) = self.with_regs(Registers::after_reset()).read_u16(0xfffc);
        m.with_regs(Registers { pc: target, ..m.regs })
    }

    /// The machine after a non-maskable interrupt has been taken: program
    /// counter and flags pushed, interrupt disable set, and the program
    /// counter from the vector at 0xfffa.
    #[verifier::opaque]
    pub open spec fn nmi(self) -> Machine {
        let m = self.push_u16(self.regs.pc);
        let m = m.with_regs(
            Registers {
                flags: Flags { _break: false, unused: true, interrupt: true, ..m.regs.flags },
                ..m.regs
            },
        ).push_flags();
        let (target, m) = m.read_u16(0xfffa);
        m.with_regs(Registers { pc: target, cycles: 8, ..m.regs })
    }
}

impl Cpu {
    pub fn execute_load(&mut self, board: &mut Board, opcode: Opcode, address: u16)
        requires
            old(self).with(old(board)@).wf(),
        ensures
            final(self).with(final(board)@) == old(self).with(old(board)@).execute_load(
                opcode,
                address,
            ),
            final(self).stepped(final(board)@, *old(self), old(board)@),
            final(self).regs.cycles == old(self).regs.cycles,
    {
        proof {
            reveal(Machine::execute_load);
        }
        let value: u8 = self.read(board, address);
        self.regs = self.regs.load(opcode, value);
    }

    pub fn execute_modify(&mut self, board: &mut Board, opcode: Opcode, address: u16)
        requires
            old(self).with(old(board)@).wf(),
        ensures
            final(self).with(final(board)@) == old(self).with(old(board)@).execute_modify(
                opcode,
                address,
            ),
            final(self).stepped(final(board)@, *old(self), old(board)@),
            final(self).regs.cycles == old(self).regs.cycles,
    {
        proof {
            reveal(Machine::execute_modify);
        }
        let value: u8 = self.read(board, address);
        let shifted: Shifted = self.regs.modify(opcode, value);
        self.write(board, address, shifted.result);
        self.regs = self.regs.modified(shifted);
    }

    pub fn execute_modify_accumulator(&mut self, opcode: Opcode)
        ensures
            forall|board: BoardView|
                final(self).with(board) == #[trigger] old(self).with(
                    board,
                ).execute_modify_accumulator(opcode),
            final(self).bus == old(self).bus,
            final(self).regs.cycles == old(self).regs.cycles,
    {
        proof {
            reveal(Machine::execute_modify_accumulator);
        }
        let shifted: Shifted = self.regs.modify(opcode, self.regs.a);
        let regs: Registers = self.regs.modified(shifted);
        self.regs = Registers { a: shifted.result, ..regs };
    }

    pub fn execute_branch(&mut self, opcode: Opcode, address: u16)
        requires
            old(self).regs.cycles <= 253,
        ensures
            forall|board: BoardView|
                final(self).with(board) == #[trigger] old(self).with(board).execute_branch(
                    opcode,
                    address,
                ),
            final(self).bus == old(self).bus,
            old(self).regs.cycles <= final(self).regs.cycles <= old(self).regs.cycles + 2,
    {
        proof {
            reveal(Machine::execute_branch);
        }
        if self.regs.branch_taken(opcode) {
            self.regs = self.regs.branch(address);
        }
    }

    pub fn execute_brk(&mut self, board: &mut Board)
        requires
            old(self).with(old(board)@).wf(),
        ensures
            final(self).with(final(board)@) == old(self).with(old(board)@).execute_brk(),
            final(self).stepped(final(board)@, *old(self), old(board)@),
            final(self).regs.cycles == old(self).regs.cycles,
    {
        proof {
            reveal(Machine::execute_brk);
        }
        self.regs = Registers {
            pc: self.regs.pc.wrapping_add(1),
            flags: Flags { interrupt: true, ..self.regs.flags },
            ..self.regs
        };
        self.push_u16(board, self.regs.pc);
        self.push_flags(board);
        let target: u16 = self.read_u16(board, 0xfffe);
        self.regs.pc = target;
    }

    pub fn execute_jsr(&mut self, board: &mut Board, address: u16)
        requires
            old(self).with(old(board)@).wf(),
        ensures
            final(self).with(final(board)@) == old(self).with(old(board)@).execute_jsr(address),
            final(self).stepped(final(board)@, *old(self), old(board)@),
            final(self).regs.cycles == old(self).regs.cycles,
    {
        proof {
            reveal(Machine::execute_jsr);
        }
        self.regs.pc = self.regs.pc.wrapping_sub(1);
        self.push_u16(board, self.regs.pc);
        self.regs.pc = address;
    }

    pub fn execute_pla(&mut self, board: &mut Board)
        requires
            old(self).with(old(board)@).wf(),
        ensures
            final(self).with(final(board)@) == old(self).with(old(board)@).execute_pla(),
            final(self).stepped(final(board)@, *old(self), old(board)@),
            final(self).regs.cycles == old(self).regs.cycles,
    {
        proof {
            reveal(Machine::execute_pla);
        }
        let value: u8 = self.pop(board);
        self.regs = self.regs.set_a(value);
    }

    pub fn execute_plp(&mut self, board: &mut Board)
        requires
            old(self).with(old(board)@).wf(),
        ensures
            final(self).with(final(board)@) == old(self).with(old(board)@).execute_plp(),
            final(self).stepped(final(board)@, *old(self), old(board)@),
            final(self).regs.cycles == old(self).regs.cycles,
    {
        proof {
            reveal(Machine::execute_plp);
        }
        let value: u8 = self.pop(board);
        let mut flags: Flags = self.regs.flags;
        flags.set_byte(value);
        self.regs.flags = flags;
    }

    pub fn execute_rti(&mut self, board: &mut Board)
        requires
            old(self).with(old(board)@).wf(),
        ensures
            final(self).with(final(board)@) == old(self).with(old(board)@).execute_rti(),
            final(self).stepped(final(board)@, *old(self), old(board)@),
            final(self).regs.cycles == old(self).regs.cycles,
    {
        proof {
            reveal(Machine::execute_rti);
        }
        self.execute_plp(board);
        let target: u16 = self.pop_u16(board);
        self.regs.pc = target;
    }

    pub fn execute_rts(&mut self, board: &mut Board)
        requires
            old(self).with(old(board)@).wf(),
        ensures
            final(self).with(final(board)@) == old(self).with(old(board)@).execute_rts(),
            final(self).stepped(final(board)@, *old(self), old(board)@),
            final(self).regs.cycles == old(self).regs.cycles,
    {
        proof {
            reveal(Machine::execute_rts);
        }
        let target: u16 = self.pop_u16(board);
        self.regs.pc = target.wrapping_add(1);
    }

    /// Carries out `instruction` on the operand at `address`.
    pub fn execute(&mut self, board: &mut Board, instruction: &Instruction, address: u16)
        requires
            old(self).with(old(board)@).wf(),
            old(self).regs.cycles <= 253,
        ensures
            final(self).with(final(board)@) == old(self).with(old(board)@).execute(
                *instruction,
                address,
            ),
            final(self).stepped(final(board)@, *old(self), old(board)@),
            old(self).regs.cycles <= final(self).regs.cycles <= old(self).regs.cycles + 2,
    {
        proof {
            reveal(Machine::execute);
        }
        let opcode: Opcode = instruction.opcode;
        match opcode {
            Opcode::ADC
            | Opcode::AND
            | Opcode::BIT
            | Opcode::CMP
            | Opcode::CPX
            | Opcode::CPY
            | Opcode::EOR
            | Opcode::LDA
            | Opcode::LDX
            | Opcode::LDY
            | Opcode::ORA
            | Opcode::SBC => self.execute_load(board, opcode, address),
            Opcode::ASL | Opcode::LSR | Opcode::ROL | Opcode::ROR => {
                if instruction.mode == AddressingMode::ACC {
                    self.execute_modify_accumulator(opcode)
                } else {
                    self.execute_modify(board, opcode, address)
                }
            },
            Opcode::DEC | Opcode::INC => self.execute_modify(board, opcode, address),
            Opcode::STA | Opcode::STX | Opcode::STY => {
                let value: u8 = self.regs.stored(opcode);
                self.write(board, address, value)
            },
            Opcode::BCC
            | Opcode::BCS
            | Opcode::BEQ
            | Opcode::BMI
            | Opcode::BNE
            | Opcode::BPL
            | Opcode::BVC
            | Opcode::BVS => self.execute_branch(opcode, address),
            Opcode::BRK => self.execute_brk(board),
            Opcode::JMP => {
                self.regs.pc = address;
            },
            Opcode::JSR => self.execute_jsr(board, address),
            Opcode::PHA => self.push(board, self.regs.a),
            Opcode::PHP => self.push_flags(board),
            Opcode::PLA => self.execute_pla(board),
            Opcode::PLP => self.execute_plp(board),
            Opcode::RTI => self.execute_rti(board),
            Opcode::RTS => self.execute_rts(board),
            _ => {
                self.regs = self.regs.implied(opcode);
            },
        }
    }

    /// Fetches the instruction at the program counter and carries it out.
    pub fn step(&mut self, board: &mut Board)
        requires
            old(self).with(old(board)@).wf(),
        ensures
            final(self).with(final(board)@) == old(self).with(old(board)@).step(),
            final(self).stepped(final(board)@, *old(self), old(board)@),
            2 <= final(self).regs.cycles <= 11,
    {
        proof {
            reveal(Machine::step);
        }
        let opcode: u8 = self.fetch(board);
        let instruction: Instruction = Instruction::decode(opcode);
        self.regs.cycles = instruction.cycles;
        let address: u16 = self.address_from_addressing_mode(board, &instruction);
        self.execute(board, &instruction, address);
    }

    /// A processor that drives `bus`, with every register zero.
    pub fn new(bus: Bus) -> (cpu: Cpu)
        ensures
            cpu.bus == bus,
            cpu.regs == Self::zeroed(),
    {
        Cpu {
            bus,
            regs: Registers {
                flags: Flags::default(),
                a: 0,
                x: 0,
                y: 0,
                pc: 0,
                s: 0,
                cycles: 0,
                total_cycles: 0,
            },
        }
    }

    pub open spec fn zeroed() -> Registers {
        Registers {
            flags: Flags::clear(),
            a: 0,
            x: 0,
            y: 0,
            pc: 0,
            s: 0,
            cycles: 0,
            total_cycles: 0,
        }
    }

    pub fn reset(&mut self, board: &mut Board)
        requires
            old(self).with(old(board)@).wf(),
        ensures
            final(self).with(final(board)@) == old(self).with(old(board)@).reset(),
            final(self).stepped(final(board)@, *old(self), old(board)@),
    {
        proof {
            reveal(Machine::reset);
        }
        self.regs = Registers {
            flags: Flags { unused: true, interrupt: true, ..Flags::default() },
            a: 0,
            x: 0,
            y: 0,
            pc: 0,
            s: 0xfd,
            cycles: 7,
            total_cycles: 0,
        };
        let target: u16 = self.read_u16(board, 0xfffc);
        self.regs.pc = target;
    }

    pub fn nmi(&mut self, board: &mut Board)
        requires
            old(self).with(old(board)@).wf(),
        ensures
            final(self).with(final(board)@) == old(self).with(old(board)@).nmi(),
            final(self).stepped(final(board)@, *old(self), old(board)@),
    {
        proof {
            reveal(Machine::nmi);
        }
        self.push_u16(board, self.regs.pc);
        self.regs.flags = Flags { _break: false, unused: true, interrupt: true, ..self.regs.flags };
        self.push_flags(board);
        let target: u16 = self.read_u16(board, 0xfffa);
        self.regs = Registers { pc: target, cycles: 8, ..self.regs };
    }

    pub fn clock(&mut self, board: &mut Board)
        requires
            old(self).with(old(board)@).wf(),
        ensures
            final(self).with(final(board)@) == old(self).with(old(board)@).clock(),
            final(self).stepped(final(board)@, *old(self), old(board)@),
    {
        proof {
            reveal(Machine::clock);
        }
        self.regs.total_cycles = self.regs.total_cycles.wrapping_add(1);
        if self.regs.cycles > 0 {
            self.regs.cycles -= 1;
        } else {
            self.step(board);
            self.regs.cycles -= 1;
        }
    }
}

impl Default for Cpu {
    fn default() -> (cpu: Cpu)
        ensures
            cpu.bus@ == Seq::<crate::bus::Connection>::empty(),
            cpu.regs == Self::zeroed(),
    {
        Cpu::new(Bus::new())
    }
}

/// What instructions cost beyond their tabled cycles.
impl Machine {
    /// Fetching a byte moves the program counter and may change the board;
    /// the other registers stay.
    pub proof fn lemma_fetch_keeps_registers(self)
        ensures
            self.fetch().1.regs == (Registers {
                pc: self.regs.pc.wrapping_add(1),
                ..self.regs
            }),
            self.fetch().1.bus == self.bus,
    {
        reveal(Machine::fetch);
        reveal(Machine::read);
    }

    /// Fetching a word moves the program counter by two and may change the
    /// board; the other registers stay.
    pub proof fn lemma_fetch_u16_keeps_registers(self)
        ensures
            self.fetch_u16().1.regs == (Registers {
                pc: self.regs.pc.wrapping_add(1).wrapping_add(1),
                ..self.regs
            }),
    {
        reveal(Machine::fetch_u16);
        self.lemma_fetch_keeps_registers();
        self.fetch().1.lemma_fetch_keeps_registers();
    }

    /// An instruction that indexes an absolute address with X or Y pays
    /// one cycle exactly if the indexed address lies in another page than
    /// the address behind the opcode, and if it is no store. A store never
    /// pays.
    pub proof fn lemma_absolute_indexed_penalty(self, instruction: Instruction)
        requires
            instruction.mode == AddressingMode::ABX || instruction.mode == AddressingMode::ABY,
            self.regs.cycles < 255,
        ensures
            ({
                let base = self.fetch_u16().0;
                let index = if instruction.mode == AddressingMode::ABX {
                    self.regs.x
                } else {
                    self.regs.y
                };
                let (address, after) = self.operand(instruction);
                &&& address == base.wrapping_add(index as u16)
                &&& after.regs.cycles == self.regs.cycles + bit(
                    !instruction.opcode.spec_is_store() && address / 256 != base / 256,
                )
                &&& instruction.opcode.spec_is_store() ==> after.regs.cycles == self.regs.cycles
            }),
    {
        reveal(Machine::operand);
        reveal(Machine::indexed);
        self.lemma_fetch_u16_keeps_registers();
    }

    /// A byte that is no legal opcode is skipped: the program counter
    /// moves past it, the cycle counter holds its tabled cost, and nothing
    /// else changes but what the fetch itself changes on the board.
    pub proof fn lemma_illegal_opcode_is_skipped(self)
        requires
            Instruction::spec_decode(self.fetch().0).opcode == Opcode::ERR,
        ensures
            ({
                let (byte, fetched) = self.fetch();
                self.step() == fetched.with_regs(
                    Registers {
                        pc: self.regs.pc.wrapping_add(1),
                        cycles: Instruction::spec_decode(byte).cycles,
                        ..self.regs
                    },
                )
            }),
    {
        let (byte, fetched) = self.fetch();
        let instruction = Instruction::spec_decode(byte);
        lemma_illegal_is_implied(byte);
        self.lemma_fetch_keeps_registers();
        reveal(Machine::step);
        reveal(Machine::operand);
        reveal(Machine::execute);
    }

    /// A fetch does not look at the cycle counter.
    pub proof fn lemma_fetch_ignores_cycles(self, cycles: u8)
        ensures
            ({
                let (data, fetched) = self.fetch();
                self.with_regs(Registers { cycles, ..self.regs }).fetch() == (
                    data,
                    fetched.with_regs(Registers { cycles, ..fetched.regs }),
                )
            }),
    {
        reveal(Machine::fetch);
        reveal(Machine::read);
    }

    /// The machine as a branch instruction finds it when it decides: the
    /// opcode and the offset are fetched, and the cycle counter holds the
    /// tabled cost.
    pub open spec fn spec_at_branch(self) -> Machine {
        let (byte, fetched) = self.fetch();
        let following = fetched.fetch().1;
        following.with_regs(
            Registers { cycles: Instruction::spec_decode(byte).cycles, ..following.regs },
        )
    }

    /// Where a branch instruction goes if it is taken.
    pub open spec fn spec_branch_target(self) -> u16 {
        let fetched = self.fetch().1;
        let (offset, following) = fetched.fetch();
        spec_relative(following.regs.pc, offset)
    }

    /// A branch instruction fetches its offset and then only decides.
    pub proof fn lemma_branch_step(self)
        requires
            Instruction::spec_decode(self.fetch().0).opcode.spec_is_branch(),
        ensures
            self.step() == self.spec_at_branch().execute_branch(
                Instruction::spec_decode(self.fetch().0).opcode,
                self.spec_branch_target(),
            ),
            Instruction::spec_decode(self.fetch().0).cycles == 2,
            self.spec_at_branch().regs == (Registers {
                pc: self.regs.pc.wrapping_add(1).wrapping_add(1),
                cycles: 2,
                ..self.regs
            }),
    {
        let (byte, fetched) = self.fetch();
        let instruction = Instruction::spec_decode(byte);
        lemma_branches_are_relative(byte);
        self.lemma_fetch_keeps_registers();
        fetched.lemma_fetch_keeps_registers();
        fetched.lemma_fetch_ignores_cycles(instruction.cycles);
        let ready = fetched.with_regs(Registers { cycles: instruction.cycles, ..fetched.regs });
        let at = self.spec_at_branch();
        let target = self.spec_branch_target();
        assert(ready.operand(instruction) == (target, at)) by {
            reveal(Machine::operand);
        }
        assert(self.step() == at.execute(instruction, target)) by {
            reveal(Machine::step);
        }
        assert(at.execute(instruction, target) == at.execute_branch(instruction.opcode, target))
            by {
            reveal(Machine::execute);
        }
    }

    /// A branch instruction costs its two tabled cycles if it is not
    /// taken. If it is taken it costs one cycle more, and another one if
    /// its target lies in another page than the instruction that follows
    /// it.
    pub proof fn lemma_branch_cycles(self)
        requires
            Instruction::spec_decode(self.fetch().0).opcode.spec_is_branch(),
        ensures
            ({
                let opcode = Instruction::spec_decode(self.fetch().0).opcode;
                let following = self.regs.pc.wrapping_add(1).wrapping_add(1);
                let target = self.spec_branch_target();
                let taken = self.regs.spec_branch_taken(opcode);
                let after = self.step();
                &&& after.regs.cycles == if taken {
                    2 + 1 + bit(target / 256 != following / 256)
                } else {
                    2
                }
                &&& after.regs.pc == if taken {
                    target
                } else {
                    following
                }
            }),
    {
        self.lemma_branch_step();
        reveal(Machine::execute_branch);
    }
}

/// Every byte that is no legal opcode takes no operand.
pub proof fn lemma_illegal_is_implied(byte: u8)
    requires
        Opcode::spec_of(byte) == Opcode::ERR,
    ensures
        AddressingMode::spec_of(byte) == AddressingMode::IMP,
{
    reveal(Opcode::spec_of);
    reveal(AddressingMode::spec_of);
}

/// Every branch instruction takes a relative operand and two cycles.
pub proof fn lemma_branches_are_relative(byte: u8)
    requires
        Opcode::spec_of(byte).spec_is_branch(),
    ensures
        AddressingMode::spec_of(byte) == AddressingMode::REL,
        crate::cpu::instruction::spec_base_cycles(byte) == 2,
{
    reveal(Opcode::spec_of);
    reveal(AddressingMode::spec_of);
    reveal(crate::cpu::instruction::spec_base_cycles);
}

} // verus!
