use vstd::prelude::*;
use crate::instructions::{
    ExecutionType, Instruction, advance_pc, charged_cycles, cycle_charge, next_pc,
};
use crate::mmu::{Mmu, read_view, write_view};

verus! {

/// The 16-bit value of the register pair `high`:`low`.
pub open spec fn pair(high: u8, low: u8) -> u16 {
    (high as u16 * 256 + low as u16) as u16
}

/// Combines two bytes into a word, `high` being the upper half.
pub fn bytes_to_word(high: u8, low: u8) -> (r: u16)
    ensures
        r == pair(high, low),
{
    high as u16 * 256 + low as u16
}

/// The register file.
#[derive(Clone, Copy, Debug, PartialEq, Eq, Structural)]
pub struct Registers {
    pub a: u8,
    pub f: u8,
    pub b: u8,
    pub c: u8,
    pub d: u8,
    pub e: u8,
    pub h: u8,
    pub l: u8,
    pub sp: u16,
    pub pc: u16,
}

impl Registers {
    /// The address held in the `HL` pair.
    pub open spec fn hl(self) -> u16 {
        pair(self.h, self.l)
    }
}

/// Register state together with the bus that instructions act on.
pub struct Cpu<'a> {
    pub registers: Registers,
    pub mmu: Mmu<'a>,
}

impl<'a> Cpu<'a> {
    /// Settles an instruction that finished with `outcome`: moves the program
    /// counter on by the instruction's length unless the handler jumped, and
    /// returns the cycles to charge.
    pub fn finish_instruction<H>(&mut self, instruction: &Instruction<H>, outcome: ExecutionType) -> (r: u16)
        ensures
            final(self).registers == (Registers {
                pc: next_pc(old(self).registers.pc, instruction.length, outcome),
                ..old(self).registers
            }),
            final(self).mmu == old(self).mmu,
            r == cycle_charge(instruction.clock_cycles, instruction.clock_cycles_condition, outcome),
    {
        self.registers.pc = advance_pc(self.registers.pc, instruction, outcome);
        charged_cycles(instruction, outcome)
    }
}

/// Reads the byte at the address held in `HL`.
pub fn read_hl_addr(cpu: &Cpu) -> (r: u8)
    requires
        cpu.mmu.wf(),
        cpu.mmu@.readable(cpu.registers.hl()),
    ensures
        r == read_view(cpu.mmu@, cpu.registers.hl()),
{
    cpu.mmu.read(bytes_to_word(cpu.registers.h, cpu.registers.l))
}

/// Writes `value` at the address held in `HL`.
pub fn write_hl_addr(value: u8, cpu: &mut Cpu)
    requires
        old(cpu).mmu.wf(),
        old(cpu).mmu@.writable(old(cpu).registers.hl(), value),
    ensures
        final(cpu).mmu.wf(),
        final(cpu).mmu@ == write_view(old(cpu).mmu@, old(cpu).registers.hl(), value),
        final(cpu).registers == old(cpu).registers,
{
    cpu.mmu.write(bytes_to_word(cpu.registers.h, cpu.registers.l), value);
}

} // verus!
