use vstd::prelude::*;
use crate::mmu::Opcode;

verus! {

/// Number of entries in each instruction table: one per byte value.
pub const TABLE_SIZE: usize = 256;

/// What a handler reports: whether the conditional extra cost is charged,
/// and whether it set the program counter itself.
#[derive(Clone, Copy, Debug, PartialEq, Eq, Structural)]
pub enum ExecutionType {
    ActionTaken,
    Jumped,
    JumpedActionTaken,
    NoAction,
}

impl ExecutionType {
    /// The handler set the program counter; it must not be advanced.
    pub open spec fn is_jump(self) -> bool {
        self is Jumped || self is JumpedActionTaken
    }

    /// The branch or conditional action was taken; the extra cost is due.
    pub open spec fn is_action_taken(self) -> bool {
        self is ActionTaken || self is JumpedActionTaken
    }
}

/// The static description of one instruction, with its handler.
pub struct Instruction<H> {
    /// Bytes taken by the instruction, opcode included.
    pub length: u16,
    /// Cycles always charged.
    pub clock_cycles: u8,
    /// Cycles charged on top when the action is taken.
    pub clock_cycles_condition: Option<u8>,
    pub description: &'static str,
    pub handler: H,
}

/// The extra cost of `extra` when an action is taken.
pub open spec fn extra_cycles(extra: Option<u8>) -> u16 {
    match extra {
        Some(c) => c as u16,
        None => 0,
    }
}

/// The cycles charged for an instruction of base cost `base` and extra cost
/// `extra` that finished with `outcome`.
pub open spec fn cycle_charge(base: u8, extra: Option<u8>, outcome: ExecutionType) -> u16 {
    if outcome.is_action_taken() {
        (base as u16 + extra_cycles(extra)) as u16
    } else {
        base as u16
    }
}

/// The program counter after an instruction of `length` bytes that started
/// at `pc` (or was left at `pc` by its handler) finished with `outcome`.
pub open spec fn next_pc(pc: u16, length: u16, outcome: ExecutionType) -> u16 {
    if outcome.is_jump() {
        pc
    } else {
        pc.wrapping_add(length)
    }
}

/// A handler that jumped keeps the program counter it set and one that did
/// not has it moved on by exactly the instruction's length; the extra cost is
/// charged exactly when the action was taken.
pub proof fn lemma_outcome_policy(pc: u16, length: u16, base: u8, extra: Option<u8>, outcome: ExecutionType)
    ensures
        outcome is Jumped || outcome is JumpedActionTaken ==> next_pc(pc, length, outcome) == pc,
        outcome is NoAction || outcome is ActionTaken ==> next_pc(pc, length, outcome) == (pc + length) % 0x10000,
        outcome is NoAction || outcome is Jumped ==> cycle_charge(base, extra, outcome) == base,
        outcome is ActionTaken || outcome is JumpedActionTaken ==> cycle_charge(base, extra, outcome)
            == (base + extra_cycles(extra)) % 0x10000,
{
}

/// The cycles charged for `instruction` finishing with `outcome`.
pub fn charged_cycles<H>(instruction: &Instruction<H>, outcome: ExecutionType) -> (r: u16)
    ensures
        r == cycle_charge(instruction.clock_cycles, instruction.clock_cycles_condition, outcome),
{
    match outcome {
        ExecutionType::ActionTaken | ExecutionType::JumpedActionTaken => {
            match instruction.clock_cycles_condition {
                Some(extra) => instruction.clock_cycles as u16 + extra as u16,
                None => instruction.clock_cycles as u16,
            }
        },
        ExecutionType::Jumped | ExecutionType::NoAction => instruction.clock_cycles as u16,
    }
}

/// The program counter after `instruction` finished with `outcome`, where
/// `pc` is its value when the handler returned.
pub fn advance_pc<H>(pc: u16, instruction: &Instruction<H>, outcome: ExecutionType) -> (r: u16)
    ensures
        r == next_pc(pc, instruction.length, outcome),
{
    match outcome {
        ExecutionType::Jumped | ExecutionType::JumpedActionTaken => pc,
        ExecutionType::ActionTaken | ExecutionType::NoAction => pc.wrapping_add(instruction.length),
    }
}

/// The two instruction tables, plain and extended, each indexed by byte.
pub struct InstructionTable<H> {
    plain: Vec<Option<Instruction<H>>>,
    extended: Vec<Option<Instruction<H>>>,
}

impl<H> InstructionTable<H> {
    pub closed spec fn wf(&self) -> bool {
        &&& self.plain@.len() == TABLE_SIZE
        &&& self.extended@.len() == TABLE_SIZE
        &&& forall|op: Opcode| #[trigger] self.entry(op) is Some ==> self.entry(op).unwrap().length >= 1
    }

    /// The descriptor registered for `op_code`, if any.
    pub closed spec fn entry(&self, op_code: Opcode) -> Option<Instruction<H>> {
        match op_code {
            Opcode::Regular(b) => self.plain@[b as int],
            Opcode::CB(b) => self.extended@[b as int],
        }
    }

    /// Tables with no instruction registered.
    pub fn new() -> (r: InstructionTable<H>)
        ensures
            r.wf(),
            forall|op: Opcode| r.entry(op) is None,
    {
        let mut plain: Vec<Option<Instruction<H>>> = Vec::new();
        let mut extended: Vec<Option<Instruction<H>>> = Vec::new();
        let mut i: usize = 0;
        while i < TABLE_SIZE
            invariant
                i <= TABLE_SIZE,
                plain@.len() == i && extended@.len() == i,
                forall|j: int| 0 <= j < i ==> plain@[j] is None && extended@[j] is None,
            decreases TABLE_SIZE - i,
        {
            plain.push(None);
            extended.push(None);
            i = i + 1;
        }
        InstructionTable { plain, extended }
    }

    /// Registers `instruction` for `op_code`, replacing any earlier one.
    pub fn register(&mut self, op_code: Opcode, instruction: Instruction<H>)
        requires
            old(self).wf(),
            instruction.length >= 1,
        ensures
            final(self).wf(),
            final(self).entry(op_code) == Some(instruction),
            forall|op: Opcode| op != op_code ==> final(self).entry(op) == old(self).entry(op),
    {
        match op_code {
            Opcode::Regular(b) => self.plain.set(b as usize, Some(instruction)),
            Opcode::CB(b) => self.extended.set(b as usize, Some(instruction)),
        }
        assert forall|op: Opcode| #[trigger] self.entry(op) is Some implies self.entry(
            op,
        ).unwrap().length >= 1 by {
            if op != op_code {
                assert(self.entry(op) == old(self).entry(op));
            }
        }
    }
}

/// Looks `op_code` up in the table of its kind; `None` when no instruction is
/// registered for it.
pub fn get_instruction_by_op_code<'t, H>(table: &'t InstructionTable<H>, op_code: &Opcode) -> (r:
    Option<&'t Instruction<H>>)
    requires
        table.wf(),
    ensures
        match r {
            Some(i) => table.entry(*op_code) == Some(*i) && i.length >= 1,
            None => table.entry(*op_code) is None,
        },
{
    match op_code {
        Opcode::Regular(value) => table.plain[*value as usize].as_ref(),
        Opcode::CB(value) => table.extended[*value as usize].as_ref(),
    }
}

} // verus!
