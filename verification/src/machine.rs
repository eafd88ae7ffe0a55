//! The executable machine.
//!
//! [`Simple`] owns a register file, 64 KiB of memory and the log of what it
//! has emitted. Every method is specified against the mathematical
//! [`State`] that the machine's view yields.

use vstd::prelude::*;
use crate::alu::{alu, carry_set, error_set, overflow_set, sign_set, wrap, zero_set};
use crate::alu::{CF, EF, OF, SF, ZF};
use crate::instruction::{decode, Instruction, JumpMode, UnaryOp};
use crate::state::{condition_holds, snapshot, Event, State};
use crate::state::{FLAG_REGISTER, INSTRUCTION_POINTER, MEMORY_SIZE, OUTPUT_PORT, REGISTER_COUNT, STACK_POINTER};

verus! {

/// Why the machine refused to go on.
#[derive(Clone, Copy, Debug, PartialEq, Eq)]
pub enum MachineError {
    /// A program image does not fit in memory.
    OutOfBounds,
    /// The word at the instruction pointer has no defined behaviour.
    UnsupportedInstruction,
    /// The step budget ran out before the machine halted.
    StepLimit,
}

/// The machine: registers, memory and the events emitted so far.
///
/// The machine does no input or output of its own. Each step appends what it
/// emits to a log, which grows until the host collects it with
/// [`Simple::take_events`].
pub struct Simple {
    regfile: [u16; REGISTER_COUNT],
    ram: [u8; MEMORY_SIZE],
    events: Vec<Event>,
}

impl View for Simple {
    type V = State;

    closed spec fn view(&self) -> State {
        State { regs: self.regfile@, mem: self.ram@, log: self.events@ }
    }
}

/// The state in which a machine starts: every register and every byte of
/// memory zero, nothing emitted.
pub open spec fn initial() -> State {
    State {
        regs: Seq::new(REGISTER_COUNT as nat, |i: int| 0u16),
        mem: Seq::new(MEMORY_SIZE as nat, |i: int| 0u8),
        log: Seq::empty(),
    }
}

/// The state after `image` has been copied to the start of memory: the bytes
/// of the image, then the bytes that were there before.
pub open spec fn loaded(s: State, image: Seq<u8>) -> State {
    State {
        mem: Seq::new(
            s.mem.len(),
            |i: int|
                if i < image.len() {
                    image[i]
                } else {
                    s.mem[i]
                },
        ),
        ..s
    }
}

/// The state and the result of running `s` for at most `budget` steps.
///
/// A run ends with the step that fetches a halt, with the step that fetches a
/// word without defined behaviour, or when the budget is used up.
pub open spec fn ran(s: State, budget: nat) -> (State, Result<(), MachineError>)
    decreases budget,
{
    if budget == 0 {
        (s, Err(MachineError::StepLimit))
    } else if s.halted() {
        (s.next(), Ok(()))
    } else if s.faulted() {
        (s.next(), Err(MachineError::UnsupportedInstruction))
    } else {
        ran(s.next(), (budget - 1) as nat)
    }
}

impl Simple {
    /// The register file and the memory of a machine always have their fixed
    /// sizes.
    pub proof fn lemma_wf(&self)
        ensures
            self@.wf(),
    {
    }

    /// A machine with all registers and all memory zero.
    pub fn new() -> (m: Self)
        ensures
            m@ == initial(),
            m@.wf(),
    {
        let m = Simple { regfile: [0u16; REGISTER_COUNT], ram: [0u8; MEMORY_SIZE], events: Vec::new() };
        assert(m@.regs =~= initial().regs);
        assert(m@.mem =~= initial().mem);
        assert(m@.log =~= initial().log);
        m
    }

    /// Copies a program image to memory, starting at address 0.
    ///
    /// An image larger than memory is refused, and the machine is left as it
    /// was.
    pub fn load_program(&mut self, program: Vec<u8>) -> (r: Result<(), MachineError>)
        ensures
            final(self)@.wf(),
            program.len() > MEMORY_SIZE ==> r == Err::<(), MachineError>(MachineError::OutOfBounds)
                && final(self)@ == old(self)@,
            program.len() <= MEMORY_SIZE ==> r == Ok::<(), MachineError>(()) && final(self)@
                == loaded(old(self)@, program@),
    {
        if program.len() > MEMORY_SIZE {
            return Err(MachineError::OutOfBounds);
        }
        let mut index: usize = 0;
        while index < program.len()
            invariant
                index <= program.len() <= MEMORY_SIZE,
                self.regfile == old(self).regfile,
                self.events == old(self).events,
                forall|i: int| 0 <= i < index ==> self.ram@[i] == program@[i],
                forall|i: int| index <= i < MEMORY_SIZE ==> self.ram@[i] == old(self).ram@[i],
            decreases program.len() - index,
        {
            self.ram[index] = program[index];
            index = index + 1;
        }
        assert(self@.mem =~= loaded(old(self)@, program@).mem);
        Ok(())
    }

    /// The value of register `index`.
    pub fn register(&self, index: usize) -> (value: u16)
        requires
            index < REGISTER_COUNT,
        ensures
            value == self@.regs[index as int],
    {
        self.regfile[index]
    }

    /// Sets register `index` to `value`.
    pub fn set_register(&mut self, index: usize, value: u16)
        requires
            index < REGISTER_COUNT,
        ensures
            final(self)@ == old(self)@.set_reg(index as int, value),
            final(self)@.wf(),
    {
        self.regfile[index] = value;
    }

    /// The byte of memory at `address`.
    pub fn memory(&self, address: u16) -> (value: u8)
        ensures
            value == self@.mem[address as int],
    {
        self.ram[address as usize]
    }

    /// The events emitted so far, oldest first.
    pub fn events(&self) -> (log: &Vec<Event>)
        ensures
            log@ == self@.log,
    {
        &self.events
    }

    /// Hands over the events emitted so far, oldest first, and empties the
    /// log.
    pub fn take_events(&mut self) -> (log: Vec<Event>)
        ensures
            log@ == old(self)@.log,
            final(self)@ == (State { log: Seq::empty(), ..old(self)@ }),
            final(self)@.wf(),
    {
        let mut log: Vec<Event> = Vec::new();
        core::mem::swap(&mut self.events, &mut log);
        log
    }

    /// The instruction pointer.
    pub fn ip(&self) -> (address: u16)
        ensures
            address == self@.ip(),
    {
        self.regfile[INSTRUCTION_POINTER]
    }

    /// Moves the instruction pointer forward by `amount`, wrapping.
    pub fn advance_ip(&mut self, amount: u16)
        ensures
            final(self)@ == old(self)@.advance(amount as int),
            final(self)@.wf(),
    {
        self.regfile[INSTRUCTION_POINTER] = self.regfile[INSTRUCTION_POINTER].wrapping_add(amount);
    }

    /// The flag word.
    pub fn flags(&self) -> (f: u16)
        ensures
            f == self@.flags(),
    {
        self.regfile[FLAG_REGISTER]
    }

    /// Whether the zero flag is set.
    pub fn zf(&self) -> (set: bool)
        ensures
            set == zero_set(self@.flags()),
    {
        self.flags() & ZF > 0
    }

    /// Whether the carry flag is set.
    pub fn cf(&self) -> (set: bool)
        ensures
            set == carry_set(self@.flags()),
    {
        self.flags() & CF > 0
    }

    /// Whether the overflow flag is set.
    pub fn of(&self) -> (set: bool)
        ensures
            set == overflow_set(self@.flags()),
    {
        self.flags() & OF > 0
    }

    /// Whether the sign flag is set.
    pub fn sf(&self) -> (set: bool)
        ensures
            set == sign_set(self@.flags()),
    {
        self.flags() & SF > 0
    }

    /// Whether the error flag of the arithmetic-logic unit is set.
    pub fn ef(&self) -> (set: bool)
        ensures
            set == error_set(self@.flags()),
    {
        self.flags() & EF > 0
    }

    /// Reads the big-endian word at `address`; the low byte of the word at
    /// the last address is the byte at address 0.
    pub fn read_16(&self, address: u16) -> (word: u16)
        ensures
            word == self@.read_word(address),
    {
        let high: u8 = self.ram[address as usize];
        let low: u8 = self.ram[address.wrapping_add(1) as usize];
        assert(((high as u16) << 8) == high * 256) by (bit_vector);
        ((high as u16) << 8) + low as u16
    }

    /// Writes `value` as a big-endian word at `address`.
    ///
    /// A write to the output port emits the value and stores nothing. After
    /// any other write the word at `address` reads back as `value`.
    pub fn write_16(&mut self, address: u16, value: u16)
        ensures
            final(self)@ == old(self)@.write_word(address, value),
            final(self)@.wf(),
            address != OUTPUT_PORT ==> final(self)@.read_word(address) == value && final(self)@.log
                == old(self)@.log,
            address == OUTPUT_PORT ==> final(self)@.mem == old(self)@.mem && final(self)@.log
                == old(self)@.log.push(Event::Output { value }),
            final(self)@.regs == old(self)@.regs,
    {
        if address == OUTPUT_PORT {
            self.events.push(Event::Output { value });
        } else {
            assert((value >> 8) == value / 256 && (value >> 8) < 256) by (bit_vector);
            assert((value & 0xff) == value % 256 && (value & 0xff) < 256) by (bit_vector);
            self.ram[address as usize] = (value >> 8) as u8;
            self.ram[address.wrapping_add(1) as usize] = (value & 0xff) as u8;
            assert(self@.mem =~= old(self)@.write_word(address, value).mem);
        }
    }

    /// Pushes `value`: the stack pointer drops by 2, then the value is
    /// written where it points.
    pub fn push(&mut self, value: u16)
        ensures
            final(self)@ == old(self)@.push(value),
            final(self)@.wf(),
            final(self)@.sp() == wrap(old(self)@.sp() - 2),
    {
        let sp: u16 = self.regfile[STACK_POINTER].wrapping_sub(2);
        self.regfile[STACK_POINTER] = sp;
        self.write_16(sp, value);
    }

    /// Pops a word: the word where the stack pointer points is read, then
    /// the stack pointer rises by 2.
    pub fn pop(&mut self) -> (value: u16)
        ensures
            final(self)@ == old(self)@.pop().0,
            value == old(self)@.pop().1,
            final(self)@.wf(),
            final(self)@.sp() == wrap(old(self)@.sp() + 2),
            final(self)@.mem == old(self)@.mem,
    {
        let value = self.read_16(self.regfile[STACK_POINTER]);
        self.regfile[STACK_POINTER] = self.regfile[STACK_POINTER].wrapping_add(2);
        value
    }

    /// Whether a jump under condition `cond` is taken with the current flags.
    pub fn should_jump(&self, cond: usize) -> (taken: bool)
        ensures
            taken == condition_holds(cond, self@.flags()),
    {
        match cond {
            1 => !self.zf() && !self.cf(),
            2 => !self.cf(),
            3 => self.cf(),
            4 => self.cf() || self.zf(),
            5 => !self.zf() && self.sf() == self.of(),
            6 => self.sf() == self.of(),
            7 => self.sf() != self.of(),
            8 => !self.zf() || self.sf() != self.zf(),
            9 => self.zf(),
            10 => !self.zf(),
            11 => self.of(),
            12 => !self.of(),
            13 => true,
            _ => false,
        }
    }

    /// Executes a decoded instruction whose word is at the instruction
    /// pointer.
    fn execute(&mut self, insn: Instruction)
        requires
            insn.wf(),
        ensures
            final(self)@ == old(self)@.execute(insn),
            final(self)@.wf(),
    {
        match insn {
            Instruction::Halt => {},
            Instruction::Unary { op, rd } => {
                let v: u16 = self.regfile[rd];
                match op {
                    UnaryOp::Not => {
                        self.set_register(rd, !v);
                    },
                    UnaryOp::Negate => {
                        self.set_register(rd, (!v).wrapping_add(1));
                        assert((!v) == 0xffff - v) by (bit_vector);
                    },
                    UnaryOp::Push => {
                        self.push(v);
                    },
                    UnaryOp::Pop => {
                        let popped = self.pop();
                        self.set_register(rd, popped);
                    },
                    UnaryOp::Increment => {
                        self.set_register(rd, v.wrapping_add(1));
                    },
                    UnaryOp::Decrement => {
                        self.set_register(rd, v.wrapping_sub(1));
                    },
                }
                self.advance_ip(2);
            },
            Instruction::Binary { code, rd, rs } => {
                let r = alu(code, self.regfile[rd], self.regfile[rs], self.flags());
                self.set_register(FLAG_REGISTER, r.1);
                self.set_register(rd, r.0);
                self.advance_ip(2);
            },
            Instruction::BinaryImmediate { code, rd, imm } => {
                let r = alu(code, self.regfile[rd], imm, self.flags());
                self.set_register(FLAG_REGISTER, r.1);
                self.set_register(rd, r.0);
                self.advance_ip(2);
            },
            Instruction::Jump { cond, rd, mode } => {
                let taken = self.should_jump(cond);
                let target: u16 = match mode {
                    JumpMode::Register => self.regfile[rd],
                    JumpMode::Indirect => self.read_16(self.regfile[rd]),
                    JumpMode::Immediate => self.read_16(self.ip().wrapping_add(2)),
                };
                self.advance_ip(2);
                if let JumpMode::Immediate = mode {
                    self.advance_ip(2);
                }
                if taken {
                    self.set_register(INSTRUCTION_POINTER, target);
                }
                assert(self@.regs =~= old(self)@.execute(insn).regs);
            },
            Instruction::Branch { cond, offset } => {
                let taken = self.should_jump(cond);
                self.advance_ip(2);
                if taken {
                    let amount: u16 = if offset >= 0 {
                        offset as u16
                    } else {
                        (0x1_0000i32 + offset as i32) as u16
                    };
                    self.advance_ip(amount);
                }
                assert(self@.regs =~= old(self)@.execute(insn).regs);
            },
            Instruction::Load { rd, rs, ro } => {
                let address: u16 = self.regfile[rs].wrapping_add(self.regfile[ro]);
                let word = self.read_16(address);
                self.set_register(rd, word);
                self.advance_ip(2);
            },
            Instruction::Store { rd, rs, ro } => {
                let address: u16 = self.regfile[rd].wrapping_add(self.regfile[ro]);
                self.write_16(address, self.regfile[rs]);
                self.advance_ip(2);
            },
            Instruction::LoadByte { rd, imm } => {
                self.set_register(rd, imm);
                self.advance_ip(2);
            },
            Instruction::LoadWord { rd } => {
                let word = self.read_16(self.ip().wrapping_add(2));
                self.set_register(rd, word);
                self.advance_ip(4);
            },
            Instruction::Move { dst, src } => {
                self.set_register(dst, self.regfile[src]);
                self.advance_ip(2);
            },
        }
    }

    /// Performs one step.
    ///
    /// The word at the instruction pointer is fetched and the fetch is
    /// recorded in the log. A zero word halts: the step returns `Ok(false)`
    /// and changes nothing else. A word without defined behaviour fails with
    /// [`MachineError::UnsupportedInstruction`], again changing nothing else.
    /// Any other word is executed, and the step returns `Ok(true)`.
    pub fn step(&mut self) -> (r: Result<bool, MachineError>)
        ensures
            final(self)@ == old(self)@.next(),
            final(self)@.wf(),
            old(self)@.halted() ==> r == Ok::<bool, MachineError>(false),
            old(self)@.faulted() ==> r == Err::<bool, MachineError>(
                MachineError::UnsupportedInstruction,
            ),
            old(self)@.running() ==> r == Ok::<bool, MachineError>(true),
            !old(self)@.running() ==> final(self)@.regs == old(self)@.regs && final(self)@.mem
                == old(self)@.mem,
            final(self)@.log.len() > old(self)@.log.len(),
            final(self)@.log[old(self)@.log.len() as int] == (Event::Fetch {
                address: old(self)@.ip(),
                word: old(self)@.fetch(),
                registers: snapshot(old(self)@.regs),
            }),
    {
        let address = self.ip();
        let word = self.read_16(address);
        let registers: [u16; 8] = [
            self.regfile[0],
            self.regfile[1],
            self.regfile[2],
            self.regfile[3],
            self.regfile[4],
            self.regfile[5],
            self.regfile[6],
            self.regfile[7],
        ];
        assert(registers =~= snapshot(self@.regs));
        self.events.push(Event::Fetch { address, word, registers });
        assert(self@ == old(self)@.traced());
        match decode(word) {
            None => Err(MachineError::UnsupportedInstruction),
            Some(Instruction::Halt) => Ok(false),
            Some(insn) => {
                self.execute(insn);
                Ok(true)
            },
        }
    }

    /// Steps the machine until it halts or fails, but for no more than
    /// `budget` steps.
    ///
    /// Returns `Ok(())` when a step halted, the error of the step that
    /// failed, or [`MachineError::StepLimit`] when `budget` steps each
    /// executed an instruction.
    pub fn run_for(&mut self, budget: u64) -> (r: Result<(), MachineError>)
        ensures
            (final(self)@, r) == ran(old(self)@, budget as nat),
            final(self)@.wf(),
    {
        let mut left: u64 = budget;
        while left > 0
            invariant
                ran(old(self)@, budget as nat) == ran(self@, left as nat),
            decreases left,
        {
            match self.step() {
                Ok(true) => {},
                Ok(false) => {
                    return Ok(());
                },
                Err(e) => {
                    return Err(e);
                },
            }
            left = left - 1;
        }
        proof {
            self.lemma_wf();
        }
        Err(MachineError::StepLimit)
    }

    /// Runs the machine until it halts or fails.
    ///
    /// The run is cut off with [`MachineError::StepLimit`] should the machine
    /// execute `u64::MAX` instructions without halting.
    pub fn run(&mut self) -> (r: Result<(), MachineError>)
        ensures
            (final(self)@, r) == ran(old(self)@, u64::MAX as nat),
            final(self)@.wf(),
    {
        self.run_for(u64::MAX)
    }
}

} // verus!
