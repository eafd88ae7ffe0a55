//! The machine as a mathematical value.
//!
//! A [`State`] is the register file, the memory and the record of what the
//! machine has emitted so far. The spec functions here say what a word read or
//! write, a stack operation, an instruction and a whole step do to a state;
//! the executable machine is specified against them.

use vstd::prelude::*;
use crate::alu::{carry_set, evaluate, overflow_set, sign_set, wrap, zero_set};
use crate::instruction::{decoded, Instruction, JumpMode, UnaryOp};

verus! {

/// Index of the stack pointer in the register file.
pub const STACK_POINTER: usize = 15;

/// Index of the instruction pointer in the register file.
pub const INSTRUCTION_POINTER: usize = 16;

/// Index of the flag word in the register file.
pub const FLAG_REGISTER: usize = 17;

/// Number of registers: four banks of sixteen.
pub const REGISTER_COUNT: usize = 64;

/// Number of bytes of memory.
pub const MEMORY_SIZE: usize = 65536;

/// Address whose word writes leave the machine instead of reaching memory.
pub const OUTPUT_PORT: u16 = 0xFF01;

/// Something the machine emits for an outside observer.
#[derive(Clone, Copy, Debug, PartialEq, Eq)]
pub enum Event {
    /// A step fetched `word` from `address`; `registers` holds registers 0 to
    /// 7 as they were before the word was executed.
    Fetch { address: u16, word: u16, registers: [u16; 8] },
    /// A word was written to the output port.
    Output { value: u16 },
}

/// The first eight registers, as the snapshot that a fetch event carries.
pub open spec fn snapshot(regs: Seq<u16>) -> [u16; 8] {
    [regs[0], regs[1], regs[2], regs[3], regs[4], regs[5], regs[6], regs[7]]
}

/// Whether the jump condition `cond` holds of the flag word `f`.
///
/// Codes 1 to 13 name a condition; every other code never holds.
pub open spec fn condition_holds(cond: usize, f: u16) -> bool {
    let z = zero_set(f);
    let c = carry_set(f);
    let o = overflow_set(f);
    let s = sign_set(f);
    if cond == 1 {
        !z && !c
    } else if cond == 2 {
        !c
    } else if cond == 3 {
        c
    } else if cond == 4 {
        c || z
    } else if cond == 5 {
        !z && s == o
    } else if cond == 6 {
        s == o
    } else if cond == 7 {
        s != o
    } else if cond == 8 {
        !z || s != z
    } else if cond == 9 {
        z
    } else if cond == 10 {
        !z
    } else if cond == 11 {
        o
    } else if cond == 12 {
        !o
    } else {
        cond == 13
    }
}

/// Registers, memory and the events emitted so far, oldest first.
pub struct State {
    pub regs: Seq<u16>,
    pub mem: Seq<u8>,
    pub log: Seq<Event>,
}

impl State {
    /// The register file and the memory have their fixed sizes.
    pub open spec fn wf(self) -> bool {
        self.regs.len() == REGISTER_COUNT && self.mem.len() == MEMORY_SIZE
    }

    pub open spec fn ip(self) -> u16 {
        self.regs[INSTRUCTION_POINTER as int]
    }

    pub open spec fn sp(self) -> u16 {
        self.regs[STACK_POINTER as int]
    }

    pub open spec fn flags(self) -> u16 {
        self.regs[FLAG_REGISTER as int]
    }

    /// The state with register `index` set to `value`.
    pub open spec fn set_reg(self, index: int, value: u16) -> State {
        State { regs: self.regs.update(index, value), ..self }
    }

    /// The state with the instruction pointer moved by `amount`, wrapping.
    pub open spec fn advance(self, amount: int) -> State {
        self.set_reg(INSTRUCTION_POINTER as int, wrap(self.ip() + amount))
    }

    /// The big-endian word at `address`: the high byte at `address`, the low
    /// byte at the next address, which for the last address is address 0.
    pub open spec fn read_word(self, address: u16) -> u16 {
        (self.mem[address as int] * 256 + self.mem[(address + 1) % 0x1_0000]) as u16
    }

    /// The state after a word write to `address`.
    ///
    /// A write to the output port emits the value and leaves memory as it is;
    /// any other write stores the high byte at `address` and the low byte at
    /// the next address, wrapping.
    pub open spec fn write_word(self, address: u16, value: u16) -> State {
        if address == OUTPUT_PORT {
            State { log: self.log.push(Event::Output { value }), ..self }
        } else {
            State {
                mem: self.mem.update(address as int, (value / 256) as u8).update(
                    (address + 1) % 0x1_0000,
                    (value % 256) as u8,
                ),
                ..self
            }
        }
    }

    /// The state after pushing `value`: the stack pointer drops by 2, then
    /// the value is written where it points.
    pub open spec fn push(self, value: u16) -> State {
        let sp = wrap(self.sp() - 2);
        self.set_reg(STACK_POINTER as int, sp).write_word(sp, value)
    }

    /// The state after a pop, and the value popped: the word where the stack
    /// pointer points is read, then the stack pointer rises by 2.
    pub open spec fn pop(self) -> (State, u16) {
        (self.set_reg(STACK_POINTER as int, wrap(self.sp() + 2)), self.read_word(self.sp()))
    }

    /// The address at which the `i`-th push from this state stores its word,
    /// counting from 1.
    pub open spec fn push_address(self, i: int) -> u16 {
        wrap(self.sp() - 2 * i)
    }

    /// The word that is found where the `i`-th push from this state was made,
    /// counting from 1: the word pushed, `word`, or for a push that went to the
    /// output port what memory held there before.
    pub open spec fn stored_by_push(self, i: int, word: u16) -> u16 {
        if self.push_address(i) == OUTPUT_PORT {
            self.read_word(OUTPUT_PORT)
        } else {
            word
        }
    }

    /// The state after the words of `values` have been pushed, first to last.
    pub open spec fn push_all(self, values: Seq<u16>) -> State
        decreases values.len(),
    {
        if values.len() == 0 {
            self
        } else {
            self.push_all(values.drop_last()).push(values.last())
        }
    }

    /// The state after `n` pops, and the words popped, first to last.
    pub open spec fn pop_many(self, n: nat) -> (State, Seq<u16>)
        decreases n,
    {
        if n == 0 {
            (self, Seq::empty())
        } else {
            let (popped, rest) = self.pop().0.pop_many((n - 1) as nat);
            (popped, seq![self.pop().1] + rest)
        }
    }

    /// The state after `insn` has been executed.
    ///
    /// The instruction pointer of `self` still points at the instruction.
    /// Every instruction but the halt moves it past the instruction, and a
    /// jump that is taken then replaces or offsets it.
    pub open spec fn execute(self, insn: Instruction) -> State {
        match insn {
            Instruction::Halt => self,
            Instruction::Unary { op, rd } => {
                let v = self.regs[rd as int];
                let done = match op {
                    UnaryOp::Not => self.set_reg(rd as int, !v),
                    UnaryOp::Negate => self.set_reg(rd as int, wrap(-v)),
                    UnaryOp::Push => self.push(v),
                    UnaryOp::Pop => self.pop().0.set_reg(rd as int, self.pop().1),
                    UnaryOp::Increment => self.set_reg(rd as int, wrap(v + 1)),
                    UnaryOp::Decrement => self.set_reg(rd as int, wrap(v - 1)),
                };
                done.advance(2)
            },
            Instruction::Binary { code, rd, rs } => {
                let r = evaluate(code, self.regs[rd as int], self.regs[rs as int], self.flags());
                self.set_reg(FLAG_REGISTER as int, r.1).set_reg(rd as int, r.0).advance(2)
            },
            Instruction::BinaryImmediate { code, rd, imm } => {
                let r = evaluate(code, self.regs[rd as int], imm, self.flags());
                self.set_reg(FLAG_REGISTER as int, r.1).set_reg(rd as int, r.0).advance(2)
            },
            Instruction::Jump { cond, rd, mode } => {
                let target = match mode {
                    JumpMode::Register => self.regs[rd as int],
                    JumpMode::Indirect => self.read_word(self.regs[rd as int]),
                    JumpMode::Immediate => self.read_word(wrap(self.ip() + 2)),
                };
                let past = self.advance(insn.size());
                if condition_holds(cond, self.flags()) {
                    past.set_reg(INSTRUCTION_POINTER as int, target)
                } else {
                    past
                }
            },
            Instruction::Branch { cond, offset } => {
                if condition_holds(cond, self.flags()) {
                    self.advance(2 + offset)
                } else {
                    self.advance(2)
                }
            },
            Instruction::Load { rd, rs, ro } => {
                let address = wrap(self.regs[rs as int] + self.regs[ro as int]);
                self.set_reg(rd as int, self.read_word(address)).advance(2)
            },
            Instruction::Store { rd, rs, ro } => {
                let address = wrap(self.regs[rd as int] + self.regs[ro as int]);
                self.write_word(address, self.regs[rs as int]).advance(2)
            },
            Instruction::LoadByte { rd, imm } => self.set_reg(rd as int, imm).advance(2),
            Instruction::LoadWord { rd } => {
                self.set_reg(rd as int, self.read_word(wrap(self.ip() + 2))).advance(4)
            },
            Instruction::Move { dst, src } => {
                self.set_reg(dst as int, self.regs[src as int]).advance(2)
            },
        }
    }

    /// The instruction word at the instruction pointer.
    pub open spec fn fetch(self) -> u16 {
        self.read_word(self.ip())
    }

    /// The state with the fetch event of the next step appended to the log.
    pub open spec fn traced(self) -> State {
        State {
            log: self.log.push(
                Event::Fetch {
                    address: self.ip(),
                    word: self.fetch(),
                    registers: snapshot(self.regs),
                },
            ),
            ..self
        }
    }

    /// The next word is the all-zero word.
    pub open spec fn halted(self) -> bool {
        self.fetch() == 0
    }

    /// The next word has no defined behaviour.
    pub open spec fn faulted(self) -> bool {
        decoded(self.fetch()) is None
    }

    /// The next step executes an instruction.
    pub open spec fn running(self) -> bool {
        !self.halted() && !self.faulted()
    }

    /// The state after one step: the fetch is recorded and, unless the word
    /// halts the machine or has no defined behaviour, the instruction is
    /// executed.
    pub open spec fn next(self) -> State {
        match decoded(self.fetch()) {
            Some(insn) => self.traced().execute(insn),
            None => self.traced(),
        }
    }

    /// Each of the first `n` steps from `self` executes an instruction.
    pub open spec fn runs_for(self, n: nat) -> bool {
        forall|k: nat| k < n ==> (#[trigger] self.after(k)).running()
    }

    /// The state after `n` steps.
    pub open spec fn after(self, n: nat) -> State
        decreases n,
    {
        if n == 0 {
            self
        } else {
            self.after((n - 1) as nat).next()
        }
    }
}

} // verus!
