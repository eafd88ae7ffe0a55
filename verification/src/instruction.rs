//! The instruction encoding.
//!
//! An instruction is one big-endian 16-bit word, sliced into four nibbles. The
//! top nibble selects the class; the remaining three carry an operation or
//! condition code, register numbers and small immediates. Two classes read the
//! low byte as a whole, and two take a second word that follows the first.

use vstd::prelude::*;

verus! {

/// The operations on a single register.
#[derive(Clone, Copy, Debug, PartialEq, Eq)]
pub enum UnaryOp {
    Not,
    Negate,
    Push,
    Pop,
    Increment,
    Decrement,
}

/// Where an absolute jump finds its target.
#[derive(Clone, Copy, Debug, PartialEq, Eq)]
pub enum JumpMode {
    /// The target is the value of the register.
    Register,
    /// The target is the memory word at the address held in the register.
    Indirect,
    /// The target is the word that follows the instruction.
    Immediate,
}

/// A decoded instruction word.
#[derive(Clone, Copy, Debug, PartialEq, Eq)]
pub enum Instruction {
    /// The all-zero word: execution stops.
    Halt,
    /// An operation on register `rd` alone.
    Unary { op: UnaryOp, rd: usize },
    /// An arithmetic-logic operation on `rd` and `rs`; the result goes to `rd`.
    Binary { code: usize, rd: usize, rs: usize },
    /// A jump to an absolute target, taken if the condition holds.
    Jump { cond: usize, rd: usize, mode: JumpMode },
    /// An arithmetic-logic operation on `rd` and a 4-bit immediate.
    BinaryImmediate { code: usize, rd: usize, imm: u16 },
    /// A jump relative to the next instruction, taken if the condition holds.
    Branch { cond: usize, offset: i16 },
    /// `rd` receives the memory word at `rs + ro`.
    Load { rd: usize, rs: usize, ro: usize },
    /// The memory word at `rd + ro` receives `rs`.
    Store { rd: usize, rs: usize, ro: usize },
    /// `rd` receives an 8-bit immediate, zero-extended.
    LoadByte { rd: usize, imm: u16 },
    /// `rd` receives the word that follows the instruction.
    LoadWord { rd: usize },
    /// A copy between any two of the 64 registers.
    Move { dst: usize, src: usize },
}

impl Instruction {
    /// Every field is within the range that its bits can encode: register
    /// numbers and codes below 16, extended register numbers below 64, offsets
    /// within a signed byte.
    pub open spec fn wf(self) -> bool {
        match self {
            Instruction::Halt => true,
            Instruction::Unary { op, rd } => rd < 16,
            Instruction::Binary { code, rd, rs } => 1 <= code < 16 && rd < 16 && rs < 16,
            Instruction::Jump { cond, rd, mode } => cond < 16 && rd < 16,
            Instruction::BinaryImmediate { code, rd, imm } => code < 16 && rd < 16 && imm < 16,
            Instruction::Branch { cond, offset } => cond < 16 && -128 <= offset < 128,
            Instruction::Load { rd, rs, ro } => rd < 16 && rs < 16 && ro < 16,
            Instruction::Store { rd, rs, ro } => rd < 16 && rs < 16 && ro < 16,
            Instruction::LoadByte { rd, imm } => rd < 16 && imm < 256,
            Instruction::LoadWord { rd } => rd < 16,
            Instruction::Move { dst, src } => dst < 64 && src < 64,
        }
    }

    /// The number of bytes the instruction occupies: 4 with a trailing word,
    /// 2 without. A halt is never stepped over and counts as 0.
    pub open spec fn size(self) -> int {
        match self {
            Instruction::Halt => 0,
            Instruction::Jump { cond, rd, mode: JumpMode::Immediate } => 4,
            Instruction::LoadWord { rd } => 4,
            _ => 2,
        }
    }
}

/// The nibble of `word` that starts at bit `4 * index`, as a number below 16.
pub open spec fn nibble(word: u16, index: int) -> int {
    let w = word as int;
    if index == 0 {
        w % 16
    } else if index == 1 {
        (w / 16) % 16
    } else if index == 2 {
        (w / 256) % 16
    } else {
        w / 4096
    }
}

/// The low byte of `word` read as a two's-complement number.
pub open spec fn signed_low_byte(word: u16) -> int {
    let low = word as int % 256;
    if low < 128 {
        low
    } else {
        low - 256
    }
}

/// The operation on a single register that a selector names, if any.
pub open spec fn unary_operation(selector: int) -> Option<UnaryOp> {
    if selector == 1 {
        Some(UnaryOp::Not)
    } else if selector == 2 {
        Some(UnaryOp::Negate)
    } else if selector == 3 {
        Some(UnaryOp::Push)
    } else if selector == 4 {
        Some(UnaryOp::Pop)
    } else if selector == 5 {
        Some(UnaryOp::Increment)
    } else if selector == 6 {
        Some(UnaryOp::Decrement)
    } else {
        None
    }
}

/// The addressing mode of an absolute jump that a selector names, if any.
pub open spec fn jump_mode(selector: int) -> Option<JumpMode> {
    if selector == 0 {
        Some(JumpMode::Register)
    } else if selector == 1 {
        Some(JumpMode::Indirect)
    } else if selector == 2 {
        Some(JumpMode::Immediate)
    } else {
        None
    }
}

/// The meaning of an instruction word, or `None` where the word has none:
/// a reserved class, an unassigned single-register selector, or an unassigned
/// jump addressing mode.
///
/// Class 0 is split by its second nibble: zero selects the single-register
/// operations, anything else is itself the code of a two-register operation.
pub open spec fn decoded(word: u16) -> Option<Instruction> {
    let class = nibble(word, 3);
    let a = nibble(word, 2) as usize;
    let b = nibble(word, 1) as usize;
    let c = nibble(word, 0) as usize;
    if word == 0 {
        Some(Instruction::Halt)
    } else if class == 0 && a == 0 {
        match unary_operation(b as int) {
            Some(op) => Some(Instruction::Unary { op, rd: c }),
            None => None,
        }
    } else if class == 0 {
        Some(Instruction::Binary { code: a, rd: b, rs: c })
    } else if class == 1 {
        match jump_mode(c as int) {
            Some(mode) => Some(Instruction::Jump { cond: a, rd: b, mode }),
            None => None,
        }
    } else if class == 2 {
        Some(Instruction::BinaryImmediate { code: a, rd: b, imm: c as u16 })
    } else if class == 3 {
        Some(Instruction::Branch { cond: a, offset: signed_low_byte(word) as i16 })
    } else if class == 4 {
        Some(Instruction::Load { rd: a, rs: b, ro: c })
    } else if class == 5 {
        Some(Instruction::Store { rd: a, rs: b, ro: c })
    } else if class == 8 {
        Some(Instruction::LoadByte { rd: a, imm: (word % 256) as u16 })
    } else if class == 9 {
        Some(Instruction::LoadWord { rd: a })
    } else if class == 11 {
        Some(
            Instruction::Move {
                dst: (a + 16 * (c / 4)) as usize,
                src: (b + 16 * (c % 4)) as usize,
            },
        )
    } else {
        None
    }
}

/// Whatever a word decodes to has all its fields in range.
pub proof fn lemma_decoded_wf(word: u16)
    ensures
        decoded(word) matches Some(insn) ==> insn.wf(),
{
}

/// Shifting and masking a word extracts the same fields as dividing it.
proof fn lemma_fields(word: u16)
    ensures
        (word >> 12) == nibble(word, 3),
        ((word >> 8) & 0xf) == nibble(word, 2),
        ((word >> 4) & 0xf) == nibble(word, 1),
        (word & 0xf) == nibble(word, 0),
        (word & 0xff) == word % 256,
        ((word >> 2) & 0x3) == (word % 16) / 4,
        (word & 0x3) == (word % 16) % 4,
{
    assert((word >> 12) == word / 4096) by (bit_vector);
    assert(((word >> 8) & 0xf) == (word / 256) % 16) by (bit_vector);
    assert(((word >> 4) & 0xf) == (word / 16) % 16) by (bit_vector);
    assert((word & 0xf) == word % 16) by (bit_vector);
    assert((word & 0xff) == word % 256) by (bit_vector);
    assert(((word >> 2) & 0x3) == (word % 16) / 4) by (bit_vector);
    assert((word & 0x3) == (word % 16) % 4) by (bit_vector);
}

/// Decodes an instruction word.
///
/// Returns `None` exactly for the words that have no defined behaviour.
pub fn decode(word: u16) -> (r: Option<Instruction>)
    ensures
        r == decoded(word),
        r matches Some(insn) ==> insn.wf(),
{
    proof {
        lemma_fields(word);
    }
    if word == 0 {
        return Some(Instruction::Halt);
    }
    let class: u16 = word >> 12;
    let a: usize = ((word >> 8) & 0xf) as usize;
    let b: usize = ((word >> 4) & 0xf) as usize;
    let c: usize = (word & 0xf) as usize;
    match class {
        0 => {
            if a == 0 {
                let op = match b {
                    1 => UnaryOp::Not,
                    2 => UnaryOp::Negate,
                    3 => UnaryOp::Push,
                    4 => UnaryOp::Pop,
                    5 => UnaryOp::Increment,
                    6 => UnaryOp::Decrement,
                    _ => {
                        return None;
                    },
                };
                Some(Instruction::Unary { op, rd: c })
            } else {
                Some(Instruction::Binary { code: a, rd: b, rs: c })
            }
        },
        1 => {
            let mode = match c {
                0 => JumpMode::Register,
                1 => JumpMode::Indirect,
                2 => JumpMode::Immediate,
                _ => {
                    return None;
                },
            };
            Some(Instruction::Jump { cond: a, rd: b, mode })
        },
        2 => Some(Instruction::BinaryImmediate { code: a, rd: b, imm: word & 0xf }),
        3 => {
            let low: u16 = word & 0xff;
            let offset: i16 = if low < 128 {
                low as i16
            } else {
                low as i16 - 256
            };
            Some(Instruction::Branch { cond: a, offset })
        },
        4 => Some(Instruction::Load { rd: a, rs: b, ro: c }),
        5 => Some(Instruction::Store { rd: a, rs: b, ro: c }),
        8 => Some(Instruction::LoadByte { rd: a, imm: word & 0xff }),
        9 => Some(Instruction::LoadWord { rd: a }),
        11 => {
            let bank_dst: usize = ((word >> 2) & 0x3) as usize;
            let bank_src: usize = (word & 0x3) as usize;
            Some(Instruction::Move { dst: a + 16 * bank_dst, src: b + 16 * bank_src })
        },
        _ => None,
    }
}

} // verus!
