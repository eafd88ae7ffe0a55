//! The arithmetic-logic unit.
//!
//! The unit is a pure function: an operation code, two 16-bit operands and the
//! incoming flag word go in, a 16-bit result and a new flag word come out.
//! Every operation recomputes the whole flag word from its raw result and its
//! carry-out; no flag survives from the incoming word.

use vstd::prelude::*;

verus! {

/// Zero flag (bit 0): the raw result was zero.
pub const ZF: u16 = 0b0001;

/// Carry flag (bit 1): the operation carried out of, or borrowed into, bit 15.
pub const CF: u16 = 0b0010;

/// Overflow flag (bit 2): the sign bit is set and there was no carry.
pub const OF: u16 = 0b0100;

/// Sign flag (bit 3): bit 15 of the raw result is set.
pub const SF: u16 = 0b1000;

/// Error flag (bit 6): the operation code names no operation.
pub const EF: u16 = 0b100_0000;

/// The operations of the unit, in the order of their codes 1 to 11.
#[derive(Clone, Copy, Debug, PartialEq, Eq)]
pub enum AluOp {
    Add,
    Subtract,
    Or,
    Nor,
    And,
    Nand,
    Xor,
    Xnor,
    AddWithCarry,
    SubtractWithBorrow,
    Compare,
}

/// The 16-bit word that an integer wraps to: its remainder modulo 2^16.
pub open spec fn wrap(x: int) -> u16 {
    (x % 0x1_0000) as u16
}

pub open spec fn zero_set(f: u16) -> bool {
    f & ZF != 0
}

pub open spec fn carry_set(f: u16) -> bool {
    f & CF != 0
}

pub open spec fn overflow_set(f: u16) -> bool {
    f & OF != 0
}

pub open spec fn sign_set(f: u16) -> bool {
    f & SF != 0
}

pub open spec fn error_set(f: u16) -> bool {
    f & EF != 0
}

/// The flag word for a raw result `c` and a carry-out `carry`.
///
/// The overflow flag is "sign without carry"; it is not signed overflow.
pub open spec fn flag_word(c: u16, carry: bool) -> u16 {
    let sign = c >= 0x8000;
    ((if c == 0 { 1int } else { 0int })
        + (if carry { 2int } else { 0int })
        + (if !carry && sign { 4int } else { 0int })
        + (if sign { 8int } else { 0int })) as u16
}

/// The carry bit of a flag word as a number, 0 or 1.
pub open spec fn carry_in(f: u16) -> u16 {
    if carry_set(f) { 1 } else { 0 }
}

/// Result and flags of addition: the sum modulo 2^16, carry when the true sum
/// does not fit in 16 bits.
pub open spec fn sum(a: u16, b: u16) -> (u16, u16) {
    (wrap(a + b), flag_word(wrap(a + b), a + b >= 0x1_0000))
}

/// Result and flags of subtraction: the difference modulo 2^16, carry when the
/// subtrahend is the larger operand.
pub open spec fn difference(a: u16, b: u16) -> (u16, u16) {
    (wrap(a - b), flag_word(wrap(a - b), a < b))
}

/// Result and flags of a bitwise operation whose raw result is `c`: the carry
/// is always clear.
pub open spec fn bitwise(c: u16) -> (u16, u16) {
    (c, flag_word(c, false))
}

/// What each operation returns for operands `a`, `b` and incoming flags `f`.
///
/// The two operations that consume the incoming carry first fold it into `a`,
/// wrapping and without recording a carry of that step, and then add or
/// subtract `b`. Comparison reports the flags of `a - b` and hands `a` back.
pub open spec fn alu_result(op: AluOp, a: u16, b: u16, f: u16) -> (u16, u16) {
    match op {
        AluOp::Add => sum(a, b),
        AluOp::Subtract => difference(a, b),
        AluOp::Or => bitwise(a | b),
        AluOp::Nor => bitwise(!(a | b)),
        AluOp::And => bitwise(a & b),
        AluOp::Nand => bitwise(!(a & b)),
        AluOp::Xor => bitwise(a ^ b),
        AluOp::Xnor => bitwise(!(a ^ b)),
        AluOp::AddWithCarry => sum(wrap(a + carry_in(f)), b),
        AluOp::SubtractWithBorrow => difference(wrap(a - carry_in(f)), b),
        AluOp::Compare => (a, difference(a, b).1),
    }
}

/// The operation that a code selects, if any.
pub open spec fn operation(code: usize) -> Option<AluOp> {
    if code == 1 {
        Some(AluOp::Add)
    } else if code == 2 {
        Some(AluOp::Subtract)
    } else if code == 3 {
        Some(AluOp::Or)
    } else if code == 4 {
        Some(AluOp::Nor)
    } else if code == 5 {
        Some(AluOp::And)
    } else if code == 6 {
        Some(AluOp::Nand)
    } else if code == 7 {
        Some(AluOp::Xor)
    } else if code == 8 {
        Some(AluOp::Xnor)
    } else if code == 9 {
        Some(AluOp::AddWithCarry)
    } else if code == 10 {
        Some(AluOp::SubtractWithBorrow)
    } else if code == 11 {
        Some(AluOp::Compare)
    } else {
        None
    }
}

/// What the unit returns for an operation code: the selected operation's
/// result, or a zero result with only the error flag for an unassigned code.
pub open spec fn evaluate(code: usize, a: u16, b: u16, f: u16) -> (u16, u16) {
    match operation(code) {
        Some(op) => alu_result(op, a, b, f),
        None => (0u16, EF),
    }
}

/// Each flag of a flag word reads back as the condition it was built from,
/// and the error flag is clear.
pub proof fn lemma_flag_word(c: u16, carry: bool)
    ensures
        zero_set(flag_word(c, carry)) <==> c == 0,
        carry_set(flag_word(c, carry)) <==> carry,
        overflow_set(flag_word(c, carry)) <==> !carry && c >= 0x8000,
        sign_set(flag_word(c, carry)) <==> c >= 0x8000,
        !error_set(flag_word(c, carry)),
        flag_word(c, carry) < 16,
{
    let f = flag_word(c, carry);
    assert(f < 16 ==> ((f & 1 != 0) <==> f % 2 == 1)) by (bit_vector);
    assert(f < 16 ==> ((f & 2 != 0) <==> (f / 2) % 2 == 1)) by (bit_vector);
    assert(f < 16 ==> ((f & 4 != 0) <==> (f / 4) % 2 == 1)) by (bit_vector);
    assert(f < 16 ==> ((f & 8 != 0) <==> f / 8 == 1)) by (bit_vector);
    assert(f < 16 ==> f & 0b100_0000 == 0) by (bit_vector);
}

/// Builds the flag word for a raw result and its carry-out.
pub fn flags(c: u16, cf: bool) -> (f: u16)
    ensures
        f == flag_word(c, cf),
{
    let zf = c == 0;
    let sf = c & 0x8000 > 0;
    let of = !cf && sf;
    assert((c & 0x8000 > 0) <==> c >= 0x8000) by (bit_vector);
    let mut f: u16 = 0;
    if zf {
        f = f + ZF;
    }
    if cf {
        f = f + CF;
    }
    if of {
        f = f + OF;
    }
    if sf {
        f = f + SF;
    }
    f
}

/// The carry bit of a flag word, as 0 or 1.
pub fn cf(f: u16) -> (bit: u16)
    ensures
        bit == carry_in(f),
{
    if f & CF > 0 {
        1
    } else {
        0
    }
}

/// Addition. The carry flag is set exactly when the true sum needs a 17th bit.
pub fn add(a: u16, b: u16, _f: u16) -> (r: (u16, u16))
    ensures
        r == alu_result(AluOp::Add, a, b, _f),
        r.0 == wrap(a + b),
        carry_set(r.1) <==> a + b >= 0x1_0000,
{
    let c = a.wrapping_add(b);
    let carry = c < a;
    proof {
        lemma_flag_word(c, carry);
    }
    (c, flags(c, carry))
}

/// Subtraction. The carry flag is set exactly when `a` is less than `b`.
pub fn sub(a: u16, b: u16, _f: u16) -> (r: (u16, u16))
    ensures
        r == alu_result(AluOp::Subtract, a, b, _f),
        r.0 == wrap(a - b),
        carry_set(r.1) <==> a < b,
{
    let c = a.wrapping_sub(b);
    let borrow = a < b;
    proof {
        lemma_flag_word(c, borrow);
    }
    (c, flags(c, borrow))
}

/// Bitwise or.
pub fn or(a: u16, b: u16, _f: u16) -> (r: (u16, u16))
    ensures
        r == alu_result(AluOp::Or, a, b, _f),
        r.0 == a | b,
        !carry_set(r.1),
{
    let c = a | b;
    proof {
        lemma_flag_word(c, false);
    }
    (c, flags(c, false))
}

/// Bitwise nor.
pub fn nor(a: u16, b: u16, _f: u16) -> (r: (u16, u16))
    ensures
        r == alu_result(AluOp::Nor, a, b, _f),
        r.0 == !(a | b),
        !carry_set(r.1),
{
    let c = !(a | b);
    proof {
        lemma_flag_word(c, false);
    }
    (c, flags(c, false))
}

/// Bitwise and.
pub fn and(a: u16, b: u16, _f: u16) -> (r: (u16, u16))
    ensures
        r == alu_result(AluOp::And, a, b, _f),
        r.0 == a & b,
        !carry_set(r.1),
{
    let c = a & b;
    proof {
        lemma_flag_word(c, false);
    }
    (c, flags(c, false))
}

/// Bitwise nand.
pub fn nand(a: u16, b: u16, _f: u16) -> (r: (u16, u16))
    ensures
        r == alu_result(AluOp::Nand, a, b, _f),
        r.0 == !(a & b),
        !carry_set(r.1),
{
    let c = !(a & b);
    proof {
        lemma_flag_word(c, false);
    }
    (c, flags(c, false))
}

/// Bitwise exclusive or.
pub fn xor(a: u16, b: u16, _f: u16) -> (r: (u16, u16))
    ensures
        r == alu_result(AluOp::Xor, a, b, _f),
        r.0 == a ^ b,
        !carry_set(r.1),
{
    let c = a ^ b;
    proof {
        lemma_flag_word(c, false);
    }
    (c, flags(c, false))
}

/// Bitwise exclusive nor.
pub fn xnor(a: u16, b: u16, _f: u16) -> (r: (u16, u16))
    ensures
        r == alu_result(AluOp::Xnor, a, b, _f),
        r.0 == !(a ^ b),
        !carry_set(r.1),
{
    let c = !(a ^ b);
    proof {
        lemma_flag_word(c, false);
    }
    (c, flags(c, false))
}

/// Addition with the incoming carry: the carry bit is first added to `a`,
/// wrapping, and the flags are those of the second addition alone.
pub fn adc(a: u16, b: u16, f: u16) -> (r: (u16, u16))
    ensures
        r == alu_result(AluOp::AddWithCarry, a, b, f),
        r.0 == wrap(a + carry_in(f) + b),
        carry_set(r.1) <==> wrap(a + carry_in(f)) + b >= 0x1_0000,
{
    let a1 = a.wrapping_add(cf(f));
    let c = a1.wrapping_add(b);
    let carry = c < a1;
    proof {
        lemma_flag_word(c, carry);
    }
    (c, flags(c, carry))
}

/// Subtraction with the incoming carry as a borrow: the carry bit is first
/// taken from `a`, wrapping, and the flags are those of the second
/// subtraction alone.
pub fn sbb(a: u16, b: u16, f: u16) -> (r: (u16, u16))
    ensures
        r == alu_result(AluOp::SubtractWithBorrow, a, b, f),
        r.0 == wrap(a - carry_in(f) - b),
        carry_set(r.1) <==> wrap(a - carry_in(f)) < b,
{
    let a1 = a.wrapping_sub(cf(f));
    let c = a1.wrapping_sub(b);
    let borrow = a1 < b;
    proof {
        lemma_flag_word(c, borrow);
    }
    (c, flags(c, borrow))
}

/// Comparison: the flags of `a - b`, with `a` itself as the result.
pub fn cmp(a: u16, b: u16, _f: u16) -> (r: (u16, u16))
    ensures
        r == alu_result(AluOp::Compare, a, b, _f),
        r.0 == a,
        r.1 == difference(a, b).1,
{
    let c = a.wrapping_sub(b);
    (a, flags(c, a < b))
}

/// Maps an operation code to its operation; codes outside 1 to 11 have none.
pub fn dispatch_op(op: usize) -> (r: Option<AluOp>)
    ensures
        r == operation(op),
{
    match op {
        1 => Some(AluOp::Add),
        2 => Some(AluOp::Subtract),
        3 => Some(AluOp::Or),
        4 => Some(AluOp::Nor),
        5 => Some(AluOp::And),
        6 => Some(AluOp::Nand),
        7 => Some(AluOp::Xor),
        8 => Some(AluOp::Xnor),
        9 => Some(AluOp::AddWithCarry),
        10 => Some(AluOp::SubtractWithBorrow),
        11 => Some(AluOp::Compare),
        _ => None,
    }
}

/// Runs the operation that `op` selects on `a` and `b`.
///
/// An unassigned code is not a failure of the call: it yields a zero result
/// and a flag word that holds the error flag and nothing else.
pub fn alu(op: usize, a: u16, b: u16, flags: u16) -> (r: (u16, u16))
    ensures
        r == evaluate(op, a, b, flags),
        operation(op) is None ==> r == (0u16, EF),
{
    match dispatch_op(op) {
        Some(AluOp::Add) => self::add(a, b, flags),
        Some(AluOp::Subtract) => self::sub(a, b, flags),
        Some(AluOp::Or) => or(a, b, flags),
        Some(AluOp::Nor) => nor(a, b, flags),
        Some(AluOp::And) => and(a, b, flags),
        Some(AluOp::Nand) => nand(a, b, flags),
        Some(AluOp::Xor) => xor(a, b, flags),
        Some(AluOp::Xnor) => xnor(a, b, flags),
        Some(AluOp::AddWithCarry) => adc(a, b, flags),
        Some(AluOp::SubtractWithBorrow) => sbb(a, b, flags),
        Some(AluOp::Compare) => cmp(a, b, flags),
        None => (0, EF),
    }
}

/// Comparison changes nothing but the flags, and its flags are those of
/// subtraction on the same operands, whatever the incoming flags of either.
pub proof fn lemma_compare_is_subtract_flags(a: u16, b: u16, f: u16, g: u16)
    ensures
        evaluate(11, a, b, f).0 == a,
        evaluate(11, a, b, f).1 == evaluate(2, a, b, g).1,
{
}

/// Addition carries exactly when the true sum reaches 2^16, and subtraction
/// carries exactly when the first operand is the smaller.
pub proof fn lemma_carry_of_add_and_subtract(a: u16, b: u16, f: u16)
    ensures
        carry_set(evaluate(1, a, b, f).1) <==> a + b >= 0x1_0000,
        carry_set(evaluate(2, a, b, f).1) <==> a < b,
{
    lemma_flag_word(wrap(a + b), a + b >= 0x1_0000);
    lemma_flag_word(wrap(a - b), a < b);
}

} // verus!
