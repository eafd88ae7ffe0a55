//! Laws of the machine.
//!
//! Each proof function here states what holds across several operations of
//! the machine, over the same spec functions that the operations' own
//! contracts use.

use vstd::prelude::*;
use crate::alu::{evaluate, wrap};
use crate::instruction::{decoded, lemma_decoded_wf, Instruction};
use crate::machine::{initial, loaded, ran, MachineError};
use crate::state::{State, FLAG_REGISTER, MEMORY_SIZE, OUTPUT_PORT, STACK_POINTER};

verus! {

/// A word written anywhere but to the output port reads back unchanged, and
/// the write touches nothing but the two bytes of that word. A word written
/// to the output port leaves all of memory as it was.
pub proof fn lemma_word_round_trip(s: State, address: u16, value: u16)
    requires
        s.wf(),
    ensures
        address != OUTPUT_PORT ==> s.write_word(address, value).read_word(address) == value,
        address != OUTPUT_PORT ==> forall|i: int|
            0 <= i < MEMORY_SIZE && i != address && i != (address + 1) % 0x1_0000
                ==> s.write_word(address, value).mem[i] == s.mem[i],
        s.write_word(OUTPUT_PORT, value).mem == s.mem,
        s.write_word(address, value).regs == s.regs,
        s.write_word(address, value).wf(),
{
}

/// The comparison instruction leaves its destination register as it was and
/// sets the flags that subtraction of the same registers would set.
pub proof fn lemma_compare_keeps_destination(s: State, rd: usize, rs: usize)
    requires
        s.wf(),
        rd < 16,
        rs < 16,
    ensures
        s.execute(Instruction::Binary { code: 11, rd, rs }).regs[rd as int] == s.regs[rd as int],
        s.execute(Instruction::Binary { code: 11, rd, rs }).flags() == evaluate(
            2,
            s.regs[rd as int],
            s.regs[rs as int],
            s.flags(),
        ).1,
        s.execute(Instruction::Binary { code: 11, rd, rs }).flags() == s.execute(
            Instruction::Binary { code: 2, rd, rs },
        ).flags(),
{
}

/// Executing a well-formed instruction keeps the sizes of the register file
/// and of the memory.
pub proof fn lemma_execute_wf(s: State, insn: Instruction)
    requires
        s.wf(),
        insn.wf(),
    ensures
        s.execute(insn).wf(),
{
}

/// A step keeps the sizes of the register file and of the memory.
pub proof fn lemma_next_wf(s: State)
    requires
        s.wf(),
    ensures
        s.next().wf(),
{
    lemma_decoded_wf(s.fetch());
    if let Some(insn) = decoded(s.fetch()) {
        lemma_execute_wf(s.traced(), insn);
    }
}

/// Any number of steps keeps the sizes of the register file and of the memory.
pub proof fn lemma_after_wf(s: State, n: nat)
    requires
        s.wf(),
    ensures
        s.after(n).wf(),
    decreases n,
{
    if n > 0 {
        lemma_after_wf(s, (n - 1) as nat);
        lemma_next_wf(s.after((n - 1) as nat));
    }
}

/// Only the extended move reaches the upper banks: every other instruction
/// leaves the registers above the flag word untouched, and changes the flag
/// word only if it is an arithmetic-logic operation. A halt changes nothing.
pub proof fn lemma_ordinary_instructions_keep_upper_banks(s: State, insn: Instruction)
    requires
        s.wf(),
        insn.wf(),
        !(insn is Move),
    ensures
        forall|i: int|
            FLAG_REGISTER < i < s.regs.len() ==> s.execute(insn).regs[i] == s.regs[i],
        !(insn is Binary) && !(insn is BinaryImmediate) ==> s.execute(insn).flags() == s.flags(),
        insn is Halt ==> s.execute(insn) == s,
{
}

/// Pushing moves nothing but the stack pointer among the registers: after
/// `values` have been pushed it is lower by two for each word, wrapping.
pub proof fn lemma_push_all_registers(s: State, values: Seq<u16>)
    requires
        s.wf(),
    ensures
        s.push_all(values).wf(),
        s.push_all(values).regs == s.regs.update(
            STACK_POINTER as int,
            wrap(s.sp() - 2 * values.len()),
        ),
    decreases values.len(),
{
    if values.len() == 0 {
        assert(s.regs =~= s.regs.update(STACK_POINTER as int, wrap(s.sp() - 0)));
    } else {
        lemma_push_all_registers(s, values.drop_last());
        assert(s.push_all(values).regs =~= s.regs.update(
            STACK_POINTER as int,
            wrap(s.sp() - 2 * values.len()),
        ));
    }
}

/// Popping changes nothing but the stack pointer: after `n` pops it is higher
/// by two for each word, wrapping, and `n` words have been read.
pub proof fn lemma_pop_many_state(s: State, n: nat)
    requires
        s.wf(),
    ensures
        s.pop_many(n).0 == s.set_reg(STACK_POINTER as int, wrap(s.sp() + 2 * n)),
        s.pop_many(n).1.len() == n,
    decreases n,
{
    if n == 0 {
        assert(s.regs =~= s.regs.update(STACK_POINTER as int, wrap(s.sp() + 0)));
    } else {
        let once = s.pop().0;
        lemma_pop_many_state(once, (n - 1) as nat);
        assert(once.set_reg(STACK_POINTER as int, wrap(once.sp() + 2 * (n - 1))).regs
            =~= s.set_reg(STACK_POINTER as int, wrap(s.sp() + 2 * n)).regs);
    }
}

/// Pops only read memory: the `j`-th of them, counting from 0, returns the
/// word that lies `2 * j` bytes above the stack pointer, wrapping.
pub proof fn lemma_pop_many_reads(s: State, n: nat)
    requires
        s.wf(),
    ensures
        s.pop_many(n).1.len() == n,
        forall|j: int|
            0 <= j < n ==> #[trigger] s.pop_many(n).1[j] == s.read_word(wrap(s.sp() + 2 * j)),
    decreases n,
{
    if n > 0 {
        let once = s.pop().0;
        lemma_pop_many_reads(once, (n - 1) as nat);
        let rest = once.pop_many((n - 1) as nat).1;
        assert(s.pop_many(n).1 == seq![s.pop().1] + rest);
        assert forall|j: int| 0 <= j < n implies #[trigger] s.pop_many(n).1[j] == s.read_word(
            wrap(s.sp() + 2 * j),
        ) by {
            if j > 0 {
                assert(s.pop_many(n).1[j] == rest[j - 1]);
                assert(wrap(once.sp() + 2 * (j - 1)) == wrap(s.sp() + 2 * j));
            }
        }
    }
}

/// Stack discipline, the stack pointer: as many pops as there were pushes
/// bring the stack pointer, and with it every register, back to where it was.
pub proof fn lemma_pops_restore_stack_pointer(s: State, values: Seq<u16>)
    requires
        s.wf(),
    ensures
        s.push_all(values).pop_many(values.len()).0.sp() == s.sp(),
        s.push_all(values).pop_many(values.len()).0.regs == s.regs,
        s.push_all(values).pop_many(values.len()).0.mem == s.push_all(values).mem,
{
    lemma_push_all_registers(s, values);
    lemma_pop_many_state(s.push_all(values), values.len());
    assert(s.push_all(values).pop_many(values.len()).0.regs =~= s.regs);
}

/// Pushing writes only where pushes store: a byte of memory that is part of
/// no word stored by a push is left as it was. A push that goes to the output
/// port stores nothing.
pub proof fn lemma_push_all_memory(s: State, values: Seq<u16>, address: int)
    requires
        s.wf(),
        0 <= address < MEMORY_SIZE,
        forall|i: int|
            1 <= i <= values.len() && #[trigger] s.push_address(i) != OUTPUT_PORT ==> address
                != s.push_address(i) && address != (s.push_address(i) + 1) % 0x1_0000,
    ensures
        s.push_all(values).mem[address] == s.mem[address],
    decreases values.len(),
{
    if values.len() > 0 {
        let earlier = values.drop_last();
        lemma_push_all_memory(s, earlier, address);
        lemma_push_all_registers(s, earlier);
        assert(wrap(s.push_all(earlier).sp() - 2) == s.push_address(values.len() as int));
    }
}

/// If some push from this state would go to the output port, no run of
/// pushes from it changes the word at the port: every push lands an even
/// number of bytes from that one, so none stores into the port's two bytes.
proof fn lemma_pushes_keep_word_at_port(s: State, values: Seq<u16>, n: int)
    requires
        s.wf(),
        s.push_address(n) == OUTPUT_PORT,
    ensures
        s.push_all(values).read_word(OUTPUT_PORT) == s.read_word(OUTPUT_PORT),
{
    assert forall|i: int|
        1 <= i <= values.len() && #[trigger] s.push_address(i) != OUTPUT_PORT implies OUTPUT_PORT
        != s.push_address(i) && OUTPUT_PORT != (s.push_address(i) + 1) % 0x1_0000 && OUTPUT_PORT
        + 1 != s.push_address(i) && OUTPUT_PORT + 1 != (s.push_address(i) + 1) % 0x1_0000 by {
        assert(s.push_address(i) % 2 == s.push_address(n) % 2);
    }
    lemma_push_all_memory(s, values, OUTPUT_PORT as int);
    lemma_push_all_memory(s, values, OUTPUT_PORT + 1);
}

/// What a run of pushes leaves in memory: where each of the last 32768
/// pushes was made lies what that push stored.
pub proof fn lemma_push_all_stores(s: State, values: Seq<u16>)
    requires
        s.wf(),
    ensures
        forall|i: int|
            1 <= i <= values.len() && values.len() - i < 0x8000 ==> s.push_all(values).read_word(
                #[trigger] s.push_address(i),
            ) == s.stored_by_push(i, values[i - 1]),
    decreases values.len(),
{
    let n = values.len() as int;
    if n > 0 {
        let earlier = values.drop_last();
        let last = values.last();
        let before = s.push_all(earlier);
        let after = s.push_all(values);
        lemma_push_all_stores(s, earlier);
        lemma_push_all_registers(s, earlier);
        let top = s.push_address(n);
        assert(top == wrap(before.sp() - 2));
        assert(after == before.set_reg(STACK_POINTER as int, top).write_word(top, last));
        assert forall|i: int| 1 <= i <= n && n - i < 0x8000 implies after.read_word(
            #[trigger] s.push_address(i),
        ) == s.stored_by_push(i, values[i - 1]) by {
            let at = s.push_address(i);
            if i == n {
                if top == OUTPUT_PORT {
                    lemma_pushes_keep_word_at_port(s, earlier, n);
                } else {
                    lemma_word_round_trip(before.set_reg(STACK_POINTER as int, top), top, last);
                }
            } else {
                assert(at == wrap(top + 2 * (n - i)));
                assert(after.read_word(at) == before.read_word(at));
                assert(earlier[i - 1] == values[i - 1]);
            }
        }
    }
}

/// Stack discipline, the values: as many pops as there were pushes return,
/// last pushed first, what the pushes left in memory.
///
/// Each of the last 32768 pushes left what it stored: its own word, or for a
/// push that went to the output port, which stores nothing, what memory held
/// there before. A push made earlier than those shares its two bytes with
/// every push made a multiple of 32768 pushes after it, and its pop finds
/// what the last of them left.
pub proof fn lemma_pops_return_stored_words_reversed(s: State, values: Seq<u16>)
    requires
        s.wf(),
    ensures
        s.push_all(values).pop_many(values.len()).1.len() == values.len(),
        forall|j: int|
            0 <= j < values.len() ==> #[trigger] s.push_all(values).pop_many(values.len()).1[j]
                == s.stored_by_push(
                values.len() - j % 0x8000,
                values[values.len() - 1 - j % 0x8000],
            ),
{
    let n = values.len() as int;
    let pushed = s.push_all(values);
    let pops = pushed.pop_many(values.len()).1;
    lemma_push_all_registers(s, values);
    lemma_push_all_stores(s, values);
    lemma_pop_many_reads(pushed, values.len());
    assert forall|j: int| 0 <= j < n implies #[trigger] pops[j] == s.stored_by_push(
        n - j % 0x8000,
        values[n - 1 - j % 0x8000],
    ) by {
        let i = n - j % 0x8000;
        assert(wrap(pushed.sp() + 2 * j) == s.push_address(i));
    }
}

/// Stack discipline where no push goes to the output port: as many pops as
/// there were pushes, up to 32768 of them, return the pushed words, last
/// pushed first.
pub proof fn lemma_pops_return_pushes_reversed(s: State, values: Seq<u16>)
    requires
        s.wf(),
        values.len() <= 0x8000,
        forall|i: int| 1 <= i <= values.len() ==> #[trigger] s.push_address(i) != OUTPUT_PORT,
    ensures
        s.push_all(values).pop_many(values.len()).1 == values.reverse(),
{
    lemma_pops_return_stored_words_reversed(s, values);
    assert(s.push_all(values).pop_many(values.len()).1 =~= values.reverse());
}

/// A step on a halt, or on a word without defined behaviour, records the
/// fetch and changes neither a register nor memory.
pub proof fn lemma_stopped_step_changes_no_register(s: State)
    requires
        s.wf(),
        !s.running(),
    ensures
        s.next().regs == s.regs,
        s.next().mem == s.mem,
        s.next() == s.traced(),
{
}

/// A fresh machine into which an image has been loaded whose first word is
/// zero is halted: its first step stops it without changing a register, and
/// a run of any length ends at once with success.
pub proof fn lemma_zero_first_word_halts(image: Seq<u8>, budget: nat)
    requires
        image.len() <= MEMORY_SIZE,
        image.len() >= 1 ==> image[0] == 0,
        image.len() >= 2 ==> image[1] == 0,
    ensures
        loaded(initial(), image).halted(),
        loaded(initial(), image).next().regs == initial().regs,
        budget > 0 ==> ran(loaded(initial(), image), budget) == (
            loaded(initial(), image).next(),
            Ok::<(), MachineError>(()),
        ),
{
}

/// Stepping once and then `n` times is stepping `n + 1` times.
pub proof fn lemma_after_next(s: State, n: nat)
    ensures
        s.next().after(n) == s.after(n + 1),
    decreases n,
{
    if n == 0 {
        assert(s.after(1) == s.after(0).next());
    } else {
        lemma_after_next(s, (n - 1) as nat);
        assert(s.next().after(n) == s.next().after((n - 1) as nat).next());
        assert(s.after(n + 1) == s.after(n).next());
    }
}

/// What a run amounts to: some number `n` of steps, within the budget, each
/// execute an instruction. The run then either takes one more step, which
/// halts or fails, or it has used up its budget.
pub proof fn lemma_ran_is_iterated_step(s: State, budget: nat) -> (n: nat)
    ensures
        n <= budget,
        s.runs_for(n),
        ran(s, budget).1 == Ok::<(), MachineError>(()) ==> n < budget && s.after(n).halted()
            && ran(s, budget).0 == s.after(n + 1),
        ran(s, budget).1 == Err::<(), MachineError>(MachineError::UnsupportedInstruction) ==> n
            < budget && s.after(n).faulted() && ran(s, budget).0 == s.after(n + 1),
        ran(s, budget).1 == Err::<(), MachineError>(MachineError::StepLimit) ==> n == budget
            && ran(s, budget).0 == s.after(n),
        ran(s, budget).1 != Err::<(), MachineError>(MachineError::OutOfBounds),
    decreases budget,
{
    if budget == 0 || !s.running() {
        assert(s.after(1) == s.after(0).next());
        0
    } else {
        let m = lemma_ran_is_iterated_step(s.next(), (budget - 1) as nat);
        lemma_after_next(s, m);
        lemma_after_next(s, m + 1);
        assert forall|k: nat| k < m + 1 implies (#[trigger] s.after(k)).running() by {
            if k > 0 {
                lemma_after_next(s, (k - 1) as nat);
                assert(s.next().after((k - 1) as nat).running());
            }
        }
        m + 1
    }
}

} // verus!
