use simple_machine::alu::{CF, EF, OF, SF, ZF};
use simple_machine::machine::{MachineError, Simple};
use simple_machine::state::Event;

fn machine_with(program: Vec<u8>) -> Simple {
    let mut s = Simple::new();
    assert_eq!(s.load_program(program), Ok(()));
    s
}

fn outputs(s: &Simple) -> Vec<u16> {
    let mut values = Vec::new();
    for event in s.events() {
        if let Event::Output { value } = event {
            values.push(*value);
        }
    }
    values
}

#[test]
fn new_machine_is_all_zero() {
    let s = Simple::new();
    for index in 0..64 {
        assert_eq!(s.register(index), 0);
    }
    for address in 0..=u16::MAX {
        assert_eq!(s.memory(address), 0);
    }
    assert!(s.events().is_empty());
    assert_eq!(s.ip(), 0);
    assert_eq!(s.flags(), 0);
}

#[test]
fn load_program_copies_to_address_zero() {
    let mut s = Simple::new();
    s.write_16(0, 0xAAAA);
    s.write_16(2, 0xBBBB);
    assert_eq!(s.load_program(vec![1, 2, 3]), Ok(()));
    assert_eq!(s.memory(0), 1);
    assert_eq!(s.memory(1), 2);
    assert_eq!(s.memory(2), 3);
    assert_eq!(s.memory(3), 0xBB);
    assert_eq!(s.memory(4), 0);
}

#[test]
fn load_program_accepts_empty_and_full_images() {
    let mut s = Simple::new();
    assert_eq!(s.load_program(Vec::new()), Ok(()));
    assert_eq!(s.memory(0), 0);
    assert_eq!(s.load_program(vec![0x5a; 65536]), Ok(()));
    assert_eq!(s.memory(0), 0x5a);
    assert_eq!(s.memory(0xFFFF), 0x5a);
}

#[test]
fn load_program_refuses_oversized_image() {
    let mut s = Simple::new();
    s.write_16(0, 0x1234);
    assert_eq!(s.load_program(vec![0xff; 65537]), Err(MachineError::OutOfBounds));
    assert_eq!(s.read_16(0), 0x1234);
    assert_eq!(s.memory(2), 0);
    assert_eq!(s.memory(0xFFFF), 0);
}

#[test]
fn word_round_trips_through_memory() {
    let mut s = Simple::new();
    s.write_16(0x1234, 0xBEEF);
    assert_eq!(s.read_16(0x1234), 0xBEEF);
    assert_eq!(s.memory(0x1234), 0xBE);
    assert_eq!(s.memory(0x1235), 0xEF);
    assert_eq!(s.memory(0x1233), 0);
    assert_eq!(s.memory(0x1236), 0);
    assert!(s.events().is_empty());
}

#[test]
fn word_at_last_address_wraps_to_address_zero() {
    let mut s = Simple::new();
    s.write_16(0xFFFF, 0xABCD);
    assert_eq!(s.memory(0xFFFF), 0xAB);
    assert_eq!(s.memory(0), 0xCD);
    assert_eq!(s.read_16(0xFFFF), 0xABCD);
}

#[test]
fn write_to_port_emits_and_stores_nothing() {
    let mut s = Simple::new();
    s.write_16(0xFF00, 0x1122);
    s.write_16(0xFF02, 0x3344);
    s.write_16(0xFF01, 0x5566);
    assert_eq!(s.memory(0xFF01), 0x22);
    assert_eq!(s.memory(0xFF02), 0x33);
    assert_eq!(s.read_16(0xFF01), 0x2233);
    assert_eq!(s.events().len(), 1);
    assert_eq!(s.events()[0], Event::Output { value: 0x5566 });
}

#[test]
fn take_events_empties_the_log() {
    let mut s = Simple::new();
    s.write_16(0xFF01, 1);
    s.write_16(0xFF01, 2);
    let taken = s.take_events();
    assert_eq!(taken, vec![Event::Output { value: 1 }, Event::Output { value: 2 }]);
    assert!(s.events().is_empty());
    s.write_16(0xFF01, 3);
    assert_eq!(s.take_events(), vec![Event::Output { value: 3 }]);
}

#[test]
fn pushes_then_pops_restore_stack_pointer_and_reverse_values() {
    let mut s = Simple::new();
    s.set_register(15, 0x4000);
    s.push(1);
    s.push(2);
    s.push(3);
    assert_eq!(s.register(15), 0x3FFA);
    assert_eq!(s.read_16(0x3FFE), 1);
    assert_eq!(s.read_16(0x3FFC), 2);
    assert_eq!(s.read_16(0x3FFA), 3);
    assert_eq!(s.pop(), 3);
    assert_eq!(s.pop(), 2);
    assert_eq!(s.pop(), 1);
    assert_eq!(s.register(15), 0x4000);
}

#[test]
fn stack_pointer_wraps_below_zero_and_above_the_top() {
    let mut s = Simple::new();
    s.push(0x1234);
    assert_eq!(s.register(15), 0xFFFE);
    assert_eq!(s.read_16(0xFFFE), 0x1234);
    assert_eq!(s.pop(), 0x1234);
    assert_eq!(s.register(15), 0);
    s.set_register(15, 1);
    s.push(0xA1B2);
    assert_eq!(s.register(15), 0xFFFF);
    assert_eq!(s.memory(0xFFFF), 0xA1);
    assert_eq!(s.memory(0), 0xB2);
    assert_eq!(s.pop(), 0xA1B2);
    assert_eq!(s.register(15), 1);
}

#[test]
fn pushes_beyond_the_size_of_memory_overwrite_the_first() {
    let mut s = Simple::new();
    s.set_register(15, 0x0100);
    for value in 0..=0x8000u16 {
        s.push(value);
    }
    assert_eq!(s.register(15), 0x00FE);
    for expected in (1..=0x8000u16).rev() {
        assert_eq!(s.pop(), expected);
    }
    // the first push lay where the last one went
    assert_eq!(s.pop(), 0x8000);
    assert_eq!(s.register(15), 0x0100);
}

#[test]
fn push_onto_the_port_is_not_read_back() {
    let mut s = Simple::new();
    s.set_register(15, 0xFF03);
    s.push(0x7777);
    assert_eq!(s.register(15), 0xFF01);
    assert_eq!(s.events()[0], Event::Output { value: 0x7777 });
    assert_eq!(s.pop(), 0);
    assert_eq!(s.register(15), 0xFF03);
}

#[test]
fn step_on_zero_word_halts_without_touching_registers() {
    let mut s = machine_with(vec![0x00, 0x00, 0x81, 0x05]);
    s.set_register(3, 0x1111);
    s.set_register(17, CF);
    assert_eq!(s.step(), Ok(false));
    for index in 0..64 {
        let expected = match index {
            3 => 0x1111,
            17 => CF,
            _ => 0,
        };
        assert_eq!(s.register(index), expected);
    }
    assert_eq!(s.memory(3), 0x05);
    assert_eq!(s.step(), Ok(false));
    assert_eq!(s.ip(), 0);
}

#[test]
fn step_records_the_fetch_before_executing() {
    let mut s = machine_with(vec![0x81, 0x0a, 0x00, 0x00]);
    s.set_register(7, 0x0707);
    s.set_register(8, 0x0808);
    assert_eq!(s.step(), Ok(true));
    assert_eq!(s.step(), Ok(false));
    let events = s.take_events();
    assert_eq!(events.len(), 2);
    assert_eq!(
        events[0],
        Event::Fetch { address: 0, word: 0x810a, registers: [0, 0, 0, 0, 0, 0, 0, 0x0707] }
    );
    assert_eq!(
        events[1],
        Event::Fetch { address: 2, word: 0, registers: [0, 10, 0, 0, 0, 0, 0, 0x0707] }
    );
}

#[test]
fn unsupported_class_fails_and_changes_nothing() {
    for top in [0x60u8, 0x70, 0xa0, 0xc0, 0xd0, 0xe0, 0xf0] {
        let mut s = machine_with(vec![top, 0x12]);
        assert_eq!(s.step(), Err(MachineError::UnsupportedInstruction));
        assert_eq!(s.ip(), 0);
        for index in 0..64 {
            assert_eq!(s.register(index), 0);
        }
        assert_eq!(s.events().len(), 1);
        assert_eq!(s.run(), Err(MachineError::UnsupportedInstruction));
    }
}

#[test]
fn unsupported_single_register_selector_fails() {
    for low in [0x01u8, 0x0f, 0x71, 0x80, 0xf3] {
        let mut s = machine_with(vec![0x00, low]);
        assert_eq!(s.step(), Err(MachineError::UnsupportedInstruction));
        assert_eq!(s.ip(), 0);
    }
}

#[test]
fn unsupported_jump_mode_fails() {
    for low in [0x03u8, 0x14, 0x0f] {
        let mut s = machine_with(vec![0x1d, low]);
        assert_eq!(s.step(), Err(MachineError::UnsupportedInstruction));
        assert_eq!(s.ip(), 0);
    }
}

#[test]
fn run_stops_at_the_failing_instruction() {
    let mut s = machine_with(vec![0x81, 0x07, 0x60, 0x00, 0x82, 0x09]);
    assert_eq!(s.run(), Err(MachineError::UnsupportedInstruction));
    assert_eq!(s.register(1), 7);
    assert_eq!(s.register(2), 0);
    assert_eq!(s.ip(), 2);
}

#[test]
fn run_for_gives_up_when_the_budget_is_spent() {
    // jmp [ip - 2]: a loop of one instruction
    let mut s = machine_with(vec![0x3d, 0xfe]);
    assert_eq!(s.run_for(10), Err(MachineError::StepLimit));
    assert_eq!(s.ip(), 0);
    assert_eq!(s.events().len(), 10);
    assert_eq!(s.run_for(0), Err(MachineError::StepLimit));
    assert_eq!(s.events().len(), 10);
}

#[test]
fn run_for_counts_the_halting_step() {
    let mut s = machine_with(vec![0x00, 0x51, 0x00, 0x51]);
    assert_eq!(s.run_for(2), Err(MachineError::StepLimit));
    assert_eq!(s.register(1), 2);
    assert_eq!(s.run_for(1), Ok(()));
    assert_eq!(s.events().len(), 3);

    let mut t = machine_with(vec![0x00, 0x51, 0x00, 0x51]);
    assert_eq!(t.run_for(3), Ok(()));
    assert_eq!(t.register(1), 2);
    assert_eq!(t.ip(), 4);
}

#[test]
fn not_and_negate() {
    // mov r1, 1 ; not r1 ; mov r2, 1 ; neg r2 ; neg r3
    let mut s = machine_with(vec![0x81, 0x01, 0x00, 0x11, 0x82, 0x01, 0x00, 0x22, 0x00, 0x23]);
    assert_eq!(s.run(), Ok(()));
    assert_eq!(s.register(1), 0xFFFE);
    assert_eq!(s.register(2), 0xFFFF);
    assert_eq!(s.register(3), 0);
    assert_eq!(s.flags(), 0);
}

#[test]
fn increment_and_decrement_wrap() {
    // dec r1 ; inc r2 ; dec r2 ; dec r2
    let mut s = machine_with(vec![0x00, 0x61, 0x00, 0x52, 0x00, 0x62, 0x00, 0x62]);
    assert_eq!(s.step(), Ok(true));
    assert_eq!(s.register(1), 0xFFFF);
    assert_eq!(s.run(), Ok(()));
    assert_eq!(s.register(2), 0xFFFF);
    s.set_register(16, 2);
    assert_eq!(s.step(), Ok(true));
    assert_eq!(s.register(2), 0);
}

#[test]
fn push_and_pop_of_the_stack_pointer_itself() {
    // push r15 ; pop r15
    let mut s = machine_with(vec![0x00, 0x3f, 0x00, 0x4f]);
    s.set_register(15, 0x2000);
    assert_eq!(s.step(), Ok(true));
    assert_eq!(s.register(15), 0x1FFE);
    assert_eq!(s.read_16(0x1FFE), 0x2000);
    s.write_16(0x1FFE, 0x0abc);
    assert_eq!(s.step(), Ok(true));
    assert_eq!(s.register(15), 0x0abc);
}

#[test]
fn register_operation_writes_result_and_flags() {
    // mov r1, 5 ; mov r2, 8 ; sub r1, r2
    let mut s = machine_with(vec![0x81, 0x05, 0x82, 0x08, 0x02, 0x12]);
    assert_eq!(s.run(), Ok(()));
    assert_eq!(s.register(1), 0xFFFD);
    assert_eq!(s.register(2), 8);
    assert_eq!(s.flags(), SF | CF);
    assert!(s.sf());
    assert!(s.cf());
    assert!(!s.zf());
    assert!(!s.of());
    assert!(!s.ef());
}

#[test]
fn compare_instruction_leaves_destination() {
    // mov r1, 5 ; mov r2, 5 ; cmp r1, r2
    let mut s = machine_with(vec![0x81, 0x05, 0x82, 0x05, 0x0b, 0x12]);
    assert_eq!(s.run(), Ok(()));
    assert_eq!(s.register(1), 5);
    assert_eq!(s.register(2), 5);
    assert_eq!(s.flags(), ZF);
    assert!(s.zf());
}

#[test]
fn unknown_alu_code_is_a_soft_failure() {
    // mov r1, 9 ; op 12 r1, r1 ; mov r2, 3
    let mut s = machine_with(vec![0x81, 0x09, 0x0c, 0x11, 0x82, 0x03]);
    assert_eq!(s.run(), Ok(()));
    assert_eq!(s.register(1), 0);
    assert_eq!(s.register(2), 3);
    assert_eq!(s.flags(), EF);
    assert!(s.ef());
}

#[test]
fn immediate_operation_uses_four_bit_operand() {
    // mov r1, 0xf0 ; add r1, 15 ; (op 0) r2, 1
    let mut s = machine_with(vec![0x81, 0xf0, 0x21, 0x1f, 0x20, 0x21]);
    assert_eq!(s.step(), Ok(true));
    assert_eq!(s.step(), Ok(true));
    assert_eq!(s.register(1), 0xff);
    assert_eq!(s.flags(), 0);
    assert_eq!(s.step(), Ok(true));
    assert_eq!(s.register(2), 0);
    assert_eq!(s.flags(), EF);
}

#[test]
fn add_with_carry_reads_the_flag_register() {
    // adc r1, r2
    let mut s = machine_with(vec![0x09, 0x12]);
    s.set_register(1, 3);
    s.set_register(2, 5);
    s.set_register(17, CF);
    assert_eq!(s.run(), Ok(()));
    assert_eq!(s.register(1), 9);
    assert_eq!(s.flags(), 0);
}

#[test]
fn absolute_jump_register_direct() {
    // mov r1, 6 ; jmp r1 ; mov r2, 1 ; mov r3, 7
    let mut s = machine_with(vec![0x81, 0x06, 0x1d, 0x10, 0x82, 0x01, 0x83, 0x07]);
    assert_eq!(s.run(), Ok(()));
    assert_eq!(s.register(2), 0);
    assert_eq!(s.register(3), 7);
    assert_eq!(s.ip(), 8);
}

#[test]
fn absolute_jump_register_indirect() {
    // mov r1, 8 ; jmp [r1] ; mov r2, 1 ; halt ; (data: 10) ; mov r3, 9
    let mut s = machine_with(vec![
        0x81, 0x08, 0x1d, 0x11, 0x82, 0x01, 0x00, 0x00, 0x00, 0x0a, 0x83, 0x09,
    ]);
    assert_eq!(s.run(), Ok(()));
    assert_eq!(s.register(2), 0);
    assert_eq!(s.register(3), 9);
    assert_eq!(s.ip(), 12);
}

#[test]
fn absolute_jump_immediate() {
    // jmp 8 ; mov r1, 1 ; halt ; mov r2, 5
    let mut s = machine_with(vec![0x1d, 0x02, 0x00, 0x08, 0x81, 0x01, 0x00, 0x00, 0x82, 0x05]);
    assert_eq!(s.run(), Ok(()));
    assert_eq!(s.register(1), 0);
    assert_eq!(s.register(2), 5);
    assert_eq!(s.ip(), 10);
}

#[test]
fn absolute_jump_not_taken_skips_its_immediate() {
    // je 8 ; mov r1, 1 ; halt ; mov r2, 5
    let mut s = machine_with(vec![0x19, 0x02, 0x00, 0x08, 0x81, 0x01, 0x00, 0x00, 0x82, 0x05]);
    assert_eq!(s.step(), Ok(true));
    assert_eq!(s.ip(), 4);
    assert_eq!(s.run(), Ok(()));
    assert_eq!(s.register(1), 1);
    assert_eq!(s.register(2), 0);
}

#[test]
fn relative_jump_backwards_and_not_taken() {
    // mov r1, 2 ; sub r1, 1 ; jne [ip - 4] ; mov r2, 9
    let mut s = machine_with(vec![0x81, 0x02, 0x22, 0x11, 0x3a, 0xfc, 0x82, 0x09]);
    assert_eq!(s.run(), Ok(()));
    assert_eq!(s.register(1), 0);
    assert_eq!(s.register(2), 9);
    assert_eq!(s.flags(), ZF);
    // fetches: mov, sub, jne (taken), sub, jne (not taken), mov, halt
    assert_eq!(s.events().len(), 7);
}

#[test]
fn relative_jump_wraps_around_memory() {
    // at 0xFFFE: jmp [ip + 2]; lands on address 2
    let mut s = machine_with(vec![0x81, 0x01, 0x82, 0x02]);
    s.write_16(0xFFFE, 0x3d02);
    s.set_register(16, 0xFFFE);
    assert_eq!(s.step(), Ok(true));
    assert_eq!(s.ip(), 2);
    assert_eq!(s.run(), Ok(()));
    assert_eq!(s.register(1), 0);
    assert_eq!(s.register(2), 2);
}

#[test]
fn should_jump_follows_the_condition_table() {
    let mut s = Simple::new();
    let taken = |s: &Simple| -> Vec<usize> { (0..16).filter(|c| s.should_jump(*c)).collect() };

    s.set_register(17, 0);
    assert_eq!(taken(&s), vec![1, 2, 5, 6, 8, 10, 12, 13]);
    s.set_register(17, ZF);
    assert_eq!(taken(&s), vec![2, 4, 6, 8, 9, 12, 13]);
    s.set_register(17, CF);
    assert_eq!(taken(&s), vec![3, 4, 5, 6, 8, 10, 12, 13]);
    s.set_register(17, SF | OF);
    assert_eq!(taken(&s), vec![1, 2, 5, 6, 8, 10, 11, 13]);
    s.set_register(17, SF | CF);
    assert_eq!(taken(&s), vec![3, 4, 7, 8, 10, 12, 13]);
    s.set_register(17, ZF | SF);
    assert_eq!(taken(&s), vec![2, 4, 7, 9, 12, 13]);
    s.set_register(17, OF);
    assert_eq!(taken(&s), vec![1, 2, 7, 8, 10, 11, 13]);
    s.set_register(17, EF);
    assert_eq!(taken(&s), vec![1, 2, 5, 6, 8, 10, 12, 13]);
    assert!(!s.should_jump(14));
    assert!(!s.should_jump(usize::MAX));
}

#[test]
fn indexed_load_and_store() {
    // mov r1, 0x40 ; mov r2, 2 ; mov r3, 0x77 ; mov [r1 + r2], r3 ; mov r4, [r1 + r2]
    let mut s = machine_with(vec![
        0x81, 0x40, 0x82, 0x02, 0x83, 0x77, 0x51, 0x32, 0x44, 0x12,
    ]);
    assert_eq!(s.run(), Ok(()));
    assert_eq!(s.read_16(0x42), 0x77);
    assert_eq!(s.memory(0x42), 0);
    assert_eq!(s.memory(0x43), 0x77);
    assert_eq!(s.register(4), 0x77);
}

#[test]
fn indexed_address_wraps() {
    // mov r4, [r1 + r2] with r1 + r2 = 0x10004
    let mut s = machine_with(vec![0x44, 0x12, 0x00, 0x00, 0xca, 0xfe]);
    s.set_register(1, 0xFFFF);
    s.set_register(2, 5);
    assert_eq!(s.run(), Ok(()));
    assert_eq!(s.register(4), 0xcafe);
}

#[test]
fn store_to_the_port_emits_the_value() {
    // mov r1, 0xff01 ; mov r2, 0x42 ; mov [r1 + r0], r2
    let mut s = machine_with(vec![0x91, 0x00, 0xff, 0x01, 0x82, 0x42, 0x51, 0x20]);
    assert_eq!(s.run(), Ok(()));
    assert_eq!(s.register(1), 0xFF01);
    assert_eq!(outputs(&s), vec![0x42]);
    assert_eq!(s.memory(0xFF01), 0);
    assert_eq!(s.memory(0xFF02), 0);
    // fetch, fetch, fetch, output, fetch of the halt
    assert_eq!(s.events().len(), 5);
    assert_eq!(s.events()[3], Event::Output { value: 0x42 });
}

#[test]
fn load_immediates() {
    // mov r1, 0xff ; mov r2, 0x1234 ; mov r3, 0
    let mut s = machine_with(vec![0x81, 0xff, 0x92, 0xab, 0x12, 0x34, 0x83, 0x00]);
    s.set_register(3, 9);
    assert_eq!(s.step(), Ok(true));
    assert_eq!(s.register(1), 0x00ff);
    assert_eq!(s.ip(), 2);
    assert_eq!(s.step(), Ok(true));
    assert_eq!(s.register(2), 0x1234);
    assert_eq!(s.ip(), 6);
    assert_eq!(s.run(), Ok(()));
    assert_eq!(s.register(3), 0);
}

#[test]
fn extended_move_reaches_all_banks() {
    // mov r1, r2 ; mov r33, r1 ; mov r3, r33 ; mov r17, r2
    let mut s = machine_with(vec![0xb1, 0x20, 0xb1, 0x18, 0xb3, 0x12, 0xb1, 0x24]);
    s.set_register(2, 0x0009);
    assert_eq!(s.run(), Ok(()));
    assert_eq!(s.register(1), 9);
    assert_eq!(s.register(33), 9);
    assert_eq!(s.register(3), 9);
    assert_eq!(s.flags(), 9);
    assert!(s.zf());
    assert!(s.sf());
}

#[test]
fn extended_move_into_the_instruction_pointer() {
    // mov r16, r1 with r1 = 6: execution goes on at 6 + 2
    let mut s = machine_with(vec![0xb0, 0x14, 0x82, 0x01, 0x83, 0x01, 0x84, 0x01, 0x85, 0x01]);
    s.set_register(1, 6);
    assert_eq!(s.step(), Ok(true));
    assert_eq!(s.ip(), 8);
    assert_eq!(s.run(), Ok(()));
    assert_eq!(s.register(2), 0);
    assert_eq!(s.register(3), 0);
    assert_eq!(s.register(4), 0);
    assert_eq!(s.register(5), 1);
}

#[test]
fn advance_ip_wraps() {
    let mut s = Simple::new();
    s.advance_ip(4);
    assert_eq!(s.ip(), 4);
    s.advance_ip(0xFFFE);
    assert_eq!(s.ip(), 2);
    s.advance_ip(0xFFFE);
    assert_eq!(s.ip(), 0);
}

#[test]
fn flag_getters_read_the_flag_register() {
    let mut s = Simple::new();
    assert!(!s.zf() && !s.cf() && !s.of() && !s.sf() && !s.ef());
    s.set_register(17, ZF | OF);
    assert!(s.zf() && !s.cf() && s.of() && !s.sf() && !s.ef());
    s.set_register(17, CF | SF | EF);
    assert!(!s.zf() && s.cf() && !s.of() && s.sf() && s.ef());
    s.set_register(17, 0xFFB0);
    assert!(!s.zf() && !s.cf() && !s.of() && !s.sf() && !s.ef());
    assert_eq!(s.flags(), 0xFFB0);
}
