use lrvm::assembler::{prepend_header, Assembler};
use lrvm::instruction::{Instruction, Opcode};
use lrvm::scheduler::Scheduler;
use lrvm::vm::{
    get_test_vm, Step, VMEventType, DEFAULT_HEAP_STARTING_SIZE, DIVISION_FAULT, JUMP_FAULT,
    REGISTER_FAULT, STEP_LIMIT, STRING_FAULT, TRUNCATED_INSTRUCTION, VM,
};

#[test]
fn test_create_hlt() {
    let opcode = Opcode::HLT;
    assert_eq!(opcode, Opcode::HLT);
}

#[test]
fn test_create_igl() {
    let opcode = Opcode::IGL;
    assert_eq!(opcode, Opcode::IGL);
}

#[test]
fn test_str_to_opcode() {
    let opcode = Opcode::from("hlt");
    assert_eq!(opcode, Opcode::HLT);
    let opcode = Opcode::from("illegal");
    assert_eq!(opcode, Opcode::IGL);
}

#[test]
fn test_make_scheduler() {
    let s = Scheduler::new();
    assert_eq!(s.next_pid, 0);
}

#[test]
fn test_create_vm() {
    let test_vm = VM::new();
    assert_eq!(test_vm.registers[0], 0);
}

#[test]
fn test_hlt_opcode() {
    let mut test_vm = VM::new();
    test_vm.program = vec![5, 0, 0, 0];
    test_vm.run_once();
    assert_eq!(test_vm.pc, 1);
}

#[test]
fn test_igl_opcode() {
    let mut test_vm = VM::new();
    let test_bytes = vec![200, 0, 0, 0];
    test_vm.program = test_bytes;
    test_vm.run_once();
    assert_eq!(test_vm.pc, 1);
}

#[test]
fn test_load_opcode() {
    let mut test_vm = VM::new();
    test_vm.program = vec![0, 0, 1, 244];
    test_vm.program = prepend_header(test_vm.program);
    test_vm.run();
    assert_eq!(test_vm.registers[0], 500);
}

#[test]
fn test_add_opcode() {
    let mut test_vm = get_test_vm();
    test_vm.program = vec![1, 0, 1, 2];
    test_vm.program = prepend_header(test_vm.program);
    test_vm.run();
    assert_eq!(test_vm.registers[2], 15);
}

#[test]
fn test_sub_opcode() {
    let mut test_vm = get_test_vm();
    test_vm.program = vec![2, 1, 0, 2];
    test_vm.program = prepend_header(test_vm.program);
    test_vm.run();
    assert_eq!(test_vm.registers[2], 5);
}

#[test]
fn test_mul_opcode() {
    let mut test_vm = get_test_vm();
    test_vm.program = vec![3, 0, 1, 2];
    test_vm.program = prepend_header(test_vm.program);
    test_vm.run();
    assert_eq!(
        test_vm.registers[2], 50,
        "test_vm.registers:{:?}",
        test_vm.registers
    );
}

#[test]
fn test_div_opcode() {
    let mut test_vm = get_test_vm();
    test_vm.program = vec![4, 1, 0, 2];
    test_vm.program = prepend_header(test_vm.program);
    test_vm.run();
    assert_eq!(test_vm.registers[2], 2);
}

#[test]
fn test_jmp_opcode() {
    let mut test_vm = get_test_vm();
    test_vm.registers[0] = 4;
    test_vm.program = vec![6, 0, 0, 0];
    test_vm.run_once();
    assert_eq!(test_vm.pc, 4);
}

#[test]
fn test_jmpf_opcode() {
    let mut test_vm = get_test_vm();
    test_vm.registers[0] = 2;
    test_vm.program = vec![7, 0, 0, 0, 5, 0, 0, 0];
    test_vm.run_once();
    assert_eq!(test_vm.pc, 4);
}

#[test]
fn test_jmpb_opcode() {
    let mut test_vm = get_test_vm();
    test_vm.registers[1] = 6;
    test_vm.program = vec![0, 0, 0, 10, 8, 1, 0, 0, 0];
    test_vm.run_once();
    assert_eq!(test_vm.pc, 4);
    test_vm.run_once();
    assert_eq!(test_vm.pc, 0);
}

#[test]
fn test_eq_opcode() {
    let mut test_vm = get_test_vm();
    test_vm.registers[0] = 6;
    test_vm.registers[1] = 6;
    test_vm.program = vec![9, 0, 1, 10, 9, 1, 0, 0, 0];
    test_vm.run_once();
    assert_eq!(test_vm.equal_flag, true);
    assert_eq!(test_vm.pc, 4);
    test_vm.registers[0] = 0;
    test_vm.run_once();
    assert_eq!(test_vm.equal_flag, false);
    assert_eq!(test_vm.pc, 8);
}

#[test]
fn test_jmpe_opcode() {
    let mut test_vm = get_test_vm();
    test_vm.equal_flag = true;
    test_vm.registers[0] = 7;
    test_vm.program = vec![15, 0, 0, 0, 17, 0, 0, 0, 17, 0, 0, 0];
    test_vm.run_once();
    assert_eq!(test_vm.equal_flag, true);
    assert_eq!(test_vm.pc, 7);
}

#[test]
fn test_neq_opcdoe() {
    let mut test_vm = get_test_vm();
    test_vm.registers[0] = 10;
    test_vm.registers[1] = 10;
    test_vm.program = vec![10, 1, 0, 22, 10, 0, 1, 0];
    test_vm.run_once();
    assert_eq!(test_vm.equal_flag, false);
    test_vm.registers[0] = 1;
    test_vm.run_once();
    assert_eq!(test_vm.equal_flag, true);
}

#[test]
fn test_gte_opcdoe() {
    let mut test_vm = get_test_vm();
    test_vm.registers[1] = 12;
    test_vm.registers[0] = 10;
    test_vm.program = vec![11, 1, 0, 22, 11, 1, 0, 0, 11, 1, 0, 0];
    test_vm.run_once();
    assert_eq!(test_vm.equal_flag, true);
    test_vm.registers[1] = 10;
    test_vm.run_once();
    assert_eq!(test_vm.equal_flag, true);
    test_vm.registers[1] = 1;
    test_vm.run_once();
    assert_eq!(test_vm.equal_flag, false);
}

#[test]
fn test_lte_opcdoe() {
    let mut test_vm = get_test_vm();
    test_vm.registers[1] = 10;
    test_vm.registers[0] = 12;
    test_vm.program = vec![12, 1, 0, 22, 12, 1, 0, 0, 12, 1, 0, 0];
    test_vm.run_once();
    assert_eq!(test_vm.equal_flag, true);
    test_vm.registers[0] = 10;
    test_vm.run_once();
    assert_eq!(test_vm.equal_flag, true);
    test_vm.registers[1] = 13;
    test_vm.run_once();
    assert_eq!(test_vm.equal_flag, false);
}

#[test]
fn test_lt_opcdoe() {
    let mut test_vm = get_test_vm();
    test_vm.registers[1] = 10;
    test_vm.registers[0] = 12;
    test_vm.program = vec![13, 1, 0, 22, 13, 1, 0, 0, 13, 1, 0, 0];
    test_vm.run_once();
    assert_eq!(test_vm.equal_flag, true);
    test_vm.registers[0] = 10;
    test_vm.run_once();
    assert_eq!(test_vm.equal_flag, false);
    test_vm.registers[1] = 13;
    test_vm.run_once();
    assert_eq!(test_vm.equal_flag, false);
}

#[test]
fn test_gt_opcdoe() {
    let mut test_vm = get_test_vm();
    test_vm.registers[1] = 12;
    test_vm.registers[0] = 10;
    test_vm.program = vec![14, 1, 0, 22, 14, 1, 0, 0, 14, 1, 0, 0];
    test_vm.run_once();
    assert_eq!(test_vm.equal_flag, true);
    test_vm.registers[1] = 10;
    test_vm.run_once();
    assert_eq!(test_vm.equal_flag, false);
    test_vm.registers[1] = 1;
    test_vm.run_once();
    assert_eq!(test_vm.equal_flag, false);
}

#[test]
fn test_aloc_opcode() {
    let mut test_vm = get_test_vm();
    test_vm.registers[0] = 1024;
    test_vm.program = vec![17, 0, 0, 0];
    test_vm.run_once();
    assert_eq!(test_vm.heap.len(), 1024 + DEFAULT_HEAP_STARTING_SIZE);
}

#[test]
fn test_prts_opcode() {
    let mut test_vm = get_test_vm();
    test_vm.ro_data.append(&mut vec![72, 101, 108, 108, 111, 0]);
    test_vm.program = vec![21, 0, 0, 0];
    test_vm.run_once();
}

#[test]
fn test_shl_opcode() {
    let mut test_vm = get_test_vm();
    test_vm.program = vec![33, 0, 0, 0];
    assert_eq!(5, test_vm.registers[0]);
    test_vm.run_once();
    assert_eq!(327680, test_vm.registers[0]);
}

#[test]
fn run_logs_start_and_stop() {
    let mut test_vm = get_test_vm();
    test_vm.program = prepend_header(vec![1, 0, 1, 2, 5, 0, 0, 0]);
    let events = test_vm.run();
    assert_eq!(events.len(), 2);
    assert_eq!(events[0].event, VMEventType::Start);
    assert_eq!(events[1].event, VMEventType::GracefulStop { code: 0 });
    assert_eq!(events[1].application_id, test_vm.id);
    assert_eq!(test_vm.registers[2], 15);
}

#[test]
fn sub_mul_div_after_run() {
    let mut test_vm = get_test_vm();
    test_vm.program = prepend_header(vec![2, 1, 0, 2]);
    test_vm.run();
    assert_eq!(test_vm.registers[2], 5);
    let mut test_vm = get_test_vm();
    test_vm.program = prepend_header(vec![3, 0, 1, 2]);
    test_vm.run();
    assert_eq!(test_vm.registers[2], 50);
    let mut test_vm = get_test_vm();
    test_vm.program = prepend_header(vec![4, 1, 0, 2]);
    test_vm.run();
    assert_eq!(test_vm.registers[2], 2);
    assert_eq!(test_vm.remainder, 0);
}

#[test]
fn wrong_header_crashes() {
    let mut test_vm = VM::new();
    test_vm.program = vec![1, 2, 3, 4];
    let events = test_vm.run();
    assert_eq!(events[0].event, VMEventType::Start);
    assert_eq!(events[1].event, VMEventType::Crash { code: 1 });
    assert_eq!(test_vm.pc, 0);
}

#[test]
fn running_off_the_end_stops_with_one() {
    let mut test_vm = VM::new();
    test_vm.program = prepend_header(vec![]);
    let events = test_vm.run();
    assert_eq!(events[1].event, VMEventType::GracefulStop { code: 1 });
}

#[test]
fn illegal_opcode_crashes_a_run() {
    let mut test_vm = VM::new();
    test_vm.program = prepend_header(vec![100, 0, 0, 0]);
    let events = test_vm.run();
    assert_eq!(events[1].event, VMEventType::Crash { code: 1 });
}

#[test]
fn division_by_zero_crashes() {
    let mut test_vm = get_test_vm();
    test_vm.registers[1] = 0;
    test_vm.program = vec![4, 0, 1, 2];
    assert_eq!(test_vm.run_once(), Step::Crash { code: DIVISION_FAULT });
    assert_eq!(test_vm.registers[2], 0);
    assert_eq!(test_vm.pc, 1);
}

#[test]
fn bad_jumps_crash() {
    let mut test_vm = get_test_vm();
    test_vm.registers[0] = -1;
    test_vm.program = vec![6, 0, 0, 0];
    assert_eq!(test_vm.run_once(), Step::Crash { code: JUMP_FAULT });
    let mut test_vm = get_test_vm();
    test_vm.registers[0] = 3;
    test_vm.program = vec![8, 0, 0, 0];
    assert_eq!(test_vm.run_once(), Step::Crash { code: JUMP_FAULT });
}

#[test]
fn bad_register_crashes() {
    let mut test_vm = get_test_vm();
    test_vm.program = vec![1, 0, 1, 40];
    assert_eq!(test_vm.run_once(), Step::Crash { code: REGISTER_FAULT });
}

#[test]
fn truncated_instruction_crashes() {
    let mut test_vm = get_test_vm();
    test_vm.program = vec![1, 0, 1];
    assert_eq!(
        test_vm.run_once(),
        Step::Crash {
            code: TRUNCATED_INSTRUCTION
        }
    );
}

#[test]
fn jmpe_without_flag_falls_through() {
    let mut test_vm = get_test_vm();
    test_vm.equal_flag = false;
    test_vm.registers[0] = 7;
    test_vm.program = vec![15, 0, 0, 0, 5, 0, 0, 0];
    assert_eq!(test_vm.run_once(), Step::Continue);
    assert_eq!(test_vm.pc, 4);
    assert_eq!(test_vm.run_once(), Step::Halt { code: 0 });
}

#[test]
fn aloc_adds_to_the_heap() {
    let mut test_vm = get_test_vm();
    test_vm.registers[0] = 1024;
    test_vm.program = vec![17, 0, 0, 0, 17, 0, 0, 0];
    test_vm.run_once();
    test_vm.run_once();
    assert_eq!(test_vm.heap.len(), 2048 + DEFAULT_HEAP_STARTING_SIZE);
    assert!(test_vm.heap.iter().all(|b| *b == 0));
}

#[test]
fn prts_writes_up_to_the_zero_byte() {
    let mut test_vm = get_test_vm();
    test_vm.ro_data = vec![72, 101, 108, 108, 111, 0, 33, 0];
    test_vm.program = vec![21, 0, 0, 0];
    assert_eq!(test_vm.run_once(), Step::Continue);
    assert_eq!(test_vm.output, "Hello");
    assert_eq!(test_vm.pc, 4);
}

#[test]
fn prts_without_terminator_crashes() {
    let mut test_vm = get_test_vm();
    test_vm.ro_data = vec![72, 105];
    test_vm.program = vec![21, 0, 0, 0];
    assert_eq!(test_vm.run_once(), Step::Crash { code: STRING_FAULT });
    assert_eq!(test_vm.output, "");
}

#[test]
fn prts_reports_bad_text() {
    let mut test_vm = get_test_vm();
    test_vm.ro_data = vec![0xff, 0xfe, 0];
    test_vm.program = vec![21, 0, 0, 0];
    assert_eq!(test_vm.run_once(), Step::Continue);
    assert_eq!(test_vm.output, "");
    assert_eq!(test_vm.print_errors, vec![0]);
}

#[test]
fn shift_right_by_sixteen() {
    let mut test_vm = get_test_vm();
    test_vm.registers[0] = 327680;
    test_vm.program = vec![34, 0, 0, 0, 34, 0, 0, 2];
    test_vm.run_once();
    assert_eq!(test_vm.registers[0], 5);
    test_vm.run_once();
    assert_eq!(test_vm.registers[0], 1);
}

#[test]
fn load_sign_extends() {
    let mut test_vm = VM::new();
    test_vm.program = vec![0, 3, 255, 251];
    test_vm.run_once();
    assert_eq!(test_vm.registers[3], -5);
}

#[test]
fn add_wraps() {
    let mut test_vm = get_test_vm();
    test_vm.registers[0] = i32::MAX;
    test_vm.registers[1] = 1;
    test_vm.program = vec![1, 0, 1, 2];
    test_vm.run_once();
    assert_eq!(test_vm.registers[2], i32::MIN);
}

#[test]
fn float_instruction_is_handed_out() {
    let mut test_vm = get_test_vm();
    test_vm.program = vec![23, 0, 1, 2];
    assert_eq!(
        test_vm.run_once(),
        Step::Float {
            opcode: Opcode::ADDF64,
            a: 0,
            b: 1,
            c: 2
        }
    );
    assert_eq!(test_vm.pc, 4);
}

#[test]
fn endless_loop_stops_at_the_limit() {
    let mut test_vm = VM::new();
    test_vm.program = prepend_header(vec![6, 0, 0, 0]);
    test_vm.registers[0] = 64;
    let events = test_vm.run_with_limit(10);
    assert_eq!(events[1].event, VMEventType::Crash { code: STEP_LIMIT });
}

#[test]
fn assembled_program_runs_and_prints() {
    let mut assembler = Assembler::new();
    let bytes = assembler
        .assemble(".data\nhello: .asciiz 'Hello'\n.code\nload $0 #-5\nprts @hello\nhlt")
        .unwrap();
    let mut test_vm = VM::new();
    test_vm.add_bytes(bytes);
    let events = test_vm.run();
    assert_eq!(events[1].event, VMEventType::GracefulStop { code: 0 });
    assert_eq!(test_vm.ro_data, vec![72, 101, 108, 108, 111, 0]);
    assert_eq!(test_vm.registers[0], -5);
    assert_eq!(test_vm.output, "Hello");
}

#[test]
fn assembled_shift_uses_its_amount() {
    let mut assembler = Assembler::new();
    let bytes = assembler
        .assemble(".data\n.code\nload $0 #5\nshl $0 #3\naloc $0\nshl $0\nhlt")
        .unwrap();
    let mut test_vm = VM::new();
    test_vm.add_bytes(bytes);
    let events = test_vm.run();
    assert_eq!(events[1].event, VMEventType::GracefulStop { code: 0 });
    assert_eq!(test_vm.heap.len(), DEFAULT_HEAP_STARTING_SIZE + 40);
    assert_eq!(test_vm.registers[0], 40 << 16);
}

#[test]
fn assembled_jmpe_falls_through_to_the_next_line() {
    let mut assembler = Assembler::new();
    let bytes = assembler
        .assemble(".data\n.code\nload $0 #1\nload $1 #2\neq $0 $1\njmpe $0\nload $2 #9\nhlt")
        .unwrap();
    let mut test_vm = VM::new();
    test_vm.add_bytes(bytes);
    let events = test_vm.run();
    assert_eq!(events[1].event, VMEventType::GracefulStop { code: 0 });
    assert_eq!(test_vm.registers[2], 9);
}

#[test]
fn assembled_program_runs_to_halt() {
    let mut assembler = Assembler::new();
    let bytes = assembler
        .assemble(".data\n.code\nload $0 #7\nload $1 #-2\nmul $0 $1 $2\nhlt")
        .unwrap();
    let mut test_vm = VM::new();
    test_vm.add_bytes(bytes);
    let events = test_vm.run();
    assert_eq!(events[1].event, VMEventType::GracefulStop { code: 0 });
    assert_eq!(test_vm.registers[2], -14);
}

#[test]
fn new_vm_identifier_is_version_four() {
    let test_vm = VM::new();
    assert_eq!((test_vm.id >> 76) & 0xf, 4);
    assert_eq!((test_vm.id >> 62) & 0x3, 2);
}

#[test]
fn opcode_bytes_round_trip() {
    for b in 0u8..=47 {
        let op = Opcode::from(b);
        let back: u8 = op.into();
        assert_eq!(back, b);
    }
    assert_eq!(Opcode::from(48u8), Opcode::IGL);
    let igl: u8 = Opcode::IGL.into();
    assert_eq!(igl, 100);
    assert_eq!(Instruction::new(Opcode::ADD).opcode, Opcode::ADD);
}

#[test]
fn alias_and_cluster_bind() {
    let vm = VM::new().with_alias(String::new());
    assert_eq!(vm.alias, None);
    let vm = vm
        .with_alias("node".to_string())
        .with_cluster_bind("127.0.0.1".to_string(), "65211".to_string());
    assert_eq!(vm.alias, Some("node".to_string()));
    assert_eq!(vm.server_addr, Some("127.0.0.1".to_string()));
    assert_eq!(vm.server_port, Some("65211".to_string()));
}
