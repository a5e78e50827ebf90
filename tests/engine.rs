use synacor_vm::{Interrupt, VmError, VM};

fn run_until_halt(vm: &mut VM) -> String {
    let mut out = String::new();
    for _ in 0..1000 {
        match vm.step() {
            Ok(Interrupt::OUT(ch)) => out.push(ch),
            Ok(Interrupt::HALT) => return out,
            Ok(_) => {}
            Err(e) => panic!("step failed: {:?}", e),
        }
    }
    panic!("program did not halt");
}

#[test]
fn set_register_literal_then_out() {
    let mut vm = VM::from_code(&[1, 32768, 5, 19, 32768, 1, 32771, 32767, 0]);
    assert_eq!(vm.step(), Ok(Interrupt::NONE));
    assert_eq!(vm.registers()[0], 5);
    assert_eq!(vm.step(), Ok(Interrupt::OUT('\u{5}')));
    assert_eq!(vm.step(), Ok(Interrupt::NONE));
    assert_eq!(vm.registers()[3], 32767);
    assert_eq!(vm.step(), Ok(Interrupt::HALT));
}

#[test]
fn add_register_and_literal_outputs_e() {
    let mut vm = VM::from_code(&[9, 32768, 32769, 4, 19, 32768, 0]);
    vm.set_register(1, 65);
    assert_eq!(run_until_halt(&mut vm), "E");
    assert_eq!(vm.registers()[0], 69);
}

fn alu(op: u16, b: u16, c: u16) -> u16 {
    let mut vm = VM::from_code(&[op, 100, b, c, 0]);
    assert_eq!(vm.step(), Ok(Interrupt::NONE));
    assert_eq!(vm.ip(), 4);
    vm.ram()[100]
}

#[test]
fn arithmetic_wraps_modulo_32768() {
    assert_eq!(alu(9, 32767, 32767), 32766);
    assert_eq!(alu(9, 32760, 15), 7);
    assert_eq!(alu(9, 2, 3), 5);
    assert_eq!(alu(10, 32767, 32767), 1);
    assert_eq!(alu(10, 300, 200), 27232);
    assert_eq!(alu(11, 32767, 10), 7);
    assert_eq!(alu(12, 0b1100, 0b1010), 0b1000);
    assert_eq!(alu(13, 0b1100, 0b1010), 0b1110);
    assert_eq!(alu(4, 7, 7), 1);
    assert_eq!(alu(4, 7, 8), 0);
    assert_eq!(alu(5, 8, 7), 1);
    assert_eq!(alu(5, 7, 8), 0);
}

#[test]
fn not_is_fifteen_bit_complement() {
    let mut vm = VM::from_code(&[14, 100, 0, 14, 101, 21845, 14, 102, 32767, 0]);
    for _ in 0..3 {
        assert_eq!(vm.step(), Ok(Interrupt::NONE));
    }
    let ram = vm.ram();
    assert_eq!(ram[100], 32767);
    assert_eq!(ram[101], 10922);
    assert_eq!(ram[102], 0);
}

#[test]
fn not_of_wide_register_content_stays_in_fifteen_bits() {
    let mut vm = VM::from_code(&[14, 32768, 32769, 0]);
    vm.set_register(1, 40000);
    assert_eq!(vm.step(), Ok(Interrupt::NONE));
    assert_eq!(vm.registers()[0], (!40000u16) & 0x7fff);
}

#[test]
fn pop_on_empty_stack_underflows() {
    let mut vm = VM::from_code(&[3, 32768, 0]);
    assert_eq!(vm.step(), Err(VmError::StackUnderflow));
    assert_eq!(vm.ip(), 0);
    assert_eq!(vm.registers(), vec![0; 8]);
}

#[test]
fn ret_on_empty_stack_underflows() {
    let mut vm = VM::from_code(&[18]);
    assert_eq!(vm.step(), Err(VmError::StackUnderflow));
    assert_eq!(vm.ip(), 0);
    assert!(vm.stack().is_empty());
}

#[test]
fn push_pop_round_trip() {
    let mut vm = VM::from_code(&[2, 1234, 2, 32768, 3, 32769, 3, 32770, 0]);
    vm.set_register(0, 40000);
    for _ in 0..2 {
        assert_eq!(vm.step(), Ok(Interrupt::NONE));
    }
    assert_eq!(vm.stack(), vec![1234, 40000]);
    for _ in 0..2 {
        assert_eq!(vm.step(), Ok(Interrupt::NONE));
    }
    assert_eq!(vm.registers()[1], 40000);
    assert_eq!(vm.registers()[2], 1234);
    assert!(vm.stack().is_empty());
}

#[test]
fn jt_resolves_condition_through_register() {
    let mut vm = VM::from_code(&[7, 32768, 500]);
    vm.set_register(0, 1);
    assert_eq!(vm.step(), Ok(Interrupt::NONE));
    assert_eq!(vm.ip(), 500);

    let mut vm = VM::from_code(&[7, 32768, 500]);
    assert_eq!(vm.step(), Ok(Interrupt::NONE));
    assert_eq!(vm.ip(), 3);
}

#[test]
fn jf_resolves_condition_through_register() {
    let mut vm = VM::from_code(&[8, 32768, 500]);
    assert_eq!(vm.step(), Ok(Interrupt::NONE));
    assert_eq!(vm.ip(), 500);

    let mut vm = VM::from_code(&[8, 32768, 500]);
    vm.set_register(0, 9);
    assert_eq!(vm.step(), Ok(Interrupt::NONE));
    assert_eq!(vm.ip(), 3);
}

#[test]
fn jump_target_word_is_raw() {
    let mut vm = VM::from_code(&[7, 32768, 32769]);
    vm.set_register(0, 1);
    vm.set_register(1, 42);
    assert_eq!(vm.step(), Ok(Interrupt::NONE));
    assert_eq!(vm.ip(), 32769);
}

#[test]
fn jmp_resolves_register_target() {
    let mut vm = VM::from_code(&[6, 32769]);
    vm.set_register(1, 42);
    assert_eq!(vm.step(), Ok(Interrupt::NONE));
    assert_eq!(vm.ip(), 42);
}

#[test]
fn call_and_ret() {
    let mut vm = VM::from_code(&[17, 10, 0, 0, 0, 0, 0, 0, 0, 0, 18]);
    assert_eq!(vm.step(), Ok(Interrupt::NONE));
    assert_eq!(vm.ip(), 10);
    assert_eq!(vm.stack(), vec![2]);
    assert_eq!(vm.step(), Ok(Interrupt::NONE));
    assert_eq!(vm.ip(), 2);
    assert!(vm.stack().is_empty());
    assert_eq!(vm.step(), Ok(Interrupt::HALT));
}

#[test]
fn rmem_and_wmem() {
    let mut vm = VM::from_code(&[16, 200, 77, 15, 32768, 200, 16, 32769, 32770, 0]);
    vm.set_register(1, 300);
    vm.set_register(2, 5);
    for _ in 0..3 {
        assert_eq!(vm.step(), Ok(Interrupt::NONE));
    }
    let ram = vm.ram();
    assert_eq!(ram[200], 77);
    assert_eq!(vm.registers()[0], 77);
    assert_eq!(ram[300], 5);
}

#[test]
fn in_asks_for_input_at_address() {
    let mut vm = VM::from_code(&[20, 32770, 19, 32770, 0]);
    assert_eq!(vm.step(), Ok(Interrupt::IN(32770)));
    vm.input(32770, 'x' as u16);
    assert_eq!(vm.registers()[2], 'x' as u16);
    assert_eq!(run_until_halt(&mut vm), "x");
}

#[test]
fn nop_and_unknown_opcode() {
    let mut vm = VM::from_code(&[21, 22]);
    assert_eq!(vm.step(), Ok(Interrupt::NONE));
    assert_eq!(vm.ip(), 1);
    assert_eq!(vm.step(), Ok(Interrupt::HALT));
    assert_eq!(vm.ip(), 2);
}

#[test]
fn out_of_surrogate_is_invalid_character() {
    let mut vm = VM::from_code(&[19, 32768]);
    vm.set_register(0, 0xD800);
    assert_eq!(vm.step(), Err(VmError::InvalidCharacter(0xD800)));
    assert_eq!(vm.ip(), 0);
}

#[test]
fn out_emits_character_code() {
    let mut vm = VM::from_code(&[19, 72, 19, 32768, 0]);
    vm.set_register(0, 0x263A);
    assert_eq!(run_until_halt(&mut vm), "H\u{263A}");
}

#[test]
fn mod_by_zero_fails() {
    let mut vm = VM::from_code(&[11, 100, 5, 0]);
    assert_eq!(vm.step(), Err(VmError::DivisionByZero));
    assert_eq!(vm.ip(), 0);
}

#[test]
fn operand_outside_memory_fails() {
    let mut vm = VM::from_code(&[1, 40000, 1]);
    assert_eq!(vm.step(), Err(VmError::AddressOutOfRange));
    let mut vm = VM::from_code(&[2, 32776]);
    assert_eq!(vm.step(), Err(VmError::AddressOutOfRange));
    let mut vm = VM::from_code(&[]);
    vm.set_ip(40000);
    assert_eq!(vm.step(), Err(VmError::AddressOutOfRange));
    assert_eq!(vm.ip(), 40000);
}

#[test]
fn instruction_cut_by_end_of_memory_fails() {
    let mut vm = VM::from_code(&[]);
    vm.set_register(7, 9);
    vm.set_ip(32775);
    assert_eq!(vm.step(), Err(VmError::AddressOutOfRange));
}

#[test]
fn load_truncates_and_counts_words() {
    let code: Vec<u16> = (0..32770u32).map(|i| (i % 7) as u16).collect();
    let vm = VM::from_code(&code);
    assert_eq!(vm.word_count(), 32768);
    assert_eq!(vm.ram().len(), 32768);
    assert_eq!(vm.ram()[32767], (32767 % 7) as u16);
    assert_eq!(vm.registers(), vec![0; 8]);

    let vm = VM::from_code(&[1, 2, 3]);
    assert_eq!(vm.word_count(), 3);
    assert_eq!(vm.ip(), 0);
}

#[test]
fn new_decodes_bytes() {
    let mut vm = VM::new(&[19, 0, 65, 0, 0, 0, 9]);
    assert_eq!(vm.word_count(), 3);
    assert_eq!(run_until_halt(&mut vm), "A");
}

#[test]
fn debug_setters() {
    let mut vm = VM::from_code(&[2, 5, 0]);
    assert_eq!(vm.step(), Ok(Interrupt::NONE));
    vm.set_stack(0, 9);
    assert_eq!(vm.stack(), vec![9]);
    vm.set_ram(7, 99);
    assert_eq!(vm.peek(7), 99);
    vm.set_ram(32775, 3);
    assert_eq!(vm.registers()[7], 3);
    vm.set_ip(2);
    assert_eq!(vm.step(), Ok(Interrupt::HALT));
}
