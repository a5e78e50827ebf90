use synacor_vm::VM;

#[test]
fn disasm_renders_registers_and_literals() {
    let vm = VM::from_code(&[9, 32768, 32769, 4, 19, 32768, 0, 1, 12345, 32775, 18, 22]);
    assert_eq!(vm.disasm(0), "ADD r0 r1 4");
    assert_eq!(vm.disasm(4), "OUT r0");
    assert_eq!(vm.disasm(6), "HALT");
    assert_eq!(vm.disasm(7), "SET 12345 r7");
    assert_eq!(vm.disasm(10), "RET");
    assert_eq!(vm.disasm(11), "??");
    assert_eq!(vm.instruction_size(0), 4);
    assert_eq!(vm.instruction_size(11), 1);
}

#[test]
fn disasm_renders_large_and_zero_operands() {
    let vm = VM::from_code(&[16, 0, 65535, 7, 32776, 10]);
    assert_eq!(vm.disasm(0), "WMEM 0 65535");
    assert_eq!(vm.disasm(3), "JT 32776 10");
}

#[test]
fn length_agrees_with_rendered_operands() {
    let names = [
        "HALT", "SET", "PUSH", "POP", "EQ", "GT", "JMP", "JT", "JF", "ADD", "MUL", "MOD", "AND",
        "OR", "NOT", "RMEM", "WMEM", "CALL", "RET", "OUT", "IN", "NOP",
    ];
    let lengths = [1, 3, 2, 2, 4, 4, 2, 3, 3, 4, 4, 4, 4, 4, 3, 3, 3, 2, 1, 2, 2, 1];
    for op in 0..24u16 {
        let vm = VM::from_code(&[op, 32768, 7, 32775]);
        let text = vm.disasm(0);
        let size = vm.instruction_size(0);
        let parts: Vec<&str> = text.split(' ').collect();
        assert_eq!(parts.len(), size);
        if (op as usize) < names.len() {
            assert_eq!(parts[0], names[op as usize]);
            assert_eq!(size, lengths[op as usize]);
        } else {
            assert_eq!(text, "??");
            assert_eq!(size, 1);
        }
    }
}
