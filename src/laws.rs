use vstd::prelude::*;

use crate::disasm::{decimal, digit_char, disassembly, label, mnemonic, operands_text};
use crate::semantics::{
    alu, complement15, instruction_length, is_failure, is_location, is_register, next,
    operand_count, Effect, MachineView, MEMORY_SIZE,
};

verus! {

/// Number of space characters in `s`.
pub open spec fn spaces(s: Seq<char>) -> nat
    decreases s.len(),
{
    if s.len() == 0 {
        0
    } else {
        spaces(s.drop_last()) + if s.last() == ' ' { 1nat } else { 0nat }
    }
}

proof fn lemma_spaces_concat(a: Seq<char>, b: Seq<char>)
    ensures
        spaces(a + b) == spaces(a) + spaces(b),
    decreases b.len(),
{
    if b.len() == 0 {
        assert(a + b =~= a);
    } else {
        assert((a + b).drop_last() =~= a + b.drop_last());
        assert((a + b).last() == b.last());
        lemma_spaces_concat(a, b.drop_last());
    }
}

proof fn lemma_spaces_none(s: Seq<char>)
    requires
        forall|i: int| 0 <= i < s.len() ==> s[i] != ' ',
    ensures
        spaces(s) == 0,
    decreases s.len(),
{
    if s.len() > 0 {
        lemma_spaces_none(s.drop_last());
    }
}

proof fn lemma_digit_not_space(d: nat)
    requires
        d < 10,
    ensures
        digit_char(d) != ' ',
{
    let ds = seq!['0', '1', '2', '3', '4', '5', '6', '7', '8', '9'];
    assert(ds[d as int] != ' ');
}

proof fn lemma_decimal_no_spaces(n: nat)
    ensures
        spaces(decimal(n)) == 0,
    decreases n,
{
    lemma_digit_not_space(n % 10);
    if n < 10 {
        lemma_spaces_none(decimal(n));
    } else {
        lemma_decimal_no_spaces(n / 10);
        let s = decimal(n / 10).push(digit_char(n % 10));
        assert(s.drop_last() =~= decimal(n / 10));
    }
}

proof fn lemma_label_no_spaces(w: u16)
    ensures
        spaces(label(w)) == 0,
{
    if is_register(w) {
        lemma_digit_not_space((w - 32768) as nat);
        lemma_spaces_none(label(w));
    } else {
        lemma_decimal_no_spaces(w as nat);
    }
}

proof fn lemma_mnemonic_no_spaces(op: u16)
    ensures
        spaces(mnemonic(op)) == 0,
{
    reveal_strlit("HALT");
    reveal_strlit("SET");
    reveal_strlit("PUSH");
    reveal_strlit("POP");
    reveal_strlit("EQ");
    reveal_strlit("GT");
    reveal_strlit("JMP");
    reveal_strlit("JT");
    reveal_strlit("JF");
    reveal_strlit("ADD");
    reveal_strlit("MUL");
    reveal_strlit("MOD");
    reveal_strlit("AND");
    reveal_strlit("OR");
    reveal_strlit("NOT");
    reveal_strlit("RMEM");
    reveal_strlit("WMEM");
    reveal_strlit("CALL");
    reveal_strlit("RET");
    reveal_strlit("OUT");
    reveal_strlit("IN");
    reveal_strlit("NOP");
    reveal_strlit("??");
    lemma_spaces_none(mnemonic(op));
}

proof fn lemma_operands_spaces(memory: Seq<u16>, addr: int, n: nat)
    ensures
        spaces(operands_text(memory, addr, n)) == n,
    decreases n,
{
    if n > 0 {
        let prev = operands_text(memory, addr, (n - 1) as nat);
        lemma_operands_spaces(memory, addr, (n - 1) as nat);
        assert(prev.push(' ').drop_last() =~= prev);
        lemma_label_no_spaces(memory[addr + n]);
        lemma_spaces_concat(prev.push(' '), label(memory[addr + n]));
    }
}

/// The disassembly of any instruction shows one operand, each after a space,
/// for every word of the instruction past its opcode: the rendered operand count
/// is the instruction length less one, for every opcode and unknown ones too.
pub proof fn lemma_disassembly_matches_length(memory: Seq<u16>, addr: int)
    requires
        0 <= addr < memory.len(),
    ensures
        spaces(disassembly(memory, addr)) + 1 == instruction_length(memory[addr]),
{
    let op = memory[addr];
    lemma_mnemonic_no_spaces(op);
    lemma_operands_spaces(memory, addr, operand_count(op));
    lemma_spaces_concat(mnemonic(op), operands_text(memory, addr, operand_count(op)));
}

/// A failed step leaves the machine exactly as it was.
pub proof fn lemma_failure_keeps_state(m: MachineView)
    ensures
        is_failure(next(m).1) ==> next(m).0 == m,
{
}

/// `SET` of a register to a literal stores exactly that literal in the register
/// and moves on to the next instruction.
pub proof fn lemma_set_register_literal(m: MachineView, r: u16, v: u16)
    requires
        m.memory.len() == MEMORY_SIZE,
        0 <= m.ip,
        m.ip + 3 <= MEMORY_SIZE,
        m.memory[m.ip] == 1,
        m.memory[m.ip + 1] == r,
        m.memory[m.ip + 2] == v,
        is_register(r),
        v < 32768,
    ensures
        next(m).1 == Effect::Continue,
        next(m).0 == (MachineView { memory: m.memory.update(r as int, v), ip: m.ip + 3, ..m }),
{
}

/// Over literal operands (0 to 32767), the arithmetic opcodes compute modulo
/// 32768 and every result is again a literal; `NOT` is the bitwise complement
/// masked to 15 bits, and undoes itself.
pub proof fn lemma_arithmetic(b: u16, c: u16)
    requires
        b < 32768,
        c < 32768,
    ensures
        alu(9, b, c) == (b + c) % 32768,
        alu(10, b, c) == (b * c) % 32768,
        c != 0 ==> alu(11, b, c) == b % c,
        alu(12, b, c) == b & c,
        alu(13, b, c) == b | c,
        alu(9, b, c) < 32768,
        alu(10, b, c) < 32768,
        c != 0 ==> alu(11, b, c) < 32768,
        alu(12, b, c) < 32768,
        alu(13, b, c) < 32768,
        complement15(b) == (!b) & 0x7fffu16,
        complement15(b) + b == 32767,
        complement15(complement15(b)) == b,
        alu(9, 32767, 32767) == 32766,
        alu(10, 32767, 32767) == 1,
{
    assert(b * c <= 32767 * 32767) by (nonlinear_arith)
        requires b < 32768, c < 32768;
    assert((b & c) < 32768u16) by (bit_vector)
        requires b < 32768u16, c < 32768u16;
    assert((b | c) < 32768u16) by (bit_vector)
        requires b < 32768u16, c < 32768u16;
    assert(((!b) & 0x7fffu16) == 32767u16 - b) by (bit_vector)
        requires b < 32768u16;
    assert(32767 * 32767 == 1073676289);
}

/// `POP` (to a location) and `RET` on an empty stack fail with stack underflow
/// and change nothing.
pub proof fn lemma_empty_stack_underflows(m: MachineView)
    requires
        m.memory.len() == MEMORY_SIZE,
        m.stack.len() == 0,
        0 <= m.ip,
        (m.memory[m.ip] == 18 && m.ip < MEMORY_SIZE) || (m.memory[m.ip] == 3 && m.ip + 2
            <= MEMORY_SIZE && is_location(m.memory[m.ip + 1])),
    ensures
        next(m) == (m, Effect::Underflow),
{
}

/// `JT` and `JF` read their condition through the register it names, and jump to
/// the raw target word, never to a register's content.
pub proof fn lemma_conditional_jump(m: MachineView, r: u16, target: u16)
    requires
        m.memory.len() == MEMORY_SIZE,
        0 <= m.ip,
        m.ip + 3 <= MEMORY_SIZE,
        m.memory[m.ip] == 7 || m.memory[m.ip] == 8,
        m.memory[m.ip + 1] == r,
        m.memory[m.ip + 2] == target,
        is_register(r),
    ensures
        next(m).1 == Effect::Continue,
        next(m).0 == (MachineView {
            ip: if (m.memory[m.ip] == 7) == (m.memory[r as int] != 0) {
                target as int
            } else {
                m.ip + 3
            },
            ..m
        }),
{
}

} // verus!
