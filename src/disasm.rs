use vstd::prelude::*;

use crate::engine::instruction_length_of;
use crate::machine::VM;
use crate::semantics::{instruction_length, is_register, operand_count, ADDRESS_SPACE, MEMORY_SIZE};

verus! {

/// The character of a decimal digit.
pub open spec fn digit_char(d: nat) -> char {
    seq!['0', '1', '2', '3', '4', '5', '6', '7', '8', '9'][d as int]
}

/// The decimal numeral of `n`, without leading zeros.
pub open spec fn decimal(n: nat) -> Seq<char>
    decreases n,
{
    if n < 10 {
        seq![digit_char(n)]
    } else {
        decimal(n / 10).push(digit_char(n % 10))
    }
}

/// How an operand word is rendered: `r0` to `r7` for register selectors, the
/// decimal numeral otherwise.
pub open spec fn label(w: u16) -> Seq<char> {
    if is_register(w) {
        seq!['r', digit_char((w - ADDRESS_SPACE) as nat)]
    } else {
        decimal(w as nat)
    }
}

/// The mnemonic of an opcode; `??` for one outside the table.
pub open spec fn mnemonic(op: u16) -> Seq<char> {
    if op == 0 { "HALT"@ }
    else if op == 1 { "SET"@ }
    else if op == 2 { "PUSH"@ }
    else if op == 3 { "POP"@ }
    else if op == 4 { "EQ"@ }
    else if op == 5 { "GT"@ }
    else if op == 6 { "JMP"@ }
    else if op == 7 { "JT"@ }
    else if op == 8 { "JF"@ }
    else if op == 9 { "ADD"@ }
    else if op == 10 { "MUL"@ }
    else if op == 11 { "MOD"@ }
    else if op == 12 { "AND"@ }
    else if op == 13 { "OR"@ }
    else if op == 14 { "NOT"@ }
    else if op == 15 { "RMEM"@ }
    else if op == 16 { "WMEM"@ }
    else if op == 17 { "CALL"@ }
    else if op == 18 { "RET"@ }
    else if op == 19 { "OUT"@ }
    else if op == 20 { "IN"@ }
    else if op == 21 { "NOP"@ }
    else { "??"@ }
}

/// The first `n` operands after `addr`, each as a space and its label.
pub open spec fn operands_text(memory: Seq<u16>, addr: int, n: nat) -> Seq<char>
    decreases n,
{
    if n == 0 {
        Seq::empty()
    } else {
        operands_text(memory, addr, (n - 1) as nat).push(' ') + label(memory[addr + n])
    }
}

/// The text of the instruction at `addr`: its mnemonic and its operands.
pub open spec fn disassembly(memory: Seq<u16>, addr: int) -> Seq<char> {
    mnemonic(memory[addr]) + operands_text(memory, addr, operand_count(memory[addr]))
}

/// Relies on `String::push`: appends one character.
#[verifier::external_body]
fn push_char(s: &mut String, c: char)
    ensures
        final(s)@ == old(s)@.push(c),
{
    s.push(c);
}

/// The character of the digit `d`.
fn digit_of(d: u16) -> (r: char)
    requires
        d < 10,
    ensures
        r == digit_char(d as nat),
{
    if d == 0 { '0' }
    else if d == 1 { '1' }
    else if d == 2 { '2' }
    else if d == 3 { '3' }
    else if d == 4 { '4' }
    else if d == 5 { '5' }
    else if d == 6 { '6' }
    else if d == 7 { '7' }
    else if d == 8 { '8' }
    else { '9' }
}

/// Appends the decimal numeral of `n`.
fn push_decimal(s: &mut String, n: u16)
    ensures
        final(s)@ == old(s)@ + decimal(n as nat),
    decreases n,
{
    if n >= 10 {
        push_decimal(s, n / 10);
    }
    push_char(s, digit_of(n % 10));
    assert(final(s)@ =~= old(s)@ + decimal(n as nat));
}

/// Appends the label of operand word `w`.
fn push_label(s: &mut String, w: u16)
    ensures
        final(s)@ == old(s)@ + label(w),
{
    if w >= ADDRESS_SPACE as u16 && w < MEMORY_SIZE as u16 {
        push_char(s, 'r');
        push_char(s, digit_of(w - ADDRESS_SPACE as u16));
        assert(final(s)@ =~= old(s)@ + label(w));
    } else {
        push_decimal(s, w);
    }
}

/// The mnemonic of `op`.
fn mnemonic_of(op: u16) -> (r: &'static str)
    ensures
        r@ == mnemonic(op),
{
    if op == 0 { "HALT" }
    else if op == 1 { "SET" }
    else if op == 2 { "PUSH" }
    else if op == 3 { "POP" }
    else if op == 4 { "EQ" }
    else if op == 5 { "GT" }
    else if op == 6 { "JMP" }
    else if op == 7 { "JT" }
    else if op == 8 { "JF" }
    else if op == 9 { "ADD" }
    else if op == 10 { "MUL" }
    else if op == 11 { "MOD" }
    else if op == 12 { "AND" }
    else if op == 13 { "OR" }
    else if op == 14 { "NOT" }
    else if op == 15 { "RMEM" }
    else if op == 16 { "WMEM" }
    else if op == 17 { "CALL" }
    else if op == 18 { "RET" }
    else if op == 19 { "OUT" }
    else if op == 20 { "IN" }
    else if op == 21 { "NOP" }
    else { "??" }
}

impl VM {
    /// Number of words of the instruction at `addr`.
    pub fn instruction_size(&self, addr: usize) -> (r: usize)
        requires
            self.wf(),
            addr < MEMORY_SIZE,
        ensures
            r == instruction_length(self@.memory[addr as int]),
    {
        instruction_length_of(self.peek(addr))
    }

    /// The mnemonic text of the instruction at `addr`, e.g. `ADD r0 r1 4`.
    pub fn disasm(&self, addr: usize) -> (r: String)
        requires
            self.wf(),
            addr < MEMORY_SIZE,
            addr + instruction_length(self@.memory[addr as int]) <= MEMORY_SIZE,
        ensures
            r@ == disassembly(self@.memory, addr as int),
    {
        let op = self.peek(addr);
        let n: usize = instruction_length_of(op) - 1;
        let mut s = String::new();
        s.append(mnemonic_of(op));
        let mut k: usize = 0;
        while k < n
            invariant
                self.wf(),
                op == self@.memory[addr as int],
                n == operand_count(op),
                addr + n < MEMORY_SIZE,
                k <= n,
                s@ == mnemonic(op) + operands_text(self@.memory, addr as int, k as nat),
            decreases n - k,
        {
            k = k + 1;
            push_char(&mut s, ' ');
            push_label(&mut s, self.peek(addr + k));
            assert(s@ =~= mnemonic(op) + operands_text(self@.memory, addr as int, k as nat));
        }
        s
    }
}

} // verus!
