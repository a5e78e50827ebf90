use vstd::prelude::*;

use crate::machine::VM;
use crate::semantics::{
    alu, complement15, execute, instruction_length, next, resolve, Effect, ADDRESS_SPACE,
    MEMORY_SIZE,
};

verus! {

/// What a step asks of the driver.
#[allow(non_camel_case_types)]
#[derive(Debug, Clone, Copy, PartialEq, Eq)]
pub enum Interrupt {
    /// Nothing: step again.
    NONE,
    /// Execution has ended: stop stepping.
    HALT,
    /// Write this character, then step again.
    OUT(char),
    /// Read one character, store it at this address with `input`, then step again.
    IN(usize),
}

/// A fatal condition of a step. The machine is left as it was before the step.
#[derive(Debug, Clone, Copy, PartialEq, Eq)]
pub enum VmError {
    /// `POP` or `RET` with an empty stack.
    StackUnderflow,
    /// `OUT` of a value that is not a character code.
    InvalidCharacter(u16),
    /// An instruction, operand or target address outside memory.
    AddressOutOfRange,
    /// `MOD` by zero.
    DivisionByZero,
}

/// `r` is what the driver is told of effect `e`.
pub open spec fn reports(r: Result<Interrupt, VmError>, e: Effect) -> bool {
    match e {
        Effect::Continue => r == Ok::<Interrupt, VmError>(Interrupt::NONE),
        Effect::Halt => r == Ok::<Interrupt, VmError>(Interrupt::HALT),
        Effect::Output(v) => match r {
            Ok(Interrupt::OUT(ch)) => ch as u32 == v as u32,
            _ => false,
        },
        Effect::Input(a) => r == Ok::<Interrupt, VmError>(Interrupt::IN(a as usize)),
        Effect::Underflow => r == Err::<Interrupt, VmError>(VmError::StackUnderflow),
        Effect::BadAddress => r == Err::<Interrupt, VmError>(VmError::AddressOutOfRange),
        Effect::DivideByZero => r == Err::<Interrupt, VmError>(VmError::DivisionByZero),
        Effect::BadChar(v) => r == Err::<Interrupt, VmError>(VmError::InvalidCharacter(v)),
    }
}

/// Relies on `char::from_u32`: it returns the character with that code, or `None`
/// for a surrogate (0xD800 to 0xDFFF) or a value above 0x10FFFF.
#[verifier::external_body]
fn char_from_code(code: u32) -> (r: Option<char>)
    ensures
        r.is_some() <==> (code < 0xD800 || (0xDFFF < code && code <= 0x10FFFF)),
        r matches Some(ch) ==> ch as u32 == code,
{
    char::from_u32(code)
}

/// Number of words of an instruction with opcode `op`.
pub fn instruction_length_of(op: u16) -> (r: usize)
    ensures
        r == instruction_length(op),
{
    if op == 4 || op == 5 || (9 <= op && op <= 13) {
        4
    } else if op == 1 || op == 7 || op == 8 || (14 <= op && op <= 16) {
        3
    } else if op == 2 || op == 3 || op == 6 || op == 17 || op == 19 || op == 20 {
        2
    } else {
        1
    }
}

/// The value that the comparison and arithmetic opcodes store.
pub fn compute(op: u16, b: u16, c: u16) -> (r: u16)
    requires
        op == 4 || op == 5 || (9 <= op && op <= 13),
        op == 11 ==> c != 0,
    ensures
        r == alu(op, b, c),
{
    if op == 4 {
        if b == c { 1 } else { 0 }
    } else if op == 5 {
        if b > c { 1 } else { 0 }
    } else if op == 9 {
        (((b as u32) + (c as u32)) % 32768) as u16
    } else if op == 10 {
        assert((b as u32) * (c as u32) <= 65535 * 65535) by (nonlinear_arith)
            requires b <= 65535, c <= 65535;
        (((b as u32) * (c as u32)) % 32768) as u16
    } else if op == 11 {
        b % c
    } else if op == 12 {
        b & c
    } else {
        b | c
    }
}

/// The 15-bit complement that `NOT` stores.
pub fn not15(b: u16) -> (r: u16)
    ensures
        r == complement15(b),
{
    32767 - (b % 32768)
}

impl VM {
    /// The value of operand word `w`.
    fn resolve_word(&self, w: u16) -> (r: u16)
        requires
            self.wf(),
            w < MEMORY_SIZE,
        ensures
            r == resolve(self@.memory, w),
    {
        if w >= ADDRESS_SPACE as u16 {
            self.peek(w as usize)
        } else {
            w
        }
    }

    /// The `k`-th word after `at`, or 0 past the end of memory.
    fn word_after(&self, at: usize, k: usize) -> (r: u16)
        requires
            self.wf(),
            at < MEMORY_SIZE,
            k <= 3,
            at == self@.ip,
        ensures
            r == crate::semantics::operand_word(self@, k as int),
    {
        if at + k < MEMORY_SIZE {
            self.peek(at + k)
        } else {
            0
        }
    }

    /// Stores `v` at `addr` and moves the instruction pointer to `pc`.
    fn store_and_go(&mut self, addr: u16, v: u16, pc: usize)
        requires
            old(self).wf(),
            addr < MEMORY_SIZE,
        ensures
            final(self).wf(),
            final(self)@ == crate::semantics::with_store(old(self)@, addr as int, v, pc as int),
    {
        self.set_ram(addr as usize, v);
        self.set_ip(pc);
    }

    /// Performs opcode `op` with raw operand words `a`, `b`, `c`; `pc` is the
    /// address just past the instruction.
    #[verifier::rlimit(40)]
    fn execute_op(&mut self, op: u16, a: u16, b: u16, c: u16, pc: usize) -> (r: Result<
        Interrupt,
        VmError,
    >)
        requires
            old(self).wf(),
            pc <= MEMORY_SIZE,
        ensures
            final(self).wf(),
            final(self)@ == execute(old(self)@, op, a, b, c, pc as int).0,
            reports(r, execute(old(self)@, op, a, b, c, pc as int).1),
    {
        let loc_a = a < MEMORY_SIZE as u16;
        let loc_b = b < MEMORY_SIZE as u16;
        let loc_c = c < MEMORY_SIZE as u16;
        if op == 1 {
            if !(loc_a && loc_b) {
                return Err(VmError::AddressOutOfRange);
            }
            let v = self.resolve_word(b);
            self.store_and_go(a, v, pc);
            Ok(Interrupt::NONE)
        } else if op == 2 {
            if !loc_a {
                return Err(VmError::AddressOutOfRange);
            }
            let v = self.resolve_word(a);
            self.push_word(v);
            self.set_ip(pc);
            Ok(Interrupt::NONE)
        } else if op == 3 {
            if !loc_a {
                return Err(VmError::AddressOutOfRange);
            }
            if self.stack_is_empty() {
                return Err(VmError::StackUnderflow);
            }
            let w = self.pop_word();
            self.store_and_go(a, w, pc);
            Ok(Interrupt::NONE)
        } else if op == 4 || op == 5 || (9 <= op && op <= 13) {
            if !(loc_a && loc_b && loc_c) {
                return Err(VmError::AddressOutOfRange);
            }
            let vb = self.resolve_word(b);
            let vc = self.resolve_word(c);
            if op == 11 && vc == 0 {
                return Err(VmError::DivisionByZero);
            }
            let v = compute(op, vb, vc);
            self.store_and_go(a, v, pc);
            Ok(Interrupt::NONE)
        } else if op == 6 {
            if !loc_a {
                return Err(VmError::AddressOutOfRange);
            }
            let target = self.resolve_word(a);
            self.set_ip(target as usize);
            Ok(Interrupt::NONE)
        } else if op == 7 || op == 8 {
            if !loc_a {
                return Err(VmError::AddressOutOfRange);
            }
            let v = self.resolve_word(a);
            let taken = if op == 7 { v != 0 } else { v == 0 };
            if taken {
                self.set_ip(b as usize);
            } else {
                self.set_ip(pc);
            }
            Ok(Interrupt::NONE)
        } else if op == 14 {
            if !(loc_a && loc_b) {
                return Err(VmError::AddressOutOfRange);
            }
            let vb = self.resolve_word(b);
            self.store_and_go(a, not15(vb), pc);
            Ok(Interrupt::NONE)
        } else if op == 15 {
            if !(loc_a && loc_b) {
                return Err(VmError::AddressOutOfRange);
            }
            let from = self.resolve_word(b);
            if from >= MEMORY_SIZE as u16 {
                return Err(VmError::AddressOutOfRange);
            }
            let v = self.peek(from as usize);
            self.store_and_go(a, v, pc);
            Ok(Interrupt::NONE)
        } else if op == 16 {
            if !(loc_a && loc_b) {
                return Err(VmError::AddressOutOfRange);
            }
            let to = self.resolve_word(a);
            if to >= MEMORY_SIZE as u16 {
                return Err(VmError::AddressOutOfRange);
            }
            let v = self.resolve_word(b);
            self.store_and_go(to, v, pc);
            Ok(Interrupt::NONE)
        } else if op == 17 {
            if !loc_a {
                return Err(VmError::AddressOutOfRange);
            }
            let target = self.resolve_word(a);
            self.push_word(pc as u16);
            self.set_ip(target as usize);
            Ok(Interrupt::NONE)
        } else if op == 18 {
            if self.stack_is_empty() {
                return Err(VmError::StackUnderflow);
            }
            let w = self.pop_word();
            self.set_ip(w as usize);
            Ok(Interrupt::NONE)
        } else if op == 19 {
            if !loc_a {
                return Err(VmError::AddressOutOfRange);
            }
            let v = self.resolve_word(a);
            match char_from_code(v as u32) {
                Some(ch) => {
                    self.set_ip(pc);
                    Ok(Interrupt::OUT(ch))
                },
                None => Err(VmError::InvalidCharacter(v)),
            }
        } else if op == 20 {
            if !loc_a {
                return Err(VmError::AddressOutOfRange);
            }
            self.set_ip(pc);
            Ok(Interrupt::IN(a as usize))
        } else if op == 21 {
            self.set_ip(pc);
            Ok(Interrupt::NONE)
        } else {
            self.set_ip(pc);
            Ok(Interrupt::HALT)
        }
    }

    /// Executes the instruction at the instruction pointer and reports what the
    /// driver must do. On a fatal error the machine is left unchanged.
    pub fn step(&mut self) -> (r: Result<Interrupt, VmError>)
        requires
            old(self).wf(),
        ensures
            final(self).wf(),
            final(self)@ == next(old(self)@).0,
            reports(r, next(old(self)@).1),
    {
        let ip = self.ip();
        if ip >= MEMORY_SIZE {
            return Err(VmError::AddressOutOfRange);
        }
        let op = self.peek(ip);
        let len = instruction_length_of(op);
        if len > MEMORY_SIZE - ip {
            return Err(VmError::AddressOutOfRange);
        }
        let a = self.word_after(ip, 1);
        let b = self.word_after(ip, 2);
        let c = self.word_after(ip, 3);
        self.execute_op(op, a, b, c, ip + len)
    }
}

} // verus!
