use vstd::prelude::*;

verus! {

/// Number of words of general memory; register selectors start here.
pub const ADDRESS_SPACE: usize = 32768;

/// Number of registers, mapped right above general memory.
pub const REGISTER_COUNT: usize = 8;

/// General memory followed by the registers.
pub const MEMORY_SIZE: usize = 32776;

/// The mathematical state of a machine.
pub struct MachineView {
    /// General memory (`0..32768`) followed by the eight registers.
    pub memory: Seq<u16>,
    pub stack: Seq<u16>,
    pub ip: int,
    /// Number of words taken from the program image at construction.
    pub word_count: int,
}

/// What a step does, as seen by the driver.
pub enum Effect {
    Continue,
    Halt,
    Output(u16),
    Input(u16),
    Underflow,
    BadAddress,
    DivideByZero,
    BadChar(u16),
}

/// Whether an effect is one of the fatal errors.
pub open spec fn is_failure(e: Effect) -> bool {
    match e {
        Effect::Underflow | Effect::BadAddress | Effect::DivideByZero | Effect::BadChar(_) => true,
        _ => false,
    }
}

/// How many operand words follow the opcode `op`; unknown opcodes take none.
pub open spec fn operand_count(op: u16) -> nat {
    if op == 4 || op == 5 || (9 <= op && op <= 13) {
        3
    } else if op == 1 || op == 7 || op == 8 || (14 <= op && op <= 16) {
        2
    } else if op == 2 || op == 3 || op == 6 || op == 17 || op == 19 || op == 20 {
        1
    } else {
        0
    }
}

/// Words taken by an instruction whose opcode is `op`.
pub open spec fn instruction_length(op: u16) -> nat {
    1 + operand_count(op)
}

/// A word that names a location: a memory address or a register selector.
pub open spec fn is_location(w: u16) -> bool {
    w < MEMORY_SIZE
}

/// Whether `w` selects a register.
pub open spec fn is_register(w: u16) -> bool {
    ADDRESS_SPACE <= w && w < MEMORY_SIZE
}

/// The value of an operand word: a literal below 32768, the register's content
/// for a register selector.
pub open spec fn resolve(memory: Seq<u16>, w: u16) -> u16 {
    if is_register(w) {
        memory[w as int]
    } else {
        w
    }
}

/// A 16-bit value that is a Unicode scalar value (not a surrogate).
pub open spec fn is_char_code(v: u16) -> bool {
    v < 0xD800 || 0xDFFF < v
}

/// The 15-bit complement of a value.
pub open spec fn complement15(b: u16) -> u16 {
    (32767 - (b % 32768)) as u16
}

/// What the three-operand opcodes store, from their two value operands.
pub open spec fn alu(op: u16, b: u16, c: u16) -> u16 {
    if op == 4 {
        if b == c { 1 } else { 0 }
    } else if op == 5 {
        if b > c { 1 } else { 0 }
    } else if op == 9 {
        ((b + c) % 32768) as u16
    } else if op == 10 {
        ((b * c) % 32768) as u16
    } else if op == 11 {
        (b % c) as u16
    } else if op == 12 {
        b & c
    } else {
        b | c
    }
}

/// The `k`-th word after the instruction pointer, or 0 past the end of memory.
pub open spec fn operand_word(m: MachineView, k: int) -> u16 {
    if 0 <= m.ip + k < m.memory.len() {
        m.memory[m.ip + k]
    } else {
        0
    }
}

/// `m` with the instruction pointer moved to `ip`.
pub open spec fn with_ip(m: MachineView, ip: int) -> MachineView {
    MachineView { ip: ip, ..m }
}

/// `m` with `v` stored at `addr` and the instruction pointer moved to `ip`.
pub open spec fn with_store(m: MachineView, addr: int, v: u16, ip: int) -> MachineView {
    MachineView { memory: m.memory.update(addr, v), ip: ip, ..m }
}

/// The effect of opcode `op` with raw operand words `a`, `b`, `c`, where `pc` is
/// the address just past the instruction. Failures leave the state as it was.
pub open spec fn execute(m: MachineView, op: u16, a: u16, b: u16, c: u16, pc: int) -> (
    MachineView,
    Effect,
) {
    let mem = m.memory;
    if op == 1 {
        if is_location(a) && is_location(b) {
            (with_store(m, a as int, resolve(mem, b), pc), Effect::Continue)
        } else {
            (m, Effect::BadAddress)
        }
    } else if op == 2 {
        if is_location(a) {
            (MachineView { stack: m.stack.push(resolve(mem, a)), ip: pc, ..m }, Effect::Continue)
        } else {
            (m, Effect::BadAddress)
        }
    } else if op == 3 {
        if !is_location(a) {
            (m, Effect::BadAddress)
        } else if m.stack.len() == 0 {
            (m, Effect::Underflow)
        } else {
            (
                MachineView {
                    memory: mem.update(a as int, m.stack.last()),
                    stack: m.stack.drop_last(),
                    ip: pc,
                    ..m
                },
                Effect::Continue,
            )
        }
    } else if op == 4 || op == 5 || (9 <= op && op <= 13) {
        if !(is_location(a) && is_location(b) && is_location(c)) {
            (m, Effect::BadAddress)
        } else if op == 11 && resolve(mem, c) == 0 {
            (m, Effect::DivideByZero)
        } else {
            (with_store(m, a as int, alu(op, resolve(mem, b), resolve(mem, c)), pc), Effect::Continue)
        }
    } else if op == 6 {
        if is_location(a) {
            (with_ip(m, resolve(mem, a) as int), Effect::Continue)
        } else {
            (m, Effect::BadAddress)
        }
    } else if op == 7 || op == 8 {
        if is_location(a) {
            let v = resolve(mem, a);
            let taken = if op == 7 { v != 0 } else { v == 0 };
            (with_ip(m, if taken { b as int } else { pc }), Effect::Continue)
        } else {
            (m, Effect::BadAddress)
        }
    } else if op == 14 {
        if is_location(a) && is_location(b) {
            (with_store(m, a as int, complement15(resolve(mem, b)), pc), Effect::Continue)
        } else {
            (m, Effect::BadAddress)
        }
    } else if op == 15 {
        if is_location(a) && is_location(b) && is_location(resolve(mem, b)) {
            (with_store(m, a as int, mem[resolve(mem, b) as int], pc), Effect::Continue)
        } else {
            (m, Effect::BadAddress)
        }
    } else if op == 16 {
        if is_location(a) && is_location(b) && is_location(resolve(mem, a)) {
            (with_store(m, resolve(mem, a) as int, resolve(mem, b), pc), Effect::Continue)
        } else {
            (m, Effect::BadAddress)
        }
    } else if op == 17 {
        if is_location(a) {
            (
                MachineView { stack: m.stack.push(pc as u16), ip: resolve(mem, a) as int, ..m },
                Effect::Continue,
            )
        } else {
            (m, Effect::BadAddress)
        }
    } else if op == 18 {
        if m.stack.len() == 0 {
            (m, Effect::Underflow)
        } else {
            (
                MachineView { stack: m.stack.drop_last(), ip: m.stack.last() as int, ..m },
                Effect::Continue,
            )
        }
    } else if op == 19 {
        if !is_location(a) {
            (m, Effect::BadAddress)
        } else if is_char_code(resolve(mem, a)) {
            (with_ip(m, pc), Effect::Output(resolve(mem, a)))
        } else {
            (m, Effect::BadChar(resolve(mem, a)))
        }
    } else if op == 20 {
        if is_location(a) {
            (with_ip(m, pc), Effect::Input(a))
        } else {
            (m, Effect::BadAddress)
        }
    } else if op == 21 {
        (with_ip(m, pc), Effect::Continue)
    } else {
        // HALT, and any opcode outside the table
        (with_ip(m, pc), Effect::Halt)
    }
}

/// One step of the machine: fetch the opcode at the instruction pointer and its
/// operands, then execute it. An instruction that does not fit in memory fails.
pub open spec fn next(m: MachineView) -> (MachineView, Effect) {
    if !(0 <= m.ip < m.memory.len()) {
        (m, Effect::BadAddress)
    } else {
        let op = m.memory[m.ip];
        let pc = m.ip + instruction_length(op);
        if pc > m.memory.len() {
            (m, Effect::BadAddress)
        } else {
            execute(m, op, operand_word(m, 1), operand_word(m, 2), operand_word(m, 3), pc)
        }
    }
}

} // verus!
