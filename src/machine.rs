use vstd::prelude::*;

use crate::codec::{decode_spec, parse_bytecode};
use crate::semantics::{MachineView, ADDRESS_SPACE, MEMORY_SIZE, REGISTER_COUNT};

verus! {

/// A virtual machine: memory with the registers mapped above it, a stack of
/// words and an instruction pointer.
pub struct VM {
    memory: Vec<u16>,
    stack: Vec<u16>,
    ip: usize,
    word_count: usize,
}

/// Memory as a program image leaves it: the image's first 32768 words, then zeros.
pub open spec fn initial_memory(code: Seq<u16>) -> Seq<u16> {
    Seq::new(
        MEMORY_SIZE as nat,
        |i: int|
            if i < code.len() && i < ADDRESS_SPACE {
                code[i]
            } else {
                0u16
            },
    )
}

/// The state of a machine freshly loaded with `code`.
pub open spec fn loaded(code: Seq<u16>) -> MachineView {
    MachineView {
        memory: initial_memory(code),
        stack: Seq::empty(),
        ip: 0,
        word_count: if code.len() < ADDRESS_SPACE { code.len() as int } else { ADDRESS_SPACE as int },
    }
}

impl View for VM {
    type V = MachineView;

    closed spec fn view(&self) -> MachineView {
        MachineView {
            memory: self.memory@,
            stack: self.stack@,
            ip: self.ip as int,
            word_count: self.word_count as int,
        }
    }
}

impl VM {
    /// Memory has its fixed size and the instruction pointer fits in a `usize`.
    pub open spec fn wf(&self) -> bool {
        &&& self@.memory.len() == MEMORY_SIZE
        &&& 0 <= self@.ip <= usize::MAX
        &&& 0 <= self@.word_count <= ADDRESS_SPACE
    }

    /// Creates a machine whose memory holds `instructions` from address 0; words
    /// past the general memory are dropped.
    pub fn from_code(instructions: &[u16]) -> (r: VM)
        ensures
            r.wf(),
            r@ == loaded(instructions@),
    {
        let mut memory: Vec<u16> = Vec::with_capacity(MEMORY_SIZE);
        let n: usize = instructions.len();
        let mut index: usize = 0;
        while index < MEMORY_SIZE
            invariant
                n == instructions@.len(),
                index <= MEMORY_SIZE,
                memory@ == initial_memory(instructions@).take(index as int),
            decreases MEMORY_SIZE - index,
        {
            let w: u16 = if index < n && index < ADDRESS_SPACE {
                instructions[index]
            } else {
                0
            };
            memory.push(w);
            index = index + 1;
            assert(memory@ =~= initial_memory(instructions@).take(index as int));
        }
        assert(memory@ =~= initial_memory(instructions@));
        let word_count: usize = if n < ADDRESS_SPACE { n } else { ADDRESS_SPACE };
        VM { memory, stack: Vec::new(), ip: 0, word_count }
    }

    /// Creates a machine from a little-endian program image.
    pub fn new(bytecode: &[u8]) -> (r: VM)
        ensures
            r.wf(),
            r@ == loaded(decode_spec(bytecode@)),
    {
        let instructions = parse_bytecode(bytecode);
        VM::from_code(instructions.as_slice())
    }

    /// Stores an input value at `address`, as the driver does after `IN`.
    pub fn input(&mut self, address: usize, value: u16)
        requires
            old(self).wf(),
            address < MEMORY_SIZE,
        ensures
            final(self).wf(),
            final(self)@ == (MachineView {
                memory: old(self)@.memory.update(address as int, value),
                ..old(self)@
            }),
    {
        self.memory.set(address, value);
    }

    /// The word at `addr`.
    pub fn peek(&self, addr: usize) -> (r: u16)
        requires
            self.wf(),
            addr < MEMORY_SIZE,
        ensures
            r == self@.memory[addr as int],
    {
        self.memory[addr]
    }

    /// The eight registers.
    pub fn registers(&self) -> (r: Vec<u16>)
        requires
            self.wf(),
        ensures
            r@ == self@.memory.subrange(ADDRESS_SPACE as int, MEMORY_SIZE as int),
    {
        self.copy_range(ADDRESS_SPACE, MEMORY_SIZE)
    }

    /// Overwrites register `index`.
    pub fn set_register(&mut self, index: usize, value: u16)
        requires
            old(self).wf(),
            index < REGISTER_COUNT,
        ensures
            final(self).wf(),
            final(self)@ == (MachineView {
                memory: old(self)@.memory.update(ADDRESS_SPACE + index, value),
                ..old(self)@
            }),
    {
        self.memory.set(ADDRESS_SPACE + index, value);
    }

    /// The instruction pointer.
    pub fn ip(&self) -> (r: usize)
        ensures
            r == self@.ip,
    {
        self.ip
    }

    /// Moves the instruction pointer.
    pub fn set_ip(&mut self, value: usize)
        requires
            old(self).wf(),
        ensures
            final(self).wf(),
            final(self)@ == (MachineView { ip: value as int, ..old(self)@ }),
    {
        self.ip = value;
    }

    /// General memory, without the registers.
    pub fn ram(&self) -> (r: Vec<u16>)
        requires
            self.wf(),
        ensures
            r@ == self@.memory.subrange(0, ADDRESS_SPACE as int),
    {
        self.copy_range(0, ADDRESS_SPACE)
    }

    /// Overwrites the word at `address` (a register too, above general memory).
    pub fn set_ram(&mut self, address: usize, value: u16)
        requires
            old(self).wf(),
            address < MEMORY_SIZE,
        ensures
            final(self).wf(),
            final(self)@ == (MachineView {
                memory: old(self)@.memory.update(address as int, value),
                ..old(self)@
            }),
    {
        self.memory.set(address, value);
    }

    /// The stack, bottom first.
    pub fn stack(&self) -> (r: Vec<u16>)
        ensures
            r@ == self@.stack,
    {
        self.stack.clone()
    }

    /// Overwrites the stack entry at `offset` from the bottom.
    pub fn set_stack(&mut self, offset: usize, value: u16)
        requires
            old(self).wf(),
            offset < old(self)@.stack.len(),
        ensures
            final(self).wf(),
            final(self)@ == (MachineView {
                stack: old(self)@.stack.update(offset as int, value),
                ..old(self)@
            }),
    {
        self.stack.set(offset, value);
    }

    /// Number of words loaded from the program image.
    pub fn word_count(&self) -> (r: usize)
        ensures
            r == self@.word_count,
    {
        self.word_count
    }

    fn copy_range(&self, lo: usize, hi: usize) -> (r: Vec<u16>)
        requires
            self.wf(),
            lo <= hi <= MEMORY_SIZE,
        ensures
            r@ == self@.memory.subrange(lo as int, hi as int),
    {
        let mut out: Vec<u16> = Vec::with_capacity(hi - lo);
        let mut i: usize = lo;
        while i < hi
            invariant
                self.wf(),
                lo <= i <= hi <= MEMORY_SIZE,
                out@ == self@.memory.subrange(lo as int, i as int),
            decreases hi - i,
        {
            out.push(self.memory[i]);
            i = i + 1;
            assert(out@ =~= self@.memory.subrange(lo as int, i as int));
        }
        out
    }

    /// Pushes a word on the stack.
    pub(crate) fn push_word(&mut self, w: u16)
        requires
            old(self).wf(),
        ensures
            final(self).wf(),
            final(self)@ == (MachineView { stack: old(self)@.stack.push(w), ..old(self)@ }),
    {
        self.stack.push(w);
    }

    /// Removes the top of a non-empty stack and returns it.
    pub(crate) fn pop_word(&mut self) -> (r: u16)
        requires
            old(self).wf(),
            old(self)@.stack.len() > 0,
        ensures
            final(self).wf(),
            r == old(self)@.stack.last(),
            final(self)@ == (MachineView { stack: old(self)@.stack.drop_last(), ..old(self)@ }),
    {
        match self.stack.pop() {
            Some(w) => w,
            None => 0,
        }
    }

    /// Whether the stack is empty.
    pub(crate) fn stack_is_empty(&self) -> (r: bool)
        ensures
            r == (self@.stack.len() == 0),
    {
        self.stack.len() == 0
    }
}

} // verus!
