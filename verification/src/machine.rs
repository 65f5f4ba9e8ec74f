//! The machine state: memory, registers, stack, timers, keys and framebuffer.

use vstd::prelude::*;

verus! {

/// Number of addressable memory cells.
pub const MEMORY_SIZE: usize = 4096;

/// Address at which a program image is loaded and execution starts.
pub const PROGRAM_START: usize = 0x200;

/// Largest program image that fits between `PROGRAM_START` and the end of memory.
pub const MAX_PROGRAM_SIZE: usize = 3584;

/// Framebuffer width in pixels (cells per scanline).
pub const WIDTH: usize = 64;

/// Framebuffer height in pixels (number of scanlines).
pub const HEIGHT: usize = 32;

/// Width of a sprite row in pixels.
pub const LINE_LENGTH: usize = 8;

/// Number of general-purpose registers; also the depth of the call stack.
pub const REGISTER_COUNT: usize = 16;

/// Index of the flag register.
pub const FLAG: usize = 15;

/// Value of a framebuffer cell that is lit.
pub const PIXEL_ON: u8 = 0xFF;

/// Length of the glyph table in bytes: sixteen glyphs of five rows each.
pub const FONT_SIZE: usize = 80;

/// The glyphs of the hexadecimal digits `0` to `F`, five bytes each.
pub const CHIP8_FONTSET: [u8; 80] = [
    0xF0, 0x90, 0x90, 0x90, 0xF0,
    0x20, 0x60, 0x20, 0x20, 0x70,
    0xF0, 0x10, 0xF0, 0x80, 0xF0,
    0xF0, 0x10, 0xF0, 0x10, 0xF0,
    0x90, 0x90, 0xF0, 0x10, 0x10,
    0xF0, 0x80, 0xF0, 0x10, 0xF0,
    0xF0, 0x80, 0xF0, 0x90, 0xF0,
    0xF0, 0x10, 0x20, 0x40, 0x40,
    0xF0, 0x90, 0xF0, 0x90, 0xF0,
    0xF0, 0x90, 0xF0, 0x10, 0xF0,
    0xF0, 0x90, 0xF0, 0x90, 0x90,
    0xE0, 0x90, 0xE0, 0x90, 0xE0,
    0xF0, 0x80, 0x80, 0x80, 0xF0,
    0xE0, 0x90, 0x90, 0x90, 0xE0,
    0xF0, 0x80, 0xF0, 0x80, 0xF0,
    0xF0, 0x80, 0xF0, 0x80, 0x80,
];

/// Why a machine stopped.
#[derive(Clone, Copy, Debug, PartialEq, Eq, Structural)]
pub enum Fault {
    /// The instruction word matched no entry of the opcode table.
    UnknownInstruction,
    /// The instruction is recognised but has no behaviour.
    NotImplemented,
    /// A call was made with all sixteen stack slots in use.
    StackOverflow,
    /// A return was made with an empty stack.
    StackUnderflow,
    /// A sprite read or a register transfer reached past the end of memory.
    MemoryOutOfBounds,
    /// Adding to the index register left the 16-bit range.
    IndexOverflow,
    /// The program counter left no room in memory for an instruction.
    FetchOutOfBounds,
}

/// The mathematical model of a machine: its fields as plain values and
/// sequences.
pub struct State {
    /// The instruction word fetched last.
    pub opcode: u16,
    /// The memory cells, by address.
    pub memory: Seq<u8>,
    /// The general-purpose registers; the last one is the flag register.
    pub register: Seq<u8>,
    /// The address register.
    pub index: u16,
    /// The program counter.
    pub pc: u16,
    pub delay_timer: u8,
    pub sound_timer: u8,
    /// The return addresses; the first `sp` of them are in use.
    pub stack: Seq<u16>,
    /// The stack pointer: the number of stack slots in use.
    pub sp: u8,
    /// The key states, one for each hexadecimal key.
    pub key: Seq<bool>,
    /// Halted.
    pub stop: bool,
    /// Why the machine halted, if it did.
    pub fault: Option<Fault>,
    /// The framebuffer: `video_mem[row][col]`, one row for each scanline.
    pub video_mem: Seq<Seq<u8>>,
    /// The length of the loaded program in bytes.
    pub program_size: nat,
}

impl State {
    /// Every component has the size that the machine fixes for it.
    pub open spec fn wf(self) -> bool {
        &&& self.memory.len() == MEMORY_SIZE
        &&& self.register.len() == REGISTER_COUNT
        &&& self.stack.len() == REGISTER_COUNT
        &&& self.key.len() == REGISTER_COUNT
        &&& self.video_mem.len() == HEIGHT
        &&& forall|row: int| 0 <= row < HEIGHT ==> (#[trigger] self.video_mem[row]).len() == WIDTH
    }

    /// The loaded program lies inside memory.
    pub open spec fn program_fits(self) -> bool {
        self.program_size <= MAX_PROGRAM_SIZE
    }

    /// Every framebuffer cell is off (0) or on (0xFF).
    pub open spec fn pixels_valid(self) -> bool {
        forall|row: int, col: int|
            0 <= row < HEIGHT && 0 <= col < WIDTH ==> {
                ||| #[trigger] self.video_mem[row][col] == 0
                ||| self.video_mem[row][col] == PIXEL_ON
            }
    }

    /// The invariant of the machine: the sizes are right, the stack pointer
    /// counts at most all stack slots, the framebuffer holds only off and
    /// on, the program lies inside memory, and a machine with a fault has
    /// halted.
    pub open spec fn valid(self) -> bool {
        &&& self.wf()
        &&& self.sp <= REGISTER_COUNT
        &&& self.pixels_valid()
        &&& self.program_fits()
        &&& self.fault is Some ==> self.stop
    }

    /// The program counter and every return address on the stack are even.
    pub open spec fn aligned(self) -> bool {
        &&& self.pc % 2 == 0
        &&& forall|i: int| 0 <= i < self.sp ==> #[trigger] self.stack[i] % 2 == 0
    }
}

/// The machine: the sole stateful entity of the interpreter. Its host owns
/// it, reads the framebuffer and the halted flag between cycles, and
/// counts the two timers down; no instruction touches timers or keys.
pub struct Machine {
    /// The instruction word fetched last.
    pub opcode: u16,
    /// 4096 cells: the glyph table from address 0, the program from 0x200.
    pub memory: [u8; 4096],
    /// The general-purpose registers; register 15 is the flag register.
    pub register: [u8; 16],
    /// The address register of the instructions that work on memory.
    pub index: u16,
    /// Program counter.
    pub pc: u16,
    pub delay_timer: u8,
    pub sound_timer: u8,
    /// Return addresses.
    pub stack: [u16; 16],
    /// Stack pointer: the number of stack slots in use.
    pub sp: u8,
    /// Key states, one for each hexadecimal key.
    pub key: [bool; 16],
    /// Halted: once set, no further instruction is executed.
    pub stop: bool,
    /// Why the machine halted, if it did.
    pub fault: Option<Fault>,
    /// One row per scanline; each cell is 0 (off) or 0xFF (on).
    pub video_mem: [[u8; 64]; 32],
    /// The length of the loaded program in bytes.
    pub program_size: usize,
}

impl View for Machine {
    type V = State;

    open spec fn view(&self) -> State {
        State {
            opcode: self.opcode,
            memory: self.memory@,
            register: self.register@,
            index: self.index,
            pc: self.pc,
            delay_timer: self.delay_timer,
            sound_timer: self.sound_timer,
            stack: self.stack@,
            sp: self.sp,
            key: self.key@,
            stop: self.stop,
            fault: self.fault,
            video_mem: Seq::new(HEIGHT as nat, |row: int| self.video_mem[row]@),
            program_size: self.program_size as nat,
        }
    }
}

/// A framebuffer with every cell off.
pub open spec fn blank_screen() -> Seq<Seq<u8>> {
    Seq::new(HEIGHT as nat, |row: int| Seq::new(WIDTH as nat, |col: int| 0u8))
}

/// Memory right after construction: the glyph table at the bottom, the
/// program from `PROGRAM_START` on, zero elsewhere.
pub open spec fn initial_memory(program: Seq<u8>) -> Seq<u8> {
    Seq::new(
        MEMORY_SIZE as nat,
        |addr: int|
            if addr < FONT_SIZE {
                CHIP8_FONTSET[addr]
            } else if PROGRAM_START <= addr < PROGRAM_START + program.len() {
                program[addr - PROGRAM_START]
            } else {
                0u8
            },
    )
}

/// The state of a machine freshly constructed around `program`.
pub open spec fn initial_state(program: Seq<u8>) -> State {
    State {
        opcode: 0,
        memory: initial_memory(program),
        register: Seq::new(REGISTER_COUNT as nat, |i: int| 0u8),
        index: 0,
        pc: 0x200,
        delay_timer: 0,
        sound_timer: 0,
        stack: Seq::new(REGISTER_COUNT as nat, |i: int| 0u16),
        sp: 0,
        key: Seq::new(REGISTER_COUNT as nat, |i: int| false),
        stop: false,
        fault: None,
        video_mem: blank_screen(),
        program_size: program.len(),
    }
}

impl Machine {
    /// Builds a machine with the glyph table in low memory and `program`
    /// loaded at `PROGRAM_START`; everything else is zero.
    pub fn new(program: &[u8]) -> (machine: Machine)
        requires
            program@.len() <= MAX_PROGRAM_SIZE,
        ensures
            machine@ == initial_state(program@),
            machine@.valid(),
            machine@.aligned(),
    {
        let mut memory: [u8; 4096] = [0; 4096];
        let mut i: usize = 0;
        while i < FONT_SIZE
            invariant
                i <= FONT_SIZE,
                forall|a: int| 0 <= a < i ==> memory[a] == CHIP8_FONTSET[a],
                forall|a: int| i <= a < MEMORY_SIZE ==> memory[a] == 0,
            decreases FONT_SIZE - i,
        {
            memory[i] = CHIP8_FONTSET[i];
            i += 1;
        }
        let mut i: usize = 0;
        while i < program.len()
            invariant
                i <= program@.len() <= MAX_PROGRAM_SIZE,
                forall|a: int| 0 <= a < FONT_SIZE ==> memory[a] == CHIP8_FONTSET[a],
                forall|a: int|
                    PROGRAM_START <= a < PROGRAM_START + i ==> memory[a] == program@[a
                        - PROGRAM_START],
                forall|a: int|
                    FONT_SIZE <= a < MEMORY_SIZE && !(PROGRAM_START <= a < PROGRAM_START + i)
                        ==> memory[a] == 0,
            decreases program@.len() - i,
        {
            memory[i + 0x200] = program[i];
            i += 1;
        }
        let machine = Machine {
            opcode: 0,
            memory,
            register: [0; 16],
            index: 0,
            pc: 0x200,
            delay_timer: 0,
            sound_timer: 0,
            stack: [0; 16],
            sp: 0,
            key: [false; 16],
            stop: false,
            fault: None,
            video_mem: [[0; 64]; 32],
            program_size: program.len(),
        };
        assert(machine@.memory =~= initial_memory(program@));
        assert(machine@.register =~= initial_state(program@).register);
        assert(machine@.stack =~= initial_state(program@).stack);
        assert(machine@.key =~= initial_state(program@).key);
        assert(machine@.video_mem =~~= blank_screen());
        machine
    }
}

} // verus!
