use vstd::prelude::*;
use crate::font::spec_font;
use crate::font::font_table;

verus! {

/// Memory size in bytes.
pub const MEM_SIZE: usize = 4096;
/// Number of general-purpose registers V0..VF.
pub const NUM_REGS: usize = 16;
/// Call stack capacity in return addresses.
pub const STACK_SIZE: usize = 16;
/// Screen width in pixels.
pub const SCREEN_W: usize = 64;
/// Screen height in pixels.
pub const SCREEN_H: usize = 32;
/// Number of framebuffer cells (64 columns of 32 pixels).
pub const DISPLAY_CELLS: usize = 2048;
/// Number of keypad keys.
pub const NUM_KEYS: usize = 16;
/// Address where a program image is loaded and where execution starts.
pub const MEMORY_OFFSET: u16 = 0x200;
/// Address where the built-in font table is loaded.
pub const FONT_OFFSET: usize = 0x50;
/// Largest program image that fits below the end of memory.
pub const MAX_PROGRAM: usize = 3584;

/// A condition that halts execution: a malformed program image or an
/// exhausted call stack gives no way to continue with defined semantics.
#[derive(Clone, Copy, Debug, PartialEq, Eq, Structural)]
pub enum Chip8Error {
    /// The fetched instruction word matches no known pattern in its family.
    UnknownOpcode(u16),
    /// A call was executed with all stack slots in use.
    StackOverflow,
    /// A return was executed with no return address on the stack.
    StackUnderflow,
    /// An instruction addressed a byte past the end of memory, or a key
    /// index past the keypad. The instruction set gives no recovery path
    /// for such an access, so the machine halts with a diagnostic.
    OutOfBounds,
}

/// Returned when a program image is larger than the memory left above
/// `MEMORY_OFFSET`.
#[derive(Clone, Copy, Debug, PartialEq, Eq, Structural)]
pub struct LoadError;

/// The whole machine state: memory, registers, call stack, timers,
/// framebuffer and keypad.
#[verifier::ext_equal]
pub struct Chip8 {
    pub memory: Vec<u8>,
    pub stack: Vec<u16>,
    /// Flattened 64x32 framebuffer; the pixel at column x, row y is cell
    /// `x * 32 + y`.
    pub display: Vec<bool>,
    pub registers: Vec<u8>,
    pub index_register: u16,
    pub delay_timer: u8,
    pub sound_timer: u8,
    pub sp: u8,
    pub pc: u16,
    pub keypad: Vec<bool>,
}

impl Chip8 {
    /// Well-formed state: every container has its fixed size and the stack
    /// pointer is in range.
    pub open spec fn wf(self) -> bool {
        &&& self.memory@.len() == MEM_SIZE
        &&& self.registers@.len() == NUM_REGS
        &&& self.stack@.len() == STACK_SIZE
        &&& self.display@.len() == DISPLAY_CELLS
        &&& self.keypad@.len() == NUM_KEYS
        &&& self.sp <= STACK_SIZE
    }

    /// Every field of the two states agrees.
    pub open spec fn all_same(self, o: Chip8) -> bool {
        &&& self.memory == o.memory
        &&& self.display == o.display
        &&& self.stack == o.stack
        &&& self.keypad == o.keypad
        &&& self.registers == o.registers
        &&& self.index_register == o.index_register
        &&& self.delay_timer == o.delay_timer
        &&& self.sound_timer == o.sound_timer
        &&& self.sp == o.sp
        &&& self.pc == o.pc
    }

    /// All fields agree except possibly the register file.
    pub open spec fn same_but_regs(self, o: Chip8) -> bool {
        &&& self.memory == o.memory
        &&& self.display == o.display
        &&& self.stack == o.stack
        &&& self.keypad == o.keypad
        &&& self.index_register == o.index_register
        &&& self.delay_timer == o.delay_timer
        &&& self.sound_timer == o.sound_timer
        &&& self.sp == o.sp
        &&& self.pc == o.pc
    }

    /// All fields agree except possibly the program counter.
    pub open spec fn same_but_pc(self, o: Chip8) -> bool {
        &&& self.memory == o.memory
        &&& self.display == o.display
        &&& self.stack == o.stack
        &&& self.keypad == o.keypad
        &&& self.registers == o.registers
        &&& self.index_register == o.index_register
        &&& self.delay_timer == o.delay_timer
        &&& self.sound_timer == o.sound_timer
        &&& self.sp == o.sp
    }

    /// All fields agree except possibly the index register.
    pub open spec fn same_but_index(self, o: Chip8) -> bool {
        &&& self.memory == o.memory
        &&& self.display == o.display
        &&& self.stack == o.stack
        &&& self.keypad == o.keypad
        &&& self.registers == o.registers
        &&& self.delay_timer == o.delay_timer
        &&& self.sound_timer == o.sound_timer
        &&& self.sp == o.sp
        &&& self.pc == o.pc
    }

    /// All fields agree except possibly the two timers.
    pub open spec fn same_but_timers(self, o: Chip8) -> bool {
        &&& self.memory == o.memory
        &&& self.display == o.display
        &&& self.stack == o.stack
        &&& self.keypad == o.keypad
        &&& self.registers == o.registers
        &&& self.index_register == o.index_register
        &&& self.sp == o.sp
        &&& self.pc == o.pc
    }

    /// All fields agree except possibly the stack, the stack pointer and the
    /// program counter.
    pub open spec fn same_but_stack_sp_pc(self, o: Chip8) -> bool {
        &&& self.memory == o.memory
        &&& self.display == o.display
        &&& self.keypad == o.keypad
        &&& self.registers == o.registers
        &&& self.index_register == o.index_register
        &&& self.delay_timer == o.delay_timer
        &&& self.sound_timer == o.sound_timer
    }

    /// All fields agree except possibly the stack pointer and the program
    /// counter.
    pub open spec fn same_but_sp_pc(self, o: Chip8) -> bool {
        &&& self.same_but_stack_sp_pc(o)
        &&& self.stack == o.stack
    }

    /// All fields agree except possibly the framebuffer.
    pub open spec fn same_but_display(self, o: Chip8) -> bool {
        &&& self.memory == o.memory
        &&& self.stack == o.stack
        &&& self.keypad == o.keypad
        &&& self.registers == o.registers
        &&& self.index_register == o.index_register
        &&& self.delay_timer == o.delay_timer
        &&& self.sound_timer == o.sound_timer
        &&& self.sp == o.sp
        &&& self.pc == o.pc
    }

    /// All fields agree except possibly the framebuffer and the register
    /// file.
    pub open spec fn same_but_display_regs(self, o: Chip8) -> bool {
        &&& self.memory == o.memory
        &&& self.stack == o.stack
        &&& self.keypad == o.keypad
        &&& self.index_register == o.index_register
        &&& self.delay_timer == o.delay_timer
        &&& self.sound_timer == o.sound_timer
        &&& self.sp == o.sp
        &&& self.pc == o.pc
    }

    /// All fields agree except possibly memory.
    pub open spec fn same_but_mem(self, o: Chip8) -> bool {
        &&& self.display == o.display
        &&& self.stack == o.stack
        &&& self.keypad == o.keypad
        &&& self.registers == o.registers
        &&& self.index_register == o.index_register
        &&& self.delay_timer == o.delay_timer
        &&& self.sound_timer == o.sound_timer
        &&& self.sp == o.sp
        &&& self.pc == o.pc
    }

    /// A fresh machine: zeroed memory, registers, stack, timers, framebuffer
    /// and keypad, with the program counter at `MEMORY_OFFSET`.
    pub fn default() -> (vm: Chip8)
        ensures
            vm.wf(),
            forall|i: int| 0 <= i < MEM_SIZE ==> vm.memory@[i] == 0u8,
            forall|i: int| 0 <= i < NUM_REGS ==> vm.registers@[i] == 0u8,
            forall|i: int| 0 <= i < STACK_SIZE ==> vm.stack@[i] == 0u16,
            forall|i: int| 0 <= i < DISPLAY_CELLS ==> vm.display@[i] == false,
            forall|i: int| 0 <= i < NUM_KEYS ==> vm.keypad@[i] == false,
            vm.index_register == 0,
            vm.delay_timer == 0,
            vm.sound_timer == 0,
            vm.sp == 0,
            vm.pc == MEMORY_OFFSET,
    {
        Chip8 {
            memory: filled(MEM_SIZE, 0u8),
            stack: filled(STACK_SIZE, 0u16),
            display: filled(DISPLAY_CELLS, false),
            registers: filled(NUM_REGS, 0u8),
            index_register: 0,
            delay_timer: 0,
            sound_timer: 0,
            sp: 0,
            pc: MEMORY_OFFSET,
            keypad: filled(NUM_KEYS, false),
        }
    }

    /// Copy the built-in font table into memory at `FONT_OFFSET`; no other
    /// byte moves.
    pub fn init_keymap(&mut self)
        requires
            old(self).wf(),
        ensures
            final(self).wf(),
            final(self).same_but_mem(*old(self)),
            forall|i: int|
                FONT_OFFSET <= i < FONT_OFFSET + 80 ==> final(self).memory@[i] == spec_font()[i - FONT_OFFSET],
            forall|i: int|
                0 <= i < MEM_SIZE && !(FONT_OFFSET <= i < FONT_OFFSET + 80) ==> final(self).memory@[i]
                    == old(self).memory@[i],
    {
        let font = font_table();
        let mut i: usize = 0;
        while i < 80
            invariant
                self.wf(),
                self.same_but_mem(*old(self)),
                i <= 80,
                font@ == spec_font(),
                forall|j: int| FONT_OFFSET <= j < FONT_OFFSET + i ==> self.memory@[j] == spec_font()[j - FONT_OFFSET],
                forall|j: int|
                    0 <= j < MEM_SIZE && !(FONT_OFFSET <= j < FONT_OFFSET + i) ==> self.memory@[j]
                        == old(self).memory@[j],
            decreases 80 - i,
        {
            self.memory[FONT_OFFSET + i] = font[i];
            i = i + 1;
        }
    }

    /// Copy a program image into memory at `MEMORY_OFFSET`. Succeeds exactly
    /// when the image fits in the memory left above that offset; on failure
    /// the state is unchanged.
    pub fn load_rom(&mut self, rom: &Vec<u8>) -> (r: Result<(), LoadError>)
        requires
            old(self).wf(),
        ensures
            final(self).wf(),
            final(self).same_but_mem(*old(self)),
            r is Ok <==> rom@.len() <= MAX_PROGRAM,
            r is Err ==> final(self).memory@ == old(self).memory@,
            r is Ok ==> forall|i: int|
                0 <= i < rom@.len() ==> final(self).memory@[MEMORY_OFFSET + i] == rom@[i],
            r is Ok ==> forall|i: int|
                0 <= i < MEM_SIZE && !(MEMORY_OFFSET <= i < MEMORY_OFFSET + rom@.len())
                    ==> final(self).memory@[i] == old(self).memory@[i],
    {
        if rom.len() > MAX_PROGRAM {
            return Err(LoadError);
        }
        let base: usize = MEMORY_OFFSET as usize;
        let n: usize = rom.len();
        let mut i: usize = 0;
        while i < n
            invariant
                self.wf(),
                self.same_but_mem(*old(self)),
                base == MEMORY_OFFSET as usize,
                i <= n,
                n == rom@.len(),
                n <= MAX_PROGRAM,
                forall|j: int| 0 <= j < i ==> self.memory@[MEMORY_OFFSET + j] == rom@[j],
                forall|j: int|
                    0 <= j < MEM_SIZE && !(MEMORY_OFFSET <= j < MEMORY_OFFSET + i) ==> self.memory@[j]
                        == old(self).memory@[j],
            decreases n - i,
        {
            self.memory[base + i] = rom[i];
            i = i + 1;
        }
        Ok(())
    }

    /// One tick of the external 60 Hz driver: each timer counts down by one
    /// and stops at zero. Instruction execution never calls this; the host's
    /// frame loop does.
    pub fn tick_timers(&mut self)
        requires
            old(self).wf(),
        ensures
            final(self).wf(),
            final(self).same_but_timers(*old(self)),
            final(self).delay_timer == (if old(self).delay_timer > 0 {
                (old(self).delay_timer - 1) as u8
            } else {
                0u8
            }),
            final(self).sound_timer == (if old(self).sound_timer > 0 {
                (old(self).sound_timer - 1) as u8
            } else {
                0u8
            }),
    {
        if self.delay_timer > 0 {
            self.delay_timer = self.delay_timer - 1;
        }
        if self.sound_timer > 0 {
            self.sound_timer = self.sound_timer - 1;
        }
    }

    /// Read one framebuffer pixel: true means drawn.
    pub fn pixel(&self, x: usize, y: usize) -> (p: bool)
        requires
            self.wf(),
            x < SCREEN_W,
            y < SCREEN_H,
        ensures
            p == self.display@[x * SCREEN_H + y],
    {
        self.display[x * SCREEN_H + y]
    }
}

/// A vector of `n` copies of `v`.
fn filled<T: Copy>(n: usize, v: T) -> (r: Vec<T>)
    ensures
        r@.len() == n,
        forall|i: int| 0 <= i < n ==> r@[i] == v,
{
    let mut r: Vec<T> = Vec::new();
    let mut k: usize = 0;
    while k < n
        invariant
            r@.len() == k,
            k <= n,
            forall|i: int| 0 <= i < k ==> r@[i] == v,
        decreases n - k,
    {
        r.push(v);
        k = k + 1;
    }
    r
}

} // verus!
