//! The interpreter: the machine's state in memory and the cycle that runs it.

use vstd::prelude::*;
use crate::display::{draw_sprite, sprite_at, PIXELS};
use crate::entropy::random_byte;
use crate::fault::Fault;
use crate::font::{FONTSET, FONTSET_SIZE, GLYPH_SIZE};
use crate::instruction::{decode, Instruction};
use crate::machine::{
    any_key_down, key_down, lowest_key_down, reported, Machine, MEMORY_SIZE, PROGRAM_START, STACK_DEPTH,
};

verus! {

/// A CHIP-8 machine.
pub struct CHIP8 {
    ram: [u8; MEMORY_SIZE],
    /// The framebuffer: 64 by 32 cells, row by row, each 0 or 1 once the
    /// machine has drawn it.
    pub graphics: [u8; PIXELS],
    regs: [u8; 16],
    pc: u16,
    delay_timer: u8,
    sound_timer: u8,
    index: u16,
    sp: usize,
    stack: [u16; STACK_DEPTH],
    keys: [u8; 16],
}

impl View for CHIP8 {
    type V = Machine;

    closed spec fn view(&self) -> Machine {
        Machine {
            ram: self.ram@,
            regs: self.regs@,
            index: self.index,
            pc: self.pc,
            stack: self.stack@,
            sp: self.sp as int,
            delay_timer: self.delay_timer,
            sound_timer: self.sound_timer,
            graphics: self.graphics@,
            keys: self.keys@,
        }
    }
}

impl CHIP8 {
    /// The invariant of the machine: see [`Machine::wf`].
    pub open spec fn wf(&self) -> bool {
        self@.wf()
    }

    /// The framebuffer, for the host to render: the same cells as the public
    /// field, with the contract that the field cannot carry.
    pub fn framebuffer(&self) -> (cells: &[u8; PIXELS])
        ensures
            cells@ == self@.graphics,
    {
        &self.graphics
    }

    /// A machine with the font in memory from address 0, the program counter
    /// at 0x200 and everything else zero.
    pub fn new() -> (chip: CHIP8)
        ensures
            chip.wf(),
            chip@ == Machine::initial(),
            forall|i: int| 0 <= i < 80 ==> chip@.ram[i] == FONTSET@[i],
    {
        let mut chip = CHIP8 {
            ram: [0; MEMORY_SIZE],
            graphics: [0; PIXELS],
            stack: [0; STACK_DEPTH],
            keys: [0; 16],
            regs: [0; 16],
            delay_timer: 0,
            sound_timer: 0,
            index: 0,
            sp: 0,
            pc: PROGRAM_START,
        };
        let mut idx: usize = 0;
        while idx < FONTSET_SIZE
            invariant
                idx <= 80,
                forall|i: int| 0 <= i < idx ==> chip.ram@[i] == FONTSET@[i],
                forall|i: int| idx <= i < 4096 ==> chip.ram@[i] == 0,
                forall|i: int| 0 <= i < 2048 ==> chip.graphics@[i] == 0,
                forall|i: int| 0 <= i < 16 ==> chip.stack@[i] == 0,
                forall|i: int| 0 <= i < 16 ==> chip.keys@[i] == 0,
                forall|i: int| 0 <= i < 16 ==> chip.regs@[i] == 0,
                chip.delay_timer == 0,
                chip.sound_timer == 0,
                chip.index == 0,
                chip.sp == 0,
                chip.pc == 0x200,
            decreases FONTSET_SIZE - idx,
        {
            chip.ram[idx] = FONTSET[idx];
            idx += 1;
        }
        assert(chip@ =~= Machine::initial());
        chip
    }

    /// Marks key `idx` as down.
    #[inline]
    pub fn press_key(&mut self, idx: usize)
        requires
            old(self).wf(),
            idx < 16,
        ensures
            final(self).wf(),
            final(self)@ == old(self)@.set_key(idx as int, 1),
    {
        self.keys[idx] = 1;
    }

    /// Marks key `idx` as up.
    #[inline]
    pub fn release_key(&mut self, idx: usize)
        requires
            old(self).wf(),
            idx < 16,
        ensures
            final(self).wf(),
            final(self)@ == old(self)@.set_key(idx as int, 0),
    {
        self.keys[idx] = 0;
    }

    /// Copies `bytes` into memory from `origin` on. Nothing is copied where
    /// they do not all fit below address 4096.
    pub fn load_at(&mut self, bytes: &[u8], origin: usize) -> (res: Result<(), Fault>)
        requires
            old(self).wf(),
        ensures
            final(self).wf(),
            origin + bytes@.len() <= 4096 ==> res is Ok && final(self)@ == old(self)@.load_at(
                bytes@,
                origin as int,
            ),
            origin + bytes@.len() > 4096 ==> res == Err::<(), Fault>(Fault::OutOfBoundsAccess) && final(self)@
                == old(self)@,
            res is Ok ==> final(self)@.ram.subrange(origin as int, origin + bytes@.len()) == bytes@,
            res is Ok ==> forall|i: int|
                0 <= i < 4096 && !(origin <= i < origin + bytes@.len()) ==> final(self)@.ram[i] == old(self)@.ram[i],
    {
        let len = bytes.len();
        if origin > MEMORY_SIZE || len > MEMORY_SIZE - origin {
            return Err(Fault::OutOfBoundsAccess);
        }
        let mut i: usize = 0;
        while i < len
            invariant
                i <= len,
                len == bytes@.len(),
                origin + len <= 4096,
                forall|j: int| origin <= j < origin + i ==> self.ram@[j] == bytes@[j - origin],
                forall|j: int| 0 <= j < 4096 && !(origin <= j < origin + i) ==> self.ram@[j] == old(self).ram@[j],
                self.regs == old(self).regs,
                self.index == old(self).index,
                self.pc == old(self).pc,
                self.stack == old(self).stack,
                self.sp == old(self).sp,
                self.delay_timer == old(self).delay_timer,
                self.sound_timer == old(self).sound_timer,
                self.graphics == old(self).graphics,
                self.keys == old(self).keys,
            decreases len - i,
        {
            self.ram[origin + i] = bytes[i];
            i += 1;
        }
        assert(self@ =~= old(self)@.load_at(bytes@, origin as int));
        assert(self@.ram.subrange(origin as int, origin + bytes@.len()) =~= bytes@);
        Ok(())
    }

    /// Copies a program into memory from address 0x200 on. Nothing is copied
    /// where it is longer than the 3584 bytes that are there.
    pub fn load(&mut self, bytes: &[u8]) -> (res: Result<(), Fault>)
        requires
            old(self).wf(),
        ensures
            final(self).wf(),
            bytes@.len() <= 4096 - 0x200 ==> res is Ok && final(self)@ == old(self)@.load_at(bytes@, 0x200),
            bytes@.len() > 4096 - 0x200 ==> res == Err::<(), Fault>(Fault::OutOfBoundsAccess) && final(self)@
                == old(self)@,
            res is Ok ==> final(self)@.ram.subrange(0x200, 0x200 + bytes@.len() as int) == bytes@,
            res is Ok ==> forall|i: int|
                0 <= i < 4096 && !(0x200 <= i < 0x200 + bytes@.len()) ==> final(self)@.ram[i] == old(self)@.ram[i],
    {
        self.load_at(bytes, PROGRAM_START as usize)
    }

    /// The byte of memory at `address`.
    pub fn read(&self, address: usize) -> (res: Result<u8, Fault>)
        requires
            self.wf(),
        ensures
            address < 4096 ==> res == Ok::<u8, Fault>(self@.ram[address as int]),
            address >= 4096 ==> res == Err::<u8, Fault>(Fault::OutOfBoundsAccess),
    {
        if address < MEMORY_SIZE {
            Ok(self.ram[address])
        } else {
            Err(Fault::OutOfBoundsAccess)
        }
    }

    /// The program counter.
    pub fn pc(&self) -> (pc: u16)
        ensures
            pc == self@.pc,
    {
        self.pc
    }

    /// The index register `I`.
    pub fn index(&self) -> (index: u16)
        ensures
            index == self@.index,
    {
        self.index
    }

    /// Register `Vx`.
    pub fn register(&self, x: usize) -> (value: u8)
        requires
            x < 16,
        ensures
            value == self@.regs[x as int],
    {
        self.regs[x]
    }

    /// The number of pending calls.
    pub fn stack_pointer(&self) -> (sp: usize)
        ensures
            sp == self@.sp,
    {
        self.sp
    }

    /// The delay timer.
    pub fn delay_timer(&self) -> (value: u8)
        ensures
            value == self@.delay_timer,
    {
        self.delay_timer
    }

    /// The sound timer. The host sounds its tone while this is not zero.
    pub fn sound_timer(&self) -> (value: u8)
        ensures
            value == self@.sound_timer,
    {
        self.sound_timer
    }

    /// Whether key `idx` is down.
    pub fn is_key_pressed(&self, idx: usize) -> (down: bool)
        requires
            idx < 16,
        ensures
            down == key_down(self@.keys, idx as int),
    {
        self.keys[idx] != 0
    }

    /// One tick of the 60 Hz clock, which the host drives: each timer that is
    /// not zero goes down by one.
    pub fn tick_timers(&mut self)
        requires
            old(self).wf(),
        ensures
            final(self).wf(),
            final(self)@ == old(self)@.tick(),
    {
        if self.delay_timer > 0 {
            self.delay_timer -= 1;
        }
        if self.sound_timer > 0 {
            self.sound_timer -= 1;
        }
    }

    /// Moves the program counter to the following instruction.
    pub fn increment_pc(&mut self)
        requires
            old(self).wf(),
            old(self)@.pc + 2 <= u16::MAX,
        ensures
            final(self).wf(),
            final(self)@ == old(self)@.next(),
    {
        self.pc += 2;
    }
}

impl CHIP8 {
    /// Reads the instruction word at the program counter, high byte first.
    fn fetch(&self) -> (res: Result<u16, Fault>)
        ensures
            res == self@.fetch(),
    {
        if self.pc as usize + 1 >= MEMORY_SIZE {
            return Err(Fault::OutOfBoundsAccess);
        }
        let byte1 = self.ram[self.pc as usize];
        let byte2 = self.ram[self.pc as usize + 1];
        assert(((byte1 as u16) << 8) | (byte2 as u16) == byte1 * 256 + byte2) by (bit_vector);
        Ok(((byte1 as u16) << 8) | (byte2 as u16))
    }

    /// Moves the program counter past the following instruction too where
    /// `skip` holds, and to it where not.
    fn next_or_skip(&mut self, skip: bool)
        requires
            old(self).wf(),
            old(self)@.pc + 4 <= u16::MAX,
        ensures
            final(self).wf(),
            final(self)@ == old(self)@.next_or_skip(skip),
    {
        if skip {
            self.increment_pc();
        }
        self.increment_pc();
    }

    /// Writes `value` to `Vx`, then the flag to `VF`.
    fn set_reg_and_flag(&mut self, x: u8, value: u8, flag: bool)
        requires
            old(self).wf(),
            x < 16,
        ensures
            final(self).wf(),
            final(self)@ == old(self)@.set_reg_and_flag(x as int, value, flag),
    {
        self.regs[x as usize] = value;
        self.regs[0xF] = if flag { 1 } else { 0 };
    }

    /// The arithmetic and logic instructions that set `VF`.
    fn execute_flagged(&mut self, instr: Instruction)
        requires
            old(self).wf(),
            instr.wf(),
            old(self)@.pc + 2 <= u16::MAX,
            instr is Add || instr is Subtract || instr is ShiftRight || instr is SubtractFrom || instr is ShiftLeft,
        ensures
            final(self).wf(),
            old(self)@.execute(instr, 0) == Ok::<Machine, Fault>(final(self)@),
    {
        match instr {
            Instruction::Add { x, y } => {
                let vx = self.regs[x as usize];
                let vy = self.regs[y as usize];
                let sum: u16 = vx as u16 + vy as u16;
                assert((sum & 0xFF) == sum % 256) by (bit_vector);
                self.set_reg_and_flag(x, (sum & 0xFF) as u8, sum > 255);
            },
            Instruction::Subtract { x, y } => {
                let vx = self.regs[x as usize];
                let vy = self.regs[y as usize];
                self.set_reg_and_flag(x, vx.wrapping_sub(vy), vx > vy);
            },
            Instruction::ShiftRight { x } => {
                let vx = self.regs[x as usize];
                assert(vx >> 1 == vx / 2 && (vx & 1 != 0 <==> vx % 2 == 1)) by (bit_vector);
                self.set_reg_and_flag(x, vx >> 1, vx & 1 != 0);
            },
            Instruction::SubtractFrom { x, y } => {
                let vx = self.regs[x as usize];
                let vy = self.regs[y as usize];
                self.set_reg_and_flag(x, vy.wrapping_sub(vx), vy > vx);
            },
            Instruction::ShiftLeft { x } => {
                let vx = self.regs[x as usize];
                assert((vx << 1) == vx * 2 % 256 && (vx & 0x80 != 0 <==> vx >= 128)) by (bit_vector);
                self.set_reg_and_flag(x, vx << 1, vx & 0x80 != 0);
            },
            _ => {},
        }
        self.increment_pc();
    }

    /// Draws the sprite at `I` and sets `VF` to the collision flag.
    fn execute_draw(&mut self, x: u8, y: u8, rows: u8) -> (res: Result<(), Fault>)
        requires
            old(self).wf(),
            x < 16,
            y < 16,
            rows < 16,
            old(self)@.pc + 2 <= u16::MAX,
        ensures
            final(self).wf(),
            old(self)@.execute(Instruction::Draw { x, y, rows }, 0) == reported(res, final(self)@),
            res is Err ==> final(self)@ == old(self)@,
    {
        if rows > 0 && self.index as usize + rows as usize > MEMORY_SIZE {
            return Err(Fault::OutOfBoundsAccess);
        }
        let vx = self.regs[x as usize];
        let vy = self.regs[y as usize];
        let origin: usize = if rows == 0 { 0 } else { self.index as usize };
        assert(sprite_at(self.ram@, origin as int, rows as int) =~= sprite_at(
            self.ram@,
            self.index as int,
            rows as int,
        ));
        let collision = draw_sprite(&mut self.graphics, &self.ram, origin, rows as usize, vx, vy);
        self.regs[0xF] = if collision { 1 } else { 0 };
        self.increment_pc();
        Ok(())
    }

    /// Waits for a key: with one down, its number goes to `Vx`; with none, the
    /// machine stays as it is, so that the instruction runs again.
    fn execute_wait_key(&mut self, x: u8)
        requires
            old(self).wf(),
            x < 16,
            old(self)@.pc + 2 <= u16::MAX,
        ensures
            final(self).wf(),
            old(self)@.execute(Instruction::WaitKey { x }, 0) == Ok::<Machine, Fault>(final(self)@),
    {
        let mut key: u8 = 0;
        while key < 16
            invariant
                key <= 16,
                x < 16,
                *self == *old(self),
                self.wf(),
                self@.pc + 2 <= u16::MAX,
                forall|other: int| 0 <= other < key ==> !key_down(self@.keys, other),
            decreases 16 - key,
        {
            if self.keys[key as usize] != 0 {
                proof {
                    assert(lowest_key_down(self@.keys, key as int));
                    let chosen = choose|k: int| lowest_key_down(self@.keys, k);
                    assert(key_down(self@.keys, key as int));
                    assert(chosen == key) by {
                        if chosen < key {
                            assert(!key_down(self@.keys, chosen));
                        } else if chosen > key {
                            assert(!key_down(self@.keys, key as int));
                        }
                    }
                }
                self.regs[x as usize] = key;
                self.increment_pc();
                return ;
            }
            key += 1;
        }
        assert(!any_key_down(self@.keys));
    }

    /// Stores the hundreds, tens and units of `Vx` at `I`, `I+1` and `I+2`.
    fn execute_store_decimal(&mut self, x: u8) -> (res: Result<(), Fault>)
        requires
            old(self).wf(),
            x < 16,
            old(self)@.pc + 2 <= u16::MAX,
        ensures
            final(self).wf(),
            old(self)@.execute(Instruction::StoreDecimal { x }, 0) == reported(res, final(self)@),
            res is Err ==> final(self)@ == old(self)@,
    {
        let at = self.index as usize;
        if at + 2 >= MEMORY_SIZE {
            return Err(Fault::OutOfBoundsAccess);
        }
        let vx = self.regs[x as usize];
        self.ram[at] = vx / 100;
        self.ram[at + 1] = (vx / 10) % 10;
        self.ram[at + 2] = vx % 10;
        self.increment_pc();
        Ok(())
    }

    /// Stores `V0` to `Vx`, `Vx` included, in memory from `I` on.
    fn execute_store_registers(&mut self, x: u8) -> (res: Result<(), Fault>)
        requires
            old(self).wf(),
            x < 16,
            old(self)@.pc + 2 <= u16::MAX,
        ensures
            final(self).wf(),
            old(self)@.execute(Instruction::StoreRegisters { x }, 0) == reported(res, final(self)@),
            res is Err ==> final(self)@ == old(self)@,
    {
        let at = self.index as usize;
        if at + x as usize >= MEMORY_SIZE {
            return Err(Fault::OutOfBoundsAccess);
        }
        let mut i: usize = 0;
        while i <= x as usize
            invariant
                i <= x + 1,
                x < 16,
                at == old(self).index,
                at + x < 4096,
                forall|j: int| at <= j < at + i ==> self.ram@[j] == old(self).regs@[j - at],
                forall|j: int| 0 <= j < 4096 && !(at <= j < at + i) ==> self.ram@[j] == old(self).ram@[j],
                self.regs == old(self).regs,
                self.index == old(self).index,
                self.pc == old(self).pc,
                self.stack == old(self).stack,
                self.sp == old(self).sp,
                self.delay_timer == old(self).delay_timer,
                self.sound_timer == old(self).sound_timer,
                self.graphics == old(self).graphics,
                self.keys == old(self).keys,
            decreases x + 1 - i,
        {
            self.ram[at + i] = self.regs[i];
            i += 1;
        }
        self.increment_pc();
        assert(self@ =~= old(self)@.execute(Instruction::StoreRegisters { x }, 0)->Ok_0);
        Ok(())
    }

    /// Loads `V0` to `Vx`, `Vx` excluded, from memory from `I` on.
    fn execute_load_registers(&mut self, x: u8) -> (res: Result<(), Fault>)
        requires
            old(self).wf(),
            x < 16,
            old(self)@.pc + 2 <= u16::MAX,
        ensures
            final(self).wf(),
            old(self)@.execute(Instruction::LoadRegisters { x }, 0) == reported(res, final(self)@),
            res is Err ==> final(self)@ == old(self)@,
    {
        let at = self.index as usize;
        if x > 0 && at + x as usize > MEMORY_SIZE {
            return Err(Fault::OutOfBoundsAccess);
        }
        let mut i: usize = 0;
        while i < x as usize
            invariant
                i <= x,
                x < 16,
                at == old(self).index,
                x > 0 ==> at + x <= 4096,
                forall|j: int| 0 <= j < i ==> self.regs@[j] == old(self).ram@[at + j],
                forall|j: int| i <= j < 16 ==> self.regs@[j] == old(self).regs@[j],
                self.ram == old(self).ram,
                self.index == old(self).index,
                self.pc == old(self).pc,
                self.stack == old(self).stack,
                self.sp == old(self).sp,
                self.delay_timer == old(self).delay_timer,
                self.sound_timer == old(self).sound_timer,
                self.graphics == old(self).graphics,
                self.keys == old(self).keys,
            decreases x - i,
        {
            self.regs[i] = self.ram[at + i];
            i += 1;
        }
        self.increment_pc();
        assert(self@ =~= old(self)@.execute(Instruction::LoadRegisters { x }, 0)->Ok_0);
        Ok(())
    }

    /// Whether any key is down.
    fn any_key_pressed(&self) -> (down: bool)
        ensures
            down == any_key_down(self@.keys),
    {
        let mut key: usize = 0;
        while key < 16
            invariant
                key <= 16,
                forall|other: int| 0 <= other < key ==> !key_down(self@.keys, other),
            decreases 16 - key,
        {
            if self.keys[key] != 0 {
                assert(key_down(self@.keys, key as int));
                return true;
            }
            key += 1;
        }
        false
    }

    /// The instructions that say where execution goes on: jumps, call and
    /// return.
    fn execute_flow(&mut self, instr: Instruction) -> (res: Result<(), Fault>)
        requires
            old(self).wf(),
            instr.wf(),
            old(self)@.pc + 1 < 4096,
            instr is Return || instr is Jump || instr is Call || instr is JumpOffset,
        ensures
            final(self).wf(),
            old(self)@.execute(instr, 0) == reported(res, final(self)@),
            res is Err ==> final(self)@ == old(self)@,
    {
        match instr {
            Instruction::Return => {
                if self.sp == 0 {
                    return Err(Fault::OutOfBoundsAccess);
                }
                self.sp -= 1;
                self.pc = self.stack[self.sp] + 2;
            },
            Instruction::Jump { addr } => {
                self.pc = addr;
            },
            Instruction::Call { addr } => {
                if self.sp >= STACK_DEPTH {
                    return Err(Fault::OutOfBoundsAccess);
                }
                self.stack[self.sp] = self.pc;
                self.sp += 1;
                self.pc = addr;
            },
            Instruction::JumpOffset { addr } => {
                self.pc = addr + self.regs[0] as u16;
            },
            _ => {},
        }
        Ok(())
    }

    /// The conditional skips.
    fn execute_skip(&mut self, instr: Instruction) -> (res: Result<(), Fault>)
        requires
            old(self).wf(),
            instr.wf(),
            old(self)@.pc + 1 < 4096,
            instr is SkipEqual || instr is SkipNotEqual || instr is SkipRegistersEqual
                || instr is SkipRegistersNotEqual || instr is SkipKeyDown || instr is SkipKeyUp,
        ensures
            final(self).wf(),
            old(self)@.execute(instr, 0) == reported(res, final(self)@),
            res is Err ==> final(self)@ == old(self)@,
    {
        let skip = match instr {
            Instruction::SkipEqual { x, byte } => self.regs[x as usize] == byte,
            Instruction::SkipNotEqual { x, byte } => self.regs[x as usize] != byte,
            Instruction::SkipRegistersEqual { x, y } => self.regs[x as usize] == self.regs[y as usize],
            Instruction::SkipRegistersNotEqual { x, y } => self.regs[x as usize] != self.regs[y as usize],
            Instruction::SkipKeyDown { x } => {
                let key = self.regs[x as usize] as usize;
                if key >= 16 {
                    return Err(Fault::OutOfBoundsAccess);
                }
                self.keys[key] != 0
            },
            Instruction::SkipKeyUp { x } => {
                let key = self.regs[x as usize] as usize;
                if key >= 16 {
                    return Err(Fault::OutOfBoundsAccess);
                }
                self.keys[key] == 0
            },
            _ => false,
        };
        self.next_or_skip(skip);
        Ok(())
    }

    /// The instructions that write one register and no flag.
    fn execute_assign(&mut self, instr: Instruction, random: u8)
        requires
            old(self).wf(),
            instr.wf(),
            old(self)@.pc + 2 <= u16::MAX,
            instr is Load || instr is AddByte || instr is Move || instr is Or || instr is And || instr is Xor
                || instr is Random || instr is ReadDelay,
        ensures
            final(self).wf(),
            old(self)@.execute(instr, random) == Ok::<Machine, Fault>(final(self)@),
    {
        match instr {
            Instruction::Load { x, byte } => {
                self.regs[x as usize] = byte;
            },
            Instruction::AddByte { x, byte } => {
                self.regs[x as usize] = self.regs[x as usize].wrapping_add(byte);
            },
            Instruction::Move { x, y } => {
                self.regs[x as usize] = self.regs[y as usize];
            },
            Instruction::Or { x, y } => {
                self.regs[x as usize] = self.regs[x as usize] | self.regs[y as usize];
            },
            Instruction::And { x, y } => {
                self.regs[x as usize] = self.regs[x as usize] & self.regs[y as usize];
            },
            Instruction::Xor { x, y } => {
                self.regs[x as usize] = self.regs[x as usize] ^ self.regs[y as usize];
            },
            Instruction::Random { x, byte } => {
                self.regs[x as usize] = random & byte;
            },
            Instruction::ReadDelay { x } => {
                self.regs[x as usize] = self.delay_timer;
            },
            _ => {},
        }
        self.increment_pc();
    }

    /// The instructions that write the index register or a timer.
    fn execute_special(&mut self, instr: Instruction)
        requires
            old(self).wf(),
            instr.wf(),
            old(self)@.pc + 2 <= u16::MAX,
            instr is LoadIndex || instr is SetDelay || instr is SetSound || instr is AddIndex || instr is LoadGlyph,
        ensures
            final(self).wf(),
            old(self)@.execute(instr, 0) == Ok::<Machine, Fault>(final(self)@),
    {
        match instr {
            Instruction::LoadIndex { addr } => {
                self.index = addr;
            },
            Instruction::SetDelay { x } => {
                self.delay_timer = self.regs[x as usize];
            },
            Instruction::SetSound { x } => {
                self.sound_timer = self.regs[x as usize];
            },
            Instruction::AddIndex { x } => {
                self.index = self.index.wrapping_add(self.regs[x as usize] as u16);
            },
            Instruction::LoadGlyph { x } => {
                if self.regs[x as usize] < 16 {
                    self.index = (self.regs[x as usize] as u16) * (GLYPH_SIZE as u16);
                }
            },
            _ => {},
        }
        self.increment_pc();
    }

    /// Clears the framebuffer.
    fn execute_clear(&mut self)
        requires
            old(self).wf(),
            old(self)@.pc + 2 <= u16::MAX,
        ensures
            final(self).wf(),
            old(self)@.execute(Instruction::ClearScreen, 0) == Ok::<Machine, Fault>(final(self)@),
    {
        self.graphics = [0; PIXELS];
        self.increment_pc();
        assert(self@ =~= old(self)@.execute(Instruction::ClearScreen, 0)->Ok_0);
    }

    /// Executes one decoded instruction. `random` is used by
    /// `Instruction::Random` alone.
    fn execute(&mut self, instr: Instruction, random: u8) -> (res: Result<(), Fault>)
        requires
            old(self).wf(),
            instr.wf(),
            old(self)@.pc + 1 < 4096,
        ensures
            final(self).wf(),
            old(self)@.execute(instr, random) == reported(res, final(self)@),
            res is Err ==> final(self)@ == old(self)@,
    {
        match instr {
            Instruction::ClearScreen => {
                self.execute_clear();
                Ok(())
            },
            Instruction::Return
            | Instruction::Jump { .. }
            | Instruction::Call { .. }
            | Instruction::JumpOffset { .. } => self.execute_flow(instr),
            Instruction::SkipEqual { .. }
            | Instruction::SkipNotEqual { .. }
            | Instruction::SkipRegistersEqual { .. }
            | Instruction::SkipRegistersNotEqual { .. }
            | Instruction::SkipKeyDown { .. }
            | Instruction::SkipKeyUp { .. } => self.execute_skip(instr),
            Instruction::Load { .. }
            | Instruction::AddByte { .. }
            | Instruction::Move { .. }
            | Instruction::Or { .. }
            | Instruction::And { .. }
            | Instruction::Xor { .. }
            | Instruction::Random { .. }
            | Instruction::ReadDelay { .. } => {
                self.execute_assign(instr, random);
                Ok(())
            },
            Instruction::Add { .. }
            | Instruction::Subtract { .. }
            | Instruction::ShiftRight { .. }
            | Instruction::SubtractFrom { .. }
            | Instruction::ShiftLeft { .. } => {
                self.execute_flagged(instr);
                Ok(())
            },
            Instruction::LoadIndex { .. }
            | Instruction::SetDelay { .. }
            | Instruction::SetSound { .. }
            | Instruction::AddIndex { .. }
            | Instruction::LoadGlyph { .. } => {
                self.execute_special(instr);
                Ok(())
            },
            Instruction::Draw { x, y, rows } => self.execute_draw(x, y, rows),
            Instruction::WaitKey { x } => {
                self.execute_wait_key(x);
                Ok(())
            },
            Instruction::StoreDecimal { x } => self.execute_store_decimal(x),
            Instruction::StoreRegisters { x } => self.execute_store_registers(x),
            Instruction::LoadRegisters { x } => self.execute_load_registers(x),
        }
    }

    /// Whether the machine is at a key wait with no key down. While this
    /// holds a cycle changes nothing, so the host may as well wait for its
    /// next key event before it runs one.
    pub fn is_waiting_for_key(&self) -> (waiting: bool)
        requires
            self.wf(),
        ensures
            waiting == (self@.current() matches Some(instr) && self@.blocked(instr)),
    {
        match self.fetch() {
            Ok(word) => match decode(word) {
                Some(Instruction::WaitKey { .. }) => !self.any_key_pressed(),
                _ => false,
            },
            Err(_) => false,
        }
    }

    /// Runs one cycle with `random` as the byte that a random instruction
    /// draws: fetches the word at the program counter, decodes it and executes
    /// the instruction. On a fault the machine is left as it was.
    pub fn step(&mut self, random: u8) -> (res: Result<(), Fault>)
        requires
            old(self).wf(),
        ensures
            final(self).wf(),
            old(self)@.step(random) == reported(res, final(self)@),
            res is Err ==> final(self)@ == old(self)@,
    {
        let word = match self.fetch() {
            Ok(word) => word,
            Err(fault) => {
                return Err(fault);
            },
        };
        match decode(word) {
            Some(instr) => self.execute(instr, random),
            None => Err(Fault::UndecodableOpcode(word)),
        }
    }

    /// Runs one cycle. A random instruction draws its byte from the `rand`
    /// crate's thread-local generator; what the cycle does is what [`step`]
    /// does with that byte, whichever it is. At any other instruction the
    /// cycle is what [`step`] does with any byte. On a fault the machine is
    /// left as it was.
    ///
    /// [`step`]: CHIP8::step
    pub fn cycle(&mut self) -> (res: Result<(), Fault>)
        requires
            old(self).wf(),
        ensures
            final(self).wf(),
            exists|random: u8| #[trigger] old(self)@.step(random) == reported(res, final(self)@),
            !old(self)@.draws_random() ==> forall|random: u8| #[trigger]
                old(self)@.step(random) == reported(res, final(self)@),
            res is Err ==> final(self)@ == old(self)@,
    {
        let word = match self.fetch() {
            Ok(word) => word,
            Err(fault) => {
                assert(old(self)@.step(0) == reported(Err::<(), Fault>(fault), self@));
                return Err(fault);
            },
        };
        match decode(word) {
            Some(instr) => {
                let random = match instr {
                    Instruction::Random { .. } => random_byte(),
                    _ => 0,
                };
                let res = self.execute(instr, random);
                assert(old(self)@.step(random) == reported(res, self@));
                res
            },
            None => {
                assert(old(self)@.step(0) == reported(Err::<(), Fault>(Fault::UndecodableOpcode(word)), self@));
                Err(Fault::UndecodableOpcode(word))
            },
        }
    }
}

} // verus!
