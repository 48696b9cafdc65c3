//! The machine as a mathematical value, and what one instruction does to it.

use vstd::prelude::*;
use crate::display::{blank, collides, draw, sprite_at};
use crate::fault::Fault;
use crate::font::{glyph_address, FONTSET};
use crate::instruction::{decode_word, Instruction};

verus! {

/// Bytes of memory.
pub const MEMORY_SIZE: usize = 4096;

/// Where programs are loaded, and where the program counter starts.
pub const PROGRAM_START: u16 = 0x200;

/// Calls that can be pending at once.
pub const STACK_DEPTH: usize = 16;

/// The whole state of the machine.
#[verifier::ext_equal]
pub struct Machine {
    /// Memory, 4096 bytes.
    pub ram: Seq<u8>,
    /// The registers `V0` to `VF`.
    pub regs: Seq<u8>,
    /// The index register `I`.
    pub index: u16,
    /// The program counter.
    pub pc: u16,
    /// For each pending call, the address of the call instruction; 16 entries,
    /// of which the first `sp` are in use.
    pub stack: Seq<u16>,
    /// The number of pending calls.
    pub sp: int,
    /// The delay timer.
    pub delay_timer: u8,
    /// The sound timer.
    pub sound_timer: u8,
    /// The framebuffer, 2048 cells, row by row.
    pub graphics: Seq<u8>,
    /// The sixteen keys: 1 for a key that is down, 0 for one that is up.
    pub keys: Seq<u8>,
}

/// Whether key `key` is down.
pub open spec fn key_down(keys: Seq<u8>, key: int) -> bool {
    0 <= key < keys.len() && keys[key] != 0
}

/// Whether `key` is down and no key with a lower number is.
pub open spec fn lowest_key_down(keys: Seq<u8>, key: int) -> bool {
    key_down(keys, key) && forall|other: int| 0 <= other < key ==> !key_down(keys, other)
}

/// Whether any key is down.
pub open spec fn any_key_down(keys: Seq<u8>) -> bool {
    exists|key: int| key_down(keys, key)
}

/// The result that a call reports when the step it made came out as `res` and
/// left the machine at `after`.
pub open spec fn reported(res: Result<(), Fault>, after: Machine) -> Result<Machine, Fault> {
    match res {
        Ok(_) => Ok(after),
        Err(fault) => Err(fault),
    }
}

impl Machine {
    /// The sizes are right, at most 16 calls are pending, every stack entry is
    /// an address at which an instruction fits in memory, and every key cell
    /// is 0 or 1.
    pub open spec fn wf(self) -> bool {
        &&& self.ram.len() == 4096
        &&& self.regs.len() == 16
        &&& self.stack.len() == 16
        &&& self.graphics.len() == 2048
        &&& self.keys.len() == 16
        &&& 0 <= self.sp <= 16
        &&& forall|i: int| 0 <= i < 16 ==> self.stack[i] + 1 < 4096
        &&& forall|i: int| 0 <= i < 16 ==> self.keys[i] <= 1
    }

    /// The machine as it is made: the font at the bottom of memory, the
    /// program counter at 0x200, everything else zero.
    pub open spec fn initial() -> Machine {
        Machine {
            ram: Seq::new(4096, |i: int| if i < 80 { FONTSET@[i] } else { 0u8 }),
            regs: Seq::new(16, |i: int| 0u8),
            index: 0,
            pc: 0x200,
            stack: Seq::new(16, |i: int| 0u16),
            sp: 0,
            delay_timer: 0,
            sound_timer: 0,
            graphics: blank(),
            keys: Seq::new(16, |i: int| 0u8),
        }
    }

    /// Memory with `bytes` copied in from `origin` on.
    pub open spec fn load_at(self, bytes: Seq<u8>, origin: int) -> Machine {
        Machine {
            ram: Seq::new(
                self.ram.len(),
                |i: int| if origin <= i < origin + bytes.len() { bytes[i - origin] } else { self.ram[i] },
            ),
            ..self
        }
    }

    /// The machine with key `key` down (`state` 1) or up (`state` 0).
    pub open spec fn set_key(self, key: int, state: u8) -> Machine {
        Machine { keys: self.keys.update(key, state), ..self }
    }

    /// The machine after one tick of the 60 Hz clock: each timer that is not
    /// zero goes down by one.
    pub open spec fn tick(self) -> Machine {
        Machine {
            delay_timer: if self.delay_timer > 0 { (self.delay_timer - 1) as u8 } else { 0 },
            sound_timer: if self.sound_timer > 0 { (self.sound_timer - 1) as u8 } else { 0 },
            ..self
        }
    }

    /// The machine with the program counter `by` bytes further.
    pub open spec fn advance(self, by: int) -> Machine {
        Machine { pc: (self.pc + by) as u16, ..self }
    }

    /// The machine at the following instruction.
    pub open spec fn next(self) -> Machine {
        self.advance(2)
    }

    /// The machine at the following instruction, or at the one after it where
    /// `skip` holds.
    pub open spec fn next_or_skip(self, skip: bool) -> Machine {
        if skip {
            self.advance(4)
        } else {
            self.advance(2)
        }
    }

    /// The machine with `value` in register `x`.
    pub open spec fn set_reg(self, x: int, value: u8) -> Machine {
        Machine { regs: self.regs.update(x, value), ..self }
    }

    /// The machine with `value` in register `x` and then `flag` in `VF`: where
    /// `x` is `VF` itself, the flag is what stays.
    pub open spec fn set_reg_and_flag(self, x: int, value: u8, flag: bool) -> Machine {
        self.set_reg(x, value).set_reg(0xF, if flag { 1u8 } else { 0u8 })
    }

    /// The instruction word at the program counter: the byte there is its high
    /// half, the byte after it its low half.
    pub open spec fn fetch(self) -> Result<u16, Fault> {
        if self.pc + 1 < 4096 {
            Ok((self.ram[self.pc as int] * 256 + self.ram[self.pc + 1]) as u16)
        } else {
            Err(Fault::OutOfBoundsAccess)
        }
    }

    /// The instruction at the program counter, if the word there can be
    /// fetched and is one.
    pub open spec fn current(self) -> Option<Instruction> {
        match self.fetch() {
            Ok(word) => decode_word(word),
            Err(_) => None,
        }
    }

    /// The machine after `instr`, or the fault that `instr` ends in. `random`
    /// is the byte that a random instruction draws; no other instruction looks
    /// at it. Every instruction reads its operands as they were before it.
    pub open spec fn execute(self, instr: Instruction, random: u8) -> Result<Machine, Fault> {
        match instr {
            Instruction::ClearScreen => Ok(Machine { graphics: blank(), ..self }.next()),
            Instruction::Return => if self.sp <= 0 {
                Err(Fault::OutOfBoundsAccess)
            } else {
                Ok(Machine { sp: self.sp - 1, pc: (self.stack[self.sp - 1] + 2) as u16, ..self })
            },
            Instruction::Jump { addr } => Ok(Machine { pc: addr, ..self }),
            Instruction::Call { addr } => if self.sp >= 16 {
                Err(Fault::OutOfBoundsAccess)
            } else {
                Ok(Machine { stack: self.stack.update(self.sp, self.pc), sp: self.sp + 1, pc: addr, ..self })
            },
            Instruction::SkipEqual { x, byte } => Ok(self.next_or_skip(self.regs[x as int] == byte)),
            Instruction::SkipNotEqual { x, byte } => Ok(self.next_or_skip(self.regs[x as int] != byte)),
            Instruction::SkipRegistersEqual { x, y } => Ok(
                self.next_or_skip(self.regs[x as int] == self.regs[y as int]),
            ),
            Instruction::Load { x, byte } => Ok(self.set_reg(x as int, byte).next()),
            Instruction::AddByte { x, byte } => Ok(
                self.set_reg(x as int, ((self.regs[x as int] + byte) % 256) as u8).next(),
            ),
            Instruction::Move { x, y } => Ok(self.set_reg(x as int, self.regs[y as int]).next()),
            Instruction::Or { x, y } => Ok(self.set_reg(x as int, self.regs[x as int] | self.regs[y as int]).next()),
            Instruction::And { x, y } => Ok(self.set_reg(x as int, self.regs[x as int] & self.regs[y as int]).next()),
            Instruction::Xor { x, y } => Ok(self.set_reg(x as int, self.regs[x as int] ^ self.regs[y as int]).next()),
            Instruction::Add { x, y } => {
                let sum = self.regs[x as int] + self.regs[y as int];
                Ok(self.set_reg_and_flag(x as int, (sum % 256) as u8, sum > 255).next())
            },
            Instruction::Subtract { x, y } => {
                let vx = self.regs[x as int];
                let vy = self.regs[y as int];
                Ok(self.set_reg_and_flag(x as int, ((vx - vy) % 256) as u8, vx > vy).next())
            },
            Instruction::ShiftRight { x } => {
                let vx = self.regs[x as int];
                Ok(self.set_reg_and_flag(x as int, vx / 2, vx % 2 == 1).next())
            },
            Instruction::SubtractFrom { x, y } => {
                let vx = self.regs[x as int];
                let vy = self.regs[y as int];
                Ok(self.set_reg_and_flag(x as int, ((vy - vx) % 256) as u8, vy > vx).next())
            },
            Instruction::ShiftLeft { x } => {
                let vx = self.regs[x as int];
                Ok(self.set_reg_and_flag(x as int, (vx * 2 % 256) as u8, vx >= 128).next())
            },
            Instruction::SkipRegistersNotEqual { x, y } => Ok(
                self.next_or_skip(self.regs[x as int] != self.regs[y as int]),
            ),
            Instruction::LoadIndex { addr } => Ok(Machine { index: addr, ..self }.next()),
            Instruction::JumpOffset { addr } => Ok(Machine { pc: (addr + self.regs[0]) as u16, ..self }),
            Instruction::Random { x, byte } => Ok(self.set_reg(x as int, random & byte).next()),
            Instruction::Draw { x, y, rows } => if rows > 0 && self.index + rows > 4096 {
                Err(Fault::OutOfBoundsAccess)
            } else {
                let sprite = sprite_at(self.ram, self.index as int, rows as int);
                let vx = self.regs[x as int];
                let vy = self.regs[y as int];
                Ok(
                    Machine { graphics: draw(self.graphics, sprite, vx, vy), ..self }.set_reg(
                        0xF,
                        if collides(self.graphics, sprite, vx, vy) { 1u8 } else { 0u8 },
                    ).next(),
                )
            },
            Instruction::SkipKeyDown { x } => if self.regs[x as int] >= 16 {
                Err(Fault::OutOfBoundsAccess)
            } else {
                Ok(self.next_or_skip(key_down(self.keys, self.regs[x as int] as int)))
            },
            Instruction::SkipKeyUp { x } => if self.regs[x as int] >= 16 {
                Err(Fault::OutOfBoundsAccess)
            } else {
                Ok(self.next_or_skip(!key_down(self.keys, self.regs[x as int] as int)))
            },
            Instruction::ReadDelay { x } => Ok(self.set_reg(x as int, self.delay_timer).next()),
            Instruction::WaitKey { x } => if any_key_down(self.keys) {
                Ok(self.set_reg(x as int, (choose|key: int| lowest_key_down(self.keys, key)) as u8).next())
            } else {
                Ok(self)
            },
            Instruction::SetDelay { x } => Ok(Machine { delay_timer: self.regs[x as int], ..self }.next()),
            Instruction::SetSound { x } => Ok(Machine { sound_timer: self.regs[x as int], ..self }.next()),
            Instruction::AddIndex { x } => Ok(
                Machine { index: ((self.index + self.regs[x as int]) % 0x10000) as u16, ..self }.next(),
            ),
            Instruction::LoadGlyph { x } => if self.regs[x as int] < 16 {
                Ok(Machine { index: glyph_address(self.regs[x as int] as int) as u16, ..self }.next())
            } else {
                Ok(self.next())
            },
            Instruction::StoreDecimal { x } => if self.index + 2 >= 4096 {
                Err(Fault::OutOfBoundsAccess)
            } else {
                let vx = self.regs[x as int];
                Ok(
                    Machine {
                        ram: self.ram.update(self.index as int, vx / 100).update(
                            self.index + 1,
                            vx / 10 % 10,
                        ).update(self.index + 2, vx % 10),
                        ..self
                    }.next(),
                )
            },
            Instruction::StoreRegisters { x } => if self.index + x >= 4096 {
                Err(Fault::OutOfBoundsAccess)
            } else {
                Ok(
                    Machine {
                        ram: Seq::new(
                            self.ram.len(),
                            |i: int|
                                if self.index <= i <= self.index + x {
                                    self.regs[i - self.index]
                                } else {
                                    self.ram[i]
                                },
                        ),
                        ..self
                    }.next(),
                )
            },
            Instruction::LoadRegisters { x } => if x > 0 && self.index + x > 4096 {
                Err(Fault::OutOfBoundsAccess)
            } else {
                Ok(
                    Machine {
                        regs: Seq::new(
                            self.regs.len(),
                            |i: int| if i < x { self.ram[self.index + i] } else { self.regs[i] },
                        ),
                        ..self
                    }.next(),
                )
            },
        }
    }

    /// Whether the instruction at the program counter draws a random byte.
    pub open spec fn draws_random(self) -> bool {
        self.current() matches Some(instr) && instr is Random
    }

    /// Whether `instr` is a conditional skip whose condition holds.
    pub open spec fn skip_taken(self, instr: Instruction) -> bool {
        match instr {
            Instruction::SkipEqual { x, byte } => self.regs[x as int] == byte,
            Instruction::SkipNotEqual { x, byte } => self.regs[x as int] != byte,
            Instruction::SkipRegistersEqual { x, y } => self.regs[x as int] == self.regs[y as int],
            Instruction::SkipRegistersNotEqual { x, y } => self.regs[x as int] != self.regs[y as int],
            Instruction::SkipKeyDown { x } => key_down(self.keys, self.regs[x as int] as int),
            Instruction::SkipKeyUp { x } => !key_down(self.keys, self.regs[x as int] as int),
            _ => false,
        }
    }

    /// Whether `instr` waits for a key while none is down.
    pub open spec fn blocked(self, instr: Instruction) -> bool {
        instr is WaitKey && !any_key_down(self.keys)
    }

    /// One cycle: fetch the word at the program counter, decode it, execute
    /// the instruction. `random` is the byte that a random instruction draws.
    pub open spec fn step(self, random: u8) -> Result<Machine, Fault> {
        match self.fetch() {
            Err(fault) => Err(fault),
            Ok(word) => match decode_word(word) {
                None => Err(Fault::UndecodableOpcode(word)),
                Some(instr) => self.execute(instr, random),
            },
        }
    }

    /// As many cycles as `randoms` has bytes, one byte for each, stopping at
    /// the first fault.
    pub open spec fn run(self, randoms: Seq<u8>) -> Result<Machine, Fault>
        decreases randoms.len(),
    {
        if randoms.len() == 0 {
            Ok(self)
        } else {
            match self.step(randoms[0]) {
                Err(fault) => Err(fault),
                Ok(then) => then.run(randoms.drop_first()),
            }
        }
    }
}

} // verus!
