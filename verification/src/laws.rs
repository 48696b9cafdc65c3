//! What holds of the machine in every state: the laws that the instruction
//! semantics obey, each proved from the definitions in [`crate::machine`] and
//! [`crate::display`].

use vstd::prelude::*;
use crate::display::{
    blank, collides, column_on, draw, flips, has_pixel, lemma_cell_is_target, lemma_target_cell, row_on, sprite_at,
    sprite_bit, target_cell,
};
use crate::fault::Fault;
use crate::font::FONTSET;
use crate::instruction::{decode_word, word_class, Instruction};
use crate::machine::{any_key_down, key_down, lowest_key_down, Machine};

verus! {

/// A new machine is well formed and holds the sixteen glyphs, byte for byte,
/// at addresses 0 to 79.
pub proof fn lemma_initial_font()
    ensures
        Machine::initial().wf(),
        Machine::initial().ram.subrange(0, 80) == FONTSET@,
        forall|i: int| 0 <= i < 80 ==> Machine::initial().ram[i] == FONTSET@[i],
{
    assert(Machine::initial().ram.subrange(0, 80) =~= FONTSET@);
}

/// Loading puts exactly the given bytes at `origin` and changes nothing else,
/// in memory or out of it.
pub proof fn lemma_load_at(m: Machine, bytes: Seq<u8>, origin: int)
    requires
        m.wf(),
        0 <= origin,
        origin + bytes.len() <= 4096,
    ensures
        m.load_at(bytes, origin).wf(),
        m.load_at(bytes, origin).ram.subrange(origin, origin + bytes.len()) == bytes,
        forall|i: int|
            0 <= i < 4096 && !(origin <= i < origin + bytes.len()) ==> m.load_at(bytes, origin).ram[i] == m.ram[i],
        m.load_at(bytes, origin) == (Machine { ram: m.load_at(bytes, origin).ram, ..m }),
{
    assert(m.load_at(bytes, origin).ram.subrange(origin, origin + bytes.len()) =~= bytes);
}

/// Pressing and releasing keys and ticking the timers keep the machine well
/// formed.
pub proof fn lemma_host_calls_preserve_wf(m: Machine, key: int)
    requires
        m.wf(),
        0 <= key < 16,
    ensures
        m.set_key(key, 1).wf(),
        m.set_key(key, 0).wf(),
        m.tick().wf(),
{
}

/// A cycle that ends without a fault leaves the machine well formed.
pub proof fn lemma_step_preserves_wf(m: Machine, random: u8)
    requires
        m.wf(),
    ensures
        m.step(random) matches Ok(then) ==> then.wf(),
{
    if m.current() is Some {
        lemma_decoded_wf(m.fetch()->Ok_0);
        lemma_execute_preserves_wf(m, m.current()->Some_0, random);
    }
}

/// An instruction that ends without a fault leaves the machine well formed.
pub proof fn lemma_execute_preserves_wf(m: Machine, instr: Instruction, random: u8)
    requires
        m.wf(),
        instr.wf(),
        m.pc + 1 < 4096,
    ensures
        m.execute(instr, random) matches Ok(then) ==> then.wf(),
{
}

/// Every word that encodes an instruction encodes a well-formed one.
pub proof fn lemma_decoded_wf(word: u16)
    ensures
        decode_word(word) matches Some(instr) ==> instr.wf(),
{
}

/// Only a random instruction looks at the random byte.
pub proof fn lemma_random_byte_unused(m: Machine, random: u8, other: u8)
    requires
        !m.draws_random(),
    ensures
        m.step(random) == m.step(other),
{
}

/// Every instruction but a jump, a call, a return, a skip whose condition
/// holds and a key wait with no key down leaves the program counter exactly 2
/// higher.
pub proof fn lemma_pc_advances(m: Machine, random: u8)
    requires
        m.wf(),
        m.current() matches Some(instr) && !instr.redirects() && !m.skip_taken(instr) && !m.blocked(instr),
        m.step(random) is Ok,
    ensures
        m.step(random)->Ok_0.pc == m.pc + 2,
{
}

/// A skip whose condition holds leaves the program counter exactly 4 higher.
pub proof fn lemma_pc_skips(m: Machine, random: u8)
    requires
        m.wf(),
        m.current() matches Some(instr) && m.skip_taken(instr),
        m.step(random) is Ok,
    ensures
        m.step(random)->Ok_0.pc == m.pc + 4,
{
}

/// After a clear-screen instruction every cell of the framebuffer is 0,
/// whatever it held, and nothing else but the program counter has changed.
pub proof fn lemma_clear_screen(m: Machine, random: u8)
    requires
        m.wf(),
        m.current() == Some(Instruction::ClearScreen),
    ensures
        m.step(random) matches Ok(then) && then == (Machine { graphics: then.graphics, pc: then.pc, ..m })
            && then.pc == m.pc + 2 && forall|cell: int| 0 <= cell < 2048 ==> then.graphics[cell] == 0,
{
}

/// Drawing flips a cell exactly when a set pixel of the sprite lands on it.
pub proof fn lemma_flips_where_pixel_lands(sprite: Seq<u8>, vx: u8, vy: u8, cell: int)
    requires
        sprite.len() <= 15,
        0 <= cell < 2048,
    ensures
        flips(sprite, vx, vy, cell) <==> exists|row: int, col: int|
            0 <= row < sprite.len() && 0 <= col < 8 && sprite_bit(sprite[row], col) && #[trigger] target_cell(
                vx,
                vy,
                row,
                col,
            ) == cell,
{
    lemma_cell_is_target(vx, vy, cell);
    if flips(sprite, vx, vy, cell) {
        assert(target_cell(vx, vy, row_on(vy, cell), column_on(vx, cell)) == cell);
    }
    assert forall|row: int, col: int|
        0 <= row < sprite.len() && 0 <= col < 8 && sprite_bit(sprite[row], col) && #[trigger] target_cell(
            vx,
            vy,
            row,
            col,
        ) == cell implies flips(sprite, vx, vy, cell) by {
        lemma_target_cell(vx, vy, row, col);
    }
}

/// Drawing a sprite twice at the same place gives back the framebuffer as it
/// was.
pub proof fn lemma_draw_twice(screen: Seq<u8>, sprite: Seq<u8>, vx: u8, vy: u8)
    ensures
        draw(draw(screen, sprite, vx, vy), sprite, vx, vy) == screen,
{
    let once = draw(screen, sprite, vx, vy);
    let twice = draw(once, sprite, vx, vy);
    assert forall|cell: int| 0 <= cell < screen.len() implies twice[cell] == screen[cell] by {
        let c = screen[cell];
        assert((c ^ 1) ^ 1 == c) by (bit_vector);
    }
    assert(twice =~= screen);
}

/// On a blank framebuffer, the first drawing of a sprite with a set pixel
/// collides with nothing, and the second drawing at the same place collides
/// and leaves the framebuffer blank again.
pub proof fn lemma_draw_twice_on_blank(sprite: Seq<u8>, vx: u8, vy: u8)
    requires
        sprite.len() <= 15,
        has_pixel(sprite),
    ensures
        !collides(blank(), sprite, vx, vy),
        collides(draw(blank(), sprite, vx, vy), sprite, vx, vy),
        draw(draw(blank(), sprite, vx, vy), sprite, vx, vy) == blank(),
{
    lemma_draw_twice(blank(), sprite, vx, vy);
    let once = draw(blank(), sprite, vx, vy);
    let (row, col) = choose|row: int, col: int|
        0 <= row < sprite.len() && 0 <= col < 8 && #[trigger] sprite_bit(sprite[row], col);
    lemma_target_cell(vx, vy, row, col);
    let cell = target_cell(vx, vy, row, col);
    assert(flips(sprite, vx, vy, cell));
    assert(0u8 ^ 1 == 1) by (bit_vector);
    assert(once[cell] == 1);
}

/// Two draw instructions in a row that draw the same sprite at the same place
/// leave the framebuffer as it was before the first. Where it was blank and
/// the sprite has a set pixel, the second sets `VF` to 1.
pub proof fn lemma_redraw(m: Machine, x: u8, y: u8, rows: u8, first: u8, second: u8)
    requires
        m.wf(),
        m.current() == Some(Instruction::Draw { x, y, rows }),
        m.step(first) matches Ok(once) && once.current() == Some(Instruction::Draw { x, y, rows })
            && once.regs[x as int] == m.regs[x as int] && once.regs[y as int] == m.regs[y as int],
    ensures
        m.step(first)->Ok_0.step(second) matches Ok(twice) && twice.graphics == m.graphics && (m.graphics
            == blank() && has_pixel(sprite_at(m.ram, m.index as int, rows as int)) ==> twice.regs[0xF] == 1),
{
    let sprite = sprite_at(m.ram, m.index as int, rows as int);
    let vx = m.regs[x as int];
    let vy = m.regs[y as int];
    lemma_draw_twice(m.graphics, sprite, vx, vy);
    if m.graphics == blank() && has_pixel(sprite) {
        lemma_draw_twice_on_blank(sprite, vx, vy);
    }
}

/// A return that finds the stack as a call left it goes on at the instruction
/// after that call, with the calls pending that were pending before it.
pub proof fn lemma_call_then_return(caller: Machine, callee: Machine, first: u8, second: u8)
    requires
        caller.wf(),
        callee.wf(),
        caller.current() matches Some(instr) && instr is Call,
        callee.current() == Some(Instruction::Return),
        caller.step(first) matches Ok(entered) && callee.sp == entered.sp && callee.stack == entered.stack,
    ensures
        callee.step(second) matches Ok(back) && back.pc == caller.pc + 2 && back.sp == caller.sp,
{
}

/// A call followed at once by a return goes on at the instruction after the
/// call.
pub proof fn lemma_call_return_round_trip(m: Machine, first: u8, second: u8)
    requires
        m.wf(),
        m.current() matches Some(instr) && instr is Call,
        m.step(first) matches Ok(entered) && entered.current() == Some(Instruction::Return),
    ensures
        m.step(first)->Ok_0.step(second) matches Ok(back) && back.pc == m.pc + 2 && back.sp == m.sp,
{
    lemma_step_preserves_wf(m, first);
    lemma_call_then_return(m, m.step(first)->Ok_0, first, second);
}

/// While no key is down, a key wait leaves the whole machine as it is.
pub proof fn lemma_wait_key_blocks(m: Machine, random: u8)
    requires
        m.wf(),
        m.current() matches Some(instr) && instr is WaitKey,
        !any_key_down(m.keys),
    ensures
        m.step(random) == Ok::<Machine, Fault>(m),
{
}

/// While no key is down, any number of cycles at a key wait leave the whole
/// machine as it is.
pub proof fn lemma_wait_key_blocks_repeatedly(m: Machine, randoms: Seq<u8>)
    requires
        m.wf(),
        m.current() matches Some(instr) && instr is WaitKey,
        !any_key_down(m.keys),
    ensures
        m.run(randoms) == Ok::<Machine, Fault>(m),
    decreases randoms.len(),
{
    if randoms.len() > 0 {
        lemma_wait_key_blocks(m, randoms[0]);
        lemma_wait_key_blocks_repeatedly(m, randoms.drop_first());
    }
}

/// A key wait with a key down puts the lowest number of a key that is down in
/// `Vx` and goes on to the following instruction.
pub proof fn lemma_wait_key_takes_lowest(m: Machine, x: u8, key: int, random: u8)
    requires
        m.wf(),
        m.current() == Some(Instruction::WaitKey { x }),
        lowest_key_down(m.keys, key),
    ensures
        m.step(random) == Ok::<Machine, Fault>(m.set_reg(x as int, key as u8).next()),
{
    assert(key_down(m.keys, key));
    let chosen = choose|k: int| lowest_key_down(m.keys, k);
    assert(lowest_key_down(m.keys, chosen));
    if chosen < key {
        assert(!key_down(m.keys, chosen));
    } else if chosen > key {
        assert(!key_down(m.keys, key));
    }
}

/// Once a key is pressed at a key wait at which none was down, the next cycle
/// puts that key's number in `Vx` and moves the program counter on by 2.
pub proof fn lemma_wait_key_resumes(m: Machine, x: u8, key: int, random: u8)
    requires
        m.wf(),
        m.current() == Some(Instruction::WaitKey { x }),
        !any_key_down(m.keys),
        0 <= key < 16,
    ensures
        m.set_key(key, 1).step(random) matches Ok(then) && then.regs[x as int] == key && then.pc == m.pc + 2,
{
    let pressed = m.set_key(key, 1);
    assert(key_down(pressed.keys, key));
    assert forall|other: int| 0 <= other < key implies !key_down(pressed.keys, other) by {
        assert(!key_down(m.keys, other));
    }
    lemma_wait_key_takes_lowest(pressed, x, key, random);
}

/// A word whose highest four bits are 0 and that is neither `00E0` nor `00EE`
/// ends the cycle in a decode fault that carries the word, and so does every
/// other word that encodes no instruction.
pub proof fn lemma_undecodable_is_fatal(m: Machine, word: u16, random: u8)
    requires
        m.fetch() == Ok::<u16, Fault>(word),
        (word_class(word) == 0 && word != 0x00E0 && word != 0x00EE) || decode_word(word) is None,
    ensures
        m.step(random) == Err::<Machine, Fault>(Fault::UndecodableOpcode(word)),
{
}

} // verus!
