//! What holds of the model for every state and every instruction.

use crate::instruction::{decoded, Instruction};
use crate::model::{
    after, after_cycle, cycle_fault, drawn_display, fault_of, flag, flow_of, image_error,
    is_code_address, sprite_bit, sprite_col_at, sprite_row_at, target_col, target_row, with_image,
    Fault, Flow, Machine,
};
use vstd::prelude::*;

verus! {

/// An instruction that leaves the program counter to be advanced leaves it
/// no higher than `0x1000`, so that advancing it cannot overflow.
pub proof fn next_leaves_room(m: Machine, op: u16, rand: u8)
    requires
        m.valid(),
        fault_of(m, op) is None,
        flow_of(m, op) == Flow::Next,
    ensures
        after(m, op, rand).pc <= 0x1000,
{
}

/// Executing an instruction without a fault keeps the state valid: the call
/// stack never holds more than sixteen addresses, every return address is
/// one of an instruction at or above `0x200`, and the font is never
/// overwritten.
pub proof fn execution_keeps_valid(m: Machine, op: u16, rand: u8)
    requires
        m.valid(),
        fault_of(m, op) is None,
    ensures
        after(m, op, rand).valid(),
        forall|a: int| 0 <= a < 80 ==> after(m, op, rand).memory[a] == m.memory[a],
{
}

/// A clock cycle without a fault keeps the state valid.
pub proof fn cycle_keeps_valid(m: Machine, rand: u8)
    requires
        m.valid(),
        cycle_fault(m) is None,
    ensures
        after_cycle(m, rand).valid(),
{
    if m.dt == 0 {
        let op = m.fetched();
        execution_keeps_valid(m, op, rand);
        if flow_of(m, op) == Flow::Next {
            next_leaves_room(m, op, rand);
        }
    }
}

/// A word that matches no pattern is counted and changes nothing else; it
/// raises no fault of its own, and the program counter is then advanced as
/// after any other instruction.
pub proof fn unknown_word_is_ignored(m: Machine, op: u16, rand: u8)
    requires
        decoded(op) is Unknown,
    ensures
        after(m, op, rand) == (Machine { ignored: after(m, op, rand).ignored, ..m }),
        m.ignored < u64::MAX ==> after(m, op, rand).ignored == m.ignored + 1,
        m.ignored == u64::MAX ==> after(m, op, rand).ignored == m.ignored,
        flow_of(m, op) == Flow::Next,
        is_code_address(m.pc) ==> fault_of(m, op) is None,
{
}

/// Only a word that matches no pattern changes the count of ignored words.
pub proof fn only_unknown_words_are_counted(m: Machine, op: u16, rand: u8)
    requires
        !(decoded(op) is Unknown),
    ensures
        after(m, op, rand).ignored == m.ignored,
{
}

/// Addition of a byte wraps at 256, and `VF` holds the carry whichever
/// register is added to.
pub proof fn add_byte_wraps_with_carry(m: Machine, op: u16, x: u8, kk: u8, rand: u8)
    requires
        m.valid(),
        decoded(op) == (Instruction::AddByte { x, kk }),
    ensures
        x != 15 ==> after(m, op, rand).reg(x) == (m.reg(x) + kk) % 256,
        after(m, op, rand).reg(15) == flag(m.reg(x) + kk > 255),
        forall|k: int| 0 <= k < 15 && k != x ==> after(m, op, rand).v[k] == m.v[k],
{
    crate::instruction::decoded_is_well_formed(op);
}

/// Subtraction wraps at 256, and `VF` is 1 exactly when nothing is
/// borrowed, whichever register is subtracted from.
pub proof fn sub_wraps_with_no_borrow(m: Machine, op: u16, x: u8, y: u8, rand: u8)
    requires
        m.valid(),
        decoded(op) == (Instruction::Sub { x, y }),
    ensures
        x != 15 && m.reg(x) >= m.reg(y) ==> after(m, op, rand).reg(x) == m.reg(x) - m.reg(y),
        x != 15 && m.reg(x) < m.reg(y) ==> after(m, op, rand).reg(x) == m.reg(x) + 256 - m.reg(y),
        after(m, op, rand).reg(15) == flag(m.reg(x) >= m.reg(y)),
{
    crate::instruction::decoded_is_well_formed(op);
}

/// Block store and block load are inverse: whatever happens to the
/// registers after `V0..=Vx` have been stored, loading `V0..=Vx` from the
/// same memory with `I` as it was at the store gives them their stored
/// values back, and leaves the registers above `Vx` alone.
pub proof fn store_then_load_restores(
    m: Machine,
    store: u16,
    later: Machine,
    load: u16,
    x: u8,
    rand: u8,
)
    requires
        m.valid(),
        later.valid(),
        decoded(store) == (Instruction::Store { x }),
        decoded(load) == (Instruction::Load { x }),
        fault_of(m, store) is None,
        is_code_address(later.pc),
        later.memory == after(m, store, rand).memory,
        later.i == m.i,
    ensures
        fault_of(later, load) is None,
        forall|k: int| 0 <= k <= x ==> after(later, load, rand).v[k] == m.v[k],
        forall|k: int| x < k < 16 ==> after(later, load, rand).v[k] == later.v[k],
        after(later, load, rand).memory == later.memory,
{
    crate::instruction::decoded_is_well_formed(store);
}

/// The same without anything in between, under the quirk that keeps `I`:
/// a store followed at once by a load leaves every register as it was.
pub proof fn store_then_load_is_identity_on_registers(m: Machine, store: u16, load: u16, x: u8, rand: u8)
    requires
        m.valid(),
        m.quirks.load_store,
        decoded(store) == (Instruction::Store { x }),
        decoded(load) == (Instruction::Load { x }),
        fault_of(m, store) is None,
    ensures
        fault_of(after(m, store, rand), load) is None,
        after(after(m, store, rand), load, rand).v == m.v,
{
    crate::instruction::decoded_is_well_formed(store);
    let s = after(m, store, rand);
    assert(after(s, load, rand).v =~= m.v);
}

/// Where a sprite bit lands: the sprite row and column that are found
/// under the target of bit `j` of row `i` are `i` and `j` again.
proof fn target_is_unique(vx: u8, vy: u8, i: int, j: int)
    requires
        0 <= i < 32,
        0 <= j < 64,
    ensures
        0 <= target_row(vy, i) < 32,
        0 <= target_col(vx, j) < 64,
        sprite_row_at(vy, target_row(vy, i)) == i,
        sprite_col_at(vx, target_col(vx, j)) == j,
{
}

/// The other way round: the screen position `(r, c)` is the target of the
/// sprite row and column that are found under it.
proof fn source_is_unique(vx: u8, vy: u8, r: int, c: int)
    requires
        0 <= r < 32,
        0 <= c < 64,
    ensures
        0 <= sprite_row_at(vy, r) < 32,
        0 <= sprite_col_at(vx, c) < 64,
        target_row(vy, sprite_row_at(vy, r)) == r,
        target_col(vx, sprite_col_at(vx, c)) == c,
{
}

/// Sprite coordinates wrap around the edges of the display: bit `j` of
/// sprite row `i` lands on row `(Vy + i) mod 32` and column `(Vx + j) mod 64`,
/// where the pixel is XORed with it.
pub proof fn sprite_bit_lands_wrapped(m: Machine, op: u16, x: u8, y: u8, n: u8, i: int, j: int, rand: u8)
    requires
        m.valid(),
        decoded(op) == (Instruction::Drw { x, y, n }),
        0 <= i < n,
        0 <= j < 8,
    ensures
        ({
            let r = target_row(m.reg(y), i);
            let c = target_col(m.reg(x), j);
            &&& 0 <= r < 32
            &&& 0 <= c < 64
            &&& after(m, op, rand).display[r][c] == (m.display[r][c] != sprite_bit(
                m.memory[m.i + i],
                j as u8,
            ))
        }),
{
    crate::instruction::decoded_is_well_formed(op);
    target_is_unique(m.reg(x), m.reg(y), i, j);
    assert(after(m, op, rand).display == drawn_display(
        m.display,
        m.memory,
        m.i as int,
        m.reg(x),
        m.reg(y),
        n as int,
    ));
}

/// A pixel that no bit of the sprite lands on is left as it was.
pub proof fn pixels_off_the_sprite_stay(m: Machine, op: u16, x: u8, y: u8, n: u8, r: int, c: int, rand: u8)
    requires
        m.valid(),
        decoded(op) == (Instruction::Drw { x, y, n }),
        0 <= r < 32,
        0 <= c < 64,
        forall|i: int, j: int|
            0 <= i < n && 0 <= j < 8 ==> !(#[trigger] target_row(m.reg(y), i) == r
                && #[trigger] target_col(m.reg(x), j) == c),
    ensures
        after(m, op, rand).display[r][c] == m.display[r][c],
{
    source_is_unique(m.reg(x), m.reg(y), r, c);
    assert(after(m, op, rand).display == drawn_display(
        m.display,
        m.memory,
        m.i as int,
        m.reg(x),
        m.reg(y),
        n as int,
    ));
}

/// Drawing is its own inverse on the display: the same sprite drawn twice
/// at the same place leaves every pixel as it was, provided that neither
/// coordinate is taken from `VF`, which the first draw overwrites.
pub proof fn drawing_twice_restores_display(m: Machine, op: u16, x: u8, y: u8, n: u8, rand: u8)
    requires
        m.valid(),
        decoded(op) == (Instruction::Drw { x, y, n }),
        x != 15,
        y != 15,
        fault_of(m, op) is None,
    ensures
        after(after(m, op, rand), op, rand).display == m.display,
{
    crate::instruction::decoded_is_well_formed(op);
    let once = after(m, op, rand);
    assert(once.reg(x) == m.reg(x));
    assert(once.reg(y) == m.reg(y));
    assert(after(once, op, rand).display =~~= m.display);
}

/// A call followed by a return comes back to the call with the stack as it
/// was; the clock cycle then advances past the call.
pub proof fn call_then_return(m: Machine, call: u16, ret: u16, rand: u8)
    requires
        m.valid(),
        decoded(call) is Call,
        decoded(ret) is Ret,
        fault_of(m, call) is None,
        is_code_address(after(m, call, rand).pc),
    ensures
        fault_of(after(m, call, rand), ret) is None,
        flow_of(after(m, call, rand), ret) == Flow::Next,
        after(after(m, call, rand), ret, rand).pc == m.pc,
        after(after(m, call, rand), ret, rand).stack == m.stack,
{
    let c = after(m, call, rand);
    assert(c.stack.drop_last() =~= m.stack);
}

/// A call raises the stack overflow exactly when sixteen return addresses
/// are on the stack already, and otherwise deepens the stack by one.
pub proof fn call_overflows_at_sixteen(m: Machine, call: u16, rand: u8)
    requires
        m.valid(),
        is_code_address(m.pc),
        decoded(call) is Call,
    ensures
        m.stack.len() == 16 <==> fault_of(m, call) == Some(
            Fault::StackOverflow { pc: m.pc, opcode: call },
        ),
        m.stack.len() < 16 ==> fault_of(m, call) is None && after(m, call, rand).stack.len()
            == m.stack.len() + 1,
{
}

/// Nothing below `0x200` is ever executed: with the delay timer at rest, a
/// cycle whose program counter is below `0x200`, or too close to the end of
/// memory for a whole instruction, is a fault.
pub proof fn nothing_outside_the_program_runs(m: Machine)
    requires
        m.dt == 0,
        !is_code_address(m.pc),
    ensures
        cycle_fault(m) == Some(Fault::ProgramCounter { pc: m.pc }),
{
}

/// Only the clear and the draw instruction touch the display and its
/// change mark, and both set the mark.
pub proof fn only_clear_and_draw_touch_display(m: Machine, op: u16, rand: u8)
    ensures
        !(decoded(op) is Cls || decoded(op) is Drw) ==> after(m, op, rand).display == m.display
            && after(m, op, rand).dirty == m.dirty,
        decoded(op) is Cls || decoded(op) is Drw ==> after(m, op, rand).dirty,
{
}

/// No instruction changes the quirks or the pressed key.
pub proof fn configuration_is_fixed(m: Machine, op: u16, rand: u8)
    ensures
        after(m, op, rand).quirks == m.quirks,
        after(m, op, rand).key == m.key,
        after_cycle(m, rand).quirks == m.quirks,
        after_cycle(m, rand).key == m.key,
{
}

/// A cycle moves the program counter by exactly two past an instruction
/// that is no jump, call, return or skip and awaits no key.
pub proof fn plain_instruction_advances_by_two(m: Machine, rand: u8)
    requires
        m.valid(),
        m.dt == 0,
        cycle_fault(m) is None,
        flow_of(m, m.fetched()) == Flow::Next,
        !(decoded(m.fetched()) is Ret),
        !(decoded(m.fetched()) is SeByte),
        !(decoded(m.fetched()) is SneByte),
        !(decoded(m.fetched()) is SeReg),
        !(decoded(m.fetched()) is SneReg),
        !(decoded(m.fetched()) is Skp),
        !(decoded(m.fetched()) is Sknp),
    ensures
        after_cycle(m, rand).pc == m.pc + 2,
{
}

/// A skip whose condition holds moves the program counter by four in its
/// cycle, one whose condition fails by two.
pub proof fn skip_advances_by_two_or_four(m: Machine, rand: u8)
    requires
        m.valid(),
        m.dt == 0,
        cycle_fault(m) is None,
        decoded(m.fetched()) is SeByte || decoded(m.fetched()) is SneByte || decoded(
            m.fetched(),
        ) is SeReg || decoded(m.fetched()) is SneReg || decoded(m.fetched()) is Skp || decoded(
            m.fetched(),
        ) is Sknp,
    ensures
        after_cycle(m, rand).pc == m.pc + 2 || after_cycle(m, rand).pc == m.pc + 4,
{
}

/// While the delay timer runs, a cycle changes nothing but that timer.
pub proof fn running_delay_timer_blocks_execution(m: Machine, rand: u8)
    requires
        m.dt > 0,
    ensures
        cycle_fault(m) is None,
        after_cycle(m, rand) == (Machine { dt: (m.dt - 1) as u8, ..m }),
{
}

/// A loaded image is what runs: it leaves the font and everything else
/// below `0x200` alone, and the first word fetched at `0x200` is made of its
/// first two bytes, the high byte first.
pub proof fn loaded_image_is_fetched(m: Machine, rom: Seq<u8>)
    requires
        m.valid(),
        image_error(rom) is None,
    ensures
        (Machine { memory: with_image(m.memory, rom), ..m }).valid(),
        forall|a: int| 0 <= a < 0x200 ==> with_image(m.memory, rom)[a] == m.memory[a],
        forall|k: int| 0 <= k < rom.len() ==> with_image(m.memory, rom)[0x200 + k] == rom[k],
        rom.len() >= 2 ==> (Machine { memory: with_image(m.memory, rom), pc: 0x200, ..m }).fetched()
            == rom[0] * 256 + rom[1],
{
}

} // verus!
