//! Properties that tie the driver's operations together.
use vstd::prelude::*;
use crate::driver::{
    apply_pixels, cell_index, flush_frames_spec, in_bounds, module_base, row_frame_spec,
    write_cell, zeros, Pixel,
};
use crate::protocol::init_frames_spec;
use crate::session::{first_action, next_action, run_from, Action};
use crate::driver::Error;

verus! {

/// Writing a pixel on the surface and reading it back gives what was written.
pub proof fn lemma_set_then_get(cells: Seq<u8>, count: int, x: int, y: int, on: bool)
    requires
        count >= 1,
        cells.len() == 64 * count,
        in_bounds(x, y, count),
    ensures
        (write_cell(cells, x, y, on, count)[cell_index(x, y, count)] == 1) == on,
{
    assert(0 <= cell_index(x, y, count) < 64 * count) by (nonlinear_arith)
        requires
            0 <= x < 8 * count,
            0 <= y < 8,
    ;
}

/// Writing a pixel off the surface leaves every cell as it was.
pub proof fn lemma_set_outside_unchanged(cells: Seq<u8>, count: int, x: int, y: int, on: bool)
    requires
        !in_bounds(x, y, count),
    ensures
        write_cell(cells, x, y, on, count) == cells,
{
}

/// Writing pixels never changes the size of the framebuffer.
pub proof fn lemma_apply_pixels_len(cells: Seq<u8>, ps: Seq<Pixel>, count: int)
    requires
        count >= 1,
        cells.len() == 64 * count,
    ensures
        apply_pixels(cells, ps, count).len() == cells.len(),
    decreases ps.len(),
{
    if ps.len() > 0 {
        lemma_apply_pixels_len(cells, ps.drop_last(), count);
        let p = ps.last();
        let (x, y) = (p.x as int, p.y as int);
        if in_bounds(x, y, count) {
            assert(0 <= cell_index(x, y, count) < 64 * count) by (nonlinear_arith)
                requires
                    0 <= x < 8 * count,
                    0 <= y < 8,
            ;
        }
    }
}

/// Clearing after any pixel writes gives the frames of a chain on which no
/// pixel was ever written.
pub proof fn lemma_clear_forgets_pixels(count: int, ps: Seq<Pixel>)
    requires
        count >= 1,
    ensures
        flush_frames_spec(zeros(apply_pixels(zeros((64 * count) as nat), ps, count).len()), count)
            == flush_frames_spec(zeros((64 * count) as nat), count),
{
    lemma_apply_pixels_len(zeros((64 * count) as nat), ps, count);
}

/// The row packing puts the leftmost column of a module in the most
/// significant bit: pixel (0, row) alone gives 0x80 in module 0's slot, which
/// is the last slot of the frame, and pixel (7, row) alone gives 0x01.
pub proof fn lemma_msb_first(count: int, row: int)
    requires
        count >= 1,
        0 <= row < 8,
    ensures
        row_frame_spec(zeros((64 * count) as nat).update(cell_index(0, row, count), 1u8), row, count)[2 * (count - 1) + 1] == 0x80u8,
        row_frame_spec(zeros((64 * count) as nat).update(cell_index(7, row, count), 1u8), row, count)[2 * (count - 1) + 1] == 0x01u8,
{
    let base = module_base(0, row, count);
    assert(base == cell_index(0, row, count) && 0 <= base && base + 8 <= 64 * count) by (nonlinear_arith)
        requires
            base == module_base(0, row, count),
            count >= 1,
            0 <= row < 8,
    ;
    assert((2 * (count - 1) + 1) / 2 == count - 1 && (2 * (count - 1) + 1) % 2 == 1);
    let a = zeros((64 * count) as nat).update(base, 1u8);
    let sa = a.subrange(base, base + 8);
    assert(sa =~= seq![1u8, 0, 0, 0, 0, 0, 0, 0]);
    let b = zeros((64 * count) as nat).update(base + 7, 1u8);
    let sb = b.subrange(base, base + 8);
    assert(sb =~= seq![0u8, 0, 0, 0, 0, 0, 0, 1]);
    assert(cell_index(7, row, count) == base + 7);
}

/// With two modules, a pixel of module 0 (columns 0 to 7) shows in the
/// second data slot of its row's frame, and the first slot stays empty.
pub proof fn lemma_module_order(x: int, y: int)
    requires
        0 <= x < 8,
        0 <= y < 8,
    ensures
        row_frame_spec(zeros(128).update(cell_index(x, y, 2), 1u8), y, 2)[3] != 0u8,
        row_frame_spec(zeros(128).update(cell_index(x, y, 2), 1u8), y, 2)[1] == 0u8,
{
    let cells = zeros(128).update(cell_index(x, y, 2), 1u8);
    let b0 = module_base(0, y, 2);
    let b1 = module_base(1, y, 2);
    assert(b0 == 16 * y && b1 == 16 * y + 8 && cell_index(x, y, 2) == b0 + x) by (nonlinear_arith)
        requires
            b0 == module_base(0, y, 2),
            b1 == module_base(1, y, 2),
            module_base(0, y, 2) == 0 * 8 + y * (2 * 8),
            module_base(1, y, 2) == 1 * 8 + y * (2 * 8),
            cell_index(x, y, 2) == x + y * (8 * 2),
    ;
    let s0 = cells.subrange(b0, b0 + 8);
    let s1 = cells.subrange(b1, b1 + 8);
    assert(s1 =~= seq![0u8, 0, 0, 0, 0, 0, 0, 0]);
    assert(s0[x] == 1);
    assert(forall|k: int| 0 <= k < 8 ==> s0[k] <= 1);
    assert(3int / 2 == 1 && 1int / 2 == 0);
}

/// Every frame of a flush holds one slot of two bytes per module, and each
/// slot starts with the row register, row + 1.
pub proof fn lemma_flush_shape(cells: Seq<u8>, count: int)
    requires
        count >= 1,
        cells.len() == 64 * count,
    ensures
        flush_frames_spec(cells, count).len() == 8,
        forall|row: int| 0 <= row < 8 ==> (#[trigger] flush_frames_spec(cells, count)[row]).len() == 2 * count,
        forall|row: int, k: int| 0 <= row < 8 && 0 <= k < 2 * count && k % 2 == 0
            ==> #[trigger] flush_frames_spec(cells, count)[row][k] == (row + 1) as u8,
{
}

/// Start-up stops at the first failure: when the second command fails, its
/// error is the result and the third command is never sent.
pub proof fn lemma_init_stops_at_second_failure<E>(e: E, outcomes: Seq<Result<(), E>>)
    requires
        outcomes.len() >= 2,
        outcomes[0] == Ok::<(), E>(()),
        outcomes[1] == Err::<(), E>(e),
    ensures
        first_action::<E>(init_frames_spec().len() as int) == Action::<E>::Transmit(0),
        next_action(0, init_frames_spec().len() as int, outcomes[0]) == Action::<E>::Transmit(1),
        next_action(1, init_frames_spec().len() as int, outcomes[1]) == Action::<E>::Finished(Err(Error::Comm(e))),
        run_from(0, init_frames_spec().len() as int, outcomes) == (2int, Err::<(), Error<E>>(Error::Comm(e))),
{
    assert(init_frames_spec().len() == 4);
    assert(run_from(1, 4, outcomes) == (1int, Err::<(), Error<E>>(Error::Comm(e))));
}

} // verus!
