//! The grid walker: signatures for one neighborhood and for every interior
//! cell of a row-major grid.

use vstd::prelude::*;
use vstd::arithmetic::div_mod::{lemma_fundamental_div_mod, lemma_fundamental_div_mod_converse};
use crate::mixer::{compute_hash_vectorized, neighborhood_signature};

verus! {

/// What the single-cell operation yields: the signature of the neighborhood
/// that is given, and 0 where none is given.
pub open spec fn single_cell_signature(source: Option<&[u32; 9]>, seed: u64) -> u64 {
    match source {
        Some(cells) => neighborhood_signature(cells@, seed),
        None => 0,
    }
}

/// Offset of column `x`, row `y` in a row-major grid that is `width` wide.
pub open spec fn cell_index(x: int, y: int, width: int) -> int {
    y * width + x
}

/// Whether column `x`, row `y` lies inside the one-cell border of a grid of
/// `width` columns and `height` rows.
pub open spec fn is_interior(x: int, y: int, width: int, height: int) -> bool {
    1 <= x <= width - 2 && 1 <= y <= height - 2
}

/// The 3x3 block of samples around column `x`, row `y`, read row by row.
pub open spec fn neighborhood(grid: Seq<u32>, width: int, x: int, y: int) -> Seq<u32> {
    seq![
        grid[cell_index(x - 1, y - 1, width)],
        grid[cell_index(x, y - 1, width)],
        grid[cell_index(x + 1, y - 1, width)],
        grid[cell_index(x - 1, y, width)],
        grid[cell_index(x, y, width)],
        grid[cell_index(x + 1, y, width)],
        grid[cell_index(x - 1, y + 1, width)],
        grid[cell_index(x, y + 1, width)],
        grid[cell_index(x + 1, y + 1, width)],
    ]
}

/// The signature that belongs to the cell at column `x`, row `y`.
pub open spec fn cell_signature(grid: Seq<u32>, width: int, x: int, y: int, seed: u64) -> u64 {
    neighborhood_signature(neighborhood(grid, width, x, y), seed)
}

/// The signature buffer after a walk over `source`: every interior cell holds
/// its signature, every other cell holds what `before` held.
pub open spec fn signed_grid(
    source: Seq<u32>,
    before: Seq<u64>,
    width: int,
    height: int,
    seed: u64,
) -> Seq<u64> {
    Seq::new(
        before.len(),
        |i: int|
            if is_interior(i % width, i / width, width, height) {
                cell_signature(source, width, i % width, i / width, seed)
            } else {
                before[i]
            },
    )
}

/// Computes the signature of the center of a single 3x3 neighborhood, or 0
/// when no neighborhood is given.
pub fn compute_signature_3x3(source: Option<&[u32; 9]>, seed: u64) -> (signature: u64)
    ensures
        signature == single_cell_signature(source, seed),
        source is None ==> signature == 0,
{
    match source {
        None => 0,
        Some(cells) => compute_hash_vectorized(
            cells[0],
            cells[1],
            cells[2],
            cells[3],
            cells[4],
            cells[5],
            cells[6],
            cells[7],
            cells[8],
            seed,
        ),
    }
}

/// Writes the signature of every interior cell of `source` into the same
/// cell of `destination` and leaves the border cells of `destination` as
/// they are. Nothing is written when a buffer is missing or when the grid has
/// fewer than three columns or rows.
pub fn compute_signatures(
    source: Option<&[u32]>,
    destination: Option<&mut [u64]>,
    width: i32,
    height: i32,
    seed: u64,
)
    requires
        source is Some && destination is Some && width >= 3 && height >= 3
            ==> source.unwrap()@.len() == width * height,
        source is Some && destination is Some && width >= 3 && height >= 3
            ==> destination.unwrap()@.len() == width * height,
    ensures
        source is Some && destination is Some && width >= 3 && height >= 3
            ==> final(destination.unwrap())@ == signed_grid(
            source.unwrap()@,
            destination.unwrap()@,
            width as int,
            height as int,
            seed,
        ),
        destination is Some && (source is None || width < 3 || height < 3)
            ==> final(destination.unwrap())@ == destination.unwrap()@,
{
    let src = match source {
        Some(src) => src,
        None => return,
    };
    let dst = match destination {
        Some(dst) => dst,
        None => return,
    };
    if width < 3 || height < 3 {
        return;
    }
    let width: usize = width as usize;
    let height: usize = height as usize;
    let ghost before: Seq<u64> = dst@;
    let ghost w: int = width as int;
    let ghost h: int = height as int;

    // The grid fits the source buffer, so every offset into it fits `usize`.
    assert(w * h == src.len());
    for y in 1..(height - 1)
        invariant
            3 <= w == width,
            3 <= h == height,
            src@.len() == w * h <= usize::MAX,
            before.len() == w * h,
            dst@ == signed_up_to(src@, before, w, h, seed, 1, y as int),
    {
        for x in 1..(width - 1)
            invariant
                3 <= w == width,
                3 <= h == height,
                1 <= y <= h - 2,
                src@.len() == w * h <= usize::MAX,
                before.len() == w * h,
                dst@ == signed_up_to(src@, before, w, h, seed, x as int, y as int),
        {
            proof {
                lemma_row_offsets(y as int, w, h);
            }
            let current_pixel_index: usize = y * width + x;
            let base_index: usize = (y - 1) * width + (x - 1);

            let tl: u32 = src[base_index];
            let tc: u32 = src[base_index + 1];
            let tr: u32 = src[base_index + 2];
            let ml: u32 = src[base_index + width];
            let mc: u32 = src[base_index + width + 1];
            let mr: u32 = src[base_index + width + 2];
            let bl: u32 = src[base_index + 2 * width];
            let bc: u32 = src[base_index + 2 * width + 1];
            let br: u32 = src[base_index + 2 * width + 2];

            let signature: u64 = compute_hash_vectorized(tl, tc, tr, ml, mc, mr, bl, bc, br, seed);
            dst[current_pixel_index] = signature;

            proof {
                lemma_cell_coordinates(x as int, y as int, w);
                assert forall|i: int| 0 <= i < before.len() implies #[trigger] dst@[i]
                    == signed_up_to(src@, before, w, h, seed, x + 1, y as int)[i] by {
                    lemma_cell_of_coordinates(i, w);
                }
            }
        }
    }
}

/// The signature buffer in the middle of a walk: the interior cells that come
/// before column `x` of row `y` in row-major order are signed.
spec fn signed_up_to(
    source: Seq<u32>,
    before: Seq<u64>,
    width: int,
    height: int,
    seed: u64,
    x: int,
    y: int,
) -> Seq<u64> {
    Seq::new(
        before.len(),
        |i: int|
            if is_interior(i % width, i / width, width, height) && (i / width < y || (i / width == y
                && i % width < x)) {
                cell_signature(source, width, i % width, i / width, seed)
            } else {
                before[i]
            },
    )
}

/// Offsets of the rows above and below row `y`, and the end of the row below
/// it, in terms of the offset of row `y`.
proof fn lemma_row_offsets(y: int, width: int, height: int)
    by (nonlinear_arith)
    requires
        1 <= y <= height - 2,
        3 <= width,
    ensures
        (y - 1) * width == y * width - width,
        (y + 1) * width == y * width + width,
        0 <= (y - 1) * width,
        (y + 1) * width + width <= width * height,
{
}

/// The offset of a cell gives back its column and its row.
proof fn lemma_cell_coordinates(x: int, y: int, width: int)
    requires
        0 <= x < width,
    ensures
        cell_index(x, y, width) % width == x,
        cell_index(x, y, width) / width == y,
{
    lemma_fundamental_div_mod_converse(cell_index(x, y, width), width, y, x);
}

/// Every offset is the offset of the cell at its own column and row.
proof fn lemma_cell_of_coordinates(i: int, width: int)
    requires
        0 < width,
    ensures
        i == cell_index(i % width, i / width, width),
{
    lemma_fundamental_div_mod(i, width);
    assert(width * (i / width) == (i / width) * width) by (nonlinear_arith);
}

/// The offset of a cell of the grid is below `width * height`.
proof fn lemma_cell_in_grid(x: int, y: int, width: int, height: int)
    by (nonlinear_arith)
    requires
        0 <= x < width,
        0 <= y < height,
    ensures
        0 <= cell_index(x, y, width) < width * height,
{
}

/// The single-cell operation is a function of the samples and the seed alone:
/// invocations on neighborhoods that hold the same samples, or on none at
/// all, under the same seed yield the same value.
pub proof fn lemma_single_cell_deterministic(
    first: Option<&[u32; 9]>,
    first_seed: u64,
    second: Option<&[u32; 9]>,
    second_seed: u64,
)
    requires
        first is Some <==> second is Some,
        first is Some ==> first.unwrap()@ == second.unwrap()@,
        first_seed == second_seed,
    ensures
        single_cell_signature(first, first_seed) == single_cell_signature(second, second_seed),
{
}

/// The neighborhood of an interior cell lies within the grid: each of its
/// nine samples is read at an offset below `width * height`.
pub proof fn lemma_neighborhood_in_grid(x: int, y: int, width: int, height: int)
    requires
        is_interior(x, y, width, height),
    ensures
        forall|column: int, row: int|
            x - 1 <= column <= x + 1 && y - 1 <= row <= y + 1 ==> 0 <= #[trigger] cell_index(
                column,
                row,
                width,
            ) < width * height,
{
    assert forall|column: int, row: int|
        x - 1 <= column <= x + 1 && y - 1 <= row <= y + 1 implies 0 <= #[trigger] cell_index(
        column,
        row,
        width,
    ) < width * height by {
        lemma_cell_in_grid(column, row, width, height);
    }
}

/// After a walk every interior cell holds the signature of its own
/// neighborhood.
pub proof fn lemma_interior_cells_signed(
    source: Seq<u32>,
    before: Seq<u64>,
    width: int,
    height: int,
    seed: u64,
    x: int,
    y: int,
)
    requires
        before.len() == width * height,
        is_interior(x, y, width, height),
    ensures
        0 <= cell_index(x, y, width) < before.len(),
        signed_grid(source, before, width, height, seed)[cell_index(x, y, width)] == cell_signature(
            source,
            width,
            x,
            y,
            seed,
        ),
{
    lemma_cell_in_grid(x, y, width, height);
    lemma_cell_coordinates(x, y, width);
}

/// After a walk every cell of the one-cell border holds what it held before.
pub proof fn lemma_border_cells_kept(
    source: Seq<u32>,
    before: Seq<u64>,
    width: int,
    height: int,
    seed: u64,
    x: int,
    y: int,
)
    requires
        before.len() == width * height,
        0 <= x < width,
        0 <= y < height,
        !is_interior(x, y, width, height),
    ensures
        0 <= cell_index(x, y, width) < before.len(),
        signed_grid(source, before, width, height, seed)[cell_index(x, y, width)]
            == before[cell_index(x, y, width)],
{
    lemma_cell_in_grid(x, y, width, height);
    lemma_cell_coordinates(x, y, width);
}

} // verus!
