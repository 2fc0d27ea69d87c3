//! The checkerboard texture: cells an eighth of the texture wide and
//! high, dark and light in turn, written row by row into the bytes of an
//! upload buffer.

use crate::resources::ResourceDesc;
use crate::resources::DXGI_FORMAT_R8G8B8A8_UNORM;
use vstd::prelude::*;

verus! {

/// How the rows of a subresource lie in a buffer.
#[derive(Clone, Copy, Debug, PartialEq, Eq, Structural)]
pub struct SubresourceFootprint {
    pub format: u32,
    pub width: u32,
    pub height: u32,
    pub depth: u32,
    pub row_pitch: u32,
}

/// The texel of the dark cells: red, as four bytes of a 32-bit number.
pub const DARK_TEXEL: u32 = 0x0000_00ff;

/// The texel of the light cells.
pub const LIGHT_TEXEL: u32 = 0xffff_ffff;

/// The texel at column `x` of row `row`. A cell is an eighth of the
/// texture wide and an eighth high, each rounded down; a cell is dark
/// where the numbers of its column and row of cells are both even or both
/// odd.
pub open spec fn texel(desc: ResourceDesc, x: int, row: int) -> u32 {
    let cell_x = x / (desc.width as int / 8);
    let cell_y = row / (desc.height as int / 8);
    if cell_x % 2 == cell_y % 2 {
        DARK_TEXEL
    } else {
        LIGHT_TEXEL
    }
}

/// Byte `k` of `value`, lowest byte first.
pub open spec fn le_byte(value: u32, k: int) -> u8 {
    if k == 0 {
        (value % 256) as u8
    } else if k == 1 {
        (value / 0x100 % 256) as u8
    } else if k == 2 {
        (value / 0x1_0000 % 256) as u8
    } else {
        (value / 0x100_0000 % 256) as u8
    }
}

/// Where row `row` starts in the buffer.
pub open spec fn row_start(footprint: SubresourceFootprint, row: int) -> int {
    row * footprint.row_pitch
}

/// Whether the texels of row `row` take up the byte at `at`.
pub open spec fn row_covers(
    desc: ResourceDesc,
    footprint: SubresourceFootprint,
    row: int,
    at: int,
) -> bool {
    row_start(footprint, row) <= at < row_start(footprint, row) + 4 * desc.width
}

/// The byte that row `row` puts at `at`.
pub open spec fn byte_of_row(
    desc: ResourceDesc,
    footprint: SubresourceFootprint,
    row: int,
    at: int,
) -> u8 {
    let k = at - row_start(footprint, row);
    le_byte(texel(desc, k / 4, row), k % 4)
}

/// The last of the rows below `rows` that takes up the byte at `at`.
/// With a row pitch shorter than a row, rows lie over each other, and the
/// later row is the one that stays.
pub open spec fn last_row_at(
    desc: ResourceDesc,
    footprint: SubresourceFootprint,
    at: int,
    rows: int,
) -> Option<int>
    decreases rows,
{
    if rows <= 0 {
        None
    } else if row_covers(desc, footprint, rows - 1, at) {
        Some(rows - 1)
    } else {
        last_row_at(desc, footprint, at, rows - 1)
    }
}

/// The byte at `at` once the rows below `rows` are written over `before`.
pub open spec fn byte_after_rows(
    desc: ResourceDesc,
    footprint: SubresourceFootprint,
    before: Seq<u8>,
    at: int,
    rows: int,
) -> u8 {
    match last_row_at(desc, footprint, at, rows) {
        Some(row) => byte_of_row(desc, footprint, row, at),
        None => before[at],
    }
}

/// The buffer `before` with the whole texture written over it.
pub open spec fn textured(
    desc: ResourceDesc,
    footprint: SubresourceFootprint,
    before: Seq<u8>,
) -> Seq<u8> {
    Seq::new(
        before.len(),
        |at: int| byte_after_rows(desc, footprint, before, at, desc.height as int),
    )
}

/// Whether the texture has texels at all.
pub open spec fn has_texels(desc: ResourceDesc) -> bool {
    desc.width > 0 && desc.height > 0
}

/// Whether the last texel of the last row ends within `len` bytes.
pub open spec fn fits(desc: ResourceDesc, footprint: SubresourceFootprint, len: int) -> bool {
    row_start(footprint, desc.height - 1) + 4 * desc.width <= len
}

/// What `generate_texture_data` asks of a texture and of the `len` bytes
/// that it is to be written into: the format is the one with four bytes
/// to a texel, and a texture with texels is at least eight texels wide
/// and high, so that no cell is empty, and ends within the bytes.
pub open spec fn can_be_written(
    desc: ResourceDesc,
    footprint: SubresourceFootprint,
    len: int,
) -> bool {
    &&& desc.format == DXGI_FORMAT_R8G8B8A8_UNORM
    &&& has_texels(desc) ==> desc.width >= 8 && desc.height >= 8
    &&& has_texels(desc) ==> fits(desc, footprint, len)
}

/// Whether the texture can be written into `len` bytes.
pub fn can_generate(desc: &ResourceDesc, footprint: &SubresourceFootprint, len: usize) -> (can:
    bool)
    ensures
        can == can_be_written(*desc, *footprint, len as int),
{
    if desc.format != DXGI_FORMAT_R8G8B8A8_UNORM {
        return false;
    }
    if desc.width == 0 || desc.height == 0 {
        return true;
    }
    if desc.width < 8 || desc.height < 8 {
        return false;
    }
    let rows_before: u128 = (desc.height - 1) as u128;
    let pitch: u128 = footprint.row_pitch as u128;
    assert(rows_before * pitch <= 0xffff_ffff * 0xffff_ffff) by (nonlinear_arith)
        requires
            0 <= rows_before <= 0xffff_ffff,
            0 <= pitch <= 0xffff_ffff,
    ;
    let end: u128 = rows_before * pitch + 4 * (desc.width as u128);
    end <= len as u128
}

/// The texel at column `x` of row `row`.
pub fn texel_at(desc: &ResourceDesc, x: u64, row: u32) -> (value: u32)
    requires
        desc.width >= 8,
        desc.height >= 8,
    ensures
        value == texel(*desc, x as int, row as int),
{
    let width = desc.width;
    let height = desc.height;
    let cell_width = width >> 3;
    let cell_height = height >> 3;
    assert(width >> 3 == width / 8) by (bit_vector);
    assert(height >> 3 == height / 8) by (bit_vector);
    let cell_x = x / cell_width;
    let cell_y = (row / cell_height) as u64;
    if cell_x % 2 == cell_y % 2 {
        DARK_TEXEL
    } else {
        LIGHT_TEXEL
    }
}

/// Writes the checkerboard into `dest`: row `row` starts at byte
/// `row * row_pitch`, and each texel is four bytes, lowest byte first.
/// Bytes that no texel takes up stay as they are.
///
/// `can_generate` tells whether a texture can be written.
pub fn generate_texture_data(
    dest: &mut Vec<u8>,
    desc: &ResourceDesc,
    footprint: &SubresourceFootprint,
)
    requires
        can_be_written(*desc, *footprint, old(dest)@.len() as int),
    ensures
        final(dest)@ == textured(*desc, *footprint, old(dest)@),
{
    let ghost before = dest@;
    if desc.width == 0 || desc.height == 0 {
        proof {
            lemma_no_row_without_texels(*desc, *footprint, before);
        }
        return ;
    }
    let len = dest.len();
    let pitch = footprint.row_pitch as usize;
    let mut row: u32 = 0;
    while row < desc.height
        invariant
            desc.width >= 8,
            desc.height >= 8,
            fits(*desc, *footprint, before.len() as int),
            pitch == footprint.row_pitch,
            row <= desc.height,
            before.len() == len,
            dest@.len() == before.len(),
            forall|at: int|
                0 <= at < dest@.len() ==> #[trigger] dest@[at] == byte_after_rows(
                    *desc,
                    *footprint,
                    before,
                    at,
                    row as int,
                ),
        decreases desc.height - row,
    {
        proof {
            lemma_row_within(*desc, *footprint, row as int, before.len() as int);
        }
        let start = (row as usize) * pitch;
        let ghost rows_before = dest@;
        let mut x: u64 = 0;
        let mut p: usize = start;
        while x < desc.width
            invariant
                desc.width >= 8,
                desc.height >= 8,
                row < desc.height,
                start == row_start(*footprint, row as int),
                start + 4 * desc.width <= before.len(),
                x <= desc.width,
                p == start + 4 * x,
                before.len() == len,
                dest@.len() == before.len(),
                rows_before.len() == before.len(),
                forall|at: int|
                    0 <= at < dest@.len() ==> #[trigger] dest@[at] == (if start <= at < p {
                        byte_of_row(*desc, *footprint, row as int, at)
                    } else {
                        rows_before[at]
                    }),
            decreases desc.width - x,
        {
            let value = texel_at(desc, x, row);
            dest.set(p, (value % 256) as u8);
            dest.set(p + 1, (value / 0x100 % 256) as u8);
            dest.set(p + 2, (value / 0x1_0000 % 256) as u8);
            dest.set(p + 3, (value / 0x100_0000 % 256) as u8);
            p = p + 4;
            x = x + 1;
        }
        row = row + 1;
    }
    assert(dest@ =~= textured(*desc, *footprint, before));
}

/// Where a row is no longer than the row pitch, rows lie apart: each byte
/// of each texel is in the buffer as that texel has it.
pub proof fn lemma_texels_in_place(
    desc: ResourceDesc,
    footprint: SubresourceFootprint,
    before: Seq<u8>,
    x: int,
    row: int,
    k: int,
)
    requires
        4 * desc.width <= footprint.row_pitch,
        fits(desc, footprint, before.len() as int),
        0 <= x < desc.width,
        0 <= row < desc.height,
        0 <= k < 4,
    ensures
        0 <= row_start(footprint, row) + 4 * x + k < before.len(),
        textured(desc, footprint, before)[row_start(footprint, row) + 4 * x + k] == le_byte(
            texel(desc, x, row),
            k,
        ),
{
    let at = row_start(footprint, row) + 4 * x + k;
    lemma_row_within(desc, footprint, row, before.len() as int);
    lemma_last_row_apart(desc, footprint, at, row, desc.height as int);
}

/// Where a row is no longer than the row pitch, the bytes between the end
/// of a row and the start of the next stay as they were.
pub proof fn lemma_gaps_untouched(
    desc: ResourceDesc,
    footprint: SubresourceFootprint,
    before: Seq<u8>,
    row: int,
    at: int,
)
    requires
        4 * desc.width <= footprint.row_pitch,
        0 <= row,
        row_start(footprint, row) + 4 * desc.width <= at < row_start(footprint, row + 1),
        at < before.len(),
    ensures
        textured(desc, footprint, before)[at] == before[at],
{
    lemma_no_row_in_gap(desc, footprint, at, row, desc.height as int);
}

/// With rows apart, the row that takes up a byte is the only one.
proof fn lemma_last_row_apart(
    desc: ResourceDesc,
    footprint: SubresourceFootprint,
    at: int,
    row: int,
    rows: int,
)
    requires
        4 * desc.width <= footprint.row_pitch,
        0 <= row < rows,
        row_covers(desc, footprint, row, at),
    ensures
        last_row_at(desc, footprint, at, rows) == Some(row),
    decreases rows,
{
    if row < rows - 1 {
        lemma_rows_in_order(footprint, row + 1, rows - 1);
        lemma_next_row(footprint, row);
        lemma_last_row_apart(desc, footprint, at, row, rows - 1);
    }
}

/// With rows apart, no row takes up a byte between two rows.
proof fn lemma_no_row_in_gap(
    desc: ResourceDesc,
    footprint: SubresourceFootprint,
    at: int,
    row: int,
    rows: int,
)
    requires
        4 * desc.width <= footprint.row_pitch,
        0 <= row,
        row_start(footprint, row) + 4 * desc.width <= at < row_start(footprint, row + 1),
    ensures
        last_row_at(desc, footprint, at, rows) == None::<int>,
    decreases rows,
{
    if rows > 0 {
        let other = rows - 1;
        if other <= row {
            lemma_rows_in_order(footprint, other, row);
        } else {
            lemma_rows_in_order(footprint, row + 1, other);
        }
        lemma_no_row_in_gap(desc, footprint, at, row, rows - 1);
    }
}

/// A later row starts no earlier.
proof fn lemma_rows_in_order(footprint: SubresourceFootprint, earlier: int, later: int)
    requires
        earlier <= later,
    ensures
        row_start(footprint, earlier) <= row_start(footprint, later),
{
    let pitch = footprint.row_pitch as int;
    assert(earlier * pitch <= later * pitch) by (nonlinear_arith)
        requires
            earlier <= later,
            0 <= pitch,
    ;
}

/// The next row starts one row pitch on.
proof fn lemma_next_row(footprint: SubresourceFootprint, row: int)
    ensures
        row_start(footprint, row + 1) == row_start(footprint, row) + footprint.row_pitch,
{
    let pitch = footprint.row_pitch as int;
    assert((row + 1) * pitch == row * pitch + pitch) by (nonlinear_arith);
}

/// Without texels no row takes up any byte: the buffer stays as it is.
proof fn lemma_no_row_without_texels(
    desc: ResourceDesc,
    footprint: SubresourceFootprint,
    before: Seq<u8>,
)
    requires
        !has_texels(desc),
    ensures
        before == textured(desc, footprint, before),
{
    assert forall|at: int| 0 <= at < before.len() implies before[at] == byte_after_rows(
        desc,
        footprint,
        before,
        at,
        desc.height as int,
    ) by {
        lemma_empty_rows(desc, footprint, at, desc.height as int);
    }
    assert(before =~= textured(desc, footprint, before));
}

/// Rows without texels take up nothing.
proof fn lemma_empty_rows(desc: ResourceDesc, footprint: SubresourceFootprint, at: int, rows: int)
    requires
        desc.width == 0 || rows <= 0,
    ensures
        last_row_at(desc, footprint, at, rows) == None::<int>,
    decreases rows,
{
    if rows > 0 {
        lemma_empty_rows(desc, footprint, at, rows - 1);
    }
}

/// A row of a texture that fits in `len` bytes ends within them.
proof fn lemma_row_within(desc: ResourceDesc, footprint: SubresourceFootprint, row: int, len: int)
    requires
        0 <= row < desc.height,
        fits(desc, footprint, len),
    ensures
        0 <= row_start(footprint, row),
        row_start(footprint, row) + 4 * desc.width <= len,
{
    let pitch = footprint.row_pitch as int;
    let last = desc.height as int - 1;
    assert(0 <= row * pitch <= last * pitch) by (nonlinear_arith)
        requires
            0 <= row <= last,
            0 <= pitch,
    ;
}

} // verus!
