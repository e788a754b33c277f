//! The texture-atlas packer: places a list of equally sized texture cells
//! into a grid, row by row in input order, under a hard maximum extent, and
//! composites their pixel data into one combined RGBA buffer.
//!
//! Every placement is an exact function of the cell's position in the input
//! list: cell `i` sits at column `i % width_count`, row `i / width_count`,
//! where `width_count` is how many cells fit in one row of the maximum
//! extent. The final atlas is the smallest rectangle covering every placed
//! cell.

use vstd::prelude::*;

use crate::error::EffectError;
use crate::extent::{Extent2D, Ratio, RatioSize};
use crate::id::TextureID;

verus! {

/// The widest and tallest atlas the packer will ever produce, in pixels.
pub const MAX_ATLAS_WIDTH: u32 = 8192;
pub const MAX_ATLAS_HEIGHT: u32 = 8192;

/// Decoded RGBA8 pixel data for one texture, as handed to the packer: four
/// bytes per pixel, rows from the top, no padding.
#[derive(Debug)]
pub struct CellImage {
    pub id: TextureID,
    pub path: String,
    pub pixels: Vec<u8>,
    pub width: u32,
    pub height: u32,
}

impl CellImage {
    /// Whether this image is exactly one atlas cell: its declared dimensions
    /// equal the cell size and its buffer holds exactly those pixels.
    pub open spec fn conformed(&self, cell: Extent2D) -> bool {
        &&& self.width == cell.width
        &&& self.height == cell.height
        &&& self.pixels@.len() == 4 * (cell.width as int) * (cell.height as int)
    }

    /// Whether the image is internally consistent: it has pixels, and its
    /// buffer holds exactly the pixels its dimensions declare.
    pub open spec fn wf(&self) -> bool {
        &&& self.width > 0
        &&& self.height > 0
        &&& self.pixels@.len() == 4 * (self.width as int) * (self.height as int)
    }
}

/// How many cells fit side by side in one row of the maximum extent.
pub open spec fn cells_per_row(max_width: int, cell_width: int) -> int {
    max_width / cell_width
}

/// How many rows of cells fit under the maximum height.
pub open spec fn rows_available(max_height: int, cell_height: int) -> int {
    max_height / cell_height
}

/// The most cells an atlas of the given maximum extent can hold.
pub open spec fn grid_capacity(max_width: int, max_height: int, cell_width: int, cell_height: int) -> int {
    cells_per_row(max_width, cell_width) * rows_available(max_height, cell_height)
}

/// The column of the `i`-th placed cell.
pub open spec fn cell_column(i: int, width_count: int) -> int {
    i % width_count
}

/// The row of the `i`-th placed cell.
pub open spec fn cell_row(i: int, width_count: int) -> int {
    i / width_count
}

/// How many rows `n` cells occupy: the smallest row count whose grid holds
/// them all.
pub open spec fn rows_used(n: int, width_count: int) -> int {
    if n <= 0 {
        0
    } else {
        (n + width_count - 1) / width_count
    }
}

/// The final atlas width: a full row when every row position is used,
/// otherwise just wide enough for the single partial row.
pub open spec fn atlas_width(n: int, width_count: int, cell_width: int) -> int {
    if n >= width_count {
        width_count * cell_width
    } else {
        n * cell_width
    }
}

/// The final atlas height: every used row is one cell tall.
pub open spec fn atlas_height(n: int, width_count: int, cell_height: int) -> int {
    rows_used(n, width_count) * cell_height
}

/// Where row `dy` of cell `i` begins in the combined byte buffer.
pub open spec fn cell_byte_base(i: int, dy: int, width_count: int, cell_width: int, cell_height: int, aw: int) -> int {
    4 * ((cell_row(i, width_count) * cell_height + dy) * aw + cell_column(i, width_count) * cell_width)
}

/// The combined buffer's byte `k` of row `dy` of cell `i`.
pub open spec fn atlas_byte_at(pixels: Seq<u8>, i: int, dy: int, k: int, width_count: int, cell_width: int, cell_height: int, aw: int) -> u8 {
    pixels[cell_byte_base(i, dy, width_count, cell_width, cell_height, aw) + k]
}

/// Every placed cell's pixel rows appear verbatim at their computed offsets
/// in the combined buffer.
pub open spec fn atlas_content(pixels: Seq<u8>, images: Seq<CellImage>, width_count: int, cell_width: int, cell_height: int, aw: int) -> bool {
    forall|i: int, dy: int, k: int|
        0 <= i < images.len() && 0 <= dy < cell_height && 0 <= k < 4 * cell_width
            ==> #[trigger] atlas_byte_at(pixels, i, dy, k, width_count, cell_width, cell_height, aw)
                == images[i].pixels@[4 * (cell_width * dy) + k]
}

/// Copies `len` bytes of `src` starting at `src_off` into `dst` starting at
/// `dst_off`, leaving every other byte of `dst` unchanged.
fn copy_bytes(dst: &mut Vec<u8>, dst_off: usize, src: &Vec<u8>, src_off: usize, len: usize)
    requires
        dst_off + len <= old(dst)@.len(),
        src_off + len <= src@.len(),
    ensures
        final(dst)@.len() == old(dst)@.len(),
        forall|k: int|
            dst_off <= k < dst_off + len ==> final(dst)@[k] == src@[src_off + k - dst_off],
        forall|k: int|
            0 <= k < old(dst)@.len() && !(dst_off <= k < dst_off + len) ==> final(dst)@[k]
                == old(dst)@[k],
{
    let src_len: usize = src.len();
    let dst_len: usize = dst.len();
    let mut j: usize = 0;
    while j < len
        invariant
            j <= len,
            dst_off + len <= dst_len,
            src_off + len <= src_len,
            src_len == src@.len(),
            dst_len == dst@.len(),
            dst@.len() == old(dst)@.len(),
            forall|k: int| dst_off <= k < dst_off + j ==> dst@[k] == src@[src_off + k - dst_off],
            forall|k: int|
                0 <= k < old(dst)@.len() && !(dst_off <= k < dst_off + j) ==> dst@[k] == old(
                    dst,
                )@[k],
        decreases len - j,
    {
        let b = src[src_off + j];
        dst.set(dst_off + j, b);
        j += 1;
    }
}

/// How many rows `n` cells occupy never exceeds the rows available, as long
/// as the grid can hold all `n`.
proof fn lemma_rows_used_le(n: int, wc: int, hc: int)
    requires
        wc > 0,
        hc > 0,
        0 < n <= wc * hc,
    ensures
        0 < rows_used(n, wc) <= hc,
        rows_used(n, wc) == (n - 1) / wc + 1,
{
    let q = (n - 1) / wc;
    let r = (n - 1) % wc;
    vstd::arithmetic::div_mod::lemma_fundamental_div_mod(n - 1, wc);
    assert(n + wc - 1 == (q + 1) * wc + r) by (nonlinear_arith)
        requires
            n - 1 == wc * q + r,
    ;
    vstd::arithmetic::div_mod::lemma_fundamental_div_mod_converse(n + wc - 1, wc, q + 1, r);
    assert(rows_used(n, wc) == q + 1);
    assert(n - 1 <= wc * hc - 1);
    vstd::arithmetic::div_mod::lemma_div_is_ordered(n - 1, wc * hc - 1, wc);
    assert(wc * hc - 1 == wc * (hc - 1) + (wc - 1)) by (nonlinear_arith);
    vstd::arithmetic::div_mod::lemma_fundamental_div_mod_converse(wc * hc - 1, wc, hc - 1, wc - 1);
    assert((wc * hc - 1) / wc == hc - 1);
    assert(q <= hc - 1);
    assert(q >= 0) by {
        vstd::arithmetic::div_mod::lemma_div_pos_is_pos(n - 1, wc);
    }
}

/// Each placed cell's column strip lies inside the final atlas width.
proof fn lemma_column_fits(i: int, n: int, wc: int, cw: int, aw: int)
    requires
        wc > 0,
        cw > 0,
        0 <= i < n,
        aw == atlas_width(n, wc, cw),
    ensures
        0 <= cell_column(i, wc) * cw,
        cell_column(i, wc) * cw + cw <= aw,
{
    let c = i % wc;
    assert(0 <= c < wc);
    assert(0 <= c * cw) by (nonlinear_arith)
        requires
            c >= 0,
            cw > 0,
    ;
    if n >= wc {
        assert((c + 1) * cw <= wc * cw) by (nonlinear_arith)
            requires
                c + 1 <= wc,
            cw > 0,
        ;
        assert(c * cw + cw == (c + 1) * cw) by (nonlinear_arith);
    } else {
        vstd::arithmetic::div_mod::lemma_small_mod(i as nat, wc as nat);
        assert(c == i);
        assert((i + 1) * cw <= n * cw) by (nonlinear_arith)
            requires
                i + 1 <= n,
                cw > 0,
        ;
        assert(i * cw + cw == (i + 1) * cw) by (nonlinear_arith);
    }
}

/// Where row `dy` of cell `i` lands in the combined buffer: entirely inside
/// it, with every intermediate quantity bounded.
proof fn lemma_region_in_range(i: int, dy: int, n: int, wc: int, hc: int, cw: int, ch: int, aw: int, ah: int)
    requires
        wc > 0,
        hc > 0,
        cw > 0,
        ch > 0,
        0 <= i < n,
        0 <= dy < ch,
        n <= wc * hc,
        aw == atlas_width(n, wc, cw),
        ah == atlas_height(n, wc, ch),
    ensures
        0 <= cell_row(i, wc) * ch + dy < ah,
        0 <= cell_column(i, wc) * cw,
        cell_column(i, wc) * cw + cw <= aw,
        (cell_row(i, wc) * ch + dy) * aw + cell_column(i, wc) * cw + cw <= aw * ah,
        cell_byte_base(i, dy, wc, cw, ch, aw) == 4 * ((cell_row(i, wc) * ch + dy) * aw
            + cell_column(i, wc) * cw),
        cell_byte_base(i, dy, wc, cw, ch, aw) + 4 * cw <= 4 * (aw * ah),
{
    let r = i / wc;
    let c = i % wc;
    let y = r * ch + dy;
    lemma_rows_used_le(n, wc, hc);
    let ru = rows_used(n, wc);
    assert(r >= 0) by {
        vstd::arithmetic::div_mod::lemma_div_pos_is_pos(i, wc);
    }
    assert(i <= n - 1);
    vstd::arithmetic::div_mod::lemma_div_is_ordered(i, n - 1, wc);
    assert(r <= ru - 1);
    assert(y >= 0) by (nonlinear_arith)
        requires
            y == r * ch + dy,
            r >= 0,
            ch > 0,
            dy >= 0,
    ;
    assert(y < ru * ch) by (nonlinear_arith)
        requires
            r <= ru - 1,
            ch > 0,
            dy < ch,
            y == r * ch + dy,
    ;
    lemma_column_fits(i, n, wc, cw, aw);
    assert(y * aw + c * cw + cw <= aw * ah) by (nonlinear_arith)
        requires
            0 <= y,
            y < ah,
            c * cw + cw <= aw,
            aw >= 0,
    ;
}

/// Distinct (cell, row) pairs occupy disjoint byte ranges of the combined
/// buffer.
proof fn lemma_regions_disjoint(i1: int, dy1: int, i2: int, dy2: int, n: int, wc: int, cw: int, ch: int, aw: int)
    requires
        wc > 0,
        cw > 0,
        ch > 0,
        0 <= i1 < n,
        0 <= i2 < n,
        0 <= dy1 < ch,
        0 <= dy2 < ch,
        i1 != i2 || dy1 != dy2,
        aw == atlas_width(n, wc, cw),
    ensures
        cell_byte_base(i1, dy1, wc, cw, ch, aw) + 4 * cw <= cell_byte_base(i2, dy2, wc, cw, ch, aw)
            || cell_byte_base(i2, dy2, wc, cw, ch, aw) + 4 * cw <= cell_byte_base(i1, dy1, wc, cw, ch, aw),
{
    let r1 = i1 / wc;
    let c1 = i1 % wc;
    let y1 = r1 * ch + dy1;
    let r2 = i2 / wc;
    let c2 = i2 % wc;
    let y2 = r2 * ch + dy2;
    lemma_column_fits(i1, n, wc, cw, aw);
    lemma_column_fits(i2, n, wc, cw, aw);
    if y1 == y2 {
        assert(r1 == r2 && dy1 == dy2) by (nonlinear_arith)
            requires
                r1 * ch + dy1 == r2 * ch + dy2,
                0 <= dy1 < ch,
                0 <= dy2 < ch,
        ;
        vstd::arithmetic::div_mod::lemma_fundamental_div_mod(i1, wc);
        vstd::arithmetic::div_mod::lemma_fundamental_div_mod(i2, wc);
        assert(i1 != i2);
        assert(c1 != c2) by (nonlinear_arith)
            requires
                i1 == wc * r1 + c1,
                i2 == wc * r2 + c2,
                r1 == r2,
                i1 != i2,
        ;
        if c1 < c2 {
            assert(c1 * cw + cw <= c2 * cw) by (nonlinear_arith)
                requires
                    c1 + 1 <= c2,
                    cw > 0,
            ;
        } else {
            assert(c2 * cw + cw <= c1 * cw) by (nonlinear_arith)
                requires
                    c2 + 1 <= c1,
                    cw > 0,
            ;
        }
    } else if y1 < y2 {
        assert(y1 * aw + c1 * cw + cw <= y2 * aw + c2 * cw) by (nonlinear_arith)
            requires
                y1 + 1 <= y2,
                c1 * cw + cw <= aw,
                0 <= c2 * cw,
                aw >= 0,
        ;
    } else {
        assert(y2 * aw + c2 * cw + cw <= y1 * aw + c1 * cw) by (nonlinear_arith)
            requires
                y2 + 1 <= y1,
                c2 * cw + cw <= aw,
                0 <= c1 * cw,
                aw >= 0,
        ;
    }
}

/// The result of a successful pack: the grid shape, the final pixel extent,
/// and the combined pixel data. Placements are not stored: cell `i` sits at
/// `(i % width_count, i / width_count)`, which `cell_index` computes.
#[derive(Debug)]
pub struct AtlasLayout {
    pub cell_size: Extent2D,
    pub width_count: u32,
    pub count: usize,
    pub width: u32,
    pub height: u32,
    pub pixels: Vec<u8>,
}

impl AtlasLayout {
    /// The `[column, row]` grid cell assigned to the `i`-th packed texture.
    pub fn cell_index(&self, i: usize) -> (r: [u32; 2])
        requires
            i < self.count,
            self.width_count > 0,
            self.count <= u32::MAX,
        ensures
            r[0] == cell_column(i as int, self.width_count as int),
            r[1] == cell_row(i as int, self.width_count as int),
    {
        let col = (i as u32) % self.width_count;
        let row = (i as u32) / self.width_count;
        [col, row]
    }

    /// The normalized extent of one cell: an exact ratio of the cell size to
    /// the atlas size, the single per-layer UV scale a shader needs.
    pub fn tex_coord_size(&self) -> (r: RatioSize)
        ensures
            r.width == (Ratio { num: self.cell_size.width, den: self.width }),
            r.height == (Ratio { num: self.cell_size.height, den: self.height }),
    {
        RatioSize {
            width: Ratio { num: self.cell_size.width, den: self.width },
            height: Ratio { num: self.cell_size.height, den: self.height },
        }
    }
}

/// What a successful pack guarantees: the layout records the requested cell
/// size, the grid width of the maximum extent, one placement per input
/// image, the smallest covering atlas extent, and a combined buffer holding
/// every cell's pixels at its placement.
pub open spec fn packed_layout(l: AtlasLayout, images: Seq<CellImage>, cell: Extent2D, max_width: int, max_height: int) -> bool {
    &&& l.cell_size == cell
    &&& l.width_count == cells_per_row(max_width, cell.width as int)
    &&& l.count == images.len()
    &&& l.count <= grid_capacity(max_width, max_height, cell.width as int, cell.height as int)
    &&& l.width == atlas_width(images.len() as int, l.width_count as int, cell.width as int)
    &&& l.height == atlas_height(images.len() as int, l.width_count as int, cell.height as int)
    &&& l.pixels@.len() == 4 * (l.width as int) * (l.height as int)
    &&& atlas_content(
        l.pixels@,
        images,
        l.width_count as int,
        cell.width as int,
        cell.height as int,
        l.width as int,
    )
}

/// Packs `images` — each already conformed to `cell_size` — into the
/// smallest atlas covering them, walking the grid row-major in input order:
/// cell `i` lands at column `i % width_count`, row `i / width_count`.
/// Succeeds exactly when the maximum extent's grid holds them all, and fails
/// before a single pixel is moved otherwise.
pub fn pack(images: &Vec<CellImage>, cell_size: Extent2D, max_width: u32, max_height: u32) -> (r:
    Result<AtlasLayout, EffectError>)
    requires
        cell_size.width > 0,
        cell_size.height > 0,
        forall|i: int| 0 <= i < images@.len() ==> (#[trigger] images@[i]).conformed(cell_size),
        4 * (max_width as int) * (max_height as int) <= usize::MAX,
    ensures
        r is Ok <==> images@.len() <= grid_capacity(
            max_width as int,
            max_height as int,
            cell_size.width as int,
            cell_size.height as int,
        ),
        r matches Ok(l) ==> packed_layout(
            l,
            images@,
            cell_size,
            max_width as int,
            max_height as int,
        ),
{
    let cw = cell_size.width;
    let ch = cell_size.height;
    let wc = max_width / cw;
    let hc = max_height / ch;
    let n = images.len();
    assert((wc as int) * (hc as int) < 0x1_0000_0000_0000_0000) by (nonlinear_arith)
        requires
            0 <= wc as int,
            (wc as int) < 0x1_0000_0000,
            0 <= hc as int,
            (hc as int) < 0x1_0000_0000,
    ;
    if (n as u64) > (wc as u64) * (hc as u64) {
        return Err(EffectError::new("Not enough space for textures in atlas"));
    }
    if n == 0 {
        proof {
            assert(atlas_width(0, wc as int, cw as int) == 0) by (nonlinear_arith)
                requires
                    wc as int >= 0,
                    cw as int >= 0,
            ;
            assert(atlas_height(0, wc as int, ch as int) == 0);
            assert((wc as int) * (hc as int) >= 0) by (nonlinear_arith)
                requires
                    wc as int >= 0,
                    hc as int >= 0,
            ;
        }
        return Ok(
            AtlasLayout {
                cell_size,
                width_count: wc,
                count: 0,
                width: 0,
                height: 0,
                pixels: Vec::new(),
            },
        );
    }
    assert(wc > 0 && hc > 0) by (nonlinear_arith)
        requires
            n as int <= wc as int * hc as int,
            n > 0,
            wc >= 0,
            hc >= 0,
    ;
    proof {
        vstd::arithmetic::div_mod::lemma_fundamental_div_mod(max_width as int, cw as int);
        assert(cw as int * (wc as int) == wc as int * cw as int) by (nonlinear_arith);
        assert(wc as int * cw as int <= max_width as int);
        vstd::arithmetic::div_mod::lemma_fundamental_div_mod(max_height as int, ch as int);
        assert(ch as int * (hc as int) == hc as int * ch as int) by (nonlinear_arith);
        assert(hc as int * ch as int <= max_height as int);
    }
    let aw: u32;
    if n >= wc as usize {
        aw = wc * cw;
    } else {
        assert((n as int) * (cw as int) <= (wc as int) * (cw as int)) by (nonlinear_arith)
            requires
                n as int <= wc as int,
                cw > 0,
        ;
        aw = (n as u32) * cw;
    }
    proof {
        lemma_rows_used_le(n as int, wc as int, hc as int);
    }
    let rows: usize = (n - 1) / (wc as usize) + 1;
    assert(rows as int * ch as int <= hc as int * ch as int) by (nonlinear_arith)
        requires
            rows as int <= hc as int,
            ch > 0,
            rows >= 0,
    ;
    let ah: u32 = (rows as u32) * ch;
    assert(ah as int >= 1) by (nonlinear_arith)
        requires
            ah as int == rows as int * ch as int,
            rows as int >= 1,
            ch as int >= 1,
    ;
    assert(aw as int * ah as int <= max_width as int * max_height as int) by (nonlinear_arith)
        requires
            0 <= aw as int <= max_width as int,
            0 <= ah as int <= max_height as int,
    ;
    assert(4 * aw as int <= 4 * (aw as int * ah as int)) by (nonlinear_arith)
        requires
            aw >= 0,
            ah as int >= 1,
    ;
    assert((4 * aw as int) * (ah as int) == 4 * (aw as int * ah as int)) by (nonlinear_arith);
    assert((4 * (max_width as int)) * (max_height as int) == 4 * ((max_width as int) * (
    max_height as int))) by (nonlinear_arith);
    let awu: usize = aw as usize;
    let ahu: usize = ah as usize;
    let total: usize = 4 * awu * ahu;
    proof {
        assert(cw as int <= aw as int) by {
            if n >= wc as usize {
                assert(cw as int <= wc as int * cw as int) by (nonlinear_arith)
                    requires
                        wc as int >= 1,
                        cw as int >= 0,
                ;
            } else {
                assert(cw as int <= n as int * cw as int) by (nonlinear_arith)
                    requires
                        n as int >= 1,
                        cw as int >= 0,
                ;
            }
        };
        assert(ch as int <= ah as int) by (nonlinear_arith)
            requires
                ah as int == rows as int * ch as int,
                rows as int >= 1,
                ch as int >= 1,
        ;
        assert(4 * (cw as int) * (ch as int) <= 4 * (aw as int * ah as int)) by (nonlinear_arith)
            requires
                0 <= cw as int <= aw as int,
                0 <= ch as int <= ah as int,
        ;
    }
    let mut pixels: Vec<u8> = Vec::new();
    while pixels.len() < total
        invariant
            pixels@.len() <= total,
        decreases total - pixels@.len(),
    {
        pixels.push(0);
    }
    let cwu: usize = cw as usize;
    let chu: usize = ch as usize;
    let wcu: usize = wc as usize;
    let mut i: usize = 0;
    while i < n
        invariant
            i <= n,
            n == images@.len(),
            cw == cell_size.width,
            ch == cell_size.height,
            cw > 0,
            ch > 0,
            wc > 0,
            hc > 0,
            cwu == cw,
            chu == ch,
            wcu == wc,
            awu == aw,
            ahu == ah,
            n as int <= wc as int * hc as int,
            forall|t: int| 0 <= t < images@.len() ==> (#[trigger] images@[t]).conformed(cell_size),
            aw as int == atlas_width(n as int, wc as int, cw as int),
            ah as int == atlas_height(n as int, wc as int, ch as int),
            pixels@.len() == 4 * ((aw as int) * (ah as int)),
            4 * ((aw as int) * (ah as int)) <= usize::MAX,
            cw as int <= aw as int,
            ch as int <= ah as int,
            forall|i2: int, dy2: int, k2: int|
                0 <= i2 < i && 0 <= dy2 < ch as int && 0 <= k2 < 4 * cw as int
                    ==> #[trigger] atlas_byte_at(
                    pixels@,
                    i2,
                    dy2,
                    k2,
                    wc as int,
                    cw as int,
                    ch as int,
                    aw as int,
                ) == images@[i2].pixels@[4 * ((cw as int) * dy2) + k2],
        decreases n - i,
    {
        let img = &images[i];
        let col: usize = i % wcu;
        let row: usize = i / wcu;
        let mut dy: usize = 0;
        while dy < chu
            invariant
                dy <= ch,
                i < n,
                n == images@.len(),
                cw == cell_size.width,
                ch == cell_size.height,
                cw > 0,
                ch > 0,
                wc > 0,
                hc > 0,
                cwu == cw,
                chu == ch,
                wcu == wc,
                awu == aw,
                ahu == ah,
                n as int <= wc as int * hc as int,
                forall|t: int|
                    0 <= t < images@.len() ==> (#[trigger] images@[t]).conformed(cell_size),
                img == images@[i as int],
                col as int == cell_column(i as int, wc as int),
                row as int == cell_row(i as int, wc as int),
                aw as int == atlas_width(n as int, wc as int, cw as int),
                ah as int == atlas_height(n as int, wc as int, ch as int),
                pixels@.len() == 4 * ((aw as int) * (ah as int)),
                4 * ((aw as int) * (ah as int)) <= usize::MAX,
                cw as int <= aw as int,
                ch as int <= ah as int,
                forall|i2: int, dy2: int, k2: int|
                    0 <= i2 <= i && 0 <= dy2 < ch as int && 0 <= k2 < 4 * cw as int && (i2 < i
                        || dy2 < dy) ==> #[trigger] atlas_byte_at(
                        pixels@,
                        i2,
                        dy2,
                        k2,
                        wc as int,
                        cw as int,
                        ch as int,
                        aw as int,
                    ) == images@[i2].pixels@[4 * ((cw as int) * dy2) + k2],
            decreases ch - dy,
        {
            proof {
                lemma_region_in_range(
                    i as int,
                    dy as int,
                    n as int,
                    wc as int,
                    hc as int,
                    cw as int,
                    ch as int,
                    aw as int,
                    ah as int,
                );
                assert(aw as int * ah as int >= 0) by (nonlinear_arith)
                    requires
                        aw as int >= 0,
                        ah as int >= 0,
                ;
                assert(cw as int * dy as int + cw as int <= cw as int * ch as int)
                    by (nonlinear_arith)
                    requires
                        dy as int + 1 <= ch as int,
                        cw as int >= 0,
                ;
                assert(cw as int * ch as int <= aw as int * ah as int) by (nonlinear_arith)
                    requires
                        0 <= cw as int <= aw as int,
                        0 <= ch as int <= ah as int,
                ;
                assert(images@[i as int].conformed(cell_size));
                assert((4 * (cw as int)) * (ch as int) == 4 * ((cw as int) * (ch as int)))
                    by (nonlinear_arith);
            }
            let y: usize = row * chu + dy;
            let dest: usize = 4 * (y * awu + col * cwu);
            let src_off: usize = 4 * (cwu * dy);
            let len4: usize = 4 * cwu;
            let ghost pixels_before = pixels@;
            copy_bytes(&mut pixels, dest, &img.pixels, src_off, len4);
            proof {
                let wci = wc as int;
                let cwi = cw as int;
                let chi = ch as int;
                let awi = aw as int;
                let base = cell_byte_base(i as int, dy as int, wci, cwi, chi, awi);
                assert(dest as int == base);
                assert forall|i2: int, dy2: int, k2: int|
                    0 <= i2 <= i && 0 <= dy2 < chi && 0 <= k2 < 4 * cwi && (i2 < i || dy2
                        < dy) implies #[trigger] atlas_byte_at(
                    pixels@,
                    i2,
                    dy2,
                    k2,
                    wci,
                    cwi,
                    chi,
                    awi,
                ) == images@[i2].pixels@[4 * (cwi * dy2) + k2] by {
                    lemma_regions_disjoint(
                        i2,
                        dy2,
                        i as int,
                        dy as int,
                        n as int,
                        wci,
                        cwi,
                        chi,
                        awi,
                    );
                    lemma_region_in_range(
                        i2,
                        dy2,
                        n as int,
                        wc as int,
                        hc as int,
                        cwi,
                        chi,
                        awi,
                        ah as int,
                    );
                    assert(atlas_byte_at(pixels_before, i2, dy2, k2, wci, cwi, chi, awi)
                        == images@[i2].pixels@[4 * (cwi * dy2) + k2]);
                    let b2 = cell_byte_base(i2, dy2, wci, cwi, chi, awi);
                    assert(!(dest <= b2 + k2 < dest + len4));
                    assert(pixels@[b2 + k2] == pixels_before[b2 + k2]);
                }
                assert forall|k2: int| 0 <= k2 < 4 * cwi implies #[trigger] atlas_byte_at(
                    pixels@,
                    i as int,
                    dy as int,
                    k2,
                    wci,
                    cwi,
                    chi,
                    awi,
                ) == images@[i as int].pixels@[4 * (cwi * dy as int) + k2] by {
                    assert(pixels@[base + k2] == img.pixels@[src_off + (base + k2) - dest]);
                }
            }
            dy += 1;
        }
        i += 1;
    }
    Ok(AtlasLayout { cell_size, width_count: wc, count: n, width: aw, height: ah, pixels })
}

/// The smallest covering atlas never exceeds the maximum extent it was
/// packed under.
pub proof fn lemma_atlas_dims_bounded(n: int, max_width: int, max_height: int, cw: int, ch: int)
    requires
        cw > 0,
        ch > 0,
        max_width >= 0,
        max_height >= 0,
        0 <= n <= grid_capacity(max_width, max_height, cw, ch),
    ensures
        0 <= atlas_width(n, cells_per_row(max_width, cw), cw) <= max_width,
        0 <= atlas_height(n, cells_per_row(max_width, cw), ch) <= max_height,
{
    let wc = max_width / cw;
    let hc = max_height / ch;
    assert(wc >= 0 && hc >= 0) by {
        vstd::arithmetic::div_mod::lemma_div_pos_is_pos(max_width, cw);
        vstd::arithmetic::div_mod::lemma_div_pos_is_pos(max_height, ch);
    }
    vstd::arithmetic::div_mod::lemma_fundamental_div_mod(max_width, cw);
    assert(cw * wc == wc * cw) by (nonlinear_arith);
    assert(wc * cw <= max_width);
    vstd::arithmetic::div_mod::lemma_fundamental_div_mod(max_height, ch);
    assert(ch * hc == hc * ch) by (nonlinear_arith);
    assert(hc * ch <= max_height);
    if n == 0 {
        assert(atlas_width(0, wc, cw) == 0) by (nonlinear_arith)
            requires
                wc >= 0,
                cw >= 0,
        ;
        assert(atlas_height(0, wc, ch) == 0);
    } else {
        assert(wc > 0 && hc > 0) by (nonlinear_arith)
            requires
                n <= wc * hc,
                n > 0,
                wc >= 0,
                hc >= 0,
        ;
        if n >= wc {
        } else {
            assert(0 <= n * cw <= wc * cw) by (nonlinear_arith)
                requires
                    0 <= n <= wc,
                    cw > 0,
            ;
        }
        lemma_rows_used_le(n, wc, hc);
        assert(0 <= rows_used(n, wc) * ch <= hc * ch) by (nonlinear_arith)
            requires
                0 <= rows_used(n, wc) <= hc,
                ch > 0,
        ;
    }
}

/// Placement determinism: two layouts packed from equally long texture
/// lists, under one cell size and one maximum extent, assign every position
/// the same cell index and agree on the atlas dimensions — a placement
/// depends on nothing but the position's rank in the input order.
pub proof fn lemma_pack_deterministic(
    l1: AtlasLayout,
    l2: AtlasLayout,
    images1: Seq<CellImage>,
    images2: Seq<CellImage>,
    cell: Extent2D,
    max_width: int,
    max_height: int,
)
    requires
        packed_layout(l1, images1, cell, max_width, max_height),
        packed_layout(l2, images2, cell, max_width, max_height),
        images1.len() == images2.len(),
    ensures
        l1.width_count == l2.width_count,
        l1.count == l2.count,
        l1.width == l2.width,
        l1.height == l2.height,
        forall|i: int|
            0 <= i < l1.count ==> cell_column(i, l1.width_count as int) == cell_column(
                i,
                l2.width_count as int,
            ) && cell_row(i, l1.width_count as int) == cell_row(i, l2.width_count as int),
{
}

/// UV round-trip, in exact pixel arithmetic: every placed cell's rectangle
/// lies inside the atlas, so its UV rectangle — the same quantities divided
/// by the atlas dimensions — lies inside the unit square: the UV offset
/// `cell_index * tex_coord_size` plus `tex_coord_size` never leaves [0, 1].
pub proof fn lemma_uv_in_bounds(
    l: AtlasLayout,
    images: Seq<CellImage>,
    cell: Extent2D,
    max_width: int,
    max_height: int,
    i: int,
)
    requires
        packed_layout(l, images, cell, max_width, max_height),
        cell.width > 0,
        cell.height > 0,
        max_width >= 0,
        max_height >= 0,
        0 <= i < l.count,
    ensures
        0 <= cell_column(i, l.width_count as int) * cell.width,
        cell_column(i, l.width_count as int) * cell.width + cell.width <= l.width,
        0 <= cell_row(i, l.width_count as int) * cell.height,
        cell_row(i, l.width_count as int) * cell.height + cell.height <= l.height,
{
    let n = l.count as int;
    let wc = l.width_count as int;
    let hc = rows_available(max_height, cell.height as int);
    let cw = cell.width as int;
    let ch = cell.height as int;
    assert(wc >= 0 && hc >= 0) by {
        vstd::arithmetic::div_mod::lemma_div_pos_is_pos(max_width, cw);
        vstd::arithmetic::div_mod::lemma_div_pos_is_pos(max_height, ch);
    }
    assert(wc > 0 && hc > 0) by (nonlinear_arith)
        requires
            n <= wc * hc,
            n > 0,
            wc >= 0,
            hc >= 0,
    ;
    lemma_column_fits(i, n, wc, cw, l.width as int);
    lemma_region_in_range(i, ch - 1, n, wc, hc, cw, ch, l.width as int, l.height as int);
    let r = cell_row(i, wc);
    assert(r * ch + (ch - 1) < l.height as int);
    assert(0 <= r * ch) by (nonlinear_arith)
        requires
            r >= 0,
            ch > 0,
    ;
    assert(r >= 0) by {
        vstd::arithmetic::div_mod::lemma_div_pos_is_pos(i, wc);
    }
}

/// No two placed cells share atlas pixels: their rectangles are separated
/// along the column axis or along the row axis, so, divided by the atlas
/// dimensions, no texture's UV rectangle overlaps another's.
pub proof fn lemma_uv_rects_disjoint(
    l: AtlasLayout,
    images: Seq<CellImage>,
    cell: Extent2D,
    max_width: int,
    max_height: int,
    i: int,
    j: int,
)
    requires
        packed_layout(l, images, cell, max_width, max_height),
        cell.width > 0,
        cell.height > 0,
        max_width >= 0,
        max_height >= 0,
        0 <= i < l.count,
        0 <= j < l.count,
        i != j,
    ensures
        cell_column(i, l.width_count as int) * cell.width + cell.width <= cell_column(
            j,
            l.width_count as int,
        ) * cell.width || cell_column(j, l.width_count as int) * cell.width + cell.width
            <= cell_column(i, l.width_count as int) * cell.width || cell_row(
            i,
            l.width_count as int,
        ) * cell.height + cell.height <= cell_row(j, l.width_count as int) * cell.height
            || cell_row(j, l.width_count as int) * cell.height + cell.height <= cell_row(
            i,
            l.width_count as int,
        ) * cell.height,
{
    let n = l.count as int;
    let wc = l.width_count as int;
    let hc = rows_available(max_height, cell.height as int);
    let cw = cell.width as int;
    let ch = cell.height as int;
    assert(wc >= 0 && hc >= 0) by {
        vstd::arithmetic::div_mod::lemma_div_pos_is_pos(max_width, cw);
        vstd::arithmetic::div_mod::lemma_div_pos_is_pos(max_height, ch);
    }
    assert(wc > 0 && hc > 0) by (nonlinear_arith)
        requires
            n <= wc * hc,
            n > 0,
            wc >= 0,
            hc >= 0,
    ;
    let ci = cell_column(i, wc);
    let ri = cell_row(i, wc);
    let cj = cell_column(j, wc);
    let rj = cell_row(j, wc);
    if ri == rj {
        vstd::arithmetic::div_mod::lemma_fundamental_div_mod(i, wc);
        vstd::arithmetic::div_mod::lemma_fundamental_div_mod(j, wc);
        assert(ci != cj) by (nonlinear_arith)
            requires
                i == wc * ri + ci,
                j == wc * rj + cj,
                ri == rj,
                i != j,
        ;
        if ci < cj {
            assert(ci * cw + cw <= cj * cw) by (nonlinear_arith)
                requires
                    ci + 1 <= cj,
                    cw > 0,
            ;
        } else {
            assert(cj * cw + cw <= ci * cw) by (nonlinear_arith)
                requires
                    cj + 1 <= ci,
                    cw > 0,
            ;
        }
    } else if ri < rj {
        assert(ri * ch + ch <= rj * ch) by (nonlinear_arith)
            requires
                ri + 1 <= rj,
                ch > 0,
        ;
    } else {
        assert(rj * ch + ch <= ri * ch) by (nonlinear_arith)
            requires
                rj + 1 <= ri,
                ch > 0,
        ;
    }
}

} // verus!
