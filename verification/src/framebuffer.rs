//! In-memory pixel store that tracks what changed and sends only that to the
//! display.

use crate::dirty::{cover, DirtyArea, Region};
use display_interface::DisplayError;
use vstd::prelude::*;

verus! {

/// `display_interface::DisplayError`, the error a display reports for a
/// failed transfer. It is carried through unread: nothing is claimed of it.
#[verifier::external_type_specification]
#[verifier::external_body]
pub struct ExDisplayError(DisplayError);

/// One rectangle of pixels handed to a display: its corners, both inclusive,
/// and its pixels row by row from the top-left corner.
pub struct SliceDraw {
    pub x0: u16,
    pub y0: u16,
    pub x1: u16,
    pub y1: u16,
    pub data: Seq<u16>,
}

impl SliceDraw {
    /// The number of columns of the rectangle.
    pub open spec fn width(self) -> int {
        self.x1 - self.x0 + 1
    }

    /// The number of rows of the rectangle.
    pub open spec fn height(self) -> int {
        self.y1 - self.y0 + 1
    }

    /// The pixel that the transfer holds for the place `(x, y)` of the
    /// display.
    pub open spec fn pixel_at(self, x: int, y: int) -> u16 {
        self.data[(y - self.y0) * self.width() + (x - self.x0)]
    }
}

/// A display that accepts rectangles of raw 16-bit pixels.
pub trait DrawRawSlice {
    /// Every rectangle handed to `draw_raw_slice` so far, oldest first,
    /// whether or not the display reported an error for it.
    ///
    /// A display that is verified defines this as its own history. The
    /// body given here only lets a display outside the verifier leave it
    /// out; of such a display the contract of `draw_raw_slice` is taken on
    /// trust.
    open spec fn drawn(&self) -> Seq<SliceDraw> {
        Seq::empty()
    }

    /// Sends the pixels of the rectangle with corners `(x0, y0)` and
    /// `(x1, y1)`, both inclusive, row by row.
    fn draw_raw_slice(&mut self, x0: u16, y0: u16, x1: u16, y1: u16, data: &[u16]) -> (outcome:
        Result<(), DisplayError>)
        requires
            x0 <= x1,
            y0 <= y1,
            data@.len() == (x1 - x0 + 1) * (y1 - y0 + 1),
        ensures
            final(self).drawn() == old(self).drawn().push(
                (SliceDraw { x0, y0, x1, y1, data: data@ }),
            ),
    ;
}

/// One pixel to store: where, and the raw 16-bit colour. Coordinates are
/// signed so that drawing code may hand over pixels that fall off the grid.
#[derive(Clone, Copy, Debug, PartialEq, Eq)]
pub struct RawPixel {
    pub x: i32,
    pub y: i32,
    pub color: u16,
}

/// Position of the pixel `(x, y)` in a row-major store of `width` columns.
pub open spec fn pixel_index(width: int, x: int, y: int) -> int {
    y * width + x
}

/// Whether `(x, y)` lies on a grid of `width` columns and `height` rows.
pub open spec fn on_grid(width: int, height: int, x: int, y: int) -> bool {
    0 <= x < width && 0 <= y < height
}

/// What a framebuffer holds: the pixels in row-major order, the rectangle
/// that covers the changes since the last flush, and whether the secondary
/// buffer of the copying flush has been allocated.
pub struct FrameView {
    pub pixels: Seq<u16>,
    pub dirty: Option<Region>,
    pub partial_allocated: bool,
}

impl FrameView {
    /// The view fits a grid of `width` columns and `height` rows.
    pub open spec fn wf(self, width: int, height: int) -> bool {
        &&& self.pixels.len() == width * height
        &&& self.dirty matches Some(r) ==> r.within(width, height)
    }

    /// Whether storing `color` at `(x, y)` changes a pixel: the place is on
    /// the grid and holds another colour.
    pub open spec fn changed_by(self, width: int, height: int, x: int, y: int, color: u16) -> bool {
        on_grid(width, height, x, y) && self.pixels[pixel_index(width, x, y)] != color
    }

    /// The view after one pixel write: unchanged where the pixel is off the
    /// grid or already has that colour, else stored and marked.
    pub open spec fn write(self, width: int, height: int, x: int, y: int, color: u16) -> FrameView {
        if !self.changed_by(width, height, x, y, color) {
            self
        } else {
            FrameView {
                pixels: self.pixels.update(pixel_index(width, x, y), color),
                dirty: Some(cover(self.dirty, x, y)),
                partial_allocated: self.partial_allocated,
            }
        }
    }

    /// The view after the writes in `pixels`, first to last.
    pub open spec fn draw(self, width: int, height: int, pixels: Seq<RawPixel>) -> FrameView
        decreases pixels.len(),
    {
        if pixels.len() == 0 {
            self
        } else {
            self.draw(width, height, pixels.drop_last()).write(
                width,
                height,
                pixels.last().x as int,
                pixels.last().y as int,
                pixels.last().color,
            )
        }
    }
}

/// How a flush hands the dirty rectangle to the display.
#[derive(Clone, Copy, Debug, PartialEq, Eq, Structural)]
pub enum DrawMethod {
    /// The dirty rows at full width, which lie next to each other in the
    /// store, in one transfer straight out of it.
    Contiguous,
    /// One transfer for each dirty row, straight out of the store.
    LineSlices,
    /// The dirty rectangle copied row after row into the secondary buffer,
    /// then one transfer out of that buffer.
    UseExtraBuffer,
}

/// The rows of `r` at the full width of the grid.
pub open spec fn full_rows(r: Region, width: int) -> Region {
    Region { xmin: 0, xmax: width, ymin: r.ymin, ymax: r.ymax }
}

/// Row `i` of `r`, counted from its top.
pub open spec fn row_of(r: Region, i: int) -> Region {
    Region { xmin: r.xmin, xmax: r.xmax, ymin: r.ymin + i, ymax: r.ymin + i + 1 }
}

/// The pixels of the block of `w` columns and `h` rows with top-left corner
/// `(x0, y0)`, row by row, out of a row-major store of `width` columns.
pub open spec fn block_pixels(pixels: Seq<u16>, width: int, x0: int, y0: int, w: int, h: int) -> Seq<
    u16,
> {
    Seq::new((w * h) as nat, |k: int| pixels[pixel_index(width, x0 + k % w, y0 + k / w)])
}

/// The pixels of `r`, row by row from its top-left corner.
pub open spec fn region_pixels(pixels: Seq<u16>, width: int, r: Region) -> Seq<u16> {
    block_pixels(pixels, width, r.xmin, r.ymin, r.width(), r.height())
}

/// The transfer that shows `r` as the store has it.
pub open spec fn slice_of(pixels: Seq<u16>, width: int, r: Region) -> SliceDraw {
    SliceDraw {
        x0: r.xmin as u16,
        y0: r.ymin as u16,
        x1: (r.xmax - 1) as u16,
        y1: (r.ymax - 1) as u16,
        data: region_pixels(pixels, width, r),
    }
}

/// The transfers, in order, by which `method` brings the dirty rectangle `r`
/// to the display.
pub open spec fn planned(method: DrawMethod, pixels: Seq<u16>, width: int, r: Region) -> Seq<
    SliceDraw,
> {
    match method {
        DrawMethod::Contiguous => seq![slice_of(pixels, width, full_rows(r, width))],
        DrawMethod::LineSlices => Seq::new(
            r.height() as nat,
            |i: int| slice_of(pixels, width, row_of(r, i)),
        ),
        DrawMethod::UseExtraBuffer => seq![slice_of(pixels, width, r)],
    }
}

/// The method a plain flush picks: whole rows where the dirty rectangle spans
/// the full width, the secondary buffer otherwise.
pub open spec fn default_method(dirty: Option<Region>, width: int) -> DrawMethod {
    let dirty_width = match dirty {
        Some(r) => r.width(),
        None => 0,
    };
    if dirty_width == width {
        DrawMethod::Contiguous
    } else {
        DrawMethod::UseExtraBuffer
    }
}

impl FrameView {
    /// What a plain flush sends: nothing where nothing is dirty, else the
    /// dirty rectangle in one transfer.
    pub open spec fn flush_sends(self, width: int) -> Seq<SliceDraw> {
        match self.dirty {
            None => Seq::empty(),
            Some(r) => seq![slice_of(self.pixels, width, r)],
        }
    }

    /// The view after a flush by `method`. With nothing dirty the flush
    /// changes nothing. Else a flush that succeeded leaves nothing dirty and
    /// one that failed leaves the dirty rectangle as it was; the secondary
    /// buffer comes into being with the first flush that copies.
    pub open spec fn flushed(self, method: DrawMethod, succeeded: bool) -> FrameView {
        match self.dirty {
            None => self,
            Some(r) => FrameView {
                pixels: self.pixels,
                dirty: if succeeded {
                    None
                } else {
                    self.dirty
                },
                partial_allocated: self.partial_allocated || method is UseExtraBuffer,
            },
        }
    }
}

/// A pixel on the grid has its place inside the store.
pub proof fn lemma_pixel_index_bounds(width: int, height: int, x: int, y: int)
    requires
        on_grid(width, height, x, y),
    ensures
        0 <= pixel_index(width, x, y) < width * height,
{
    assert(y * width + width <= height * width) by (nonlinear_arith)
        requires
            0 <= y < height,
            0 < width,
    ;
    assert(0 <= y * width) by (nonlinear_arith)
        requires
            0 <= y,
            0 < width,
    ;
    assert(height * width == width * height) by (nonlinear_arith);
}

/// The store of any grid with 16-bit sides can be indexed by `usize`.
proof fn lemma_store_fits(width: u16, height: u16)
    ensures
        width * height <= 0xFFFE_0001,
        0xFFFE_0001 < usize::MAX,
{
    assert(width * height <= 65535 * 65535) by (nonlinear_arith)
        requires
            0 <= width <= 65535,
            0 <= height <= 65535,
    ;
}

/// A block that lies on a grid has no more pixels than the grid.
proof fn lemma_block_fits(w: int, h: int, width: int, height: int)
    requires
        0 <= w <= width,
        0 <= h <= height,
    ensures
        0 <= w * h <= width * height,
{
    assert(0 <= w * h <= width * height) by (nonlinear_arith)
        requires
            0 <= w <= width,
            0 <= h <= height,
    ;
}

/// Column `j` of row `i` of a block of `w` columns and `h` rows is its
/// pixel `i * w + j`, counted row by row.
proof fn lemma_block_cell(w: int, h: int, i: int, j: int)
    requires
        0 <= i < h,
        0 <= j < w,
    ensures
        0 <= i * w + j < w * h,
        (i * w + j) / w == i,
        (i * w + j) % w == j,
        (i + 1) * w == i * w + w,
        (i + 1) * w <= w * h,
{
    vstd::arithmetic::div_mod::lemma_fundamental_div_mod_converse(i * w + j, w, i, j);
    assert((i + 1) * w == i * w + w) by (nonlinear_arith);
    assert((i + 1) * w <= w * h) by (nonlinear_arith)
        requires
            0 <= i + 1 <= h,
            0 < w,
    ;
    assert(0 <= i * w) by (nonlinear_arith)
        requires
            0 <= i,
            0 < w,
    ;
}

/// The inclusive corners of a block of `w` columns and `h` rows span
/// `w * h` pixels.
proof fn lemma_corner_area(x0: int, y0: int, x1: int, y1: int, w: int, h: int)
    requires
        x1 == x0 + w - 1,
        y1 == y0 + h - 1,
    ensures
        (x1 - x0 + 1) * (y1 - y0 + 1) == w * h,
{
    assert((x1 - x0 + 1) * (y1 - y0 + 1) == w * h) by (nonlinear_arith)
        requires
            x1 - x0 + 1 == w,
            y1 - y0 + 1 == h,
    ;
}

/// Whole rows lie in the store as one run, from the first pixel of the
/// first row up to the last pixel of the last row.
proof fn lemma_rows_are_one_run(pixels: Seq<u16>, width: int, height: int, y0: int, h: int)
    requires
        pixels.len() == width * height,
        0 < width,
        0 <= y0,
        0 < h,
        y0 + h <= height,
    ensures
        0 <= pixel_index(width, 0, y0) <= pixel_index(width, width - 1, y0 + h - 1) < pixels.len(),
        pixel_index(width, width - 1, y0 + h - 1) + 1 - pixel_index(width, 0, y0) == width * h,
        block_pixels(pixels, width, 0, y0, width, h) == pixels.subrange(
            pixel_index(width, 0, y0),
            pixel_index(width, width - 1, y0 + h - 1) + 1,
        ),
{
    let start = pixel_index(width, 0, y0);
    let last = pixel_index(width, width - 1, y0 + h - 1);
    lemma_pixel_index_bounds(width, height, 0, y0);
    lemma_pixel_index_bounds(width, height, width - 1, y0 + h - 1);
    assert((y0 + h - 1) * width + (width - 1) + 1 - y0 * width == width * h) by (nonlinear_arith);
    assert(0 < width * h) by (nonlinear_arith)
        requires
            0 < width,
            0 < h,
    ;
    let block = block_pixels(pixels, width, 0, y0, width, h);
    let run = pixels.subrange(start, last + 1);
    assert(block.len() == width * h);
    assert(run.len() == width * h);
    assert forall|k: int| 0 <= k < block.len() implies block[k] == run[k] by {
        vstd::arithmetic::div_mod::lemma_fundamental_div_mod(k, width);
        assert((y0 + k / width) * width + (0 + k % width) == y0 * width + k) by (nonlinear_arith)
            requires
                k == width * (k / width) + k % width,
        ;
    }
    assert(block =~= run);
}

/// The part of one row between two columns lies in the store as one run.
proof fn lemma_row_is_one_run(pixels: Seq<u16>, width: int, height: int, x0: int, y: int, w: int)
    requires
        pixels.len() == width * height,
        0 <= x0,
        0 < w,
        x0 + w <= width,
        0 <= y < height,
    ensures
        0 <= pixel_index(width, x0, y) <= pixel_index(width, x0 + w - 1, y) < pixels.len(),
        pixel_index(width, x0 + w - 1, y) + 1 - pixel_index(width, x0, y) == w,
        block_pixels(pixels, width, x0, y, w, 1) == pixels.subrange(
            pixel_index(width, x0, y),
            pixel_index(width, x0 + w - 1, y) + 1,
        ),
{
    let start = pixel_index(width, x0, y);
    lemma_pixel_index_bounds(width, height, x0, y);
    lemma_pixel_index_bounds(width, height, x0 + w - 1, y);
    let block = block_pixels(pixels, width, x0, y, w, 1);
    let run = pixels.subrange(start, start + w);
    assert(w * 1 == w);
    assert forall|k: int| 0 <= k < block.len() implies block[k] == run[k] by {
        vstd::arithmetic::div_mod::lemma_small_mod(k as nat, w as nat);
        vstd::arithmetic::div_mod::lemma_basic_div(k, w);
    }
    assert(block =~= run);
}

/// A dirty rectangle that spans the full width of the grid is made of whole
/// rows.
pub proof fn lemma_full_width_is_full_rows(r: Region, width: int, height: int)
    requires
        r.within(width, height),
        r.width() == width,
    ensures
        full_rows(r, width) == r,
{
}

/// What a transfer of a rectangle on the grid holds: the rectangle's
/// corners, one pixel for each of its places, and for each place the pixel
/// that the store has there.
pub proof fn lemma_slice_shape(pixels: Seq<u16>, width: int, height: int, r: Region)
    requires
        r.within(width, height),
        width <= u16::MAX,
        height <= u16::MAX,
    ensures
        slice_of(pixels, width, r).x0 == r.xmin,
        slice_of(pixels, width, r).y0 == r.ymin,
        slice_of(pixels, width, r).x1 == r.xmax - 1 < width,
        slice_of(pixels, width, r).y1 == r.ymax - 1 < height,
        slice_of(pixels, width, r).width() == r.width(),
        slice_of(pixels, width, r).height() == r.height(),
        slice_of(pixels, width, r).data.len() == r.width() * r.height(),
        forall|x: int, y: int|
            r.contains(x, y) ==> #[trigger] slice_of(pixels, width, r).pixel_at(x, y)
                == pixels[pixel_index(width, x, y)],
{
    let w = r.width();
    let h = r.height();
    let t = slice_of(pixels, width, r);
    lemma_block_fits(w, h, width, height);
    assert(t.width() == w);
    assert forall|x: int, y: int| r.contains(x, y) implies #[trigger] t.pixel_at(x, y)
        == pixels[pixel_index(width, x, y)] by {
        let i = y - r.ymin;
        let j = x - r.xmin;
        lemma_block_cell(w, h, i, j);
        let k = i * w + j;
        assert(t.pixel_at(x, y) == t.data[k]);
        assert(t.data[k] == pixels[pixel_index(width, r.xmin + k % w, r.ymin + k / w)]);
    }
}

/// Two places on the grid that share a position in the store are the same
/// place.
pub proof fn lemma_pixel_index_injective(width: int, height: int, xa: int, ya: int, xb: int, yb: int)
    requires
        on_grid(width, height, xa, ya),
        on_grid(width, height, xb, yb),
        pixel_index(width, xa, ya) == pixel_index(width, xb, yb),
    ensures
        xa == xb,
        ya == yb,
{
    vstd::arithmetic::div_mod::lemma_fundamental_div_mod_converse(ya * width + xa, width, ya, xa);
    vstd::arithmetic::div_mod::lemma_fundamental_div_mod_converse(yb * width + xb, width, yb, xb);
}

/// A write keeps a view on its grid.
pub proof fn lemma_write_wf(v: FrameView, width: int, height: int, x: int, y: int, color: u16)
    requires
        v.wf(width, height),
    ensures
        v.write(width, height, x, y, color).wf(width, height),
{
    if v.changed_by(width, height, x, y, color) {
        lemma_pixel_index_bounds(width, height, x, y);
    }
}

/// Storing the same colour at the same place twice in a row does nothing the
/// second time: the pixels and the dirty rectangle are those that the first
/// write left.
pub proof fn lemma_write_twice(v: FrameView, width: int, height: int, x: int, y: int, color: u16)
    requires
        v.wf(width, height),
    ensures
        !v.write(width, height, x, y, color).changed_by(width, height, x, y, color),
        v.write(width, height, x, y, color).write(width, height, x, y, color) == v.write(
            width,
            height,
            x,
            y,
            color,
        ),
{
    if v.changed_by(width, height, x, y, color) {
        lemma_pixel_index_bounds(width, height, x, y);
    }
}

/// Writes that change no pixel leave the view as it is.
pub proof fn lemma_idle_writes_change_nothing(
    v: FrameView,
    width: int,
    height: int,
    writes: Seq<RawPixel>,
)
    requires
        forall|i: int|
            0 <= i < writes.len() ==> !v.changed_by(
                width,
                height,
                (#[trigger] writes[i]).x as int,
                writes[i].y as int,
                writes[i].color,
            ),
    ensures
        v.draw(width, height, writes) == v,
    decreases writes.len(),
{
    if writes.len() > 0 {
        let earlier = writes.drop_last();
        assert forall|i: int| 0 <= i < earlier.len() implies !v.changed_by(
            width,
            height,
            (#[trigger] earlier[i]).x as int,
            earlier[i].y as int,
            earlier[i].color,
        ) by {
            assert(earlier[i] == writes[i]);
        }
        lemma_idle_writes_change_nothing(v, width, height, earlier);
        assert(writes.last() == writes[writes.len() - 1]);
    }
}

/// After a flush that succeeded nothing is dirty, and a flush that follows
/// sends nothing, whatever was written in between, as long as no write
/// changed a pixel. The first write that does change one makes the next
/// flush send a transfer again.
pub proof fn lemma_flush_settles(
    v: FrameView,
    width: int,
    height: int,
    method: DrawMethod,
    writes: Seq<RawPixel>,
    x: int,
    y: int,
    color: u16,
)
    requires
        v.wf(width, height),
        forall|i: int|
            0 <= i < writes.len() ==> !v.changed_by(
                width,
                height,
                (#[trigger] writes[i]).x as int,
                writes[i].y as int,
                writes[i].color,
            ),
    ensures
        v.flushed(method, true).dirty is None,
        v.flushed(method, true).draw(width, height, writes) == v.flushed(method, true),
        v.flushed(method, true).draw(width, height, writes).flush_sends(width) == Seq::<
            SliceDraw,
        >::empty(),
        v.flushed(method, true).changed_by(width, height, x, y, color) ==> v.flushed(
            method,
            true,
        ).write(width, height, x, y, color).flush_sends(width).len() == 1,
{
    let settled = v.flushed(method, true);
    assert(settled.pixels == v.pixels);
    lemma_idle_writes_change_nothing(settled, width, height, writes);
}

/// The dirty rectangle covers every change: after any writes, a place whose
/// pixel differs from what it was lies in the dirty rectangle, and so does
/// every place that was in it before. The writes keep the view on its grid
/// and leave the secondary buffer alone.
pub proof fn lemma_dirty_covers_changes(
    v: FrameView,
    width: int,
    height: int,
    writes: Seq<RawPixel>,
    x: int,
    y: int,
)
    requires
        v.wf(width, height),
        on_grid(width, height, x, y),
    ensures
        v.draw(width, height, writes).wf(width, height),
        v.draw(width, height, writes).partial_allocated == v.partial_allocated,
        (v.dirty matches Some(before) && before.contains(x, y)) ==> (v.draw(
            width,
            height,
            writes,
        ).dirty matches Some(after) && after.contains(x, y)),
        v.draw(width, height, writes).pixels[pixel_index(width, x, y)] != v.pixels[pixel_index(
            width,
            x,
            y,
        )] ==> (v.draw(width, height, writes).dirty matches Some(after) && after.contains(x, y)),
    decreases writes.len(),
{
    if writes.len() > 0 {
        let earlier = v.draw(width, height, writes.drop_last());
        let p = writes.last();
        lemma_dirty_covers_changes(v, width, height, writes.drop_last(), x, y);
        lemma_write_wf(earlier, width, height, p.x as int, p.y as int, p.color);
        if earlier.changed_by(width, height, p.x as int, p.y as int, p.color) {
            lemma_pixel_index_bounds(width, height, p.x as int, p.y as int);
            lemma_pixel_index_bounds(width, height, x, y);
            if pixel_index(width, p.x as int, p.y as int) == pixel_index(width, x, y) {
                lemma_pixel_index_injective(width, height, p.x as int, p.y as int, x, y);
            }
        }
    }
}

/// Allocates the store of a `W` by `H` grid, every pixel zero.
fn allocate_box<const W: u16, const H: u16>() -> (store: Vec<u16>)
    ensures
        store@ == Seq::new((W * H) as nat, |i: int| 0u16),
{
    assert(W * H <= 65535 * 65535) by (nonlinear_arith)
        requires
            0 <= W <= 65535,
            0 <= H <= 65535,
    ;
    let n: usize = (W as usize) * (H as usize);
    let store = vec![0u16; n];
    assert(store@ =~= Seq::new((W * H) as nat, |i: int| 0u16));
    store
}

/// A `WIDTH` by `HEIGHT` grid of 16-bit pixels with dirty-rectangle tracking.
pub struct Framebuffer<const WIDTH: u16, const HEIGHT: u16> {
    current: Vec<u16>,
    partial: Option<Vec<u16>>,
    dirty_area: DirtyArea,
}

impl<const WIDTH: u16, const HEIGHT: u16> View for Framebuffer<WIDTH, HEIGHT> {
    type V = FrameView;

    closed spec fn view(&self) -> FrameView {
        FrameView {
            pixels: self.current@,
            dirty: self.dirty_area@,
            partial_allocated: self.partial is Some,
        }
    }
}

impl<const WIDTH: u16, const HEIGHT: u16> Framebuffer<WIDTH, HEIGHT> {
    /// The buffers have the size of the grid and the dirty rectangle lies
    /// on it. Every framebuffer made and changed through this interface is
    /// well formed.
    pub closed spec fn wf(&self) -> bool {
        &&& self.current@.len() == WIDTH * HEIGHT
        &&& self.partial matches Some(p) ==> p@.len() == WIDTH * HEIGHT
        &&& self.dirty_area@ matches Some(r) ==> r.within(WIDTH as int, HEIGHT as int)
    }

    /// A well-formed framebuffer has a well-formed view.
    pub proof fn lemma_wf_view(&self)
        requires
            self.wf(),
        ensures
            self@.wf(WIDTH as int, HEIGHT as int),
    {
    }

    /// A framebuffer of zero pixels with nothing to flush.
    pub fn new() -> (fb: Self)
        ensures
            fb@.pixels == Seq::new((WIDTH * HEIGHT) as nat, |i: int| 0u16),
            fb@.dirty is None,
            !fb@.partial_allocated,
            fb.wf(),
    {
        Self { current: allocate_box::<WIDTH, HEIGHT>(), partial: None, dirty_area: DirtyArea::new() }
    }

    fn index(x: u16, y: u16) -> (idx: usize)
        ensures
            idx == pixel_index(WIDTH as int, x as int, y as int),
    {
        assert(y * WIDTH <= 65535 * 65535) by (nonlinear_arith)
            requires
                0 <= y <= 65535,
                0 <= WIDTH <= 65535,
        ;
        (y as usize) * (WIDTH as usize) + (x as usize)
    }

    fn mark_dirty(&mut self, x: u16, y: u16)
        requires
            old(self).wf(),
            x < WIDTH,
            y < HEIGHT,
        ensures
            final(self).wf(),
            final(self)@ == (FrameView {
                dirty: Some(cover(old(self)@.dirty, x as int, y as int)),
                ..old(self)@
            }),
    {
        self.dirty_area.mark_dirty(x, y)
    }

    /// Stores `color` at `(x, y)`. A pixel off the grid is ignored, and one
    /// that already has that colour leaves the dirty rectangle as it is.
    pub fn write(&mut self, x: i32, y: i32, color: u16)
        requires
            old(self).wf(),
        ensures
            final(self).wf(),
            final(self)@ == old(self)@.write(
                WIDTH as int,
                HEIGHT as int,
                x as int,
                y as int,
                color,
            ),
    {
        if x < 0 || y < 0 || x >= WIDTH as i32 || y >= HEIGHT as i32 {
            return ;
        }
        proof {
            lemma_pixel_index_bounds(WIDTH as int, HEIGHT as int, x as int, y as int);
        }
        let idx = Self::index(x as u16, y as u16);
        if self.current[idx] != color {
            self.current.set(idx, color);
            self.mark_dirty(x as u16, y as u16);
        }
    }

    /// Stores the given pixels, first to last.
    pub fn draw_iter(&mut self, pixels: &[RawPixel])
        requires
            old(self).wf(),
        ensures
            final(self).wf(),
            final(self)@ == old(self)@.draw(WIDTH as int, HEIGHT as int, pixels@),
    {
        let mut i: usize = 0;
        while i < pixels.len()
            invariant
                i <= pixels.len(),
                self@ == old(self)@.draw(WIDTH as int, HEIGHT as int, pixels@.take(i as int)),
                self.wf(),
            decreases pixels.len() - i,
        {
            let p = pixels[i];
            assert(pixels@.take(i + 1).drop_last() =~= pixels@.take(i as int));
            self.write(p.x, p.y, p.color);
            i += 1;
        }
        assert(pixels@.take(i as int) =~= pixels@);
    }

    /// The method a plain flush would use now.
    pub fn draw_method(&self) -> (method: DrawMethod)
        requires
            self.wf(),
        ensures
            method == default_method(self@.dirty, WIDTH as int),
    {
        if self.dirty_area.width() == WIDTH {
            DrawMethod::Contiguous
        } else {
            DrawMethod::UseExtraBuffer
        }
    }

    /// Ends a flush whose transfers had the given outcome: a success leaves
    /// nothing to flush, a failure leaves the dirty rectangle as it was. The
    /// outcome is handed back.
    pub fn finish_flush(&mut self, outcome: Result<(), DisplayError>) -> (r: Result<
        (),
        DisplayError,
    >)
        requires
            old(self).wf(),
        ensures
            final(self).wf(),
            r == outcome,
            final(self)@ == if outcome is Ok {
                (FrameView { dirty: None, ..old(self)@ })
            } else {
                old(self)@
            },
    {
        if outcome.is_ok() {
            self.dirty_area.clear();
        }
        outcome
    }

    /// Sends what changed since the last successful flush to `display`:
    /// nothing where nothing changed, else the dirty rectangle in one
    /// transfer. Whole rows go straight out of the store; any other
    /// rectangle is first copied into the secondary buffer, which is
    /// allocated when it is first needed and kept. The display's error ends
    /// the flush and keeps the dirty rectangle for the next one.
    pub fn flush<D: DrawRawSlice>(&mut self, display: &mut D) -> (r: Result<(), DisplayError>)
        requires
            old(self).wf(),
        ensures
            final(self).wf(),
            final(self)@ == old(self)@.flushed(
                default_method(old(self)@.dirty, WIDTH as int),
                r is Ok,
            ),
            final(display).drawn() == old(display).drawn() + old(self)@.flush_sends(WIDTH as int),
            old(self)@.dirty is None ==> r is Ok,
    {
        let method = self.draw_method();
        let ghost before = display.drawn();
        let r = self.flush_with(display, method);
        proof {
            match old(self)@.dirty {
                Some(region) => {
                    let plan = planned(method, old(self)@.pixels, WIDTH as int, region);
                    if method is Contiguous {
                        lemma_full_width_is_full_rows(region, WIDTH as int, HEIGHT as int);
                    }
                    assert(plan =~= seq![slice_of(old(self)@.pixels, WIDTH as int, region)]);
                    assert(plan.take(1) =~= plan);
                },
                None => {
                    assert(before + Seq::<SliceDraw>::empty() =~= before);
                },
            }
        }
        r
    }

    /// Sends what changed since the last successful flush to `display` by
    /// the given method. With nothing dirty, nothing is sent. A transfer
    /// that the display fails ends the flush at once and keeps the dirty
    /// rectangle for the next one.
    pub fn flush_with<D: DrawRawSlice>(&mut self, display: &mut D, method: DrawMethod) -> (r:
        Result<(), DisplayError>)
        requires
            old(self).wf(),
        ensures
            final(self).wf(),
            final(self)@ == old(self)@.flushed(method, r is Ok),
            match old(self)@.dirty {
                None => r is Ok && final(display).drawn() == old(display).drawn(),
                Some(region) => exists|n: int|
                    {
                        &&& 1 <= n <= planned(
                            method,
                            old(self)@.pixels,
                            WIDTH as int,
                            region,
                        ).len()
                        &&& r is Ok ==> n == planned(
                            method,
                            old(self)@.pixels,
                            WIDTH as int,
                            region,
                        ).len()
                        &&& final(display).drawn() == old(display).drawn() + #[trigger] planned(
                            method,
                            old(self)@.pixels,
                            WIDTH as int,
                            region,
                        ).take(n)
                    },
            },
    {
        if !self.dirty_area.is_dirty() {
            return Ok(());
        }
        let y0: u16 = self.dirty_area.y0();
        let h: u16 = self.dirty_area.height();
        let x0: u16 = match method {
            DrawMethod::Contiguous => 0,
            DrawMethod::LineSlices | DrawMethod::UseExtraBuffer => self.dirty_area.x0(),
        };
        let w: u16 = match method {
            DrawMethod::Contiguous => WIDTH,
            DrawMethod::LineSlices | DrawMethod::UseExtraBuffer => self.dirty_area.width(),
        };

        assert(x0 < WIDTH);
        assert(y0 < HEIGHT);
        assert(w > 0 && w <= WIDTH);
        assert(h > 0 && h <= HEIGHT);

        let ghost region = self@.dirty->0;
        let ghost plan = planned(method, self@.pixels, WIDTH as int, region);
        let ghost before = display.drawn();
        let outcome = match method {
            DrawMethod::Contiguous => self.send_rows(display, y0, h),
            DrawMethod::LineSlices => self.send_lines(display, x0, y0, w, h),
            DrawMethod::UseExtraBuffer => self.send_copy(display, x0, y0, w, h),
        };
        proof {
            if !(method is LineSlices) {
                assert(plan.len() == 1);
                assert(plan.take(1) =~= plan);
                assert(display.drawn() == before + plan.take(1));
            }
            assert(exists|n: int|
                1 <= n <= plan.len() && (outcome is Ok ==> n == plan.len()) && display.drawn()
                    == before + #[trigger] plan.take(n));
        }
        self.finish_flush(outcome)
    }

    /// The store from the pixel `(xa, ya)` up to and including the pixel
    /// `(xb, yb)`.
    fn span(&self, xa: u16, ya: u16, xb: u16, yb: u16) -> (slice: &[u16])
        requires
            self.wf(),
            on_grid(WIDTH as int, HEIGHT as int, xa as int, ya as int),
            on_grid(WIDTH as int, HEIGHT as int, xb as int, yb as int),
            pixel_index(WIDTH as int, xa as int, ya as int) <= pixel_index(
                WIDTH as int,
                xb as int,
                yb as int,
            ),
        ensures
            slice@ == self@.pixels.subrange(
                pixel_index(WIDTH as int, xa as int, ya as int),
                pixel_index(WIDTH as int, xb as int, yb as int) + 1,
            ),
    {
        proof {
            lemma_store_fits(WIDTH, HEIGHT);
            lemma_pixel_index_bounds(WIDTH as int, HEIGHT as int, xa as int, ya as int);
            lemma_pixel_index_bounds(WIDTH as int, HEIGHT as int, xb as int, yb as int);
        }
        let start = Self::index(xa, ya);
        let end = Self::index(xb, yb);
        vstd::slice::slice_subrange(self.current.as_slice(), start, end + 1)
    }

    /// Sends the rows `y0 .. y0 + h` at full width in one transfer.
    fn send_rows<D: DrawRawSlice>(&self, display: &mut D, y0: u16, h: u16) -> (outcome: Result<
        (),
        DisplayError,
    >)
        requires
            self.wf(),
            self@.dirty matches Some(region) && y0 == region.ymin && h == region.height(),
        ensures
            final(display).drawn() == old(display).drawn() + planned(
                DrawMethod::Contiguous,
                self@.pixels,
                WIDTH as int,
                self@.dirty->0,
            ),
    {
        let ghost region = self@.dirty->0;
        let ghost plan = planned(DrawMethod::Contiguous, self@.pixels, WIDTH as int, region);
        let ghost before = display.drawn();
        let x1: u16 = WIDTH - 1;
        let y1: u16 = y0 + h - 1;
        proof {
            lemma_rows_are_one_run(
                self@.pixels,
                WIDTH as int,
                HEIGHT as int,
                y0 as int,
                h as int,
            );
            lemma_corner_area(0, y0 as int, x1 as int, y1 as int, WIDTH as int, h as int);
        }
        let slice = self.span(0, y0, x1, y1);
        let outcome = display.draw_raw_slice(0, y0, x1, y1, slice);
        proof {
            assert(slice@ == region_pixels(self@.pixels, WIDTH as int, full_rows(region, WIDTH as int)));
            assert(before.push(plan[0]) =~= before + plan);
        }
        outcome
    }

    /// Sends the block of `w` columns and `h` rows at `(x0, y0)` row by
    /// row, each row in a transfer of its own, up to the first one that the
    /// display fails.
    fn send_lines<D: DrawRawSlice>(
        &self,
        display: &mut D,
        x0: u16,
        y0: u16,
        w: u16,
        h: u16,
    ) -> (outcome: Result<(), DisplayError>)
        requires
            self.wf(),
            self@.dirty matches Some(region) && x0 == region.xmin && y0 == region.ymin && w
                == region.width() && h == region.height(),
        ensures
            exists|n: int|
                {
                    &&& 1 <= n <= h
                    &&& outcome is Ok ==> n == h
                    &&& final(display).drawn() == old(display).drawn() + #[trigger] planned(
                        DrawMethod::LineSlices,
                        self@.pixels,
                        WIDTH as int,
                        self@.dirty->0,
                    ).take(n)
                },
    {
        let ghost region = self@.dirty->0;
        let ghost plan = planned(DrawMethod::LineSlices, self@.pixels, WIDTH as int, region);
        let ghost before = display.drawn();
        let x1: u16 = x0 + w - 1;
        let mut outcome: Result<(), DisplayError> = Ok(());
        let mut i: u16 = 0;
        proof {
            assert(before + plan.take(0) =~= before);
        }
        while i < h && outcome.is_ok()
            invariant
                self.wf(),
                self@.dirty == Some(region),
                region.within(WIDTH as int, HEIGHT as int),
                plan == planned(DrawMethod::LineSlices, self@.pixels, WIDTH as int, region),
                x0 == region.xmin,
                y0 == region.ymin,
                w == region.width(),
                h == region.height(),
                x1 == x0 + w - 1,
                i <= h,
                display.drawn() == before + plan.take(i as int),
                outcome is Err ==> i >= 1,
            decreases (h - i) + (if outcome is Ok { 1int } else { 0int }),
        {
            let y: u16 = y0 + i;
            proof {
                lemma_row_is_one_run(
                    self@.pixels,
                    WIDTH as int,
                    HEIGHT as int,
                    x0 as int,
                    y as int,
                    w as int,
                );
                lemma_corner_area(x0 as int, y as int, x1 as int, y as int, w as int, 1);
                assert(w * 1 == w);
            }
            let slice = self.span(x0, y, x1, y);
            outcome = display.draw_raw_slice(x0, y, x1, y, slice);
            proof {
                assert(slice@ == region_pixels(self@.pixels, WIDTH as int, row_of(region, i as int)));
                assert(plan.take(i + 1) =~= plan.take(i as int).push(plan[i as int]));
                assert(before + plan.take(i + 1) =~= (before + plan.take(i as int)).push(
                    plan[i as int],
                ));
            }
            i += 1;
        }
        outcome
    }

    /// Copies the block of `w` columns and `h` rows at `(x0, y0)` row after
    /// row to the front of `target`.
    fn copy_block(&self, target: &mut Vec<u16>, x0: u16, y0: u16, w: u16, h: u16)
        requires
            self.wf(),
            old(target)@.len() == WIDTH * HEIGHT,
            0 < w,
            0 < h,
            x0 + w <= WIDTH,
            y0 + h <= HEIGHT,
        ensures
            final(target)@.len() == old(target)@.len(),
            0 <= w * h <= WIDTH * HEIGHT,
            final(target)@.subrange(0, w * h) == block_pixels(
                self@.pixels,
                WIDTH as int,
                x0 as int,
                y0 as int,
                w as int,
                h as int,
            ),
    {
        let ghost block = block_pixels(
            self@.pixels,
            WIDTH as int,
            x0 as int,
            y0 as int,
            w as int,
            h as int,
        );
        let ghost area = w * h;
        proof {
            lemma_store_fits(WIDTH, HEIGHT);
            lemma_block_fits(w as int, h as int, WIDTH as int, HEIGHT as int);
            assert(0 * w == 0);
        }
        let mut dest: usize = 0;
        let mut i: u16 = 0;
        while i < h
            invariant
                self.wf(),
                target@.len() == WIDTH * HEIGHT,
                WIDTH * HEIGHT <= 0xFFFE_0001,
                0xFFFE_0001 < usize::MAX,
                0 < w,
                0 < h,
                x0 + w <= WIDTH,
                y0 + h <= HEIGHT,
                area == w * h,
                0 <= area <= WIDTH * HEIGHT,
                block == block_pixels(
                    self@.pixels,
                    WIDTH as int,
                    x0 as int,
                    y0 as int,
                    w as int,
                    h as int,
                ),
                block.len() == area,
                i <= h,
                dest == i * w,
                dest <= area,
                forall|k: int| 0 <= k < dest ==> target@[k] == block[k],
            decreases h - i,
        {
            let y: u16 = y0 + i;
            let start = Self::index(x0, y);
            proof {
                lemma_block_cell(w as int, h as int, i as int, 0);
            }
            let mut j: u16 = 0;
            while j < w
                invariant
                    self.wf(),
                    target@.len() == WIDTH * HEIGHT,
                    WIDTH * HEIGHT <= 0xFFFE_0001,
                    0xFFFE_0001 < usize::MAX,
                    0 < w,
                    0 < h,
                    x0 + w <= WIDTH,
                    y0 + h <= HEIGHT,
                    area == w * h,
                    0 <= area <= WIDTH * HEIGHT,
                    block == block_pixels(
                        self@.pixels,
                        WIDTH as int,
                        x0 as int,
                        y0 as int,
                        w as int,
                        h as int,
                    ),
                    block.len() == area,
                    i < h,
                    y == y0 + i,
                    start == pixel_index(WIDTH as int, x0 as int, y as int),
                    j <= w,
                    dest == i * w,
                    dest + w <= area,
                    forall|k: int| 0 <= k < dest + j ==> target@[k] == block[k],
                decreases w - j,
            {
                proof {
                    lemma_block_cell(w as int, h as int, i as int, j as int);
                    lemma_pixel_index_bounds(WIDTH as int, HEIGHT as int, x0 + j, y as int);
                    assert(block[dest + j] == self@.pixels[pixel_index(
                        WIDTH as int,
                        x0 + j,
                        y as int,
                    )]);
                }
                let value = self.current[start + j as usize];
                target.set(dest + j as usize, value);
                j += 1;
            }
            dest += w as usize;
            i += 1;
        }
        proof {
            assert(dest == area) by {
                assert(dest == h * w);
                assert(h * w == w * h) by (nonlinear_arith);
            }
            assert(target@.subrange(0, area) =~= block);
        }
    }

    /// Sends the block of `w` columns and `h` rows at `(x0, y0)` in one
    /// transfer out of the secondary buffer, which is allocated here where
    /// there is none yet.
    fn send_copy<D: DrawRawSlice>(
        &mut self,
        display: &mut D,
        x0: u16,
        y0: u16,
        w: u16,
        h: u16,
    ) -> (outcome: Result<(), DisplayError>)
        requires
            old(self).wf(),
            old(self)@.dirty matches Some(region) && x0 == region.xmin && y0 == region.ymin && w
                == region.width() && h == region.height(),
        ensures
            final(self).wf(),
            final(self)@ == (FrameView { partial_allocated: true, ..old(self)@ }),
            final(display).drawn() == old(display).drawn() + planned(
                DrawMethod::UseExtraBuffer,
                old(self)@.pixels,
                WIDTH as int,
                old(self)@.dirty->0,
            ),
    {
        let ghost region = self@.dirty->0;
        let ghost plan = planned(DrawMethod::UseExtraBuffer, self@.pixels, WIDTH as int, region);
        let ghost before = display.drawn();
        let mut partial = match self.partial.take() {
            Some(buffer) => buffer,
            None => allocate_box::<WIDTH, HEIGHT>(),
        };
        self.copy_block(&mut partial, x0, y0, w, h);
        let x1: u16 = x0 + w - 1;
        let y1: u16 = y0 + h - 1;
        proof {
            lemma_store_fits(WIDTH, HEIGHT);
            lemma_corner_area(x0 as int, y0 as int, x1 as int, y1 as int, w as int, h as int);
            assert((w as usize) * (h as usize) == w * h);
        }
        let slice = vstd::slice::slice_subrange(
            partial.as_slice(),
            0,
            (w as usize) * (h as usize),
        );
        let outcome = display.draw_raw_slice(x0, y0, x1, y1, slice);
        self.partial = Some(partial);
        proof {
            assert(slice@ == region_pixels(self@.pixels, WIDTH as int, region));
            assert(before.push(plan[0]) =~= before + plan);
        }
        outcome
    }

    /// The grid's width and height in pixels.
    pub fn size(&self) -> (dims: (u32, u32))
        ensures
            dims == (WIDTH as u32, HEIGHT as u32),
    {
        (WIDTH as u32, HEIGHT as u32)
    }
}

} // verus!
