//! Off-screen monochrome raster in the panel's native pixel format:
//! row-major, most-significant bit first, one bit per pixel, where a set bit
//! is background (no ink) and a cleared bit is foreground (ink).

use vstd::prelude::*;

verus! {

use vstd::arithmetic::div_mod::lemma_fundamental_div_mod;

/// Drawable state of one pixel. The panel's convention is inverted:
/// a foreground (ink) pixel is a 0 bit, a background pixel is a 1 bit.
#[derive(Debug, Clone, Copy, PartialEq, Eq, Structural)]
pub enum Color {
    Foreground,
    Background,
}

/// Byte value that fills a whole buffer cleared to `c`.
pub open spec fn fill_byte(c: Color) -> u8 {
    match c {
        Color::Foreground => 0x00,
        Color::Background => 0xFF,
    }
}

/// Number of bytes that hold one row of `width` pixels: ceil(width / 8).
pub open spec fn bytes_per_row_of(width: int) -> int {
    (width + 7) / 8
}

/// Mathematical model of a packed monochrome raster.
#[verifier::ext_equal]
pub struct ImageView {
    pub width: nat,
    pub height: nat,
    pub data: Seq<u8>,
}

impl ImageView {
    /// The backing store holds exactly ceil(width/8) bytes per row.
    pub open spec fn wf(self) -> bool {
        self.data.len() == bytes_per_row_of(self.width as int) * self.height
    }

    pub open spec fn in_bounds(self, x: int, y: int) -> bool {
        0 <= x < self.width && 0 <= y < self.height
    }

    /// Index of the byte that holds pixel (x, y): row-major layout.
    pub open spec fn byte_index(self, x: int, y: int) -> int {
        y * bytes_per_row_of(self.width as int) + x / 8
    }
}

/// Single-bit mask of pixel x within its byte: most significant bit first.
pub open spec fn pixel_mask(x: int) -> u8 {
    0x80u8 >> ((x % 8) as u8)
}

/// The color stored at an in-bounds pixel (x, y).
pub open spec fn pixel_at(v: ImageView, x: int, y: int) -> Color {
    if v.data[v.byte_index(x, y)] & pixel_mask(x) == 0 {
        Color::Foreground
    } else {
        Color::Background
    }
}

/// Model of a single pixel write: mutates one bit when (x, y) is in bounds,
/// returns the raster unchanged otherwise.
pub open spec fn set_pixel_spec(v: ImageView, x: int, y: int, color: Color) -> ImageView {
    if v.in_bounds(x, y) {
        let i = v.byte_index(x, y);
        let b = v.data[i];
        let nb = match color {
            Color::Foreground => b & !pixel_mask(x),
            Color::Background => b | pixel_mask(x),
        };
        ImageView { data: v.data.update(i, nb), ..v }
    } else {
        v
    }
}

/// Model of a batch of pixel writes applied in sequence order. Entries with
/// a negative or otherwise out-of-bounds coordinate change nothing.
pub open spec fn draw_all(v: ImageView, ps: Seq<(i32, i32, Color)>) -> ImageView
    decreases ps.len(),
{
    if ps.len() == 0 {
        v
    } else {
        draw_all(set_pixel_spec(v, ps[0].0 as int, ps[0].1 as int, ps[0].2), ps.drop_first())
    }
}

/// The byte holding an in-bounds pixel lies inside the backing store, and
/// its column byte lies inside the row.
pub proof fn lemma_byte_index_bound(v: ImageView, x: int, y: int)
    requires
        v.wf(),
        v.in_bounds(x, y),
    ensures
        0 <= v.byte_index(x, y) < v.data.len(),
        x / 8 < bytes_per_row_of(v.width as int),
{
    let w = v.width as int;
    let h = v.height as int;
    let bpr = bytes_per_row_of(w);
    assert(8 * bpr >= w) by {
        lemma_fundamental_div_mod(w + 7, 8);
    }
    assert(x / 8 < bpr) by {
        lemma_fundamental_div_mod(x, 8);
    }
    assert(1 <= bpr) by {
        lemma_fundamental_div_mod(w + 7, 8);
    }
    assert(0 <= y * bpr + x / 8 < bpr * h) by (nonlinear_arith)
        requires
            0 <= y,
            y <= h - 1,
            0 <= x / 8,
            x / 8 < bpr,
            1 <= bpr,
    ;
}

/// Appending one entry to a batch draws it after the rest.
proof fn lemma_draw_all_push(v: ImageView, ps: Seq<(i32, i32, Color)>, p: (i32, i32, Color))
    ensures
        draw_all(v, ps.push(p)) == set_pixel_spec(
            draw_all(v, ps),
            p.0 as int,
            p.1 as int,
            p.2,
        ),
    decreases ps.len(),
{
    if ps.len() == 0 {
        let v1 = set_pixel_spec(v, p.0 as int, p.1 as int, p.2);
        assert(ps.push(p)[0] == p);
        assert(ps.push(p).drop_first() =~= Seq::<(i32, i32, Color)>::empty());
        assert(draw_all(v, ps) == v);
        assert(draw_all(v1, ps.push(p).drop_first()) == v1);
        assert(draw_all(v, ps.push(p)) == v1);
    } else {
        let v1 = set_pixel_spec(v, ps[0].0 as int, ps[0].1 as int, ps[0].2);
        assert(ps.push(p)[0] == ps[0]);
        assert(ps.push(p).drop_first() =~= ps.drop_first().push(p));
        assert(draw_all(v, ps.push(p)) == draw_all(v1, ps.drop_first().push(p)));
        lemma_draw_all_push(v1, ps.drop_first(), p);
        assert(draw_all(v, ps) == draw_all(v1, ps.drop_first()));
    }
}

/// A pixel write outside the raster — negative coordinates included —
/// leaves it bitwise unchanged.
pub proof fn lemma_set_pixel_out_of_bounds(v: ImageView, x: int, y: int, color: Color)
    requires
        !v.in_bounds(x, y),
    ensures
        set_pixel_spec(v, x, y, color) == v,
{
}

/// Writing one pixel twice with the same color equals writing it once.
pub proof fn lemma_set_pixel_idempotent(v: ImageView, x: int, y: int, color: Color)
    requires
        v.wf(),
    ensures
        set_pixel_spec(set_pixel_spec(v, x, y, color), x, y, color) == set_pixel_spec(
            v,
            x,
            y,
            color,
        ),
{
    if v.in_bounds(x, y) {
        lemma_byte_index_bound(v, x, y);
        let i = v.byte_index(x, y);
        let k = (x % 8) as u8;
        let b = v.data[i];
        let v1 = set_pixel_spec(v, x, y, color);
        assert(((b & !(0x80u8 >> k)) & !(0x80u8 >> k)) == (b & !(0x80u8 >> k))) by (bit_vector);
        assert(((b | (0x80u8 >> k)) | (0x80u8 >> k)) == (b | (0x80u8 >> k))) by (bit_vector);
        assert(v1.data[i] == v1.data.update(i, v1.data[i])[i]);
        assert(v1.data.update(i, v1.data[i]) =~= v1.data);
        assert(set_pixel_spec(v1, x, y, color) =~= v1);
    }
}

/// A foreground write then a background write at one in-bounds pixel
/// restores a raster whose pixel was background.
pub proof fn lemma_set_pixel_restore(v: ImageView, x: int, y: int)
    requires
        v.wf(),
        v.in_bounds(x, y),
        pixel_at(v, x, y) == Color::Background,
    ensures
        set_pixel_spec(
            set_pixel_spec(v, x, y, Color::Foreground),
            x,
            y,
            Color::Background,
        ) == v,
{
    lemma_byte_index_bound(v, x, y);
    let i = v.byte_index(x, y);
    let k = (x % 8) as u8;
    let b = v.data[i];
    let v1 = set_pixel_spec(v, x, y, Color::Foreground);
    assert((b & (0x80u8 >> k)) != 0 ==> ((b & !(0x80u8 >> k)) | (0x80u8 >> k)) == b) by (bit_vector)
        requires
            k < 8,
    ;
    assert(v1.data.update(i, b) =~= v.data);
    assert(set_pixel_spec(v1, x, y, Color::Background) =~= v);
}

/// What one pixel write leaves at each in-bounds pixel: the written color
/// at (x, y) when that write was in bounds, every other pixel unchanged.
pub proof fn lemma_set_pixel_readback(v: ImageView, x: int, y: int, color: Color, qx: int, qy: int)
    requires
        v.wf(),
        v.in_bounds(qx, qy),
    ensures
        pixel_at(set_pixel_spec(v, x, y, color), qx, qy) == (if v.in_bounds(x, y) && x == qx && y
            == qy {
            color
        } else {
            pixel_at(v, qx, qy)
        }),
{
    if v.in_bounds(x, y) {
        lemma_byte_index_bound(v, x, y);
        lemma_byte_index_bound(v, qx, qy);
        let bpr = bytes_per_row_of(v.width as int);
        let i = v.byte_index(x, y);
        let q = v.byte_index(qx, qy);
        let k = (x % 8) as u8;
        let kq = (qx % 8) as u8;
        let b = v.data[i];
        let v1 = set_pixel_spec(v, x, y, color);
        if x == qx && y == qy {
            assert(((b & !(0x80u8 >> k)) & (0x80u8 >> k)) == 0) by (bit_vector);
            assert(((b | (0x80u8 >> k)) & (0x80u8 >> k)) != 0) by (bit_vector)
                requires
                    k < 8,
            ;
        } else if q == i {
            // Same byte, different pixel: the rows must agree, else the
            // byte indices would differ by at least one whole row.
            assert(y == qy) by {
                if y != qy {
                    assert(false) by (nonlinear_arith)
                        requires
                            y != qy,
                            y * bpr + x / 8 == qy * bpr + qx / 8,
                            0 <= x / 8 < bpr,
                            0 <= qx / 8 < bpr,
                    ;
                }
            }
            assert(x / 8 == qx / 8);
            assert(x % 8 != qx % 8) by {
                lemma_fundamental_div_mod(x, 8);
                lemma_fundamental_div_mod(qx, 8);
            }
            assert(k != kq);
            assert(k < 8 && kq < 8 && k != kq ==> ((b & !(0x80u8 >> k)) & (0x80u8 >> kq)) == (b & (
            0x80u8 >> kq))) by (bit_vector);
            assert(k < 8 && kq < 8 && k != kq ==> ((b | (0x80u8 >> k)) & (0x80u8 >> kq)) == (b & (
            0x80u8 >> kq))) by (bit_vector);
        } else {
            assert(v1.data[q] == v.data[q]);
        }
    }
}

/// Packed 1-bit framebuffer laid out in the format the panel expects.
pub struct MonoImage {
    width: u32,
    height: u32,
    bytes_per_row: usize,
    data: Vec<u8>,
}

impl View for MonoImage {
    type V = ImageView;

    closed spec fn view(&self) -> ImageView {
        ImageView { width: self.width as nat, height: self.height as nat, data: self.data@ }
    }
}

/// Build a vector of `len` copies of `fill`.
pub(crate) fn filled_vec(len: usize, fill: u8) -> (v: Vec<u8>)
    ensures
        v@ == Seq::new(len as nat, |i: int| fill),
{
    let mut v: Vec<u8> = Vec::new();
    let mut i: usize = 0;
    while i < len
        invariant
            i <= len,
            v@ == Seq::new(i as nat, |j: int| fill),
        decreases len - i,
    {
        v.push(fill);
        i = i + 1;
        proof {
            assert(v@ =~= Seq::new(i as nat, |j: int| fill));
        }
    }
    v
}

impl MonoImage {
    /// The stored row stride matches the stated geometry and the backing
    /// store has exactly one bit per pixel.
    pub closed spec fn wf(&self) -> bool {
        self.bytes_per_row == bytes_per_row_of(self.width as int)
        && self.data@.len() == self.bytes_per_row * self.height
    }

    /// Fresh buffer of the given dimensions, cleared to background.
    /// Zero width or height yields a zero-length backing store.
    pub fn new(width: u32, height: u32) -> (img: Self)
        requires
            bytes_per_row_of(width as int) * (height as int) <= usize::MAX as int,
        ensures
            img.wf(),
            img@.wf(),
            img@.width == width as nat,
            img@.height == height as nat,
            img@.data == Seq::new(
                (bytes_per_row_of(width as int) * (height as int)) as nat,
                |i: int| fill_byte(Color::Background),
            ),
    {
        let wide: u64 = (width as u64) + 7;
        let bytes_per_row: usize = (wide / 8) as usize;
        let len: usize = bytes_per_row * (height as usize);
        let data = filled_vec(len, 0xFF);
        Self { width, height, bytes_per_row, data }
    }

    pub fn width(&self) -> (w: u32)
        ensures
            w as nat == self@.width,
    {
        self.width
    }

    pub fn height(&self) -> (h: u32)
        ensures
            h as nat == self@.height,
    {
        self.height
    }

    /// Overwrite the whole backing store with the fill byte of `color`:
    /// 0xFF for background, 0x00 for foreground.
    pub fn clear(&mut self, color: Color)
        requires
            old(self).wf(),
        ensures
            final(self).wf(),
            final(self)@.width == old(self)@.width,
            final(self)@.height == old(self)@.height,
            final(self)@.data == Seq::new(old(self)@.data.len(), |i: int| fill_byte(color)),
    {
        let fill: u8 = match color {
            Color::Foreground => 0x00,
            Color::Background => 0xFF,
        };
        let len = self.data.len();
        self.data = filled_vec(len, fill);
    }

    /// Mutate one bit when (x, y) is in bounds; no-op otherwise. A
    /// foreground write clears the bit, a background write sets it.
    pub fn set_pixel(&mut self, x: u32, y: u32, color: Color)
        requires
            old(self).wf(),
        ensures
            final(self).wf(),
            final(self)@ == set_pixel_spec(old(self)@, x as int, y as int, color),
    {
        if x >= self.width || y >= self.height {
            return ;
        }
        let n: usize = self.data.len();
        proof {
            lemma_byte_index_bound(self@, x as int, y as int);
            assert((y as int) * (self.bytes_per_row as int) + (x as int) / 8 < n as int);
        }
        let idx: usize = (y as usize) * self.bytes_per_row + (x as usize) / 8;
        let k: u8 = (x % 8) as u8;
        let mask: u8 = 0x80u8 >> k;
        let b: u8 = self.data[idx];
        let nb: u8 = match color {
            Color::Foreground => b & !mask,
            Color::Background => b | mask,
        };
        self.data.set(idx, nb);
        proof {
            assert(self@ =~= set_pixel_spec(old(self)@, x as int, y as int, color));
        }
    }

    /// Apply one pixel write per entry, in sequence order; entries with a
    /// negative coordinate are skipped, matching the permissive
    /// drawing-surface contract.
    #[verifier::loop_isolation(false)]
    pub fn draw_iter(&mut self, pixels: &Vec<(i32, i32, Color)>)
        requires
            old(self).wf(),
        ensures
            final(self).wf(),
            final(self)@ == draw_all(old(self)@, pixels@),
    {
        let mut i: usize = 0;
        while i < pixels.len()
            invariant
                i <= pixels@.len(),
                self.wf(),
                self@ == draw_all(old(self)@, pixels@.subrange(0, i as int)),
            decreases pixels@.len() - i,
        {
            let p = pixels[i];
            if p.0 >= 0 && p.1 >= 0 {
                self.set_pixel(p.0 as u32, p.1 as u32, p.2);
            }
            proof {
                assert(pixels@.subrange(0, (i + 1) as int) =~= pixels@.subrange(
                    0,
                    i as int,
                ).push(pixels@[i as int]));
                lemma_draw_all_push(old(self)@, pixels@.subrange(0, i as int), pixels@[i as int]);
            }
            i = i + 1;
        }
        proof {
            assert(pixels@.subrange(0, pixels@.len() as int) =~= pixels@);
        }
    }

    /// Read-only view of the packed backing store, ready for transmission.
    pub fn data(&self) -> (r: &[u8])
        ensures
            r@ == self@.data,
    {
        self.data.as_slice()
    }
}

} // verus!
