//! Pixel buffers, and turning them upside down.
//!
//! Image files store the top row first. The device reads the first row of a
//! texture as its bottom one, so decoded pictures are flipped before upload.

use vstd::arithmetic::div_mod::{lemma_fundamental_div_mod, lemma_fundamental_div_mod_converse};
use vstd::prelude::*;

verus! {

/// Place, in a buffer of `len` bytes made of rows of `stride` bytes, of the byte
/// that stands at `i` once the rows are in reverse order.
pub open spec fn mirrored(i: int, stride: int, len: int) -> int {
    len - stride * (i / stride + 1) + i % stride
}

/// The rows of `data`, each `stride` bytes long, last row first.
pub open spec fn flip_rows(data: Seq<u8>, stride: int) -> Seq<u8> {
    Seq::new(data.len(), |i: int| data[mirrored(i, stride, data.len() as int)])
}

/// Byte `x` of row `y` goes to byte `x` of row `rows - 1 - y`.
pub proof fn lemma_mirrored_row(x: int, y: int, stride: int, rows: int)
    requires
        0 <= x < stride,
        0 <= y < rows,
    ensures
        mirrored(stride * y + x, stride, stride * rows) == stride * (rows - 1 - y) + x,
        0 <= stride * y + x < stride * rows,
{
    let i = stride * y + x;
    assert(i == y * stride + x) by (nonlinear_arith)
        requires
            i == stride * y + x,
    ;
    lemma_fundamental_div_mod_converse(i, stride, y, x);
    assert(stride * rows - stride * (y + 1) + x == stride * (rows - 1 - y) + x)
        by (nonlinear_arith);
    assert(0 <= stride * y + x < stride * rows) by (nonlinear_arith)
        requires
            0 <= x < stride,
            0 <= y < rows,
    ;
}

/// Mirroring stays inside the buffer, and mirroring twice leads back.
pub proof fn lemma_mirrored_twice(i: int, stride: int, rows: int)
    requires
        0 <= i < stride * rows,
        0 < stride,
    ensures
        0 <= mirrored(i, stride, stride * rows) < stride * rows,
        mirrored(mirrored(i, stride, stride * rows), stride, stride * rows) == i,
{
    let x = i % stride;
    let y = i / stride;
    lemma_fundamental_div_mod(i, stride);
    assert(0 <= y < rows) by (nonlinear_arith)
        requires
            0 <= i < stride * rows,
            0 < stride,
            i == stride * y + x,
            0 <= x < stride,
    ;
    lemma_mirrored_row(x, y, stride, rows);
    lemma_mirrored_row(x, rows - 1 - y, stride, rows);
}

/// Flipping a buffer of whole rows twice gives the buffer back.
pub proof fn lemma_flip_rows_twice(data: Seq<u8>, stride: int, rows: int)
    requires
        0 <= stride,
        data.len() == stride * rows,
    ensures
        flip_rows(flip_rows(data, stride), stride) == data,
{
    let len = data.len() as int;
    let once = flip_rows(data, stride);
    let twice = flip_rows(once, stride);
    assert forall|i: int| 0 <= i < len implies twice[i] == data[i] by {
        assert(stride != 0) by (nonlinear_arith)
            requires
                0 < stride * rows,
        ;
        lemma_mirrored_twice(i, stride, rows);
    }
    assert(twice =~= data);
}

/// The rows of `data` in reverse order.
///
/// `data` holds `rows` rows of `stride` bytes each.
pub fn flip_vertical(data: &[u8], stride: usize, rows: usize) -> (out: Vec<u8>)
    requires
        data@.len() == stride * rows,
    ensures
        out@ == flip_rows(data@, stride as int),
{
    let n: usize = data.len();
    let ghost len = n as int;
    let mut out: Vec<u8> = Vec::new();
    let mut y: usize = rows;
    while y > 0
        invariant
            y <= rows,
            len == data@.len(),
            len == n,
            len == stride * rows,
            out@.len() == stride * (rows - y),
            forall|k: int|
                0 <= k < out@.len() ==> out@[k] == data@[mirrored(k, stride as int, len)],
        decreases y,
    {
        y = y - 1;
        let mut x: usize = 0;
        while x < stride
            invariant
                y < rows,
                x <= stride,
                len == data@.len(),
                len == n,
                len == stride * rows,
                out@.len() == stride * (rows - 1 - y) + x,
                forall|k: int|
                    0 <= k < out@.len() ==> out@[k] == data@[mirrored(k, stride as int, len)],
            decreases stride - x,
        {
            proof {
                let up = rows - 1 - y;
                lemma_mirrored_row(x as int, y as int, stride as int, rows as int);
                lemma_mirrored_row(x as int, up, stride as int, rows as int);
                assert(rows - 1 - up == y);
                assert(y * stride == stride * y) by (nonlinear_arith);
                assert(0 <= stride * y) by (nonlinear_arith);
            }
            let b: u8 = data[y * stride + x];
            out.push(b);
            x = x + 1;
        }
        assert(stride * (rows - 1 - y) + stride == stride * (rows - y)) by (nonlinear_arith);
    }
    assert(stride * (rows - 0) == stride * rows) by (nonlinear_arith);
    assert(out@ =~= flip_rows(data@, stride as int));
    out
}

/// A picture of four bytes per pixel (red, green, blue, alpha), rows from the
/// top down.
#[derive(Debug)]
pub struct RgbaImage {
    width: u32,
    height: u32,
    data: Vec<u8>,
}

impl RgbaImage {
    /// The buffer holds exactly `width * height` pixels.
    #[verifier::type_invariant]
    spec fn inv(self) -> bool {
        self.data@.len() == 4 * self.width * self.height
    }

    /// Pixels per row.
    pub closed spec fn spec_width(&self) -> u32 {
        self.width
    }

    /// Number of rows.
    pub closed spec fn spec_height(&self) -> u32 {
        self.height
    }

    /// The bytes of all pixels, row after row.
    pub closed spec fn pixels(&self) -> Seq<u8> {
        self.data@
    }

    /// A picture of `width` by `height` pixels, if `data` holds exactly that many.
    pub fn new(width: u32, height: u32, data: Vec<u8>) -> (r: Option<Self>)
        ensures
            r is Some <==> data@.len() == 4 * width * height,
            r matches Some(img) ==> img.spec_width() == width && img.spec_height() == height
                && img.pixels() == data@,
    {
        let row: u128 = 4 * (width as u128);
        assert(row * height <= 0x4_0000_0000 * 0x1_0000_0000) by (nonlinear_arith)
            requires
                0 <= row <= 0x4_0000_0000,
                0 <= height <= 0x1_0000_0000,
        ;
        let want: u128 = row * (height as u128);
        if data.len() as u128 == want {
            Some(RgbaImage { width, height, data })
        } else {
            None
        }
    }

    /// A picture of `width` by `height` pixels, of the first bytes of a
    /// buffer known to hold at least that many. Bytes beyond them are dropped.
    pub(crate) fn trimmed(width: u32, height: u32, data: Vec<u8>) -> (img: Self)
        requires
            data@.len() >= 4 * width * height,
        ensures
            img.spec_width() == width,
            img.spec_height() == height,
            img.pixels() == data@.take(4 * width * height),
    {
        let mut data = data;
        let row: u128 = 4 * (width as u128);
        assert(row * height <= 0x4_0000_0000 * 0x1_0000_0000) by (nonlinear_arith)
            requires
                0 <= row <= 0x4_0000_0000,
                0 <= height <= 0x1_0000_0000,
        ;
        let want: u128 = row * (height as u128);
        assert(want <= data@.len() == data.len());
        data.truncate(want as usize);
        RgbaImage { width, height, data }
    }

    /// A picture of `width` by `height` pixels, of the first bytes of `data`,
    /// if `data` holds at least that many.
    pub fn from_prefix(width: u32, height: u32, data: Vec<u8>) -> (r: Option<Self>)
        ensures
            r is Some <==> data@.len() >= 4 * width * height,
            r matches Some(img) ==> img.spec_width() == width && img.spec_height() == height
                && img.pixels() == data@.take(4 * width * height),
    {
        let row: u128 = 4 * (width as u128);
        assert(row * height <= 0x4_0000_0000 * 0x1_0000_0000) by (nonlinear_arith)
            requires
                0 <= row <= 0x4_0000_0000,
                0 <= height <= 0x1_0000_0000,
        ;
        let want: u128 = row * (height as u128);
        if data.len() as u128 >= want {
            Some(Self::trimmed(width, height, data))
        } else {
            None
        }
    }

    /// Pixels per row.
    #[verifier::when_used_as_spec(spec_width)]
    pub fn width(&self) -> (w: u32)
        ensures
            w == self.spec_width(),
    {
        self.width
    }

    /// Number of rows.
    #[verifier::when_used_as_spec(spec_height)]
    pub fn height(&self) -> (h: u32)
        ensures
            h == self.spec_height(),
    {
        self.height
    }

    /// The bytes of all pixels, row after row.
    pub fn data(&self) -> (d: &Vec<u8>)
        ensures
            d@ == self.pixels(),
            d@.len() == 4 * self.width() * self.height(),
    {
        proof {
            use_type_invariant(self);
        }
        &self.data
    }
}

} // verus!
