//! The mathematical model of an image buffer, shared by both representations.

use vstd::prelude::*;
use vstd::arithmetic::div_mod::{lemma_fundamental_div_mod, lemma_fundamental_div_mod_converse};

verus! {

/// What a buffer is, independently of which side of the boundary holds it:
/// its dimensions and its bytes, row-major, `channels` bytes per pixel.
pub struct ImageModel {
    pub rows: nat,
    pub cols: nat,
    pub channels: nat,
    pub data: Seq<u8>,
}

impl ImageModel {
    /// The canonical empty buffer: no rows, no columns, no storage.
    pub open spec fn empty() -> ImageModel {
        ImageModel { rows: 0, cols: 0, channels: 1, data: Seq::empty() }
    }

    /// A buffer is either empty, or has rows, columns and channels with
    /// storage of exactly the declared size. No other state exists.
    pub open spec fn wf(self) -> bool {
        consistent(self.rows, self.cols, self.channels, self.data.len())
    }

    pub open spec fn is_empty(self) -> bool {
        self.rows == 0
    }

    /// Index in `data` of channel `k` of the pixel at row `r`, column `c`.
    pub open spec fn offset(self, r: int, c: int, k: int) -> int {
        (r * self.cols + c) * self.channels + k
    }

    /// The source row of destination row `r` under a flip: rows are reversed
    /// for a zero (vertical) or negative (both axes) code.
    pub open spec fn flip_row(self, flip_code: i32, r: int) -> int {
        if flip_code <= 0 {
            self.rows - 1 - r
        } else {
            r
        }
    }

    /// The source column of destination column `c` under a flip: columns are
    /// reversed for a positive (horizontal) or negative (both axes) code.
    pub open spec fn flip_col(self, flip_code: i32, c: int) -> int {
        if flip_code != 0 {
            self.cols - 1 - c
        } else {
            c
        }
    }

    /// The index in `data` that byte `i` of the flipped buffer is taken from.
    pub open spec fn flip_source(self, flip_code: i32, i: int) -> int {
        let row_len = (self.cols * self.channels) as int;
        let r = i / row_len;
        let c = (i % row_len) / (self.channels as int);
        let k = i % (self.channels as int);
        self.offset(self.flip_row(flip_code, r), self.flip_col(flip_code, c), k)
    }

    /// The buffer mirrored about the axis that `flip_code` selects: the pixel
    /// at (r, c) of the result is the pixel at (flip_row(r), flip_col(c)).
    pub open spec fn flipped(self, flip_code: i32) -> ImageModel {
        ImageModel {
            rows: self.rows,
            cols: self.cols,
            channels: self.channels,
            data: Seq::new(self.data.len(), |i: int| self.data[self.flip_source(flip_code, i)]),
        }
    }
}

/// Whether `rows`, `cols`, `channels` and a storage of `len` bytes describe a
/// buffer: all zero-sized, or all positive with storage of the exact size.
pub open spec fn consistent(rows: nat, cols: nat, channels: nat, len: nat) -> bool {
    ||| rows == 0 && cols == 0 && len == 0
    ||| rows > 0 && cols > 0 && channels > 0 && len == rows * cols * channels
}

/// Splits a byte index into row, column and channel.
proof fn lemma_decompose(cols: int, channels: int, r: int, c: int, k: int)
    requires
        cols > 0,
        channels > 0,
        r >= 0,
        0 <= c < cols,
        0 <= k < channels,
    ensures
        ((r * cols + c) * channels + k) / (cols * channels) == r,
        (((r * cols + c) * channels + k) % (cols * channels)) / channels == c,
        ((r * cols + c) * channels + k) % channels == k,
{
    let i = (r * cols + c) * channels + k;
    let row_len = cols * channels;
    let rest = c * channels + k;
    assert(i == r * row_len + rest) by (nonlinear_arith)
        requires
            i == (r * cols + c) * channels + k,
            row_len == cols * channels,
            rest == c * channels + k,
    ;
    assert(0 <= rest < row_len) by (nonlinear_arith)
        requires
            0 <= c < cols,
            0 <= k < channels,
            rest == c * channels + k,
            row_len == cols * channels,
    ;
    lemma_fundamental_div_mod_converse(i, row_len, r, rest);
    lemma_fundamental_div_mod_converse(rest, channels, c, k);
    assert(i == (r * cols + c) * channels + k);
    assert(r * cols + c >= 0) by (nonlinear_arith)
        requires
            r >= 0,
            cols > 0,
            c >= 0,
    ;
    lemma_fundamental_div_mod_converse(i, channels, r * cols + c, k);
}

/// A pixel offset inside the dimensions lies inside the storage, and so do
/// the partial sums that compute it.
pub(crate) proof fn lemma_offset_in_bounds(rows: int, cols: int, channels: int, r: int, c: int, k: int)
    requires
        0 <= r < rows,
        0 <= c < cols,
        0 <= k < channels,
    ensures
        0 <= r * cols <= r * cols + c < rows * cols,
        r * cols + c <= (r * cols + c) * channels,
        0 <= (r * cols + c) * channels <= (r * cols + c) * channels + k < rows * cols * channels,
{
    assert(0 <= r * cols <= r * cols + c < rows * cols) by (nonlinear_arith)
        requires
            0 <= r < rows,
            0 <= c < cols,
    ;
    let p = r * cols + c;
    assert(p <= p * channels && 0 <= p * channels <= p * channels + k < rows * cols * channels)
        by (nonlinear_arith)
        requires
            0 <= p < rows * cols,
            0 <= k < channels,
    ;
}

/// Every byte of a non-empty well-formed buffer belongs to exactly one pixel
/// channel: the flip source of byte `i` is the offset of its mirrored pixel.
pub(crate) proof fn lemma_flip_source(m: ImageModel, flip_code: i32, r: int, c: int, k: int)
    requires
        m.wf(),
        !m.is_empty(),
        0 <= r < m.rows,
        0 <= c < m.cols,
        0 <= k < m.channels,
    ensures
        m.flip_source(flip_code, m.offset(r, c, k)) == m.offset(
            m.flip_row(flip_code, r),
            m.flip_col(flip_code, c),
            k,
        ),
        0 <= m.offset(r, c, k) < m.data.len(),
        0 <= m.flip_row(flip_code, r) < m.rows,
        0 <= m.flip_col(flip_code, c) < m.cols,
{
    lemma_decompose(m.cols as int, m.channels as int, r, c, k);
    lemma_offset_in_bounds(m.rows as int, m.cols as int, m.channels as int, r, c, k);
}

/// Every byte index of a non-empty well-formed buffer is the offset of some
/// row, column and channel.
pub(crate) proof fn lemma_split_index(m: ImageModel, i: int) -> (rck: (int, int, int))
    requires
        m.wf(),
        !m.is_empty(),
        0 <= i < m.data.len(),
    ensures
        0 <= rck.0 < m.rows,
        0 <= rck.1 < m.cols,
        0 <= rck.2 < m.channels,
        i == m.offset(rck.0, rck.1, rck.2),
{
    let cols = m.cols as int;
    let ch = m.channels as int;
    let row_len = cols * ch;
    assert(row_len > 0) by (nonlinear_arith)
        requires
            cols > 0,
            ch > 0,
            row_len == cols * ch,
    ;
    lemma_fundamental_div_mod(i, row_len);
    let r = i / row_len;
    let rest = i % row_len;
    lemma_fundamental_div_mod(rest, ch);
    let c = rest / ch;
    let k = rest % ch;
    assert(0 <= r < m.rows && 0 <= c < cols && i == (r * cols + c) * ch + k) by (nonlinear_arith)
        requires
            0 <= i < m.rows * cols * ch,
            row_len == cols * ch,
            cols > 0,
            ch > 0,
            i == row_len * r + rest,
            0 <= rest < row_len,
            rest == ch * c + k,
            0 <= k < ch,
    ;
    (r, c, k)
}

} // verus!
