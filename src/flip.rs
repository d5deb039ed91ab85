//! Mirroring a native buffer about one or both axes.

use vstd::prelude::*;
use crate::buffer::CMat;
use crate::model::{lemma_flip_source, lemma_offset_in_bounds, ImageModel};

verus! {

/// Advancing the channel, then the column, then the row moves the offset by
/// exactly one byte.
proof fn lemma_offset_step(m: ImageModel, r: int, c: int, k: int)
    requires
        m.cols > 0,
        m.channels > 0,
        0 <= c < m.cols,
        0 <= k < m.channels,
    ensures
        k + 1 < m.channels ==> m.offset(r, c, k + 1) == m.offset(r, c, k) + 1,
        k + 1 == m.channels && c + 1 < m.cols ==> m.offset(r, c + 1, 0) == m.offset(r, c, k) + 1,
        k + 1 == m.channels && c + 1 == m.cols ==> m.offset(r + 1, 0, 0) == m.offset(r, c, k) + 1,
{
    let cols = m.cols as int;
    let ch = m.channels as int;
    assert((r * cols + c + 1) * ch == (r * cols + c) * ch + ch) by (nonlinear_arith);
    assert(((r + 1) * cols + 0) * ch == (r * cols + cols) * ch) by (nonlinear_arith);
}

impl<'a> CMat<'a> {
    /// A new owned buffer holding this one mirrored: a zero code reverses
    /// the rows (a vertical flip), a positive one the columns (a horizontal
    /// flip), and a negative one both.
    pub fn flip(&self, flip_code: i32) -> (r: CMat<'static>)
        ensures
            r@ == self@.flipped(flip_code),
            !r.is_borrowed(),
    {
        proof {
            use_type_invariant(self);
        }
        let rows = self.rows();
        let cols = self.cols();
        let channels = self.channels();
        let src = self.as_bytes();
        let ghost m = self@;
        if rows == 0 {
            let r = CMat::from_owned(rows, cols, channels, Vec::new());
            assert(r@.data =~= m.flipped(flip_code).data);
            return r;
        }
        let len = src.len();
        let mut out: Vec<u8> = Vec::with_capacity(len);
        let mut i: usize = 0;
        let mut r: usize = 0;
        let mut c: usize = 0;
        let mut k: usize = 0;
        assert(m.offset(0, 0, 0) == 0) by (nonlinear_arith);
        while i < len
            invariant
                m.wf(),
                !m.is_empty(),
                src@ == m.data,
                rows == m.rows,
                cols == m.cols,
                channels == m.channels,
                len == m.data.len(),
                out@.len() == i,
                i <= len,
                r <= rows,
                c < cols,
                k < channels,
                r == rows ==> c == 0 && k == 0,
                i == m.offset(r as int, c as int, k as int),
                forall|j: int| 0 <= j < i ==> out@[j] == m.data[m.flip_source(flip_code, j)],
            decreases len - i,
        {
            if r == rows {
                assert(m.offset(r as int, 0, 0) == len) by (nonlinear_arith)
                    requires
                        r == m.rows,
                        len == m.rows * m.cols * m.channels,
                ;
                assert(false);
            }
            let fr = if flip_code <= 0 { rows - 1 - r } else { r };
            let fc = if flip_code != 0 { cols - 1 - c } else { c };
            proof {
                lemma_flip_source(m, flip_code, r as int, c as int, k as int);
                lemma_offset_in_bounds(rows as int, cols as int, channels as int, fr as int, fc as int, k as int);
            }
            let at = (fr * cols + fc) * channels + k;
            out.push(src[at]);
            i += 1;
            let ghost (r0, c0, k0) = (r as int, c as int, k as int);
            if k + 1 < channels {
                k += 1;
            } else {
                k = 0;
                if c + 1 < cols {
                    c += 1;
                } else {
                    c = 0;
                    r += 1;
                }
            }
            proof {
                lemma_offset_step(m, r0, c0, k0);
            }
        }
        let res = CMat::from_owned(rows, cols, channels, out);
        assert(res@.data =~= m.flipped(flip_code).data);
        res
    }
}

} // verus!
