//! Properties that hold across several operations of the boundary.

use vstd::prelude::*;
use crate::buffer::BridgeError;
use crate::convert::{to_host, to_native};
use crate::handle::TableModel;
use crate::model::{lemma_flip_source, lemma_split_index, ImageModel};

verus! {

/// Flipping a buffer twice about the same axis gives back the same buffer.
pub proof fn lemma_flip_twice(m: ImageModel, flip_code: i32)
    requires
        m.wf(),
    ensures
        m.flipped(flip_code).wf(),
        m.flipped(flip_code).flipped(flip_code) == m,
{
    let f = m.flipped(flip_code);
    let g = f.flipped(flip_code);
    if !m.is_empty() {
        assert forall|i: int| 0 <= i < m.data.len() implies g.data[i] == m.data[i] by {
            let (r, c, k) = lemma_split_index(m, i);
            lemma_flip_source(m, flip_code, r, c, k);
            let r1 = m.flip_row(flip_code, r);
            let c1 = m.flip_col(flip_code, c);
            lemma_flip_source(f, flip_code, r, c, k);
            lemma_flip_source(m, flip_code, r1, c1, k);
        }
    }
    assert(g.data =~= m.data);
}

/// A non-empty buffer copied to the native side and copied back has the
/// same dimensions and bytes, whenever a handle is free for the copy back.
pub proof fn lemma_round_trip(b: ImageModel, t: TableModel)
    requires
        b.wf(),
        !b.is_empty(),
        t.has_room(),
    ensures
        to_native(b) matches Ok(c) && to_host(c, t) == Ok::<ImageModel, BridgeError>(b),
{
}

/// An empty buffer is refused with `EmptyBuffer` by the copy and the
/// reference conversion to the native side and by the copy to the host side,
/// whatever the state of the handle table.
pub proof fn lemma_empty_rejected(m: ImageModel, t: TableModel)
    requires
        m.wf(),
        m.is_empty(),
    ensures
        to_native(m) == Err::<ImageModel, BridgeError>(BridgeError::EmptyBuffer),
        to_host(m, t) == Err::<ImageModel, BridgeError>(BridgeError::EmptyBuffer),
{
}

} // verus!
