//! The two representations of an image buffer: `Mat` on the host side and
//! `CMat` on the native side. A `CMat` either owns its bytes or borrows
//! them from a host buffer that the borrow checker keeps alive.

use vstd::prelude::*;
use crate::model::{consistent, ImageModel};

verus! {

/// Why a conversion or a boundary call did not produce a buffer.
#[derive(Debug, Clone, Copy, PartialEq, Eq, Structural)]
pub enum BridgeError {
    /// A conversion was asked of a buffer with no rows and no columns.
    EmptyBuffer,
    /// A handle resolved to the null address.
    NullHandle,
    /// The far side of the boundary returned the null address for a copy.
    ConversionFailed,
    /// A filesystem path did not name an existing entry.
    InvalidPath,
    /// A delegated image operation reported a failure or a malformed result.
    CapabilityFailure,
}

/// A host-side image buffer that owns its bytes.
pub struct Mat {
    rows: usize,
    cols: usize,
    channels: usize,
    data: Vec<u8>,
}

impl View for Mat {
    type V = ImageModel;

    closed spec fn view(&self) -> ImageModel {
        ImageModel {
            rows: self.rows as nat,
            cols: self.cols as nat,
            channels: self.channels as nat,
            data: self.data@,
        }
    }
}

/// Checks the dimensions against a storage length without overflow.
fn dims_consistent(rows: usize, cols: usize, channels: usize, len: usize) -> (r: bool)
    ensures
        r == consistent(rows as nat, cols as nat, channels as nat, len as nat),
{
    if rows == 0 && cols == 0 {
        return len == 0;
    }
    if rows == 0 || cols == 0 || channels == 0 {
        return false;
    }
    match rows.checked_mul(cols) {
        None => {
            assert(rows * cols * channels > usize::MAX) by (nonlinear_arith)
                requires
                    rows * cols > usize::MAX,
                    channels > 0,
            ;
            false
        },
        Some(pixels) => match pixels.checked_mul(channels) {
            None => false,
            Some(total) => total == len,
        },
    }
}

/// Copies a byte sequence into fresh storage.
fn copy_bytes(src: &[u8]) -> (r: Vec<u8>)
    ensures
        r@ == src@,
{
    let mut out: Vec<u8> = Vec::with_capacity(src.len());
    let mut i: usize = 0;
    while i < src.len()
        invariant
            i <= src@.len(),
            out@ == src@.subrange(0, i as int),
        decreases src@.len() - i,
    {
        out.push(src[i]);
        i += 1;
    }
    assert(out@ == src@);
    out
}

impl Mat {
    #[verifier::type_invariant]
    pub(crate) open spec fn inv(&self) -> bool {
        self@.wf()
    }

    /// The canonical empty buffer.
    pub fn new() -> (r: Mat)
        ensures
            r@ == ImageModel::empty(),
    {
        Mat { rows: 0, cols: 0, channels: 1, data: Vec::new() }
    }

    /// A buffer over `data`, or `None` where the dimensions do not describe
    /// exactly `data.len()` bytes.
    pub fn from_bytes(rows: usize, cols: usize, channels: usize, data: Vec<u8>) -> (r: Option<Mat>)
        ensures
            r is Some <==> consistent(rows as nat, cols as nat, channels as nat, data@.len()),
            r matches Some(m) ==> m@ == (ImageModel {
                rows: rows as nat,
                cols: cols as nat,
                channels: channels as nat,
                data: data@,
            }),
    {
        if dims_consistent(rows, cols, channels, data.len()) {
            Some(Mat { rows, cols, channels, data })
        } else {
            None
        }
    }

    /// A zero-filled buffer, or `None` where the dimensions describe no
    /// buffer or one larger than memory can index.
    pub fn zeros(rows: usize, cols: usize, channels: usize) -> (r: Option<Mat>)
        ensures
            r matches Some(m) ==> m@.rows == rows && m@.cols == cols && m@.channels == channels
                && m@.data.len() == rows
                * cols * channels && (forall|i: int| 0 <= i < m@.data.len() ==> m@.data[i] == 0),
            r is None <==> !(exists|len: nat|
                len <= usize::MAX && consistent(rows as nat, cols as nat, channels as nat, len)),
    {
        if rows == 0 && cols == 0 {
            return Some(Mat { rows, cols, channels, data: Vec::new() });
        }
        if rows == 0 || cols == 0 || channels == 0 {
            return None;
        }
        let total = match rows.checked_mul(cols) {
            None => {
                assert(rows * cols * channels > usize::MAX) by (nonlinear_arith)
                    requires
                        rows * cols > usize::MAX,
                        channels > 0,
                ;
                return None;
            },
            Some(pixels) => match pixels.checked_mul(channels) {
                None => {
                    return None;
                },
                Some(total) => total,
            },
        };
        let mut data: Vec<u8> = Vec::with_capacity(total);
        let mut i: usize = 0;
        while i < total
            invariant
                i <= total,
                data@.len() == i,
                forall|j: int| 0 <= j < i ==> data@[j] == 0,
            decreases total - i,
        {
            data.push(0);
            i += 1;
        }
        Some(Mat { rows, cols, channels, data })
    }

    pub fn rows(&self) -> (r: usize)
        ensures
            r == self@.rows,
    {
        self.rows
    }

    pub fn cols(&self) -> (r: usize)
        ensures
            r == self@.cols,
    {
        self.cols
    }

    pub fn channels(&self) -> (r: usize)
        ensures
            r == self@.channels,
    {
        self.channels
    }

    /// Whether the buffer has no rows and no columns.
    pub fn empty(&self) -> (r: bool)
        ensures
            r == self@.is_empty(),
    {
        self.rows == 0
    }

    /// The bytes, row-major.
    pub fn as_bytes(&self) -> (r: &[u8])
        ensures
            r@ == self@.data,
    {
        self.data.as_slice()
    }
}

/// Where the bytes of a native buffer live.
enum Storage<'a> {
    /// The bytes of a host buffer, seen without a copy.
    Borrowed(&'a [u8]),
    /// Bytes that this buffer owns.
    Owned(Vec<u8>),
}

/// A native-side image buffer.
pub struct CMat<'a> {
    rows: usize,
    cols: usize,
    channels: usize,
    storage: Storage<'a>,
}

impl<'a> View for CMat<'a> {
    type V = ImageModel;

    closed spec fn view(&self) -> ImageModel {
        ImageModel {
            rows: self.rows as nat,
            cols: self.cols as nat,
            channels: self.channels as nat,
            data: match self.storage {
                Storage::Borrowed(s) => s@,
                Storage::Owned(v) => v@,
            },
        }
    }
}

impl<'a> CMat<'a> {
    #[verifier::type_invariant]
    pub(crate) open spec fn inv(&self) -> bool {
        self@.wf()
    }

    /// Whether the bytes are borrowed from a host buffer rather than owned.
    pub closed spec fn is_borrowed(&self) -> bool {
        self.storage is Borrowed
    }

    /// Whether the bytes are borrowed from a host buffer rather than owned.
    pub fn borrows(&self) -> (r: bool)
        ensures
            r == self.is_borrowed(),
    {
        match &self.storage {
            Storage::Borrowed(_) => true,
            Storage::Owned(_) => false,
        }
    }

    /// A native view of a host buffer's bytes: nothing is allocated or copied,
    /// and the view cannot outlive the host buffer.
    pub fn borrow_host(m: &'a Mat) -> (r: CMat<'a>)
        ensures
            r@ == m@,
            r.is_borrowed(),
    {
        proof {
            use_type_invariant(m);
        }
        CMat { rows: m.rows, cols: m.cols, channels: m.channels, storage: Storage::Borrowed(m.data.as_slice()) }
    }

    /// A native buffer that owns `data`, laid out as the dimensions say.
    pub(crate) fn from_owned(rows: usize, cols: usize, channels: usize, data: Vec<u8>) -> (r: CMat<'static>)
        requires
            consistent(rows as nat, cols as nat, channels as nat, data@.len()),
        ensures
            r@ == (ImageModel { rows: rows as nat, cols: cols as nat, channels: channels as nat, data: data@ }),
            !r.is_borrowed(),
    {
        CMat { rows, cols, channels, storage: Storage::Owned(data) }
    }

    /// A native buffer that owns a fresh copy of a host buffer's bytes.
    pub fn copy_host(m: &Mat) -> (r: CMat<'static>)
        ensures
            r@ == m@,
            !r.is_borrowed(),
    {
        proof {
            use_type_invariant(m);
        }
        CMat { rows: m.rows, cols: m.cols, channels: m.channels, storage: Storage::Owned(copy_bytes(m.data.as_slice())) }
    }

    /// A host buffer that owns a fresh copy of this buffer's bytes.
    pub fn copy_to_host(&self) -> (r: Mat)
        ensures
            r@ == self@,
    {
        proof {
            use_type_invariant(self);
        }
        Mat { rows: self.rows, cols: self.cols, channels: self.channels, data: copy_bytes(self.as_bytes()) }
    }

    /// The bytes, row-major, wherever they live.
    pub fn as_bytes(&self) -> (r: &[u8])
        ensures
            r@ == self@.data,
    {
        match &self.storage {
            Storage::Borrowed(s) => s,
            Storage::Owned(v) => v.as_slice(),
        }
    }

    pub fn rows(&self) -> (r: usize)
        ensures
            r == self@.rows,
    {
        self.rows
    }

    pub fn cols(&self) -> (r: usize)
        ensures
            r == self@.cols,
    {
        self.cols
    }

    pub fn channels(&self) -> (r: usize)
        ensures
            r == self@.channels,
    {
        self.channels
    }

    /// Whether the buffer has no rows and no columns.
    pub fn empty(&self) -> (r: bool)
        ensures
            r == self@.is_empty(),
    {
        self.rows == 0
    }
}

} // verus!
