//! Calls across the boundary. A host call into the native flip borrows the
//! host buffer and copies the result back; a native call into a host resize
//! copies its input to the host and its result back to the native side.
//! Any failed step ends the call with its error and no partial result.

use vstd::prelude::*;
use crate::buffer::{BridgeError, CMat, Mat};
use crate::convert::{
    outcome, safe_convert_cpp_to_rust, safe_convert_rust_to_cpp, to_host, zero_copy_rust_to_cpp_ref,
};
use crate::handle::{HandleTable, TableModel};
use crate::model::ImageModel;
use crate::path::is_path_valid;

verus! {

/// What flipping host buffer `m` through the native side yields with
/// handle table `t`.
pub open spec fn flip_outcome(m: ImageModel, flip_code: i32, t: TableModel) -> Result<ImageModel, BridgeError> {
    if m.is_empty() {
        Err(BridgeError::EmptyBuffer)
    } else {
        to_host(m.flipped(flip_code), t)
    }
}

/// Whether `m` is an acceptable answer of a resize of a buffer with
/// `channels` channels to `width` columns and `height` rows.
pub open spec fn fits_request(m: ImageModel, channels: nat, width: i32, height: i32) -> bool {
    &&& m.rows == height as nat
    &&& m.cols == width as nat
    &&& m.channels == channels
}

/// What a resize yields when its capability answered `answer`: that buffer
/// where it has exactly the requested size, a capability failure otherwise.
pub open spec fn resize_outcome(answer: Option<Mat>, channels: nat, width: i32, height: i32) -> Result<
    ImageModel,
    BridgeError,
> {
    match answer {
        Some(m) => if fits_request(m@, channels, width, height) {
            Ok(m@)
        } else {
            Err(BridgeError::CapabilityFailure)
        },
        None => Err(BridgeError::CapabilityFailure),
    }
}

/// What reading a file yields when the native reader answered `answer`:
/// a host copy of the buffer it read, or a capability failure where it read
/// nothing.
pub open spec fn read_outcome(answer: Option<CMat<'static>>, t: TableModel) -> Result<ImageModel, BridgeError> {
    match answer {
        Some(c) => to_host(c@, t),
        None => Err(BridgeError::CapabilityFailure),
    }
}

/// Flips a host buffer on the native side: the buffer is lent to the
/// native flip without a copy, and the flipped result is copied back.
pub fn flip_image(table: &mut HandleTable, img: &Mat, flip_code: i32) -> (r: Result<Mat, BridgeError>)
    ensures
        outcome(r) == flip_outcome(img@, flip_code, old(table)@),
        final(table)@ == old(table)@,
{
    if img.empty() {
        return Err(BridgeError::EmptyBuffer);
    }
    let c_img = match zero_copy_rust_to_cpp_ref(img) {
        Ok(c) => c,
        Err(e) => {
            return Err(e);
        },
    };
    let flipped = c_img.flip(flip_code);
    safe_convert_cpp_to_rust(table, &flipped)
}

/// Resizes a host buffer to `width` columns and `height` rows with the
/// host's resize capability, and checks that its answer has exactly that
/// size and the input's channels. The capability cannot resize an empty
/// buffer, so an empty input is reported as its failure without calling it.
pub fn resize_image_native<F: FnOnce(&Mat, i32, i32) -> Option<Mat>>(
    img: &Mat,
    width: i32,
    height: i32,
    resize: F,
) -> (r: Result<Mat, BridgeError>)
    requires
        width > 0,
        height > 0,
        call_requires(resize, (img, width, height)),
    ensures
        img@.is_empty() ==> r == Err::<Mat, BridgeError>(BridgeError::CapabilityFailure),
        !img@.is_empty() ==> exists|answer: Option<Mat>|
            {
                &&& call_ensures(resize, (img, width, height), answer)
                &&& outcome(r) == resize_outcome(answer, img@.channels, width, height)
            },
        r matches Ok(m) ==> fits_request(m@, img@.channels, width, height),
{
    if img.empty() {
        return Err(BridgeError::CapabilityFailure);
    }
    let answer = resize(img, width, height);
    let ghost called = answer;
    let r = match answer {
        Some(m) => {
            let fits = m.rows() == height as usize && m.cols() == width as usize && m.channels()
                == img.channels();
            if fits {
                Ok(m)
            } else {
                Err(BridgeError::CapabilityFailure)
            }
        },
        None => Err(BridgeError::CapabilityFailure),
    };
    assert(outcome(r) == resize_outcome(called, img@.channels, width, height));
    r
}

/// A native call into the host resize: the native buffer is copied to the
/// host, resized there, and the result is copied back to a new native
/// buffer. The table is left as it was.
pub fn resize_image_rust<F: FnOnce(&Mat, i32, i32) -> Option<Mat>>(
    table: &mut HandleTable,
    img: &CMat,
    width: i32,
    height: i32,
    resize: F,
) -> (r: Result<CMat<'static>, BridgeError>)
    requires
        width > 0,
        height > 0,
        forall|m: &Mat| call_requires(resize, (m, width, height)),
    ensures
        final(table)@ == old(table)@,
        to_host(img@, old(table)@) matches Err(e) ==> r == Err::<CMat<'static>, BridgeError>(e),
        to_host(img@, old(table)@) is Ok ==> exists|host: Mat, answer: Option<Mat>|
            {
                &&& host@ == img@
                &&& call_ensures(resize, (&host, width, height), answer)
                &&& outcome(r) == resize_outcome(answer, img@.channels, width, height)
            },
        r matches Ok(c) ==> fits_request(c@, img@.channels, width, height) && !c.is_borrowed(),
{
    let host = match safe_convert_cpp_to_rust(table, img) {
        Ok(m) => m,
        Err(e) => {
            return Err(e);
        },
    };
    let resized = match resize_image_native(&host, width, height, resize) {
        Ok(m) => m,
        Err(e) => {
            return Err(e);
        },
    };
    safe_convert_rust_to_cpp(&resized)
}

/// Reads an image once the path has been checked: `path_ok` is the answer
/// of the existence check. A failed check gives `InvalidPath` and the reader
/// is not called; otherwise the reader's buffer is copied to the host. The
/// table is left as it was.
pub fn read_checked<F: FnOnce(&str) -> Option<CMat<'static>>>(
    table: &mut HandleTable,
    path_ok: bool,
    file_path: &str,
    read: F,
) -> (r: Result<Mat, BridgeError>)
    requires
        call_requires(read, (file_path,)),
    ensures
        final(table)@ == old(table)@,
        !path_ok ==> r == Err::<Mat, BridgeError>(BridgeError::InvalidPath),
        path_ok ==> exists|answer: Option<CMat<'static>>|
            {
                &&& call_ensures(read, (file_path,), answer)
                &&& outcome(r) == read_outcome(answer, old(table)@)
            },
{
    if !path_ok {
        return Err(BridgeError::InvalidPath);
    }
    let answer = read(file_path);
    let ghost called = answer;
    let r = match answer {
        Some(c) => safe_convert_cpp_to_rust(table, &c),
        None => Err(BridgeError::CapabilityFailure),
    };
    assert(outcome(r) == read_outcome(called, old(table)@));
    r
}

/// Reads an image with the native reader `read` and copies it to the host.
/// A path that does not name an existing entry is refused with
/// `InvalidPath` before the reader is called. The table is left as it was.
pub fn itk_read_image<F: FnOnce(&str) -> Option<CMat<'static>>>(
    table: &mut HandleTable,
    file_path: &str,
    read: F,
) -> (r: Result<Mat, BridgeError>)
    requires
        call_requires(read, (file_path,)),
    ensures
        final(table)@ == old(table)@,
        file_path@.len() == 0 ==> r == Err::<Mat, BridgeError>(BridgeError::InvalidPath),
        r == Err::<Mat, BridgeError>(BridgeError::InvalidPath) || exists|answer: Option<CMat<'static>>|
            {
                &&& call_ensures(read, (file_path,), answer)
                &&& outcome(r) == read_outcome(answer, old(table)@)
            },
{
    let path_ok = is_path_valid(file_path);
    read_checked(table, path_ok, file_path, read)
}

} // verus!
