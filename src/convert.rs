//! The conversions between the host and native representations: a
//! zero-copy view from host to native, and safe copies in both directions.

use vstd::prelude::*;
use crate::buffer::{BridgeError, CMat, Mat};
use crate::handle::{HandleTable, TableModel};
use crate::model::ImageModel;

verus! {

/// The model of a conversion's outcome: the converted buffer's model, or
/// the error.
pub open spec fn outcome<T: View<V = ImageModel>>(r: Result<T, BridgeError>) -> Result<ImageModel, BridgeError> {
    match r {
        Ok(v) => Ok(v@),
        Err(e) => Err(e),
    }
}

/// What converting host buffer `m` to the native side yields, by copy or
/// by reference: the same buffer, unless it is empty.
pub open spec fn to_native(m: ImageModel) -> Result<ImageModel, BridgeError> {
    if m.is_empty() {
        Err(BridgeError::EmptyBuffer)
    } else {
        Ok(m)
    }
}

/// What a safe copy of native buffer `m` to the host side yields with
/// handle table `t`: the same buffer, unless it is empty or no handle is
/// free for the copy.
pub open spec fn to_host(m: ImageModel, t: TableModel) -> Result<ImageModel, BridgeError> {
    if m.is_empty() {
        Err(BridgeError::EmptyBuffer)
    } else if !t.has_room() {
        Err(BridgeError::ConversionFailed)
    } else {
        Ok(m)
    }
}

/// Builds a host buffer from an address: the null address gives the
/// canonical empty buffer, any other address must be live and gives the
/// buffer behind it, whose slot is freed.
pub fn from_ptr_addr(table: &mut HandleTable, ptr_addr: usize) -> (r: Mat)
    requires
        ptr_addr == 0 || old(table)@.is_live(ptr_addr as int),
    ensures
        ptr_addr == 0 ==> r@ == ImageModel::empty() && final(table)@ == old(table)@,
        ptr_addr != 0 ==> {
            &&& Some(r@) == old(table)@.slots[ptr_addr - 1]
            &&& final(table)@.slots == old(table)@.slots.update(ptr_addr - 1, None)
        },
{
    if ptr_addr == 0 {
        return Mat::new();
    }
    table.take(ptr_addr)
}

/// The native side's half of a copy to the host: allocates a host copy of
/// `cpp_mat` behind a fresh handle and returns its address, or the null
/// address where no handle is free.
pub fn cpp_to_rust_safe(table: &mut HandleTable, cpp_mat: &CMat) -> (addr: usize)
    ensures
        addr == 0 <==> !old(table)@.has_room(),
        addr == 0 ==> final(table)@ == old(table)@,
        addr != 0 ==> {
            &&& 1 <= addr <= old(table)@.slots.len()
            &&& old(table)@.slots[addr - 1] is None
            &&& final(table)@.slots == old(table)@.slots.update(addr - 1, Some(cpp_mat@))
        },
{
    table.publish(cpp_mat.copy_to_host())
}

/// Host to native, by copy: a new native buffer that owns its bytes.
pub fn safe_convert_rust_to_cpp(rust_mat: &Mat) -> (r: Result<CMat<'static>, BridgeError>)
    ensures
        outcome(r) == to_native(rust_mat@),
        r matches Ok(c) ==> !c.is_borrowed(),
{
    if rust_mat.empty() {
        return Err(BridgeError::EmptyBuffer);
    }
    Ok(CMat::copy_host(rust_mat))
}

/// Native to host, by copy: the native side allocates the copy behind a
/// handle, and the host takes it over. The table is left as it was.
pub fn safe_convert_cpp_to_rust(table: &mut HandleTable, cpp_mat: &CMat) -> (r: Result<Mat, BridgeError>)
    ensures
        outcome(r) == to_host(cpp_mat@, old(table)@),
        final(table)@ == old(table)@,
{
    if cpp_mat.empty() {
        return Err(BridgeError::EmptyBuffer);
    }
    let ptr_addr = cpp_to_rust_safe(table, cpp_mat);
    if ptr_addr == 0 {
        return Err(BridgeError::ConversionFailed);
    }
    let m = from_ptr_addr(table, ptr_addr);
    proof {
        assert(table@.slots =~= old(table)@.slots);
    }
    Ok(m)
}

/// Host to native, by reference: a native view of the host buffer's bytes.
/// Nothing is allocated; the view borrows `rust_mat`, so it cannot outlive
/// it, and `rust_mat` cannot change while the view is in use.
pub fn zero_copy_rust_to_cpp_ref<'a>(rust_mat: &'a Mat) -> (r: Result<CMat<'a>, BridgeError>)
    ensures
        outcome(r) == to_native(rust_mat@),
        r matches Ok(c) ==> c.is_borrowed(),
{
    if rust_mat.empty() {
        return Err(BridgeError::EmptyBuffer);
    }
    Ok(CMat::borrow_host(rust_mat))
}

} // verus!
