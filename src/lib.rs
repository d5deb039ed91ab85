//! Ownership-safe exchange of image buffers across a host/native boundary.

pub mod buffer;
pub mod convert;
pub mod dispatch;
pub mod flip;
pub mod handle;
pub mod laws;
pub mod model;
pub mod path;

pub use buffer::{BridgeError, CMat, Mat};
pub use convert::{
    cpp_to_rust_safe, from_ptr_addr, safe_convert_cpp_to_rust, safe_convert_rust_to_cpp,
    zero_copy_rust_to_cpp_ref,
};
pub use dispatch::{flip_image, itk_read_image, read_checked, resize_image_native, resize_image_rust};
pub use handle::HandleTable;
pub use path::is_path_valid;
