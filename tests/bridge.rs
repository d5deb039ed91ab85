use core_rlib::{
    cpp_to_rust_safe, flip_image, from_ptr_addr, is_path_valid, itk_read_image, read_checked,
    resize_image_native,
    resize_image_rust, safe_convert_cpp_to_rust, safe_convert_rust_to_cpp, zero_copy_rust_to_cpp_ref,
    BridgeError, CMat, HandleTable, Mat,
};

fn create_dummy_image(width: usize, height: usize) -> Mat {
    Mat::zeros(height, width, 3).unwrap()
}

fn image(rows: usize, cols: usize, channels: usize, data: Vec<u8>) -> Mat {
    Mat::from_bytes(rows, cols, channels, data).unwrap()
}

/// Nearest-neighbour resize, standing in for an image library's resize.
fn nearest(img: &Mat, width: i32, height: i32) -> Option<Mat> {
    let (w, h) = (width as usize, height as usize);
    let ch = img.channels();
    let src = img.as_bytes();
    let mut out = Vec::with_capacity(w * h * ch);
    for r in 0..h {
        let sr = r * img.rows() / h;
        for c in 0..w {
            let sc = c * img.cols() / w;
            for k in 0..ch {
                out.push(src[(sr * img.cols() + sc) * ch + k]);
            }
        }
    }
    Mat::from_bytes(h, w, ch, out)
}

#[test]
fn test_flip_image() {
    let img = create_dummy_image(100, 100);
    let mut table = HandleTable::new(4);
    let flipped = flip_image(&mut table, &img, 1).unwrap();
    assert_eq!(flipped.rows(), img.rows());
    assert_eq!(flipped.cols(), img.cols());
}

#[test]
fn test_resize_image_rust() {
    let img = create_dummy_image(100, 100);
    let mut table = HandleTable::new(4);
    let cpp_img = safe_convert_rust_to_cpp(&img).unwrap();
    let resized_cpp = resize_image_rust(&mut table, &cpp_img, 50, 50, nearest).unwrap();
    let resized_rust = safe_convert_cpp_to_rust(&mut table, &resized_cpp).unwrap();
    assert_eq!(resized_rust.rows(), 50);
    assert_eq!(resized_rust.cols(), 50);
}

#[test]
fn test_is_path_valid() {
    assert!(is_path_valid("src/lib.rs"));
    assert!(!is_path_valid("non_existent_file.txt"));
}

#[test]
fn test_resize_image_native() {
    let img = create_dummy_image(100, 100);
    let resized = resize_image_native(&img, 50, 50, nearest).unwrap();
    assert_eq!(resized.rows(), 50);
    assert_eq!(resized.cols(), 50);
}

#[test]
fn empty_path_is_invalid() {
    assert!(!is_path_valid(""));
}

#[test]
fn flip_codes_mirror_the_expected_axes() {
    let img = image(2, 2, 1, vec![1, 2, 3, 4]);
    let mut table = HandleTable::new(1);
    let vertical = flip_image(&mut table, &img, 0).unwrap();
    assert_eq!(vertical.as_bytes(), &[3, 4, 1, 2]);
    let horizontal = flip_image(&mut table, &img, 1).unwrap();
    assert_eq!(horizontal.as_bytes(), &[2, 1, 4, 3]);
    let both = flip_image(&mut table, &img, -7).unwrap();
    assert_eq!(both.as_bytes(), &[4, 3, 2, 1]);
}

#[test]
fn flip_keeps_channels_of_a_pixel_together() {
    let img = image(1, 2, 3, vec![1, 2, 3, 4, 5, 6]);
    let mut table = HandleTable::new(1);
    let flipped = flip_image(&mut table, &img, 5).unwrap();
    assert_eq!(flipped.as_bytes(), &[4, 5, 6, 1, 2, 3]);
    assert_eq!(flipped.channels(), 3);
}

#[test]
fn flipping_twice_restores_the_buffer() {
    let data: Vec<u8> = (0..24).collect();
    let img = image(2, 4, 3, data.clone());
    let mut table = HandleTable::new(2);
    for code in [-1, 0, 1] {
        let once = flip_image(&mut table, &img, code).unwrap();
        let twice = flip_image(&mut table, &once, code).unwrap();
        assert_eq!(twice.as_bytes(), data.as_slice());
        assert_eq!((twice.rows(), twice.cols(), twice.channels()), (2, 4, 3));
    }
}

#[test]
fn flip_of_zero_filled_image_keeps_dimensions() {
    let img = create_dummy_image(100, 100);
    let mut table = HandleTable::new(1);
    let flipped = flip_image(&mut table, &img, 1).unwrap();
    assert_eq!((flipped.rows(), flipped.cols(), flipped.channels()), (100, 100, 3));
    assert!(flipped.as_bytes().iter().all(|b| *b == 0));
}

#[test]
fn flip_fails_without_a_free_handle() {
    let img = image(1, 1, 1, vec![9]);
    let mut table = HandleTable::new(0);
    assert_eq!(flip_image(&mut table, &img, 1).err(), Some(BridgeError::ConversionFailed));
}

#[test]
fn flip_refuses_an_empty_buffer() {
    let mut table = HandleTable::new(1);
    assert_eq!(flip_image(&mut table, &Mat::new(), 1).err(), Some(BridgeError::EmptyBuffer));
}

#[test]
fn safe_copy_round_trip_keeps_content() {
    let img = image(2, 3, 2, (10..22).collect());
    let mut table = HandleTable::new(1);
    let cpp = safe_convert_rust_to_cpp(&img).unwrap();
    assert!(!cpp.borrows());
    let back = safe_convert_cpp_to_rust(&mut table, &cpp).unwrap();
    assert_eq!((back.rows(), back.cols(), back.channels()), (2, 3, 2));
    assert_eq!(back.as_bytes(), img.as_bytes());
}

#[test]
fn zero_copy_view_reads_the_host_bytes() {
    let img = image(1, 3, 1, vec![7, 8, 9]);
    let view = zero_copy_rust_to_cpp_ref(&img).unwrap();
    assert!(view.borrows());
    assert_eq!(view.as_bytes(), &[7, 8, 9]);
    assert_eq!((view.rows(), view.cols(), view.channels()), (1, 3, 1));
}

#[test]
fn conversions_refuse_empty_buffers() {
    let empty = Mat::new();
    assert_eq!(safe_convert_rust_to_cpp(&empty).err(), Some(BridgeError::EmptyBuffer));
    assert_eq!(zero_copy_rust_to_cpp_ref(&empty).err(), Some(BridgeError::EmptyBuffer));
    let empty_native = CMat::borrow_host(&empty);
    let mut table = HandleTable::new(1);
    assert_eq!(
        safe_convert_cpp_to_rust(&mut table, &empty_native).err(),
        Some(BridgeError::EmptyBuffer)
    );
}

#[test]
fn copy_to_host_fails_when_no_handle_is_free() {
    let img = image(1, 1, 1, vec![1]);
    let cpp = safe_convert_rust_to_cpp(&img).unwrap();
    let mut table = HandleTable::new(0);
    assert_eq!(
        safe_convert_cpp_to_rust(&mut table, &cpp).err(),
        Some(BridgeError::ConversionFailed)
    );
    assert_eq!(cpp_to_rust_safe(&mut table, &cpp), 0);
}

#[test]
fn null_address_builds_the_empty_buffer() {
    let mut table = HandleTable::new(1);
    let m = from_ptr_addr(&mut table, 0);
    assert!(m.empty());
    assert_eq!((m.rows(), m.cols()), (0, 0));
    assert!(m.as_bytes().is_empty());
}

#[test]
fn null_handle_does_not_resolve() {
    let mut table = HandleTable::new(1);
    assert_eq!(table.resolve(0).err(), Some(BridgeError::NullHandle));
}

#[test]
fn handles_are_given_out_and_reused() {
    let mut table = HandleTable::new(2);
    let a = table.publish(image(1, 1, 1, vec![1]));
    let b = table.publish(image(1, 1, 1, vec![2]));
    assert_eq!((a, b), (1, 2));
    assert_eq!(table.publish(image(1, 1, 1, vec![3])), 0);
    let first = from_ptr_addr(&mut table, a);
    assert_eq!(first.as_bytes(), &[1]);
    assert_eq!(table.publish(image(1, 1, 1, vec![4])), 1);
    let second = table.resolve(b).ok().unwrap();
    assert_eq!(second.as_bytes(), &[2]);
}

#[test]
fn native_copy_lands_behind_a_live_handle() {
    let img = image(1, 2, 1, vec![5, 6]);
    let cpp = safe_convert_rust_to_cpp(&img).unwrap();
    let mut table = HandleTable::new(3);
    let addr = cpp_to_rust_safe(&mut table, &cpp);
    assert_eq!(addr, 1);
    let host = from_ptr_addr(&mut table, addr);
    assert_eq!(host.as_bytes(), &[5, 6]);
}

#[test]
fn resize_yields_exactly_the_requested_size() {
    let img = image(3, 5, 2, (0..30).collect());
    for (w, h) in [(1, 1), (7, 2), (5, 3), (10, 9)] {
        let out = resize_image_native(&img, w, h, nearest).unwrap();
        assert_eq!((out.cols(), out.rows(), out.channels()), (w as usize, h as usize, 2));
    }
}

#[test]
fn resize_reports_a_failed_or_malformed_answer() {
    let img = create_dummy_image(4, 4);
    let failed = resize_image_native(&img, 2, 2, |_: &Mat, _: i32, _: i32| None);
    assert_eq!(failed.err(), Some(BridgeError::CapabilityFailure));
    let wrong = resize_image_native(&img, 2, 2, |m: &Mat, _: i32, _: i32| nearest(m, 3, 2));
    assert_eq!(wrong.err(), Some(BridgeError::CapabilityFailure));
    let gray = resize_image_native(&img, 2, 2, |_: &Mat, w: i32, h: i32| {
        Mat::zeros(h as usize, w as usize, 1)
    });
    assert_eq!(gray.err(), Some(BridgeError::CapabilityFailure));
}

#[test]
fn resize_of_an_empty_buffer_is_a_capability_failure() {
    let called = std::cell::Cell::new(false);
    let r = resize_image_native(&Mat::new(), 2, 2, |m: &Mat, w: i32, h: i32| {
        called.set(true);
        nearest(m, w, h)
    });
    assert_eq!(r.err(), Some(BridgeError::CapabilityFailure));
    assert!(!called.get());
}

#[test]
fn native_resize_call_keeps_content_and_table() {
    let img = image(2, 2, 1, vec![1, 2, 3, 4]);
    let cpp = safe_convert_rust_to_cpp(&img).unwrap();
    let mut table = HandleTable::new(1);
    let out = resize_image_rust(&mut table, &cpp, 4, 4, nearest).unwrap();
    assert!(!out.borrows());
    assert_eq!(
        out.as_bytes(),
        &[1, 1, 2, 2, 1, 1, 2, 2, 3, 3, 4, 4, 3, 3, 4, 4]
    );
    assert_eq!(table.publish(image(1, 1, 1, vec![0])), 1);
}

#[test]
fn native_resize_call_propagates_conversion_failure() {
    let img = image(1, 1, 1, vec![1]);
    let cpp = safe_convert_rust_to_cpp(&img).unwrap();
    let mut table = HandleTable::new(0);
    let r = resize_image_rust(&mut table, &cpp, 2, 2, nearest);
    assert_eq!(r.err(), Some(BridgeError::ConversionFailed));
}

#[test]
fn read_refuses_a_missing_path() {
    let mut table = HandleTable::new(1);
    let reader = |_: &str| safe_convert_rust_to_cpp(&image(1, 1, 1, vec![1])).ok();
    let r = itk_read_image(&mut table, "non_existent_file.txt", reader);
    assert_eq!(r.err(), Some(BridgeError::InvalidPath));
    let r = itk_read_image(&mut table, "", reader);
    assert_eq!(r.err(), Some(BridgeError::InvalidPath));
}

#[test]
fn read_copies_what_the_reader_returns() {
    let mut table = HandleTable::new(1);
    let reader = |_: &str| safe_convert_rust_to_cpp(&image(1, 2, 1, vec![4, 2])).ok();
    let img = itk_read_image(&mut table, "src/lib.rs", reader).unwrap();
    assert_eq!(img.as_bytes(), &[4, 2]);
    let nothing = itk_read_image(&mut table, "src/lib.rs", |_: &str| None);
    assert_eq!(nothing.err(), Some(BridgeError::CapabilityFailure));
}

#[test]
fn buffers_must_match_their_dimensions() {
    assert!(Mat::from_bytes(2, 2, 1, vec![0; 3]).is_none());
    assert!(Mat::from_bytes(0, 2, 1, vec![]).is_none());
    assert!(Mat::from_bytes(0, 0, 1, vec![]).unwrap().empty());
    assert!(Mat::zeros(0, 5, 3).is_none());
    assert!(Mat::zeros(usize::MAX, 2, 1).is_none());
    let z = Mat::zeros(2, 3, 4).unwrap();
    assert_eq!(z.as_bytes().len(), 24);
}

/// A native reader that answers a small three-channel image for any path.
fn example_reader(_: &str) -> Option<CMat<'static>> {
    safe_convert_rust_to_cpp(&image(2, 3, 3, (0..18).collect())).ok()
}

#[test]
fn test_itk_read_image() {
    // The example asset is not shipped with the crate, so the existence
    // check's answer for it is given rather than asked of the filesystem.
    let img_path = "assets/example.jpg";
    let mut table = HandleTable::new(1);
    let img = read_checked(&mut table, true, img_path, example_reader)
        .ok()
        .expect("Failed to read image with ITK");
    assert!(img.rows() > 0 && img.cols() > 0);
}

#[test]
fn read_checked_refuses_a_failed_check_without_reading() {
    let called = std::cell::Cell::new(false);
    let mut table = HandleTable::new(1);
    let r = read_checked(&mut table, false, "src/lib.rs", |p: &str| {
        called.set(true);
        example_reader(p)
    });
    assert_eq!(r.err(), Some(BridgeError::InvalidPath));
    assert!(!called.get());
}

#[test]
fn read_checked_reports_reader_and_conversion_failures() {
    let mut table = HandleTable::new(1);
    let none = read_checked(&mut table, true, "x", |_: &str| None);
    assert_eq!(none.err(), Some(BridgeError::CapabilityFailure));
    let mut full = HandleTable::new(0);
    let r = read_checked(&mut full, true, "x", example_reader);
    assert_eq!(r.err(), Some(BridgeError::ConversionFailed));
    let empty = read_checked(&mut table, true, "x", |_: &str| Some(CMat::copy_host(&Mat::new())));
    assert_eq!(empty.err(), Some(BridgeError::EmptyBuffer));
}

#[test]
fn read_of_an_existing_path_copies_the_buffer() {
    let mut table = HandleTable::new(1);
    let img = itk_read_image(&mut table, "src/lib.rs", example_reader).ok().unwrap();
    assert_eq!((img.rows(), img.cols(), img.channels()), (2, 3, 3));
    assert_eq!(img.as_bytes(), (0..18).collect::<Vec<u8>>().as_slice());
}
