use vips::engine::EngineCall;
use vips::value::array_length;
use vips::{ErrorKind, VipsImage};

#[test]
fn image_from_c_ptr() {
    match VipsImage::from_c_ptr(0) {
        Ok(_) => panic!("Creating image from nullptr should error"),
        Err(_) => {}
    }
}

#[test]
fn from_c_ptr_names_the_null_handle() {
    let e = VipsImage::from_c_ptr(0).unwrap_err();
    assert_eq!(e.kind(), ErrorKind::NullHandle);
    assert_eq!(e.description(), "Cannot wrap nullptr in VipsImage");
}

#[test]
fn from_c_ptr_keeps_the_handle() {
    assert_eq!(VipsImage::from_c_ptr(1).unwrap().ptr, 1);
    assert_eq!(VipsImage::from_c_ptr(usize::MAX).unwrap().ptr, usize::MAX);
}

#[test]
fn new_asks_for_an_empty_image() {
    assert!(matches!(VipsImage::new(), EngineCall::ImageNew));
}

#[test]
fn new_from_file_hands_the_path_on() {
    match VipsImage::new_from_file(b"./data/test.jpg").unwrap() {
        EngineCall::ImageNewFromFile { path } => assert_eq!(path.as_bytes(), b"./data/test.jpg"),
        other => panic!("unexpected call {other:?}"),
    }
}

#[test]
fn new_from_file_takes_the_empty_path() {
    match VipsImage::new_from_file(b"").unwrap() {
        EngineCall::ImageNewFromFile { path } => assert_eq!(path.as_bytes(), b""),
        other => panic!("unexpected call {other:?}"),
    }
}

#[test]
fn new_from_file_refuses_a_path_that_is_no_text() {
    let e = VipsImage::new_from_file(&[0x66, 0xff, 0x6f]).unwrap_err();
    assert_eq!(e.kind(), ErrorKind::Conversion);
    assert_eq!(e.description(), "Could not convert path to string");
}

#[test]
fn new_from_file_refuses_a_zero_byte() {
    let e = VipsImage::new_from_file(b"a\0b.jpg").unwrap_err();
    assert_eq!(e.kind(), ErrorKind::Conversion);
    assert_eq!(e.description(), "Could not convert path to CString");
}

#[test]
fn path_that_is_no_text_is_refused_before_its_zero_byte() {
    let e = VipsImage::new_from_file(&[0xff, 0x00]).unwrap_err();
    assert_eq!(e.description(), "Could not convert path to string");
}

#[test]
fn new_from_memory_counts_the_bytes() {
    let data = [0u8; 12];
    match VipsImage::new_from_memory(&data, 2, 2, 3, 0) {
        EngineCall::ImageNewFromMemory { len, width, height, bands, format } => {
            assert_eq!((len, width, height, bands, format), (12, 2, 2, 3, 0));
        }
        other => panic!("unexpected call {other:?}"),
    }
    match VipsImage::new_from_memory_copy(&data, 3, 4, 1, 2) {
        EngineCall::ImageNewFromMemoryCopy { len, width, height, bands, format } => {
            assert_eq!((len, width, height, bands, format), (12, 3, 4, 1, 2));
        }
        other => panic!("unexpected call {other:?}"),
    }
}

#[test]
fn new_matrix_hands_the_size_on() {
    assert!(matches!(
        VipsImage::new_matrix(64, 64),
        EngineCall::ImageNewMatrix { width: 64, height: 64 }
    ));
}

#[test]
fn new_matrix_from_array_counts_the_values() {
    let values: Vec<u64> = [1.0f64, 2.0, 3.0, 4.0, 5.0, 6.0].iter().map(|v| v.to_bits()).collect();
    assert!(matches!(
        VipsImage::new_matrix_from_array(3, 2, &values).unwrap(),
        EngineCall::ImageNewMatrixFromArray { width: 3, height: 2, n: 6 }
    ));
    assert!(matches!(
        VipsImage::new_matrix_from_array(0, 0, &[]).unwrap(),
        EngineCall::ImageNewMatrixFromArray { width: 0, height: 0, n: 0 }
    ));
}

#[test]
fn array_length_fits_or_fails() {
    assert_eq!(array_length(0).unwrap(), 0);
    assert_eq!(array_length(2147483647).unwrap(), i32::MAX);
    let e = array_length(2147483648).unwrap_err();
    assert_eq!(e.kind(), ErrorKind::Conversion);
    assert_eq!(
        e.description(),
        "Could not convert convert `array.len()` to i32: out of range integral type conversion attempted"
    );
    assert_eq!(array_length(usize::MAX).unwrap_err().kind(), ErrorKind::Conversion);
}

#[test]
fn new_from_image_needs_an_image() {
    let image = VipsImage { ptr: 0x20 };
    let values = [0u64, 1, 2];
    assert!(matches!(
        VipsImage::new_from_image(&image, &values).unwrap(),
        EngineCall::ImageNewFromImage { image: 0x20, n: 3 }
    ));
    assert!(matches!(
        VipsImage::new_from_image1(&image, 7).unwrap(),
        EngineCall::ImageNewFromImage1 { image: 0x20, c: 7 }
    ));
    let nothing = VipsImage { ptr: 0 };
    assert_eq!(
        VipsImage::new_from_image(&nothing, &values).unwrap_err().kind(),
        ErrorKind::NullHandle
    );
    assert_eq!(VipsImage::new_from_image1(&nothing, 7).unwrap_err().kind(), ErrorKind::NullHandle);
}

#[test]
fn write_to_file_checks_the_path_and_then_the_handle() {
    let image = VipsImage { ptr: 0x20 };
    match image.write_to_file(b"./data/test_out.jpg").unwrap() {
        EngineCall::ImageWriteToFile { image, path } => {
            assert_eq!(image, 0x20);
            assert_eq!(path.as_bytes(), b"./data/test_out.jpg");
        }
        other => panic!("unexpected call {other:?}"),
    }
    let e = image.write_to_file(b"./data/te\0st.jpg").unwrap_err();
    assert_eq!(e.kind(), ErrorKind::Conversion);
    assert_eq!(e.description(), "nul byte found in provided data at position: 9");
    let e = image.write_to_file(&[0xc3, 0x28]).unwrap_err();
    assert_eq!(e.description(), "Could not convert path to string");
    let nothing = VipsImage { ptr: 0 };
    let e = nothing.write_to_file(b"out.jpg").unwrap_err();
    assert_eq!(e.kind(), ErrorKind::NullHandle);
    let e = nothing.write_to_file(b"o\0ut.jpg").unwrap_err();
    assert_eq!(e.kind(), ErrorKind::Conversion);
}

#[test]
fn nbands_needs_an_image() {
    assert!(matches!(
        VipsImage { ptr: 0x20 }.nbands().unwrap(),
        EngineCall::ImageGetBands { image: 0x20 }
    ));
    assert_eq!(VipsImage { ptr: 0 }.nbands().unwrap_err().kind(), ErrorKind::NullHandle);
    assert_eq!(
        VipsImage { ptr: 0 }.colourspace_issupported().unwrap_err().kind(),
        ErrorKind::NullHandle
    );
}

#[test]
fn share_and_release_ask_for_one_reference_each() {
    let image = VipsImage { ptr: 0x20 };
    let (mut second, call) = image.share();
    assert_eq!(second.ptr, 0x20);
    assert!(matches!(call, Some(EngineCall::ObjectRef { object: 0x20 })));
    assert!(matches!(second.release(), Some(EngineCall::ObjectUnref { object: 0x20 })));
    assert_eq!(second.ptr, 0);
    assert!(second.release().is_none());
}

#[test]
fn handle_of_no_image_is_shared_and_released_without_calls() {
    let mut nothing = VipsImage { ptr: 0 };
    let (second, call) = nothing.share();
    assert_eq!(second.ptr, 0);
    assert!(call.is_none());
    assert!(nothing.release().is_none());
}
