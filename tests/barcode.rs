use opencv::barcode::{
    barcode_types_from_codes, BarcodeDetector, BarcodeDetectorArgs, BarcodeDetectorTrait,
    BarcodeDetectorTraitConst, BarcodeType, EAN_13, EAN_8, NONE, UPC_A, UPC_E,
    UPC_EAN_EXTENSION,
};
use opencv::error::{STS_BAD_ARG, STS_NULL_PTR};

#[test]
fn barcode_type_codes_round_trip() {
    for code in [NONE, EAN_8, EAN_13, UPC_A, UPC_E, UPC_EAN_EXTENSION] {
        let t = BarcodeType::try_from_i32(code).unwrap();
        assert_eq!(t.to_i32(), code);
    }
}

#[test]
fn barcode_type_codes_match_native_values() {
    assert_eq!(BarcodeType::NONE.to_i32(), 0);
    assert_eq!(BarcodeType::EAN_8.to_i32(), 1);
    assert_eq!(BarcodeType::EAN_13.to_i32(), 2);
    assert_eq!(BarcodeType::UPC_A.to_i32(), 3);
    assert_eq!(BarcodeType::UPC_E.to_i32(), 4);
    assert_eq!(BarcodeType::UPC_EAN_EXTENSION.to_i32(), 5);
    assert_eq!(BarcodeType::try_from_i32(2).unwrap(), BarcodeType::EAN_13);
}

#[test]
fn barcode_type_unknown_code_fails() {
    for code in [-1, 6, 100, i32::MIN, i32::MAX] {
        let e = BarcodeType::try_from_i32(code).unwrap_err();
        assert_eq!(e.code, STS_BAD_ARG);
    }
}

#[test]
fn decoded_codes_become_types() {
    let types = barcode_types_from_codes(&vec![2, 1, 5]).unwrap();
    assert_eq!(
        types,
        vec![BarcodeType::EAN_13, BarcodeType::EAN_8, BarcodeType::UPC_EAN_EXTENSION]
    );
    assert_eq!(barcode_types_from_codes(&vec![]).unwrap(), vec![]);
}

#[test]
fn decoded_codes_with_unknown_code_fail() {
    let e = barcode_types_from_codes(&vec![2, 9, 1]).unwrap_err();
    assert_eq!(e.code, STS_BAD_ARG);
}

#[test]
fn detector_args_default_equals_empty_paths() {
    let def = BarcodeDetectorArgs::new_def();
    let full = BarcodeDetectorArgs::new("", "").unwrap();
    assert_eq!(def.prototxt_path, full.prototxt_path);
    assert_eq!(def.model_path, full.model_path);
    assert_eq!(def.prototxt_path, vec![0u8]);
}

#[test]
fn detector_args_marshal_paths() {
    let a = BarcodeDetectorArgs::new("sr.prototxt", "sr.caffemodel").unwrap();
    assert_eq!(a.prototxt_path, b"sr.prototxt\0".to_vec());
    assert_eq!(a.model_path, b"sr.caffemodel\0".to_vec());
}

#[test]
fn detector_args_refuse_zero_byte() {
    let e = BarcodeDetectorArgs::new("a\0b", "m").unwrap_err();
    assert_eq!(e.code, STS_BAD_ARG);
    let e = BarcodeDetectorArgs::new("p", "\0").unwrap_err();
    assert_eq!(e.code, STS_BAD_ARG);
}

#[test]
fn detector_handle_keeps_address() {
    let mut d = BarcodeDetector::from_raw(0x1000).unwrap();
    assert_eq!(d.as_raw_BarcodeDetector(), 0x1000);
    assert_eq!(d.as_raw_mut_BarcodeDetector(), 0x1000);
    assert_eq!(d.into_raw(), 0x1000);
}

#[test]
fn detector_handle_refuses_null() {
    let e = BarcodeDetector::from_raw(0).err().unwrap();
    assert_eq!(e.code, STS_NULL_PTR);
}
