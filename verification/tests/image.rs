use ws63_rf::image::{validate, CodeInfo, ImageHeader};

fn make_header() -> ImageHeader {
    ImageHeader {
        code_info: CodeInfo {
            image_id: 1,
            structure_version: 0x0001_0000,
            structure_length: 0x200,
            signature_length: 64,
            code_area_len: 0x10000,
        },
    }
}

#[test]
fn test_validate_valid_header() {
    assert!(validate(&make_header()));
}

#[test]
fn test_reject_zero_image_id() {
    let mut h = make_header();
    h.code_info.image_id = 0;
    assert!(!validate(&h));
}

#[test]
fn test_reject_ffffffff_image_id() {
    let mut h = make_header();
    h.code_info.image_id = 0xFFFF_FFFF;
    assert!(!validate(&h));
}

#[test]
fn test_reject_zero_code_area_len() {
    let mut h = make_header();
    h.code_info.code_area_len = 0;
    assert!(!validate(&h));
}

#[test]
fn test_reject_too_large_image() {
    let mut h = make_header();
    h.code_info.code_area_len = 8 * 1024 * 1024;
    assert!(!validate(&h));
}

#[test]
fn test_accept_max_valid_code_area_len() {
    let mut h = make_header();
    h.code_info.code_area_len = 8 * 1024 * 1024 - 1;
    assert!(validate(&h));
}

#[test]
fn test_reject_zero_signature_length() {
    let mut h = make_header();
    h.code_info.signature_length = 0;
    assert!(!validate(&h));
}

#[test]
fn test_reject_excessive_signature_length() {
    let mut h = make_header();
    h.code_info.signature_length = 513;
    assert!(!validate(&h));
}

#[test]
fn test_accept_512_signature_length() {
    let mut h = make_header();
    h.code_info.signature_length = 512;
    assert!(validate(&h));
}

#[test]
fn test_reject_wrong_structure_version() {
    let mut h = make_header();
    h.code_info.structure_version = 0x0000_0001;
    assert!(!validate(&h));
}

#[test]
fn test_accept_valid_structure_lengths() {
    let mut h = make_header();
    h.code_info.structure_length = 0x200;
    assert!(validate(&h));
    h.code_info.structure_length = 0x400;
    assert!(validate(&h));
}

#[test]
fn test_reject_invalid_structure_length() {
    let mut h = make_header();
    h.code_info.structure_length = 0x300;
    assert!(!validate(&h));
}
