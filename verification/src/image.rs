//! Structural sanity check of a flash image's code-info header.
//!
//! This is an integrity gate only: it does not authenticate the image.
use vstd::prelude::*;

verus! {

/// Structure version that every accepted code-info header carries.
pub const CODE_INFO_VERSION: u32 = 0x0001_0000;
/// Code-info structure length of ECC256/SM2-signed images.
pub const CODE_INFO_LEN_ECC: u32 = 0x200;
/// Code-info structure length of RSA3072-signed images.
pub const CODE_INFO_LEN_RSA: u32 = 0x400;
/// Largest accepted signature length in bytes.
pub const MAX_SIGNATURE_LEN: u32 = 512;
/// Signed bodies must be strictly shorter than this many bytes (8 MiB).
pub const CODE_AREA_LIMIT: u32 = 0x0080_0000;

/// The fields of `image_code_info_t` that the boot gate reads.
#[derive(Clone, Copy, Debug, PartialEq, Eq)]
pub struct CodeInfo {
    pub image_id: u32,
    pub structure_version: u32,
    pub structure_length: u32,
    pub signature_length: u32,
    pub code_area_len: u32,
}

/// An image header; only its code-info part is checked.
#[derive(Clone, Copy, Debug, PartialEq, Eq)]
pub struct ImageHeader {
    pub code_info: CodeInfo,
}

/// When a header looks bootable.
pub open spec fn header_is_bootable(header: ImageHeader) -> bool {
    let ci = header.code_info;
    &&& ci.image_id != 0
    &&& ci.image_id != 0xFFFF_FFFF
    &&& ci.structure_version == CODE_INFO_VERSION
    &&& (ci.structure_length == CODE_INFO_LEN_ECC || ci.structure_length == CODE_INFO_LEN_RSA)
    &&& 0 < ci.signature_length <= MAX_SIGNATURE_LEN
    &&& 0 < ci.code_area_len < CODE_AREA_LIMIT
}

/// Validate an image header structurally. Returns true if it looks bootable.
pub fn validate(header: &ImageHeader) -> (ok: bool)
    ensures
        ok == header_is_bootable(*header),
{
    let ci = &header.code_info;
    ci.image_id != 0
        && ci.image_id != 0xFFFF_FFFF
        && ci.structure_version == CODE_INFO_VERSION
        && (ci.structure_length == CODE_INFO_LEN_ECC || ci.structure_length == CODE_INFO_LEN_RSA)
        && ci.signature_length > 0
        && ci.signature_length <= MAX_SIGNATURE_LEN
        && ci.code_area_len > 0
        && ci.code_area_len < CODE_AREA_LIMIT
}

} // verus!
