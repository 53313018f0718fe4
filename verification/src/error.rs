//! `errcode_t` mapping for the public Wi-Fi API.
use vstd::prelude::*;

verus! {

/// Vendor `errcode_t` (0 = success).
pub type Errcode = u32;

/// `ERRCODE_SUCC`.
pub const ERRCODE_SUCC: Errcode = 0;

/// A non-zero vendor error code.
#[derive(Debug, Clone, Copy, PartialEq, Eq)]
pub struct WifiError(pub Errcode);

/// Map an `errcode_t` to a `Result`: success exactly for `ERRCODE_SUCC`,
/// otherwise the code itself wrapped as the error.
pub fn check(code: Errcode) -> (r: Result<(), WifiError>)
    ensures
        code == ERRCODE_SUCC ==> r is Ok,
        code != ERRCODE_SUCC ==> r == Err::<(), WifiError>(WifiError(code)),
{
    if code == ERRCODE_SUCC {
        Ok(())
    } else {
        Err(WifiError(code))
    }
}

} // verus!
