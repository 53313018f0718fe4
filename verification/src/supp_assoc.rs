//! Association requests of the supplicant: which requests the driver
//! accepts, the vendor request and crypto settings each becomes, and the
//! recovery of a failed association (one disconnect, then one retry).
use vstd::prelude::*;
use crate::supp_diag::vendor_sae_pwe;

verus! {

/// Longest association IE buffer the driver takes.
pub const MAX_ASSOCIATION_IE_LEN: usize = 768;
/// hostap management-frame protection: required (the highest value).
pub const PMF_REQUIRED: u8 = 2;
/// hostap SAE password element: hunting and pecking.
pub const SAE_PWE_HUNT_AND_PECK: u8 = 0;
/// hostap SAE password element: hash to element.
pub const SAE_PWE_HASH_TO_ELEMENT: u8 = 1;
/// hostap SAE password element: both.
pub const SAE_PWE_BOTH: u8 = 2;
/// Reason of the disconnect that clears stale station state.
pub const WLAN_REASON_PREV_AUTH_NOT_VALID: u16 = 2;

/// An association request of the supplicant, as plain values. The SSID
/// buffer holds `ssid_capacity` bytes; `association_ies_present` says
/// whether the IE pointer is set.
#[derive(Clone, Copy, Debug, PartialEq, Eq, Structural)]
pub struct AssociateSpec {
    pub abi_matches: bool,
    pub ssid_len: usize,
    pub ssid_capacity: usize,
    pub bssid_present: u8,
    pub pmf: u8,
    pub sae_pwe: u8,
    pub auth_type: u8,
    pub privacy: u8,
    pub frequency_mhz: u32,
    pub wpa_versions: u32,
    pub pairwise_suite: u32,
    pub group_suite: u32,
    pub key_mgmt_suite: u32,
    pub association_ies_len: usize,
    pub association_ies_present: bool,
}

/// The vendor crypto settings of an association.
#[derive(Clone, Copy, Debug, PartialEq, Eq)]
pub struct VendorCrypto {
    pub wpa_versions: u32,
    pub cipher_group: u32,
    pub num_pairwise: i32,
    pub pairwise: [u32; 5],
    pub num_akm: i32,
    pub akm: [u32; 2],
    pub sae_pwe: i32,
}

/// The vendor association request: the BSSID is passed only when present,
/// no static key is set and auto-connect is off.
#[derive(Clone, Copy, Debug, PartialEq, Eq)]
pub struct VendorAssociation {
    pub uses_bssid: bool,
    pub uses_ies: bool,
    pub auth_type: u8,
    pub privacy: u8,
    pub key_len: u8,
    pub key_index: u8,
    pub pmf: u8,
    pub auto_connect: u8,
    pub frequency_mhz: u32,
    pub ssid_len: u32,
    pub ies_len: u32,
    pub crypto: VendorCrypto,
}

/// Whether the driver accepts an association request: the ABI matches, the
/// SSID is non-empty and fits its buffer, the BSSID flag is 0 or 1, the PMF
/// and SAE-PWE values are known, the authentication is open (0) or SAE (3),
/// a frequency and the three suites are given, and the IEs fit (and are
/// present when announced).
pub open spec fn associate_accepted(spec: AssociateSpec) -> bool {
    &&& spec.abi_matches
    &&& spec.ssid_len != 0
    &&& spec.ssid_len <= spec.ssid_capacity
    &&& spec.bssid_present <= 1
    &&& spec.pmf <= PMF_REQUIRED
    &&& spec.sae_pwe <= SAE_PWE_BOTH
    &&& (spec.auth_type == 0 || spec.auth_type == 3)
    &&& spec.frequency_mhz != 0
    &&& spec.pairwise_suite != 0
    &&& spec.group_suite != 0
    &&& spec.key_mgmt_suite != 0
    &&& spec.association_ies_len <= MAX_ASSOCIATION_IE_LEN
    &&& (spec.association_ies_len != 0 ==> spec.association_ies_present)
}

/// The vendor SAE-PWE value (1, 2, 3) of a known hostap value.
pub open spec fn spec_vendor_pwe(sae_pwe: u8) -> i32 {
    (sae_pwe + 1) as i32
}

/// The vendor request of an accepted association request.
pub open spec fn spec_vendor_association(spec: AssociateSpec) -> VendorAssociation {
    VendorAssociation {
        uses_bssid: spec.bssid_present != 0,
        uses_ies: spec.association_ies_present,
        auth_type: spec.auth_type,
        privacy: spec.privacy,
        key_len: 0,
        key_index: 0,
        pmf: spec.pmf,
        auto_connect: 0,
        frequency_mhz: spec.frequency_mhz,
        ssid_len: spec.ssid_len as u32,
        ies_len: spec.association_ies_len as u32,
        crypto: VendorCrypto {
            wpa_versions: spec.wpa_versions,
            cipher_group: spec.group_suite,
            num_pairwise: 1,
            pairwise: [spec.pairwise_suite, 0, 0, 0, 0],
            num_akm: 1,
            akm: [spec.key_mgmt_suite, 0],
            sae_pwe: spec_vendor_pwe(spec.sae_pwe),
        },
    }
}

/// The vendor request carries the supplicant request's fields unchanged:
/// privacy, authentication type, PMF, frequency, SSID length (as the
/// driver's 32-bit field) and IE length, WPA versions and the three suites
/// (one pairwise suite, one AKM); the BSSID is used exactly when it is
/// present and the IEs exactly when they are; no
/// static key is set, auto-connect is off, and the SAE password element is
/// the hostap value plus one.
pub open spec fn forwards_request(spec: AssociateSpec, v: VendorAssociation) -> bool {
    &&& v.privacy == spec.privacy
    &&& v.auth_type == spec.auth_type
    &&& v.pmf == spec.pmf
    &&& v.frequency_mhz == spec.frequency_mhz
    &&& v.ssid_len == spec.ssid_len as u32
    &&& v.ies_len == spec.association_ies_len
    &&& v.uses_bssid == (spec.bssid_present == 1)
    &&& v.uses_ies == spec.association_ies_present
    &&& v.key_len == 0 && v.key_index == 0 && v.auto_connect == 0
    &&& v.crypto.wpa_versions == spec.wpa_versions
    &&& v.crypto.cipher_group == spec.group_suite
    &&& v.crypto.num_pairwise == 1 && v.crypto.pairwise[0] == spec.pairwise_suite
    &&& v.crypto.num_akm == 1 && v.crypto.akm[0] == spec.key_mgmt_suite
    &&& v.crypto.sae_pwe == spec.sae_pwe + 1
}

/// Every accepted association request is forwarded unchanged (see
/// [`forwards_request`]): a protected network is requested as protected,
/// with the suites and frequency the supplicant chose.
pub proof fn lemma_accepted_request_forwarded(spec: AssociateSpec)
    requires
        associate_accepted(spec),
    ensures
        forwards_request(spec, spec_vendor_association(spec)),
{
}

/// The vendor request for `spec`, or `None` (the driver answers -1) when it
/// is not accepted.
pub fn associate_request(spec: &AssociateSpec) -> (r: Option<VendorAssociation>)
    ensures
        !associate_accepted(*spec) ==> r is None,
        associate_accepted(*spec) ==> r == Some(spec_vendor_association(*spec)),
        associate_accepted(*spec) ==> (r matches Some(v) && forwards_request(*spec, v)),
{
    if !spec.abi_matches || spec.ssid_len == 0 || spec.ssid_len > spec.ssid_capacity || spec.bssid_present > 1
        || spec.pmf > PMF_REQUIRED || spec.sae_pwe > SAE_PWE_BOTH || !(spec.auth_type == 0 || spec.auth_type
        == 3) || spec.frequency_mhz == 0 || spec.pairwise_suite == 0 || spec.group_suite == 0
        || spec.key_mgmt_suite == 0 || spec.association_ies_len > MAX_ASSOCIATION_IE_LEN || (
    spec.association_ies_len != 0 && !spec.association_ies_present) {
        return None;
    }
    let sae_pwe = match vendor_sae_pwe(spec.sae_pwe, SAE_PWE_HUNT_AND_PECK, SAE_PWE_HASH_TO_ELEMENT, SAE_PWE_BOTH) {
        Some(v) => v,
        None => return None,
    };
    Some(
        VendorAssociation {
            uses_bssid: spec.bssid_present != 0,
            uses_ies: spec.association_ies_present,
            auth_type: spec.auth_type,
            privacy: spec.privacy,
            key_len: 0,
            key_index: 0,
            pmf: spec.pmf,
            auto_connect: 0,
            frequency_mhz: spec.frequency_mhz,
            ssid_len: spec.ssid_len as u32,
            ies_len: spec.association_ies_len as u32,
            crypto: VendorCrypto {
                wpa_versions: spec.wpa_versions,
                cipher_group: spec.group_suite,
                num_pairwise: 1,
                pairwise: [spec.pairwise_suite, 0, 0, 0, 0],
                num_akm: 1,
                akm: [spec.key_mgmt_suite, 0],
                sae_pwe,
            },
        },
    )
}

/// Where a running association stands.
#[derive(Clone, Copy, Debug, PartialEq, Eq, Structural)]
pub enum AssociateState {
    /// The first association request is out.
    First,
    /// It failed with `first`; the stale-state disconnect is out.
    Disconnecting { first: i32 },
    /// The disconnect went through; the single retry is out.
    Retrying { first: i32 },
    /// Finished.
    Done,
}

/// What the driver does next for an association.
#[derive(Clone, Copy, Debug, PartialEq, Eq, Structural)]
pub enum AssociateAction {
    /// Issue the association request again.
    Associate,
    /// Issue a disconnect with [`WLAN_REASON_PREV_AUTH_NOT_VALID`].
    Disconnect,
    /// Return this status.
    Finish(i32),
}

/// The next state and action after the request issued in `state` returned
/// `status`: a first association that fails is followed by a disconnect; a
/// disconnect that succeeds by one retry, one that fails ends with the first
/// status; the retry's status is final.
pub open spec fn spec_associate_next(state: AssociateState, status: i32) -> (AssociateState, AssociateAction) {
    match state {
        AssociateState::First => if status == 0 {
            (AssociateState::Done, AssociateAction::Finish(0))
        } else {
            (AssociateState::Disconnecting { first: status }, AssociateAction::Disconnect)
        },
        AssociateState::Disconnecting { first } => if status == 0 {
            (AssociateState::Retrying { first }, AssociateAction::Associate)
        } else {
            (AssociateState::Done, AssociateAction::Finish(first))
        },
        AssociateState::Retrying { first } => (AssociateState::Done, AssociateAction::Finish(status)),
        AssociateState::Done => (AssociateState::Done, AssociateAction::Finish(status)),
    }
}

/// [`spec_associate_next`].
pub fn associate_next(state: AssociateState, status: i32) -> (r: (AssociateState, AssociateAction))
    ensures
        r == spec_associate_next(state, status),
{
    match state {
        AssociateState::First => {
            if status == 0 {
                (AssociateState::Done, AssociateAction::Finish(0))
            } else {
                (AssociateState::Disconnecting { first: status }, AssociateAction::Disconnect)
            }
        },
        AssociateState::Disconnecting { first } => {
            if status == 0 {
                (AssociateState::Retrying { first }, AssociateAction::Associate)
            } else {
                (AssociateState::Done, AssociateAction::Finish(first))
            }
        },
        AssociateState::Retrying { first } => (AssociateState::Done, AssociateAction::Finish(status)),
        AssociateState::Done => (AssociateState::Done, AssociateAction::Finish(status)),
    }
}

/// An association issues at most two association requests and one
/// disconnect: from the first request, every run of answers finishes within
/// three steps, and it retries only after a failure and a clean disconnect.
pub proof fn lemma_associate_retries_once(first: i32, disconnect: i32, retry: i32)
    ensures
        ({
            let (s1, a1) = spec_associate_next(AssociateState::First, first);
            &&& first == 0 ==> a1 == AssociateAction::Finish(0)
            &&& first != 0 ==> a1 == AssociateAction::Disconnect && {
                let (s2, a2) = spec_associate_next(s1, disconnect);
                &&& disconnect != 0 ==> a2 == AssociateAction::Finish(first)
                &&& disconnect == 0 ==> a2 == AssociateAction::Associate
                    && spec_associate_next(s2, retry).1 == AssociateAction::Finish(retry)
            }
        }),
{
}

} // verus!
