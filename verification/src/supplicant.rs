//! Decisions of the native supplicant port: vendor status normalization,
//! frame parsing and framing, interface-name handling and the singleton port
//! registration state machine.
use vstd::prelude::*;
use vstd::slice::slice_subrange;
use crate::bytes::{le16, min_int};
use crate::backend::RuntimeError;

verus! {

/// Ethernet header length.
pub const ETHERNET_HEADER_LEN: usize = 14;
/// Largest EAPOL payload the port frames.
pub const MAX_EAPOL_PAYLOAD_LEN: usize = 800;
/// Largest EAPOL frame received from the driver.
pub const MAX_EAPOL_RX_FRAME_LEN: usize = 800;
/// Interface-name buffer capacity, terminating NUL included.
pub const IFNAME_CAPACITY: usize = 17;
/// Offset the vendor adds to IEEE association status codes.
pub const VENDOR_ASSOC_STATUS_OFFSET: u16 = 8_000;
/// Offset the vendor adds to IEEE authentication status codes.
pub const VENDOR_AUTH_STATUS_OFFSET: u16 = 7_000;
/// Largest standard IEEE status code.
pub const MAX_STANDARD_IEEE_STATUS: u16 = 255;
/// IEEE status: association rejected temporarily.
pub const WLAN_STATUS_ASSOC_REJECTED_TEMPORARILY: u16 = 30;
/// IEEE status: authentication timeout.
pub const WLAN_STATUS_AUTH_TIMEOUT: u16 = 16;
/// IEEE status: invalid PMKID.
pub const WLAN_STATUS_INVALID_PMKID: u16 = 53;
/// Element id of the Timeout Interval element.
pub const WLAN_EID_TIMEOUT_INTERVAL: u8 = 56;
/// Timeout Interval type: association comeback time.
pub const WLAN_TIMEOUT_ASSOC_COMEBACK: u8 = 3;
/// Comeback interval recorded when the response carries none.
pub const NO_COMEBACK_INTERVAL: u32 = 0xFFFF_FFFF;
/// The driver's "EAPOL receive queue empty" sentinel.
pub const EAPOL_RECEIVE_EMPTY: i32 = 0xffff;

/// The raw vendor status that asks for stale temporary-reject state to be cleared.
pub fn vendor_result_requires_stale_state_clear(raw_status: u16) -> (r: bool)
    ensures
        r == (raw_status == 8030),
{
    raw_status == VENDOR_ASSOC_STATUS_OFFSET + WLAN_STATUS_ASSOC_REJECTED_TEMPORARILY
}

/// The standard IEEE status behind a vendor association status: vendor codes
/// 8001..=8255 lose their offset; every other value is kept.
pub open spec fn spec_normalize_status(status: u16) -> u16 {
    if 8001 <= status <= 8255 {
        (status - 8000) as u16
    } else {
        status
    }
}

/// Strip the vendor offset from an association status code.
pub fn normalize_vendor_association_status(status: u16) -> (r: u16)
    ensures
        r == spec_normalize_status(status),
{
    match status.checked_sub(VENDOR_ASSOC_STATUS_OFFSET) {
        Some(standard) => {
            if standard != 0 && standard <= MAX_STANDARD_IEEE_STATUS {
                standard
            } else {
                status
            }
        },
        None => status,
    }
}

/// Vendor results delivered to the supplicant as an association reject:
/// invalid PMKID (8053) and authentication timeout (7016).
pub open spec fn spec_uses_association_reject(raw_status: u16) -> bool {
    raw_status == 8053 || raw_status == 7016
}

/// Whether a vendor association result is delivered as an association reject.
pub fn vendor_result_uses_association_reject(raw_status: u16) -> (r: bool)
    ensures
        r == spec_uses_association_reject(raw_status),
{
    raw_status == VENDOR_ASSOC_STATUS_OFFSET + WLAN_STATUS_INVALID_PMKID
        || raw_status == VENDOR_AUTH_STATUS_OFFSET + WLAN_STATUS_AUTH_TIMEOUT
}

/// Whether a vendor association result is delivered as a disconnect: every
/// failure that is not an association reject.
pub fn vendor_result_uses_disconnect(raw_status: u16) -> (r: bool)
    ensures
        r == (raw_status != 0 && !spec_uses_association_reject(raw_status)),
{
    raw_status != 0 && !vendor_result_uses_association_reject(raw_status)
}

/// Comeback interval (TUs) of the first association-comeback Timeout Interval
/// element, walking TLVs from `offset`; `None` on truncation or absence.
pub open spec fn comeback_from(ies: Seq<u8>, offset: int) -> Option<u32>
    decreases ies.len() - offset,
{
    if offset < 0 || ies.len() - offset < 2 {
        None
    } else {
        let length = ies[offset + 1] as int;
        let total = length + 2;
        if total > ies.len() - offset {
            None
        } else if ies[offset] == WLAN_EID_TIMEOUT_INTERVAL && length == 5 && ies[offset + 2]
            == WLAN_TIMEOUT_ASSOC_COMEBACK {
            Some(
                (ies[offset + 3] + 256 * ies[offset + 4] + 65536 * ies[offset + 5] + 16777216
                    * ies[offset + 6]) as u32,
            )
        } else {
            comeback_from(ies, offset + total)
        }
    }
}

/// Association comeback interval carried in the response IEs of a temporary reject.
pub fn association_comeback_interval(ies: &[u8]) -> (r: Option<u32>)
    ensures
        r == comeback_from(ies@, 0),
{
    let mut offset: usize = 0;
    while ies.len() - offset >= 2
        invariant
            offset <= ies.len(),
            comeback_from(ies@, 0) == comeback_from(ies@, offset as int),
        decreases ies.len() - offset,
    {
        let length = ies[offset + 1] as usize;
        let total = length + 2;
        if total > ies.len() - offset {
            return None;
        }
        if ies[offset] == WLAN_EID_TIMEOUT_INTERVAL && length == 5 && ies[offset + 2]
            == WLAN_TIMEOUT_ASSOC_COMEBACK {
            return Some(
                ies[offset + 3] as u32 + 256 * ies[offset + 4] as u32 + 65536 * ies[offset + 5] as u32
                    + 16777216 * ies[offset + 6] as u32,
            );
        }
        offset = offset + total;
    }
    None
}

/// The public fields of an 802.11 authentication frame header.
#[derive(Clone, Copy, Debug, Eq, PartialEq)]
pub struct AuthenticationHeader {
    pub algorithm: u16,
    pub transaction: u16,
    pub status: u16,
}

/// Authentication header of a management frame: at least 30 bytes with frame
/// control 0xb0; the little-endian algorithm, transaction and status follow the
/// 24-byte MAC header.
pub fn authentication_header(frame: &[u8]) -> (r: Option<AuthenticationHeader>)
    ensures
        frame@.len() < 30 || frame@[0] != 0xb0 ==> r is None,
        frame@.len() >= 30 && frame@[0] == 0xb0 ==> r == Some(AuthenticationHeader {
            algorithm: le16(frame@[24], frame@[25]),
            transaction: le16(frame@[26], frame@[27]),
            status: le16(frame@[28], frame@[29]),
        }),
{
    if frame.len() < 30 || frame[0] != 0xb0 {
        return None;
    }
    Some(AuthenticationHeader {
        algorithm: frame[24] as u16 + 256 * frame[25] as u16,
        transaction: frame[26] as u16 + 256 * frame[27] as u16,
        status: frame[28] as u16 + 256 * frame[29] as u16,
    })
}

/// Difference `a - b` modulo 2^32.
pub open spec fn wrapping_diff(a: u32, b: u32) -> int {
    if a >= b {
        a - b
    } else {
        a - b + 0x1_0000_0000
    }
}

/// Whether sequence `candidate` was issued before `current`, by wrapping
/// comparison: their modular difference, read as a signed 32-bit number, is
/// negative.
pub open spec fn spec_sequence_before(candidate: u32, current: u32) -> bool {
    wrapping_diff(candidate, current) >= 0x8000_0000
}

/// Wrapping "issued before" comparison of two sequence numbers.
pub fn sequence_before(candidate: u32, current: u32) -> (r: bool)
    ensures
        r == spec_sequence_before(candidate, current),
{
    let diff = candidate.wrapping_sub(current);
    assert(diff as int == wrapping_diff(candidate, current));
    let signed = diff as i32;
    assert((signed < 0) == (diff >= 0x8000_0000u32)) by (bit_vector)
        requires
            signed == diff as i32,
    ;
    signed < 0
}

/// Two sequence numbers issued `t1` and `t2` steps into the stream compare as
/// their issue order, when they are fewer than 2^31 steps apart.
pub proof fn lemma_sequence_order(t1: int, t2: int)
    requires
        t1 >= 0,
        t2 >= 0,
        t1 != t2,
        -0x8000_0000 < t1 - t2 < 0x8000_0000,
    ensures
        spec_sequence_before((t1 % 0x1_0000_0000) as u32, (t2 % 0x1_0000_0000) as u32) == (t1 < t2),
{
    let a = t1 % 0x1_0000_0000;
    let b = t2 % 0x1_0000_0000;
    let q1 = t1 / 0x1_0000_0000;
    let q2 = t2 / 0x1_0000_0000;
    assert(t1 == q1 * 0x1_0000_0000 + a) by (nonlinear_arith)
        requires
            a == t1 % 0x1_0000_0000,
            q1 == t1 / 0x1_0000_0000,
    ;
    assert(t2 == q2 * 0x1_0000_0000 + b) by (nonlinear_arith)
        requires
            b == t2 % 0x1_0000_0000,
            q2 == t2 / 0x1_0000_0000,
    ;
    assert(0 <= a < 0x1_0000_0000 && 0 <= b < 0x1_0000_0000);
    let d = a - b;
    assert(t1 - t2 == (q1 - q2) * 0x1_0000_0000 + d) by (nonlinear_arith)
        requires
            t1 == q1 * 0x1_0000_0000 + a,
            t2 == q2 * 0x1_0000_0000 + b,
            d == a - b,
    ;
    let k = q1 - q2;
    assert(-1 <= k <= 1) by (nonlinear_arith)
        requires
            t1 - t2 == k * 0x1_0000_0000 + d,
            -0x1_0000_0000 < d < 0x1_0000_0000,
            -0x8000_0000 < t1 - t2 < 0x8000_0000,
    ;
}

/// Whether the opaque context layout reported by the C side is usable: a
/// non-zero size and a power-of-two alignment at least that of `usize`.
pub open spec fn spec_valid_context_layout(size: usize, alignment: usize) -> bool {
    size != 0 && alignment >= vstd::layout::align_of::<usize>() && is_pow2(alignment as nat)
}

/// Powers of two.
pub open spec fn is_pow2(n: nat) -> bool
    decreases n,
{
    if n == 0 {
        false
    } else if n == 1 {
        true
    } else {
        n % 2 == 0 && is_pow2(n / 2)
    }
}

/// Whether `n` is a power of two.
pub fn is_power_of_two(n: usize) -> (r: bool)
    ensures
        r == is_pow2(n as nat),
{
    if n == 0 {
        return false;
    }
    let mut v = n;
    while v != 1
        invariant
            v != 0,
            is_pow2(n as nat) == is_pow2(v as nat),
        decreases v,
    {
        if v % 2 != 0 {
            return false;
        }
        v = v / 2;
    }
    true
}

/// Validate the opaque context layout of the linked C implementation.
pub fn valid_context_layout(size: usize, alignment: usize) -> (r: bool)
    ensures
        r == spec_valid_context_layout(size, alignment),
{
    vstd::layout::layout_for_type_is_valid::<usize>();
    size != 0 && alignment >= core::mem::align_of::<usize>() && is_power_of_two(alignment)
}

/// The Ethernet frame carrying an EAPOL payload: destination, source, the
/// EAPOL ethertype 0x888e, then the payload.
pub open spec fn spec_eapol_frame(destination: Seq<u8>, source: Seq<u8>, payload: Seq<u8>) -> Seq<u8> {
    destination + source + seq![0x88u8, 0x8eu8] + payload
}

/// Frame an EAPOL payload (1..=800 bytes) into `storage`; returns the frame.
pub fn build_eapol_frame<'a>(
    destination: &[u8; 6],
    source: &[u8; 6],
    payload: &[u8],
    storage: &'a mut [u8; 814],
) -> (frame: Option<&'a [u8]>)
    ensures
        payload@.len() == 0 || payload@.len() > MAX_EAPOL_PAYLOAD_LEN ==> frame is None,
        0 < payload@.len() <= MAX_EAPOL_PAYLOAD_LEN ==> (frame matches Some(f) && f@ == spec_eapol_frame(
            destination@,
            source@,
            payload@,
        )),
{
    if payload.len() == 0 || payload.len() > MAX_EAPOL_PAYLOAD_LEN {
        return None;
    }
    let total = ETHERNET_HEADER_LEN + payload.len();
    let mut index: usize = 0;
    while index < total
        invariant
            index <= total,
            total == 14 + payload@.len(),
            payload@.len() <= 800,
            storage@.len() == 814,
            forall|i: int| 0 <= i < index ==> storage@[i] == spec_eapol_frame(destination@, source@, payload@)[i],
        decreases total - index,
    {
        let byte = if index < 6 {
            destination[index]
        } else if index < 12 {
            source[index - 6]
        } else if index == 12 {
            0x88u8
        } else if index == 13 {
            0x8eu8
        } else {
            payload[index - 14]
        };
        storage[index] = byte;
        index += 1;
    }
    let frame = slice_subrange(storage.as_slice(), 0, total);
    assert(frame@ =~= spec_eapol_frame(destination@, source@, payload@));
    Some(frame)
}

/// How one driver EAPOL receive status continues a drain batch: 0 delivered a
/// frame, the 0xffff sentinel means the queue is empty, anything else fails.
pub fn classify_eapol_receive(status: i32) -> (r: Result<bool, i32>)
    ensures
        status == 0 ==> r == Ok::<bool, i32>(true),
        status == EAPOL_RECEIVE_EMPTY ==> r == Ok::<bool, i32>(false),
        status != 0 && status != EAPOL_RECEIVE_EMPTY ==> r == Err::<bool, i32>(status),
{
    if status == 0 {
        Ok(true)
    } else if status == EAPOL_RECEIVE_EMPTY {
        Ok(false)
    } else {
        Err(status)
    }
}

/// Validate a received EAPOL Ethernet frame of reported length `len` in a
/// receive buffer: longer than the header, within the buffer, with the EAPOL
/// ethertype. On success the source address is bytes 6..12 and the payload
/// bytes 14..len.
pub fn eapol_rx_frame_is_valid(frame: &[u8], len: usize) -> (ok: bool)
    ensures
        ok == (len > 14 && len <= frame@.len() && frame@[12] == 0x88 && frame@[13] == 0x8e),
{
    len > ETHERNET_HEADER_LEN && len <= frame.len() && frame[12] == 0x88 && frame[13] == 0x8e
}

/// A usable interface name: 1..=16 bytes without NUL.
pub open spec fn spec_valid_ifname(ifname: Seq<u8>) -> bool {
    &&& 0 < ifname.len() < IFNAME_CAPACITY
    &&& forall|i: int| 0 <= i < ifname.len() ==> ifname[i] != 0
}

/// Whether a stored NUL-padded name, up to its first NUL, equals `ifname`;
/// a stored name without NUL matches nothing.
pub open spec fn name_matches(stored: Seq<u8>, ifname: Seq<u8>) -> bool {
    exists|len: int| 0 <= len < 17 && stored[len] == 0 && (forall|i: int| 0 <= i < len ==> stored[i] != 0)
        && stored.subrange(0, len) == ifname
}

/// The interface name shared with the driver callbacks.
pub struct DriverContext {
    ifname: [u8; 17],
    send_action_cookie: u64,
}

impl DriverContext {
    /// The stored NUL-padded interface name.
    pub closed spec fn name(&self) -> Seq<u8> {
        self.ifname@
    }

    /// The management-frame cookie slot.
    pub closed spec fn cookie(&self) -> u64 {
        self.send_action_cookie
    }

    /// An empty context.
    pub fn new() -> (c: Self)
        ensures
            c.name() == Seq::new(17, |i: int| 0u8),
            c.cookie() == 0,
    {
        let c = DriverContext { ifname: [0u8; 17], send_action_cookie: 0 };
        assert(c.ifname@ =~= Seq::new(17, |i: int| 0u8));
        c
    }

    /// Store a valid interface name (NUL-padded) and reset the cookie; an
    /// invalid name leaves the context unchanged.
    pub fn initialize(&mut self, ifname: &[u8]) -> (ok: bool)
        ensures
            ok == spec_valid_ifname(ifname@),
            ok ==> final(self).name() == Seq::new(17, |i: int| if i < ifname@.len() { ifname@[i] } else { 0u8 })
                && final(self).cookie() == 0,
            !ok ==> final(self).name() == old(self).name() && final(self).cookie() == old(self).cookie(),
    {
        if ifname.len() == 0 || ifname.len() >= IFNAME_CAPACITY {
            return false;
        }
        let mut index: usize = 0;
        while index < ifname.len()
            invariant
                index <= ifname.len(),
                forall|i: int| 0 <= i < index ==> ifname@[i] != 0,
            decreases ifname.len() - index,
        {
            if ifname[index] == 0 {
                return false;
            }
            index += 1;
        }
        let mut stored = [0u8; 17];
        let mut index: usize = 0;
        while index < ifname.len()
            invariant
                index <= ifname.len() < 17,
                stored@.len() == 17,
                forall|i: int| 0 <= i < 17 ==> stored@[i] == if i < index { ifname@[i] } else { 0u8 },
            decreases ifname.len() - index,
        {
            stored[index] = ifname[index];
            index += 1;
        }
        self.ifname = stored;
        self.send_action_cookie = 0;
        assert(self.ifname@ =~= Seq::new(17, |i: int| if i < ifname@.len() { ifname@[i] } else { 0u8 }));
        true
    }

    /// Whether the stored name (up to its first NUL) equals `ifname`; a
    /// stored name without NUL matches nothing.
    pub fn matches(&self, ifname: &[u8]) -> (r: bool)
        ensures
            r == name_matches(self.name(), ifname@),
    {
        let mut len: usize = 0;
        while len < 17 && self.ifname[len] != 0
            invariant
                len <= 17,
                forall|i: int| 0 <= i < len ==> self.ifname@[i] != 0,
            decreases 17 - len,
        {
            len += 1;
        }
        if len == 17 {
            return false;
        }
        if ifname.len() != len {
            assert(self.name().subrange(0, len as int).len() != ifname@.len());
            return false;
        }
        let mut index: usize = 0;
        while index < len
            invariant
                index <= len < 17,
                ifname@.len() == len,
                forall|i: int| 0 <= i < index ==> self.ifname@[i] == ifname@[i],
            decreases len - index,
        {
            if self.ifname[index] != ifname[index] {
                assert(self.name().subrange(0, len as int)[index as int] != ifname@[index as int]);
                return false;
            }
            index += 1;
        }
        assert(self.name().subrange(0, len as int) =~= ifname@);
        true
    }

    /// The stored NUL-padded interface name.
    pub fn ifname(&self) -> (name: &[u8; 17])
        ensures
            name@ == self.name(),
    {
        &self.ifname
    }
}

/// Registration state of the singleton supplicant port.
#[derive(Clone, Copy, Debug, Eq, PartialEq)]
pub enum PortState {
    Free,
    Installing,
    Ready,
    Poisoned,
}

/// Failure while registering the supplicant native runtime seam.
#[derive(Clone, Copy, Debug, Eq, PartialEq)]
pub enum UpstreamSupplicantPortError {
    /// The application has not installed a runtime or exhausted its resources.
    Runtime(RuntimeError),
    /// The interface name is empty, contains NUL, or exceeds the ABI.
    InvalidInterfaceName,
    /// Another context is currently installing the singleton port.
    Busy,
    /// A previous failed rollback left the singleton registration uncertain.
    Poisoned,
    /// The singleton is already installed for another interface.
    InterfaceConflict,
    /// The C ABI rejected the hook table or another runtime already owns it.
    Abi(i32),
    /// Driver installation failed and the OS hook rollback also failed.
    Rollback { install: i32, rollback: i32 },
}

/// What registration does next after looking at the port state.
#[derive(Clone, Copy, Debug, Eq, PartialEq)]
pub enum PortBegin {
    /// The port is ready for this very interface: nothing to do.
    AlreadyReady,
    /// The port is now installing with the given name: install the hooks.
    Install,
}

/// The stored form of a valid interface name: NUL-padded to the capacity.
pub open spec fn padded_name(ifname: Seq<u8>) -> Seq<u8> {
    Seq::new(17, |i: int| if i < ifname.len() { ifname[i] } else { 0u8 })
}

/// What beginning a registration for `ifname` answers, from the port state
/// and the stored name: a ready port accepts only its own interface, an
/// installing or poisoned port refuses, a free port takes any valid name.
pub open spec fn begin_result(state: PortState, name: Seq<u8>, ifname: Seq<u8>) -> Result<
    PortBegin,
    UpstreamSupplicantPortError,
> {
    match state {
        PortState::Ready => if name_matches(name, ifname) {
            Ok(PortBegin::AlreadyReady)
        } else {
            Err(UpstreamSupplicantPortError::InterfaceConflict)
        },
        PortState::Installing => Err(UpstreamSupplicantPortError::Busy),
        PortState::Poisoned => Err(UpstreamSupplicantPortError::Poisoned),
        PortState::Free => if spec_valid_ifname(ifname) {
            Ok(PortBegin::Install)
        } else {
            Err(UpstreamSupplicantPortError::InvalidInterfaceName)
        },
    }
}

/// The port state after beginning a registration: a free port that took the
/// name is installing; every other state stays.
pub open spec fn begin_state(state: PortState, ifname: Seq<u8>) -> PortState {
    if state == PortState::Free && spec_valid_ifname(ifname) {
        PortState::Installing
    } else {
        state
    }
}

/// The stored name after beginning a registration: the new padded name when
/// a free port took it, else the old one.
pub open spec fn begin_name(state: PortState, name: Seq<u8>, ifname: Seq<u8>) -> Seq<u8> {
    if state == PortState::Free && spec_valid_ifname(ifname) {
        padded_name(ifname)
    } else {
        name
    }
}

/// Registering again the interface a port became ready for succeeds and
/// changes nothing; any other valid name is refused as a conflict.
pub proof fn lemma_ready_registration_is_idempotent(ifname: Seq<u8>, other: Seq<u8>)
    requires
        spec_valid_ifname(ifname),
        spec_valid_ifname(other),
        other != ifname,
    ensures
        begin_result(PortState::Ready, padded_name(ifname), ifname) == Ok::<
            PortBegin,
            UpstreamSupplicantPortError,
        >(PortBegin::AlreadyReady),
        begin_state(PortState::Ready, ifname) == PortState::Ready,
        begin_name(PortState::Ready, padded_name(ifname), ifname) == padded_name(ifname),
        begin_result(PortState::Ready, padded_name(ifname), other) == Err::<
            PortBegin,
            UpstreamSupplicantPortError,
        >(UpstreamSupplicantPortError::InterfaceConflict),
{
    let stored = padded_name(ifname);
    let n = ifname.len() as int;
    assert(stored.subrange(0, n) =~= ifname);
    assert(stored[n] == 0 && forall|i: int| 0 <= i < n ==> stored[i] != 0);
    assert(name_matches(stored, ifname));
    if name_matches(stored, other) {
        let len = choose|len: int|
            0 <= len < 17 && stored[len] == 0 && (forall|i: int| 0 <= i < len ==> stored[i] != 0)
                && stored.subrange(0, len) == other;
        if len < n {
            assert(stored[len] != 0);
        } else if len > n {
            assert(stored[n] != 0);
        }
        assert(other =~= ifname);
    }
}

/// Singleton registration of the supplicant port.
pub struct PortRegistration {
    pub state: PortState,
    pub context: DriverContext,
}

impl PortRegistration {
    /// Decide the first step of a registration for `ifname`: a ready port
    /// accepts only its own interface; an installing or poisoned port refuses;
    /// a free port stores the name (refusing an invalid one) and becomes installing.
    pub fn begin(&mut self, ifname: &[u8]) -> (r: Result<PortBegin, UpstreamSupplicantPortError>)
        ensures
            r == begin_result(old(self).state, old(self).context.name(), ifname@),
            final(self).state == begin_state(old(self).state, ifname@),
            final(self).context.name() == begin_name(old(self).state, old(self).context.name(), ifname@),
    {
        match self.state {
            PortState::Ready => {
                if self.context.matches(ifname) {
                    Ok(PortBegin::AlreadyReady)
                } else {
                    Err(UpstreamSupplicantPortError::InterfaceConflict)
                }
            },
            PortState::Installing => Err(UpstreamSupplicantPortError::Busy),
            PortState::Poisoned => Err(UpstreamSupplicantPortError::Poisoned),
            PortState::Free => {
                if !self.context.initialize(ifname) {
                    return Err(UpstreamSupplicantPortError::InvalidInterfaceName);
                }
                self.state = PortState::Installing;
                Ok(PortBegin::Install)
            },
        }
    }

    /// Outcome of installing the OS hooks: failure frees the port.
    pub fn os_installed(&mut self, status: i32) -> (r: Result<(), UpstreamSupplicantPortError>)
        requires
            old(self).state == PortState::Installing,
        ensures
            status == 0 ==> r is Ok && final(self).state == PortState::Installing,
            status != 0 ==> r == Err::<(), UpstreamSupplicantPortError>(UpstreamSupplicantPortError::Abi(status))
                && final(self).state == PortState::Free,
            final(self).context.name() == old(self).context.name(),
    {
        if status != 0 {
            self.state = PortState::Free;
            return Err(UpstreamSupplicantPortError::Abi(status));
        }
        Ok(())
    }

    /// Outcome of installing the driver hooks: success makes the port ready;
    /// failure needs the OS hooks rolled back (`Err` carries the install status).
    pub fn driver_installed(&mut self, status: i32) -> (r: Result<(), i32>)
        requires
            old(self).state == PortState::Installing,
        ensures
            status == 0 ==> r is Ok && final(self).state == PortState::Ready,
            status != 0 ==> r == Err::<(), i32>(status) && final(self).state == PortState::Installing,
            final(self).context.name() == old(self).context.name(),
    {
        if status == 0 {
            self.state = PortState::Ready;
            return Ok(());
        }
        Err(status)
    }

    /// Outcome of rolling back the OS hooks after a driver install failure:
    /// a clean rollback frees the port, a failed one poisons it.
    pub fn rolled_back(&mut self, install: i32, rollback: i32) -> (r: UpstreamSupplicantPortError)
        requires
            old(self).state == PortState::Installing,
        ensures
            rollback == 0 ==> r == UpstreamSupplicantPortError::Abi(install) && final(self).state == PortState::Free,
            rollback != 0 ==> r == (UpstreamSupplicantPortError::Rollback { install, rollback })
                && final(self).state == PortState::Poisoned,
            final(self).context.name() == old(self).context.name(),
    {
        if rollback == 0 {
            self.state = PortState::Free;
            UpstreamSupplicantPortError::Abi(install)
        } else {
            self.state = PortState::Poisoned;
            UpstreamSupplicantPortError::Rollback { install, rollback }
        }
    }
}

/// The steps of a registration before the hook tables are installed: the
/// runner's wake primitive must exist (`wake` is what creating it gave),
/// then the port state decides ([`PortRegistration::begin`]). A runtime
/// failure leaves the port untouched.
pub fn prepare_upstream_supplicant_port(
    port: &mut PortRegistration,
    wake: Result<(), RuntimeError>,
    ifname: &[u8],
) -> (r: Result<PortBegin, UpstreamSupplicantPortError>)
    ensures
        wake matches Err(e) ==> r == Err::<PortBegin, UpstreamSupplicantPortError>(
            UpstreamSupplicantPortError::Runtime(e),
        ) && final(port).state == old(port).state && final(port).context.name() == old(port).context.name(),
        wake is Ok ==> r == begin_result(old(port).state, old(port).context.name(), ifname@)
            && final(port).state == begin_state(old(port).state, ifname@)
            && final(port).context.name() == begin_name(old(port).state, old(port).context.name(), ifname@),
{
    match wake {
        Err(e) => Err(UpstreamSupplicantPortError::Runtime(e)),
        Ok(()) => port.begin(ifname),
    }
}

/// New drops of a queue since the last look: the wrapping difference of the
/// drop counter, when it moved.
pub fn overflow_delta(dropped: u32, seen: u32) -> (r: Option<u32>)
    ensures
        dropped == seen ==> r is None,
        dropped != seen ==> r == Some(wrapping_diff(dropped, seen) as u32),
{
    if dropped == seen {
        None
    } else {
        Some(dropped.wrapping_sub(seen))
    }
}

} // verus!
