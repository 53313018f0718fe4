//! Scan results, network selection and event decoding of the WS63 station.
//!
//! The vendor runtime owns the radio state machines; this module holds what
//! the adapter decides: how vendor scan records become [`ScanResult`]s, which
//! scan results may be joined, and how completion events end a wait.
use vstd::prelude::*;
use vstd::slice::slice_subrange;

verus! {

/// Capacity of an interface name, terminating NUL included.
pub const IFNAME_CAPACITY: usize = 17;
/// Longest SSID in bytes.
pub const SSID_CAPACITY: usize = 32;
/// Longest WPA passphrase buffer (63 characters, or a 64-digit hex PSK).
pub const WPA_KEY_CAPACITY: usize = 64;
/// Largest IE buffer copied out of a vendor scan event.
pub const MAX_IE_LENGTH: usize = 2304;
/// Maximum number of access points retained from one scan.
pub const MAX_SCAN_RESULTS: usize = 32;

/// Result of the vendor scan operation.
#[derive(Debug, Clone, Copy, PartialEq, Eq)]
pub enum ScanStatus {
    /// The driver completed the scan.
    Success,
    /// The driver reported a generic failure.
    Failed,
    /// The driver refused to start or continue the scan.
    Refused,
    /// The driver timed out internally.
    Timeout,
    /// A newer vendor runtime returned a status this crate does not know yet.
    Unknown(u32),
}

/// The status named by a raw vendor scan-done code.
pub open spec fn spec_scan_status(raw: u32) -> ScanStatus {
    if raw == 0 {
        ScanStatus::Success
    } else if raw == 1 {
        ScanStatus::Failed
    } else if raw == 2 {
        ScanStatus::Refused
    } else if raw == 3 {
        ScanStatus::Timeout
    } else {
        ScanStatus::Unknown(raw)
    }
}

impl ScanStatus {
    /// Decode the vendor `ext_scan_status_enum` byte.
    pub fn from_raw(raw: u32) -> (status: Self)
        ensures
            status == spec_scan_status(raw),
    {
        match raw {
            0 => ScanStatus::Success,
            1 => ScanStatus::Failed,
            2 => ScanStatus::Refused,
            3 => ScanStatus::Timeout,
            value => ScanStatus::Unknown(value),
        }
    }
}

/// Security classification available from the scan result's capability bits.
#[derive(Debug, Clone, Copy, PartialEq, Eq)]
pub enum ScanSecurity {
    /// IEEE 802.11 privacy is not advertised; no link-layer key is required.
    Open,
    /// Privacy is advertised. WPA/WPA2/WPA3 details require parsing the IEs.
    Protected,
}

/// One bounded scan result copied out of the vendor event buffer. The SSID
/// and the security details are read through methods; what they hold is
/// [`ScanResultView`].
#[derive(Debug, Clone, Copy, PartialEq, Eq)]
pub struct ScanResult {
    ssid: [u8; 32],
    ssid_len: u8,
    /// Basic service set identifier.
    pub bssid: [u8; 6],
    /// Center frequency in MHz.
    pub frequency_mhz: u16,
    /// Signal strength in dBm.
    pub rssi_dbm: i16,
    security: ScanSecurity,
    auth_mode: i32,
    pairwise: i32,
    channel: u8,
}

/// What a scan result holds.
pub struct ScanResultView {
    /// The advertised SSID, at most 32 bytes.
    pub ssid: Seq<u8>,
    pub bssid: [u8; 6],
    pub frequency_mhz: u16,
    pub rssi_dbm: i16,
    /// Coarse security classification.
    pub security: ScanSecurity,
    /// Vendor authentication mode (0 = open, 2 = WPA2-PSK).
    pub auth_mode: i32,
    /// Vendor pairwise cipher (1 = AES/CCMP).
    pub pairwise: i32,
    /// Primary channel.
    pub channel: u8,
}

/// The meaningful part of a 32-byte SSID buffer holding `len` bytes (never
/// more than the buffer).
pub open spec fn ssid_prefix(buffer: Seq<u8>, len: u8) -> Seq<u8> {
    buffer.subrange(0, if len <= 32 { len as int } else { 32 })
}

/// The first `n` bytes of `bytes` followed by NUL bytes up to `cap`.
pub open spec fn nul_padded(bytes: Seq<u8>, cap: int) -> Seq<u8> {
    Seq::new(cap as nat, |i: int| if i < bytes.len() { bytes[i] } else { 0u8 })
}

impl ScanResult {
    /// The SSID and security details.
    pub closed spec fn view(&self) -> ScanResultView {
        ScanResultView {
            ssid: ssid_prefix(self.ssid@, self.ssid_len),
            bssid: self.bssid,
            frequency_mhz: self.frequency_mhz,
            rssi_dbm: self.rssi_dbm,
            security: self.security,
            auth_mode: self.auth_mode,
            pairwise: self.pairwise,
            channel: self.channel,
        }
    }

    /// The empty result: no SSID, open, all numbers zero.
    pub open spec fn is_empty(self) -> bool {
        &&& self@.ssid.len() == 0
        &&& self@.bssid@ == Seq::new(6, |i: int| 0u8)
        &&& self@.frequency_mhz == 0
        &&& self@.rssi_dbm == 0
        &&& self@.security == ScanSecurity::Open
        &&& self@.auth_mode == 0
        &&& self@.pairwise == 0
        &&& self@.channel == 0
    }

    /// Empty value for caller-provided scan buffers.
    pub fn empty() -> (r: Self)
        ensures
            r.is_empty(),
    {
        let r = ScanResult {
            ssid: [0u8; 32],
            ssid_len: 0,
            bssid: [0u8; 6],
            frequency_mhz: 0,
            rssi_dbm: 0,
            security: ScanSecurity::Open,
            auth_mode: 0,
            pairwise: 0,
            channel: 0,
        };
        assert(r.bssid@ =~= Seq::new(6, |i: int| 0u8));
        r
    }

    /// SSID bytes exactly as advertised by the access point.
    pub fn ssid(&self) -> (s: &[u8])
        ensures
            s@ == self@.ssid,
    {
        let len: usize = if self.ssid_len <= 32 { self.ssid_len as usize } else { 32 };
        slice_subrange(self.ssid.as_slice(), 0, len)
    }

    /// Coarse security classification reported by this beacon/probe response.
    pub fn security(&self) -> (s: ScanSecurity)
        ensures
            s == self@.security,
    {
        self.security
    }

    /// Primary channel of the access point.
    pub fn channel(&self) -> (c: u8)
        ensures
            c == self@.channel,
    {
        self.channel
    }
}

/// Every scan result's SSID is at most 32 bytes.
pub proof fn lemma_scan_ssid_bounded(r: ScanResult)
    ensures
        r@.ssid.len() <= 32,
{
}

/// A discovered open network that can be associated without a key.
#[derive(Debug, Clone, Copy, PartialEq, Eq)]
pub struct OpenNetwork {
    ssid: [u8; 32],
    ssid_len: u8,
    bssid: [u8; 6],
    frequency_mhz: u16,
}

/// What an open network holds.
pub struct OpenNetworkView {
    /// The SSID, at most 32 bytes.
    pub ssid: Seq<u8>,
    pub bssid: [u8; 6],
    pub frequency_mhz: u16,
}

/// A discovered WPA2-Personal/CCMP network and validated ASCII passphrase.
#[derive(Debug, Clone, Copy, PartialEq, Eq)]
pub struct PersonalNetwork {
    ssid: [u8; 32],
    ssid_len: u8,
    bssid: [u8; 6],
    auth_mode: i32,
    pairwise: i32,
    channel: u8,
    key: [u8; 65],
    key_len: u8,
}

/// What a personal network holds.
pub struct PersonalNetworkView {
    /// The SSID, at most 32 bytes.
    pub ssid: Seq<u8>,
    pub bssid: [u8; 6],
    pub auth_mode: i32,
    pub pairwise: i32,
    pub channel: u8,
    /// The passphrase, at most 64 bytes.
    pub passphrase: Seq<u8>,
    /// The whole 65-byte key buffer handed to the driver.
    pub key: Seq<u8>,
}

/// Successful station association reported by the vendor runtime.
#[derive(Debug, Clone, Copy, PartialEq, Eq)]
pub struct ConnectionInfo {
    /// BSSID selected by the firmware.
    pub bssid: [u8; 6],
    /// Associated center frequency in MHz.
    pub frequency_mhz: u16,
}

/// Error returned by the thin Wi-Fi adapter.
#[derive(Debug, Clone, Copy, PartialEq, Eq)]
pub enum Error {
    /// The single vendor Wi-Fi runtime was already claimed.
    AlreadyInitialized,
    /// `uapi_wifi_init` failed with the enclosed vendor error code.
    Initialize(u32),
    /// The vendor WAL failed to create the station netdev.
    CreateStation(i32),
    /// Another callback already owns the vendor event channel.
    RegisterEvents(i32),
    /// The vendor refused to open the station netdev.
    OpenStation(i32),
    /// The mask-ROM TCXO driver failed to initialize.
    Timebase(u32),
    /// A scan is already in progress.
    Busy,
    /// The selected network has an empty or otherwise unusable SSID.
    InvalidSsid,
    /// The selected AP advertises link-layer privacy and is not an open network.
    ProtectedNetwork,
    /// The selected AP is open and cannot be used as a WPA personal network.
    OpenNetwork,
    /// The scan reported a security mode this adapter does not support yet.
    UnsupportedSecurity(i32),
    /// WPA personal passphrases must be 8-63 printable ASCII bytes.
    InvalidPassphrase,
    /// The vendor scan ioctl failed.
    StartScan(i32),
    /// The scan finished with a non-success vendor status.
    ScanFailed(ScanStatus),
    /// The vendor refused to start the association.
    StartConnect(i32),
    /// Association completed with an IEEE 802.11 status other than success.
    ConnectFailed(u16),
    /// The station disconnected while association was pending.
    Disconnected(u16),
    /// Rust stopped waiting before the vendor emitted scan-done.
    Timeout,
    /// This API only runs on the WS63 RISC-V target.
    UnsupportedTarget,
}

/// Center frequency of a 2.4 GHz channel, 0 for channels outside 1..=14.
pub open spec fn spec_channel_to_frequency(channel: u8) -> u16 {
    if channel == 14 {
        2484
    } else if 1 <= channel <= 13 {
        (2407 + channel * 5) as u16
    } else {
        0
    }
}

/// Center frequency in MHz of a 2.4 GHz channel (0 when unknown).
pub fn channel_to_frequency(channel: u8) -> (f: u16)
    ensures
        f == spec_channel_to_frequency(channel),
{
    if channel == 14 {
        2484
    } else if channel >= 1 && channel <= 13 {
        2407 + channel as u16 * 5
    } else {
        0
    }
}

impl OpenNetwork {
    /// The SSID, BSSID and frequency.
    pub closed spec fn view(&self) -> OpenNetworkView {
        OpenNetworkView {
            ssid: ssid_prefix(self.ssid@, self.ssid_len),
            bssid: self.bssid,
            frequency_mhz: self.frequency_mhz,
        }
    }

    /// Select an open network from a scan result.
    pub fn from_scan(result: &ScanResult) -> (r: Result<Self, Error>)
        ensures
            result@.ssid.len() == 0 ==> r == Err::<OpenNetwork, Error>(Error::InvalidSsid),
            result@.ssid.len() != 0 && result@.security != ScanSecurity::Open
                ==> r == Err::<OpenNetwork, Error>(Error::ProtectedNetwork),
            result@.ssid.len() != 0 && result@.security == ScanSecurity::Open ==> (r matches Ok(n) && n@
                == (OpenNetworkView {
                ssid: result@.ssid,
                bssid: result@.bssid,
                frequency_mhz: result@.frequency_mhz,
            })),
    {
        if result.ssid_len == 0 {
            return Err(Error::InvalidSsid);
        }
        match result.security {
            ScanSecurity::Open => {},
            ScanSecurity::Protected => return Err(Error::ProtectedNetwork),
        }
        Ok(OpenNetwork {
            ssid: result.ssid,
            ssid_len: result.ssid_len,
            bssid: result.bssid,
            frequency_mhz: result.frequency_mhz,
        })
    }

    /// SSID bytes used for this association.
    pub fn ssid(&self) -> (s: &[u8])
        ensures
            s@ == self@.ssid,
    {
        let len: usize = if self.ssid_len <= 32 { self.ssid_len as usize } else { 32 };
        slice_subrange(self.ssid.as_slice(), 0, len)
    }

    /// BSSID of the selected access point.
    pub fn bssid(&self) -> (b: [u8; 6])
        ensures
            b == self@.bssid,
    {
        self.bssid
    }

    /// Center frequency of the selected access point in MHz.
    pub fn frequency_mhz(&self) -> (f: u16)
        ensures
            f == self@.frequency_mhz,
    {
        self.frequency_mhz
    }
}

/// A WPA passphrase is 8..=63 printable ASCII bytes (0x20 to 0x7e).
pub open spec fn valid_passphrase(passphrase: Seq<u8>) -> bool {
    &&& 8 <= passphrase.len() <= 63
    &&& forall|i: int| 0 <= i < passphrase.len() ==> 0x20 <= #[trigger] passphrase[i] <= 0x7e
}

impl PersonalNetwork {
    /// The SSID, BSSID, security details and passphrase.
    pub closed spec fn view(&self) -> PersonalNetworkView {
        PersonalNetworkView {
            ssid: ssid_prefix(self.ssid@, self.ssid_len),
            bssid: self.bssid,
            auth_mode: self.auth_mode,
            pairwise: self.pairwise,
            channel: self.channel,
            passphrase: self.key@.subrange(0, if self.key_len <= 64 { self.key_len as int } else { 64 }),
            key: self.key@,
        }
    }

    /// Select a WPA2-Personal/CCMP AP and validate an ASCII passphrase.
    pub fn from_scan(result: &ScanResult, passphrase: &[u8]) -> (r: Result<Self, Error>)
        ensures
            result@.ssid.len() == 0 ==> r == Err::<PersonalNetwork, Error>(Error::InvalidSsid),
            result@.ssid.len() != 0 && result@.security != ScanSecurity::Protected
                ==> r == Err::<PersonalNetwork, Error>(Error::OpenNetwork),
            result@.ssid.len() != 0 && result@.security == ScanSecurity::Protected && (result@.auth_mode != 2
                || result@.pairwise != 1) ==> r == Err::<PersonalNetwork, Error>(
                Error::UnsupportedSecurity(result@.auth_mode),
            ),
            result@.ssid.len() != 0 && result@.security == ScanSecurity::Protected && result@.auth_mode == 2
                && result@.pairwise == 1 && !valid_passphrase(passphrase@)
                ==> r == Err::<PersonalNetwork, Error>(Error::InvalidPassphrase),
            result@.ssid.len() != 0 && result@.security == ScanSecurity::Protected && result@.auth_mode == 2
                && result@.pairwise == 1 && valid_passphrase(passphrase@) ==> (r matches Ok(n) && n@
                == (PersonalNetworkView {
                ssid: result@.ssid,
                bssid: result@.bssid,
                auth_mode: result@.auth_mode,
                pairwise: result@.pairwise,
                channel: result@.channel,
                passphrase: passphrase@,
                key: nul_padded(passphrase@, 65),
            })),
            r matches Ok(n) ==> 1 <= n@.ssid.len() <= 32,
    {
        if result.ssid_len == 0 {
            return Err(Error::InvalidSsid);
        }
        match result.security {
            ScanSecurity::Protected => {},
            ScanSecurity::Open => return Err(Error::OpenNetwork),
        }
        if result.auth_mode != 2 || result.pairwise != 1 {
            return Err(Error::UnsupportedSecurity(result.auth_mode));
        }
        if passphrase.len() < 8 || passphrase.len() > 63 {
            return Err(Error::InvalidPassphrase);
        }
        let mut key = [0u8; 65];
        let mut index: usize = 0;
        while index < passphrase.len()
            invariant
                index <= passphrase.len() <= 63,
                key@.len() == 65,
                forall|i: int| 0 <= i < index ==> 0x20 <= #[trigger] passphrase@[i] <= 0x7e,
                forall|i: int| 0 <= i < 65 ==> key@[i] == if i < index { passphrase@[i] } else { 0u8 },
                result.ssid_len != 0,
                result.security == ScanSecurity::Protected,
                result.auth_mode == 2,
                result.pairwise == 1,
            decreases passphrase.len() - index,
        {
            let byte = passphrase[index];
            if byte < 0x20 || byte > 0x7e {
                return Err(Error::InvalidPassphrase);
            }
            key[index] = byte;
            index += 1;
        }
        assert(key@.subrange(0, passphrase.len() as int) =~= passphrase@);
        assert(key@ =~= nul_padded(passphrase@, 65));
        Ok(PersonalNetwork {
            ssid: result.ssid,
            ssid_len: result.ssid_len,
            bssid: result.bssid,
            auth_mode: result.auth_mode,
            pairwise: result.pairwise,
            channel: result.channel,
            key,
            key_len: passphrase.len() as u8,
        })
    }

    /// SSID bytes used for this connection.
    pub fn ssid(&self) -> (s: &[u8])
        ensures
            s@ == self@.ssid,
    {
        let len: usize = if self.ssid_len <= 32 { self.ssid_len as usize } else { 32 };
        slice_subrange(self.ssid.as_slice(), 0, len)
    }
}

/// Where the first SSID element of an IE buffer lies: walk the TLVs from
/// `offset`; a truncated element or the end of the buffer gives `None`.
pub open spec fn ssid_element_range(ies: Seq<u8>, offset: int) -> Option<(int, int)>
    decreases ies.len() - offset,
{
    if offset < 0 || offset + 2 > ies.len() {
        None
    } else {
        let end = offset + 2 + ies[offset + 1];
        if end > ies.len() {
            None
        } else if ies[offset] == 0 {
            Some((offset + 2, if end < offset + 2 + 32 { end } else { offset + 2 + 32 }))
        } else {
            ssid_element_range(ies, end)
        }
    }
}

/// The advertised SSID (at most 32 bytes), or empty when absent or malformed.
pub open spec fn spec_ssid_from_ies(ies: Seq<u8>) -> Seq<u8> {
    match ssid_element_range(ies, 0) {
        Some((start, end)) => ies.subrange(start, end),
        None => Seq::empty(),
    }
}

/// Find the SSID information element (id 0) in a beacon/probe IE buffer.
pub fn ssid_from_ies(ies: &[u8]) -> (ssid: &[u8])
    ensures
        ssid@ == spec_ssid_from_ies(ies@),
        ssid@.len() <= 32,
{
    let mut offset: usize = 0;
    while ies.len() - offset >= 2
        invariant
            offset <= ies.len(),
            ssid_element_range(ies@, 0) == ssid_element_range(ies@, offset as int),
        decreases ies.len() - offset,
    {
        let id = ies[offset];
        let len = ies[offset + 1] as usize;
        if ies.len() - offset - 2 < len {
            return slice_subrange(ies, 0, 0);
        }
        let end = offset + 2 + len;
        if id == 0 {
            let stop = if len < 32 { end } else { offset + 2 + 32 };
            return slice_subrange(ies, offset + 2, stop);
        }
        offset = end;
    }
    slice_subrange(ies, 0, 0)
}

/// Index of the first NUL in the first `cap` bytes, or `cap` when there is none.
pub open spec fn nul_terminated_len(bytes: Seq<u8>, cap: int) -> int
    decreases cap,
{
    if cap <= 0 {
        0
    } else if nul_terminated_len(bytes, cap - 1) < cap - 1 {
        nul_terminated_len(bytes, cap - 1)
    } else if bytes[cap - 1] == 0 {
        cap - 1
    } else {
        cap
    }
}

proof fn lemma_nul_len_step(bytes: Seq<u8>, k: int)
    requires
        0 <= k,
        forall|i: int| 0 <= i < k ==> bytes[i] != 0,
    ensures
        nul_terminated_len(bytes, k) == k,
    decreases k,
{
    if k > 0 {
        lemma_nul_len_step(bytes, k - 1);
    }
}

proof fn lemma_nul_len_found(bytes: Seq<u8>, k: int, cap: int)
    requires
        0 <= k < cap,
        bytes[k] == 0,
        forall|i: int| 0 <= i < k ==> bytes[i] != 0,
    ensures
        nul_terminated_len(bytes, cap) == k,
    decreases cap,
{
    if cap == k + 1 {
        lemma_nul_len_step(bytes, k);
    } else {
        lemma_nul_len_found(bytes, k, cap - 1);
    }
}

/// Length of a NUL-padded name held in `bytes`, looking at most at `cap` bytes.
pub fn nul_terminated_length(bytes: &[u8], cap: usize) -> (len: usize)
    requires
        cap <= bytes.len(),
    ensures
        len == nul_terminated_len(bytes@, cap as int),
        len <= cap,
{
    let mut index: usize = 0;
    while index < cap
        invariant
            index <= cap <= bytes.len(),
            forall|i: int| 0 <= i < index ==> bytes@[i] != 0,
        decreases cap - index,
    {
        if bytes[index] == 0 {
            proof {
                lemma_nul_len_found(bytes@, index as int, cap as int);
            }
            return index;
        }
        index += 1;
    }
    proof {
        lemma_nul_len_step(bytes@, cap as int);
    }
    cap
}

/// The vendor-created interface name without its NUL padding.
pub fn interface_name(ifname: &[u8; 17]) -> (name: &[u8])
    ensures
        name@ == ifname@.subrange(0, nul_terminated_len(ifname@, 17)),
{
    let len = nul_terminated_length(ifname.as_slice(), 17);
    slice_subrange(ifname.as_slice(), 0, len)
}

/// Whether the netdev-creation call returned a usable name: non-empty, shorter
/// than the buffer and NUL-terminated at the reported length.
pub fn created_interface_name_is_valid(ifname: &[u8; 17], length: u32) -> (ok: bool)
    ensures
        ok == (length != 0 && length < 17 && ifname@[length as int] == 0),
{
    length != 0 && (length as usize) < 17 && ifname[length as usize] == 0
}

/// Signed division by 100 rounding toward zero, as Rust's `/` does.
pub open spec fn div100_toward_zero(x: int) -> int {
    if x >= 0 {
        x / 100
    } else {
        -((-x) / 100)
    }
}

/// Saturate to the `i16` range.
pub open spec fn clamp_i16(x: int) -> i16 {
    if x < -32768 {
        -32768i16
    } else if x > 32767 {
        32767i16
    } else {
        x as i16
    }
}

/// dBm from the vendor's hundredths of a dBm, saturated to `i16`.
pub fn rssi_dbm_from_hundredths(level: i32) -> (dbm: i16)
    ensures
        dbm == clamp_i16(div100_toward_zero(level as int)),
{
    let wide = level as i64;
    let quotient: i64 = if wide >= 0 {
        wide / 100
    } else {
        -((-wide) / 100)
    };
    if quotient < -32768 {
        -32768
    } else if quotient > 32767 {
        32767
    } else {
        quotient as i16
    }
}

/// One access point as the supplicant-owned scan API reports it.
#[derive(Debug, Clone, Copy, PartialEq, Eq)]
pub struct VendorApInfo {
    /// NUL-padded SSID (33 bytes with the terminator).
    pub ssid: [u8; 33],
    pub bssid: [u8; 6],
    pub auth_mode: u8,
    pub channel: u32,
    /// Hundredths of a dBm.
    pub rssi: i32,
    pub flags: u8,
    pub pairwise: u8,
}

/// SSID length of a vendor record: up to the first NUL, at most 32.
pub open spec fn vendor_ssid_len(ssid: Seq<u8>) -> int {
    let n = nul_terminated_len(ssid, 33);
    if n < 32 { n } else { 32 }
}

/// The scan result built from one supplicant scan record.
pub open spec fn spec_result_from_ap(ap: VendorApInfo, result: ScanResult) -> bool {
    let len = vendor_ssid_len(ap.ssid@);
    let channel: u8 = if ap.channel > 255 { 255u8 } else { ap.channel as u8 };
    &&& result@.ssid == ap.ssid@.subrange(0, len)
    &&& result@.bssid == ap.bssid
    &&& result@.channel == channel
    &&& result@.frequency_mhz == spec_channel_to_frequency(channel)
    &&& result@.rssi_dbm == clamp_i16(div100_toward_zero(ap.rssi as int))
    &&& result@.auth_mode == ap.auth_mode as i32
    &&& result@.pairwise == ap.pairwise as i32
    &&& result@.security == if ap.auth_mode == 0 { ScanSecurity::Open } else { ScanSecurity::Protected }
}

/// Copy `len` bytes of `source` into a zeroed 32-byte SSID buffer.
fn copy_ssid(source: &[u8], len: usize) -> (ssid: [u8; 32])
    requires
        len <= 32,
        len <= source.len(),
    ensures
        forall|i: int| 0 <= i < 32 ==> ssid@[i] == if i < len { source@[i] } else { 0u8 },
{
    let mut ssid = [0u8; 32];
    let mut index: usize = 0;
    while index < len
        invariant
            index <= len <= 32,
            len <= source.len(),
            ssid@.len() == 32,
            forall|i: int| 0 <= i < 32 ==> ssid@[i] == if i < index { source@[i] } else { 0u8 },
        decreases len - index,
    {
        ssid[index] = source[index];
        index += 1;
    }
    ssid
}

/// Convert one supplicant scan record into a [`ScanResult`].
pub fn scan_result_from_ap(ap: &VendorApInfo) -> (result: ScanResult)
    ensures
        spec_result_from_ap(*ap, result),
{
    let found = nul_terminated_length(ap.ssid.as_slice(), 33);
    let ssid_len = if found < 32 { found } else { 32 };
    let ssid = copy_ssid(ap.ssid.as_slice(), ssid_len);
    let channel: u8 = if ap.channel > 255 { 255 } else { ap.channel as u8 };
    let result = ScanResult {
        ssid,
        ssid_len: ssid_len as u8,
        bssid: ap.bssid,
        frequency_mhz: channel_to_frequency(channel),
        rssi_dbm: rssi_dbm_from_hundredths(ap.rssi),
        security: if ap.auth_mode == 0 { ScanSecurity::Open } else { ScanSecurity::Protected },
        auth_mode: ap.auth_mode as i32,
        pairwise: ap.pairwise as i32,
        channel,
    };
    assert(result@.ssid =~= ap.ssid@.subrange(0, ssid_len as int));
    result
}

/// The fixed fields of a driver scan-result event.
#[derive(Debug, Clone, Copy, PartialEq, Eq)]
pub struct VendorScanEvent {
    pub bssid: [u8; 6],
    pub capabilities: i16,
    pub frequency: i32,
    /// Hundredths of a dBm.
    pub level: i32,
}

/// Capability bit that advertises link-layer privacy.
pub const CAPABILITY_PRIVACY: i16 = 0x0010;

/// The scan result built from one driver scan-result event and its IEs.
pub open spec fn spec_result_from_event(event: VendorScanEvent, ies: Option<Seq<u8>>, result: ScanResult) -> bool {
    let ssid = match ies {
        Some(bytes) if bytes.len() <= MAX_IE_LENGTH => spec_ssid_from_ies(bytes),
        _ => Seq::<u8>::empty(),
    };
    &&& result@.bssid == event.bssid
    &&& result@.frequency_mhz == if event.frequency < 0 { 0 } else if event.frequency > 65535 { 65535u16 } else { event.frequency as u16 }
    &&& result@.rssi_dbm == clamp_i16(div100_toward_zero(event.level as int))
    &&& result@.security == if event.capabilities & CAPABILITY_PRIVACY == 0 { ScanSecurity::Open } else { ScanSecurity::Protected }
    &&& result@.ssid == ssid
    &&& result@.auth_mode == 0
    &&& result@.pairwise == 0
    &&& result@.channel == 0
}

/// Convert one driver scan-result event; `ies` is the IE buffer when the
/// event carried one.
pub fn scan_result_from_event(event: &VendorScanEvent, ies: Option<&[u8]>) -> (result: ScanResult)
    ensures
        spec_result_from_event(*event, match ies { Some(b) => Some(b@), None => None }, result),
{
    let frequency: u16 = if event.frequency < 0 {
        0
    } else if event.frequency > 65535 {
        65535
    } else {
        event.frequency as u16
    };
    let security = if event.capabilities & CAPABILITY_PRIVACY == 0 {
        ScanSecurity::Open
    } else {
        ScanSecurity::Protected
    };
    let mut result = ScanResult {
        ssid: [0u8; 32],
        ssid_len: 0,
        bssid: event.bssid,
        frequency_mhz: frequency,
        rssi_dbm: rssi_dbm_from_hundredths(event.level),
        security,
        auth_mode: 0,
        pairwise: 0,
        channel: 0,
    };
    assert(result@.ssid =~= Seq::<u8>::empty());
    match ies {
        Some(bytes) => {
            if bytes.len() <= MAX_IE_LENGTH {
                let ssid = ssid_from_ies(bytes);
                result.ssid = copy_ssid(ssid, ssid.len());
                result.ssid_len = ssid.len() as u8;
                assert(result@.ssid =~= ssid@);
            }
        },
        None => {},
    }
    result
}

/// How a pending association ended, as reported by a vendor event.
#[derive(Debug, Clone, Copy, PartialEq, Eq)]
pub enum ConnectionOutcome {
    Pending,
    Connected(ConnectionInfo),
    Failed(u16),
    Disconnected(u16),
}

/// Outcome of a driver connect-result event: status 0 is success.
pub fn connect_result_outcome(status: u16, bssid: [u8; 6], frequency_mhz: u16) -> (outcome: ConnectionOutcome)
    ensures
        status == 0 ==> outcome == ConnectionOutcome::Connected(ConnectionInfo { bssid, frequency_mhz }),
        status != 0 ==> outcome == ConnectionOutcome::Failed(status),
{
    if status == 0 {
        ConnectionOutcome::Connected(ConnectionInfo { bssid, frequency_mhz })
    } else {
        ConnectionOutcome::Failed(status)
    }
}

/// Outcome carried by a supplicant event (`ext_wifi_event`): kind 2 is a
/// connection with the BSSID at info bytes 33..39, kind 3 a disconnection with
/// the little-endian reason at info bytes 6..8; other kinds carry no outcome.
pub fn wpa_event_outcome(kind: u8, info: &[u8; 172]) -> (outcome: Option<ConnectionOutcome>)
    ensures
        kind == 2 ==> outcome == Some(ConnectionOutcome::Connected(ConnectionInfo {
            bssid: [info@[33], info@[34], info@[35], info@[36], info@[37], info@[38]],
            frequency_mhz: 0,
        })),
        kind == 3 ==> outcome == Some(ConnectionOutcome::Disconnected((info@[6] + 256 * info@[7]) as u16)),
        kind != 2 && kind != 3 ==> outcome is None,
{
    if kind == 2 {
        Some(ConnectionOutcome::Connected(ConnectionInfo {
            bssid: [info[33], info[34], info[35], info[36], info[37], info[38]],
            frequency_mhz: 0,
        }))
    } else if kind == 3 {
        Some(ConnectionOutcome::Disconnected(info[6] as u16 + 256 * info[7] as u16))
    } else {
        None
    }
}

/// What a waiting connect call does after one look at the shared state.
#[derive(Debug, Clone, Copy, PartialEq, Eq)]
pub enum ConnectWait {
    /// Keep waiting.
    Continue,
    /// Stop with this result.
    Finished(Result<ConnectionInfo, Error>),
}

/// Decide one iteration of the connect wait: a completed outcome ends the
/// wait (a `Pending` outcome with `done` set is a timeout), otherwise the
/// elapsed time against `timeout_ms` does. `frequency_override` replaces the
/// reported frequency (the supplicant path reports none).
pub fn connect_wait_step(
    done: bool,
    outcome: ConnectionOutcome,
    elapsed_ms: u64,
    timeout_ms: u32,
    frequency_override: Option<u16>,
) -> (step: ConnectWait)
    ensures
        done ==> step == ConnectWait::Finished(match outcome {
            ConnectionOutcome::Connected(info) => Ok(match frequency_override {
                Some(f) => ConnectionInfo { bssid: info.bssid, frequency_mhz: f },
                None => info,
            }),
            ConnectionOutcome::Failed(status) => Err(Error::ConnectFailed(status)),
            ConnectionOutcome::Disconnected(reason) => Err(Error::Disconnected(reason)),
            ConnectionOutcome::Pending => Err(Error::Timeout),
        }),
        !done && elapsed_ms >= timeout_ms ==> step == ConnectWait::Finished(Err(Error::Timeout)),
        !done && elapsed_ms < timeout_ms ==> step == ConnectWait::Continue,
{
    if done {
        return ConnectWait::Finished(match outcome {
            ConnectionOutcome::Connected(info) => Ok(match frequency_override {
                Some(f) => ConnectionInfo { bssid: info.bssid, frequency_mhz: f },
                None => info,
            }),
            ConnectionOutcome::Failed(status) => Err(Error::ConnectFailed(status)),
            ConnectionOutcome::Disconnected(reason) => Err(Error::Disconnected(reason)),
            ConnectionOutcome::Pending => Err(Error::Timeout),
        });
    }
    if elapsed_ms >= timeout_ms as u64 {
        ConnectWait::Finished(Err(Error::Timeout))
    } else {
        ConnectWait::Continue
    }
}

/// What a waiting scan call does after one look at the shared state.
#[derive(Debug, Clone, Copy, PartialEq, Eq)]
pub enum ScanWait {
    /// Keep waiting.
    Continue,
    /// Stop with this result: the number of results to copy out, or an error.
    Finished(Result<usize, Error>),
}

/// Decide one iteration of the scan wait: scan-done with success copies
/// `min(count, output_len)` results, scan-done with another status fails,
/// otherwise the timeout decides.
pub fn scan_wait_step(
    done: bool,
    status: ScanStatus,
    count: usize,
    output_len: usize,
    elapsed_ms: u64,
    timeout_ms: u32,
) -> (step: ScanWait)
    ensures
        done && status == ScanStatus::Success ==> step == ScanWait::Finished(
            Ok(if count < output_len { count } else { output_len }),
        ),
        done && status != ScanStatus::Success ==> step == ScanWait::Finished(Err(Error::ScanFailed(status))),
        !done && elapsed_ms >= timeout_ms ==> step == ScanWait::Finished(Err(Error::Timeout)),
        !done && elapsed_ms < timeout_ms ==> step == ScanWait::Continue,
{
    if done {
        return match status {
            ScanStatus::Success => ScanWait::Finished(Ok(if count < output_len { count } else { output_len })),
            _ => ScanWait::Finished(Err(Error::ScanFailed(status))),
        };
    }
    if elapsed_ms >= timeout_ms as u64 {
        ScanWait::Finished(Err(Error::Timeout))
    } else {
        ScanWait::Continue
    }
}

/// Shared state between a waiting scan and the driver's event callback.
#[derive(Debug, Clone, Copy, PartialEq, Eq)]
pub struct ScanState {
    pub active: bool,
    pub done: bool,
    pub count: usize,
    pub status: ScanStatus,
}

impl ScanState {
    /// Idle state: no scan in progress.
    pub fn new() -> (s: Self)
        ensures
            !s.active && !s.done && s.count == 0 && s.status == ScanStatus::Success,
    {
        ScanState { active: false, done: false, count: 0, status: ScanStatus::Success }
    }

    /// Claim the scan channel; refused (`false`, state unchanged) while a scan is active.
    pub fn begin(&mut self) -> (started: bool)
        ensures
            started == !old(self).active,
            started ==> *final(self) == (ScanState { active: true, done: false, count: 0, status: ScanStatus::Success }),
            !started ==> *final(self) == *old(self),
    {
        if self.active {
            return false;
        }
        self.active = true;
        self.done = false;
        self.count = 0;
        self.status = ScanStatus::Success;
        true
    }

    /// Reserve the next result slot for a scan-result event; none when no scan
    /// is active or all `MAX_SCAN_RESULTS` slots are taken.
    pub fn reserve_slot(&mut self) -> (slot: Option<usize>)
        ensures
            old(self).active && old(self).count < MAX_SCAN_RESULTS ==> slot == Some(old(self).count)
                && *final(self) == (ScanState { count: (old(self).count + 1) as usize, ..*old(self) }),
            !(old(self).active && old(self).count < MAX_SCAN_RESULTS) ==> slot is None && *final(self)
                == *old(self),
    {
        if !self.active || self.count >= MAX_SCAN_RESULTS {
            return None;
        }
        let slot = self.count;
        self.count = slot + 1;
        Some(slot)
    }

    /// Record scan-done with its raw status; ignored when no scan is active.
    pub fn complete(&mut self, raw_status: u32)
        ensures
            old(self).active ==> *final(self) == (ScanState { done: true, status: spec_scan_status(raw_status), ..*old(self) }),
            !old(self).active ==> *final(self) == *old(self),
    {
        if self.active {
            self.status = ScanStatus::from_raw(raw_status);
            self.done = true;
        }
    }

    /// Release the scan channel.
    pub fn finish(&mut self)
        ensures
            *final(self) == (ScanState { active: false, ..*old(self) }),
    {
        self.active = false;
    }
}

/// Shared state between a waiting association and the event callbacks.
#[derive(Debug, Clone, Copy, PartialEq, Eq)]
pub struct ConnectionState {
    pub active: bool,
    pub done: bool,
    pub outcome: ConnectionOutcome,
}

impl ConnectionState {
    /// Idle state.
    pub fn new() -> (s: Self)
        ensures
            !s.active && !s.done && s.outcome == ConnectionOutcome::Pending,
    {
        ConnectionState { active: false, done: false, outcome: ConnectionOutcome::Pending }
    }

    /// Claim the association channel; refused while one is active.
    pub fn begin(&mut self) -> (started: bool)
        ensures
            started == !old(self).active,
            started ==> *final(self) == (ConnectionState { active: true, done: false, outcome: ConnectionOutcome::Pending }),
            !started ==> *final(self) == *old(self),
    {
        if self.active {
            return false;
        }
        self.active = true;
        self.done = false;
        self.outcome = ConnectionOutcome::Pending;
        true
    }

    /// Publish an outcome from an event; ignored when no association is pending.
    pub fn publish(&mut self, outcome: ConnectionOutcome)
        ensures
            old(self).active ==> *final(self) == (ConnectionState { active: true, done: true, outcome }),
            !old(self).active ==> *final(self) == *old(self),
    {
        if self.active {
            self.outcome = outcome;
            self.done = true;
        }
    }

    /// Release the association channel.
    pub fn finish(&mut self)
        ensures
            *final(self) == (ConnectionState { active: false, ..*old(self) }),
    {
        self.active = false;
    }
}

/// The association request handed to `uapi_wifi_sta_connect`.
#[derive(Debug, Clone, Copy, PartialEq, Eq)]
pub struct WpaAssocRequest {
    pub ssid: [u8; 33],
    pub auth_mode: u8,
    pub key: [u8; 65],
    pub bssid: [u8; 6],
    pub pairwise: u8,
    pub channel: u8,
}

/// Build the association request for a selected personal network: the SSID
/// and passphrase NUL-padded to their buffers. The BSSID is left
/// unspecified: SSID selection is the supported path.
pub fn wpa_assoc_request(network: &PersonalNetwork) -> (request: WpaAssocRequest)
    ensures
        request.ssid@ == nul_padded(network@.ssid, 33),
        request.key@ == nul_padded(network@.passphrase, 65),
        request.auth_mode == network@.auth_mode as u8,
        request.pairwise == network@.pairwise as u8,
        request.channel == network@.channel,
        request.bssid@ == Seq::new(6, |i: int| 0u8),
{
    let ssid_len: usize = if network.ssid_len <= 32 { network.ssid_len as usize } else { 32 };
    let mut ssid = [0u8; 33];
    let mut index: usize = 0;
    while index < ssid_len
        invariant
            index <= ssid_len <= 32,
            ssid_len == (if network.ssid_len <= 32 { network.ssid_len as int } else { 32 }),
            ssid@.len() == 33,
            forall|i: int| 0 <= i < 33 ==> ssid@[i] == if i < index { network.ssid@[i] } else { 0u8 },
        decreases ssid_len - index,
    {
        ssid[index] = network.ssid[index];
        index += 1;
    }
    assert(ssid@ =~= nul_padded(network@.ssid, 33));
    let key_len: usize = if network.key_len <= 64 { network.key_len as usize } else { 64 };
    let mut key = [0u8; 65];
    let mut index: usize = 0;
    while index < key_len
        invariant
            index <= key_len <= 64,
            key_len == (if network.key_len <= 64 { network.key_len as int } else { 64 }),
            key@.len() == 65,
            forall|i: int| 0 <= i < 65 ==> key@[i] == if i < index { network.key@[i] } else { 0u8 },
        decreases key_len - index,
    {
        key[index] = network.key[index];
        index += 1;
    }
    assert(key@ =~= nul_padded(network@.passphrase, 65));
    let bssid = [0u8; 6];
    assert(bssid@ =~= Seq::new(6, |i: int| 0u8));
    WpaAssocRequest {
        ssid,
        auth_mode: network.auth_mode as u8,
        key,
        bssid,
        pairwise: network.pairwise as u8,
        channel: network.channel,
    }
}

/// Whether a vendor security type carries a pre-shared key (1) or not (0):
/// open (0) and OWE (10) do not.
pub fn wifi_is_need_psk(security_type: i32) -> (r: i32)
    ensures
        r == (if security_type != 0 && security_type != 10 { 1i32 } else { 0i32 }),
{
    if security_type != 0 && security_type != 10 {
        1
    } else {
        0
    }
}

} // verus!
