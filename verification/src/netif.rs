//! The boundary between the vendor MAC code and the TCP/IP stack: packet
//! buffer headers (by offset within their allocation), the receive window of
//! a driver frame, transmit checks, the registered interface and its counters.
use vstd::prelude::*;
use crate::bridge::MTU;

verus! {

/// Size of the packet-buffer header.
pub const PBUF_HDR: usize = 32;
/// Headroom reserved between header and payload for the driver's headers.
pub const PBUF_ZERO_COPY_RESERVE: usize = 80;
/// Tailroom after the payload.
pub const PBUF_ZERO_COPY_TAILROOM: usize = 4;
/// Type of a RAM buffer.
pub const PBUF_TYPE_RAM: u8 = 0x80;
/// Alignment padding in front of received Ethernet frames.
pub const ETH_PAD_SIZE: usize = 2;
/// lwIP's value error.
pub const ERR_VAL: i32 = -6;

/// A packet-buffer header, with the payload as an offset from the start of
/// its allocation.
#[derive(Clone, Copy, Debug, PartialEq, Eq, Structural)]
pub struct PbufHeader {
    pub payload: usize,
    pub tot_len: u16,
    pub len: u16,
    pub malloc_len: u16,
    pub type_internal: u8,
    pub flags: u16,
    pub ref_count: i32,
    pub if_idx: u8,
    pub priority: u8,
}

/// Bytes allocated for a buffer of `length` payload bytes: header, headroom,
/// payload and tailroom.
pub open spec fn pbuf_total(length: u16) -> int {
    PBUF_HDR + PBUF_ZERO_COPY_RESERVE + length + PBUF_ZERO_COPY_TAILROOM
}

/// A new buffer of `length` bytes: one reference, payload after the headroom.
/// The allocation size is recorded in 16 bits, wrapping as the C field does.
pub fn pbuf_alloc_header(length: u16) -> (h: PbufHeader)
    ensures
        h == (PbufHeader {
            payload: (PBUF_HDR + PBUF_ZERO_COPY_RESERVE) as usize,
            tot_len: length,
            len: length,
            malloc_len: (pbuf_total(length) % 0x1_0000) as u16,
            type_internal: PBUF_TYPE_RAM,
            flags: 0,
            ref_count: 1,
            if_idx: 0,
            priority: 0,
        }),
        pbuf_total(length) <= usize::MAX,
{
    let total: u32 = (PBUF_HDR + PBUF_ZERO_COPY_RESERVE) as u32 + length as u32 + PBUF_ZERO_COPY_TAILROOM as u32;
    PbufHeader {
        payload: PBUF_HDR + PBUF_ZERO_COPY_RESERVE,
        tot_len: length,
        len: length,
        malloc_len: (total % 0x1_0000) as u16,
        type_internal: PBUF_TYPE_RAM,
        flags: 0,
        ref_count: 1,
        if_idx: 0,
        priority: 0,
    }
}

/// Drop one reference: `(remaining references, whether to free)`. The last
/// reference frees the buffer.
pub fn pbuf_release(ref_count: i32) -> (r: (i32, bool))
    ensures
        ref_count > 1 ==> r.0 == ref_count - 1 && !r.1,
        ref_count <= 1 ==> r == (0i32, true),
{
    if ref_count > 1 {
        (ref_count - 1, false)
    } else {
        (0, true)
    }
}

/// Take a reference.
pub fn pbuf_acquire(ref_count: i32) -> (r: i32)
    requires
        ref_count < i32::MAX,
    ensures
        r == ref_count + 1,
{
    ref_count + 1
}

/// Move a buffer's payload by `header_size` bytes (positive exposes a header
/// in front, negative hides one) and adjust both lengths; `None` when a
/// length leaves 16 bits or the payload would leave the space after the
/// header and inside the allocation.
pub fn pbuf_header(h: PbufHeader, header_size: i16) -> (r: Option<PbufHeader>)
    requires
        h.payload <= isize::MAX,
    ensures
        ({
            let new_len = h.len + header_size;
            let new_tot = h.tot_len + header_size;
            let new_payload = h.payload - header_size;
            let ok = 0 <= new_len <= u16::MAX && 0 <= new_tot <= u16::MAX && new_payload >= PBUF_HDR
                && new_payload + new_len <= h.malloc_len;
            &&& !ok ==> r is None
            &&& ok ==> r == Some(PbufHeader {
                payload: new_payload as usize,
                len: new_len as u16,
                tot_len: new_tot as u16,
                ..h
            })
        }),
{
    let new_len: i32 = h.len as i32 + header_size as i32;
    let new_tot: i32 = h.tot_len as i32 + header_size as i32;
    if new_len < 0 || new_len > u16::MAX as i32 || new_tot < 0 || new_tot > u16::MAX as i32 {
        return None;
    }
    let new_payload: usize;
    if header_size >= 0 {
        let hs = header_size as usize;
        if hs > h.payload || h.payload - hs < PBUF_HDR {
            return None;
        }
        new_payload = h.payload - hs;
    } else {
        let hs = (-(header_size as i32)) as usize;
        new_payload = h.payload + hs;
        if new_payload < PBUF_HDR {
            return None;
        }
    }
    if new_payload + new_len as usize > h.malloc_len as usize {
        return None;
    }
    Some(PbufHeader { payload: new_payload, len: new_len as u16, tot_len: new_tot as u16, ..h })
}

/// Failure to hand a frame to the vendor data path.
#[derive(Clone, Copy, Debug, PartialEq, Eq, Structural)]
pub enum TxError {
    /// No station interface is registered yet.
    NoInterface,
    /// The interface has no driver send callback.
    NoDriver,
    /// The frame is empty or longer than a buffer can hold.
    InvalidLength,
    /// Buffer allocation failed.
    NoMemory,
}

/// The checks before a transmission, in order: a frame of 1 to 65535 bytes,
/// a registered interface (non-zero), a driver callback (non-zero).
pub fn transmit_check(frame_len: usize, netif: usize, driver_send: usize) -> (r: Result<(), TxError>)
    ensures
        (frame_len == 0 || frame_len > u16::MAX) ==> r == Err::<(), TxError>(TxError::InvalidLength),
        !(frame_len == 0 || frame_len > u16::MAX) && netif == 0 ==> r == Err::<(), TxError>(TxError::NoInterface),
        !(frame_len == 0 || frame_len > u16::MAX) && netif != 0 && driver_send == 0 ==> r == Err::<(), TxError>(
            TxError::NoDriver,
        ),
        !(frame_len == 0 || frame_len > u16::MAX) && netif != 0 && driver_send != 0 ==> r == Ok::<(), TxError>(()),
{
    if frame_len == 0 || frame_len > u16::MAX as usize {
        return Err(TxError::InvalidLength);
    }
    if netif == 0 {
        return Err(TxError::NoInterface);
    }
    if driver_send == 0 {
        return Err(TxError::NoDriver);
    }
    Ok(())
}

/// The Ethernet frame inside a received buffer of `len` bytes: after the
/// alignment padding, when the payload exists and the frame is non-empty and
/// fits the MTU; `(offset, length)`.
pub fn rx_frame_window(has_payload: bool, len: u16) -> (r: Option<(usize, usize)>)
    ensures
        (has_payload && len > ETH_PAD_SIZE && len - ETH_PAD_SIZE <= MTU) ==> r == Some(
            (ETH_PAD_SIZE, (len - ETH_PAD_SIZE) as usize),
        ),
        !(has_payload && len > ETH_PAD_SIZE && len - ETH_PAD_SIZE <= MTU) ==> r is None,
{
    let l = len as usize;
    if has_payload && l > ETH_PAD_SIZE && l - ETH_PAD_SIZE <= MTU {
        Some((ETH_PAD_SIZE, l - ETH_PAD_SIZE))
    } else {
        None
    }
}

/// Snapshot of the vendor-created interface.
#[derive(Clone, Copy, Debug)]
pub struct NetifDiagnostics {
    pub address: usize,
    pub driver_send: usize,
    pub hardware_address_len: u8,
    pub hardware_address: [u8; 6],
}

/// The station's MAC address, when the interface reports a six-byte one.
pub fn hardware_address(diagnostics: Option<NetifDiagnostics>) -> (r: Option<[u8; 6]>)
    ensures
        diagnostics is None ==> r is None,
        diagnostics matches Some(d) ==> (d.hardware_address_len == 6 ==> r == Some(d.hardware_address))
            && (d.hardware_address_len != 6 ==> r is None),
{
    match diagnostics {
        Some(d) => {
            if d.hardware_address_len == 6 {
                Some(d.hardware_address)
            } else {
                None
            }
        },
        None => None,
    }
}

/// The registered station interface and the data-path counters.
pub struct NetifState {
    netif: usize,
    rx_dropped: u32,
    rx_received: u32,
    tx_failed: u32,
}

/// Abstract state.
pub struct NetifView {
    pub netif: usize,
    pub rx_dropped: u32,
    pub rx_received: u32,
    pub tx_failed: u32,
}

impl NetifState {
    /// Abstract state.
    pub closed spec fn view(&self) -> NetifView {
        NetifView {
            netif: self.netif,
            rx_dropped: self.rx_dropped,
            rx_received: self.rx_received,
            tx_failed: self.tx_failed,
        }
    }

    /// Nothing registered, counters zero.
    pub fn new() -> (s: Self)
        ensures
            s@ == (NetifView { netif: 0, rx_dropped: 0, rx_received: 0, tx_failed: 0 }),
    {
        NetifState { netif: 0, rx_dropped: 0, rx_received: 0, tx_failed: 0 }
    }

    /// Register the station interface.
    pub fn add(&mut self, netif: usize)
        ensures
            final(self)@ == (NetifView { netif, ..old(self)@ }),
    {
        self.netif = netif;
    }

    /// Deregister `netif` if it is the registered one.
    pub fn remove(&mut self, netif: usize)
        ensures
            old(self)@.netif == netif ==> final(self)@ == (NetifView { netif: 0, ..old(self)@ }),
            old(self)@.netif != netif ==> final(self)@ == old(self)@,
    {
        if self.netif == netif {
            self.netif = 0;
        }
    }

    /// The registered interface (0 for none).
    pub fn find(&self) -> (netif: usize)
        ensures
            netif == self@.netif,
    {
        self.netif
    }

    /// Count a received frame, or a dropped one.
    pub fn count_rx(&mut self, received: bool)
        ensures
            received ==> final(self)@ == (NetifView {
                rx_received: vstd::wrapping::u32_specs::wrapping_add(old(self)@.rx_received, 1),
                ..old(self)@
            }),
            !received ==> final(self)@ == (NetifView {
                rx_dropped: vstd::wrapping::u32_specs::wrapping_add(old(self)@.rx_dropped, 1),
                ..old(self)@
            }),
    {
        if received {
            self.rx_received = self.rx_received.wrapping_add(1);
        } else {
            self.rx_dropped = self.rx_dropped.wrapping_add(1);
        }
    }

    /// Count a frame the driver could not take.
    pub fn count_tx_failure(&mut self)
        ensures
            final(self)@ == (NetifView {
                tx_failed: vstd::wrapping::u32_specs::wrapping_add(old(self)@.tx_failed, 1),
                ..old(self)@
            }),
    {
        self.tx_failed = self.tx_failed.wrapping_add(1);
    }

    /// Frames dropped.
    pub fn rx_dropped(&self) -> (n: u32)
        ensures
            n == self@.rx_dropped,
    {
        self.rx_dropped
    }

    /// Frames received.
    pub fn rx_received(&self) -> (n: u32)
        ensures
            n == self@.rx_received,
    {
        self.rx_received
    }

    /// Frames not transmitted.
    pub fn tx_failed(&self) -> (n: u32)
        ensures
            n == self@.tx_failed,
    {
        self.tx_failed
    }
}

/// Status of an address query: `ERR_VAL` without an interface, else 0 (the
/// addresses are all zero: no IPv4 configuration).
pub fn get_addr_status(netif: usize) -> (status: i32)
    ensures
        status == (if netif == 0 { ERR_VAL } else { 0i32 }),
{
    if netif == 0 {
        ERR_VAL
    } else {
        0
    }
}

} // verus!
