//! The frame bridge between the vendor data path and the IP stack.
//!
//! Received Ethernet frames are queued in a bounded ring that the stack
//! drains; transmitted frames are captured (for inspection) and handed to an
//! installed sink. Along the way the bridge counts queue losses, DHCP traffic
//! and replies to the bring-up ICMP echo probe.
use vstd::prelude::*;
use crate::bytes::{copy_prefix, prefix_vec, sat_inc, wrap_inc, min_int, be16};

verus! {

/// Max Ethernet frame we buffer (1514 payload + a little slack).
pub const MTU: usize = 1536;
/// RX queue capacity in frames.
pub const RX_DEPTH: usize = 4;
/// Bytes of the last received frame kept for inspection.
pub const FRAME_PREFIX: usize = 64;
/// ICMP identifier of the bring-up echo probe (`WS` in ASCII).
pub const DIAGNOSTIC_ECHO_IDENTIFIER: [u8; 2] = [0x57, 0x53];

/// Whether `frame` is an IPv4/UDP packet from `source_port` to `destination_port`.
pub open spec fn spec_has_udp_ports(frame: Seq<u8>, source_port: u16, destination_port: u16) -> bool {
    let udp = 14 + (frame[14] & 0x0fu8) * 4;
    &&& frame.len() >= 42
    &&& frame[12] == 0x08 && frame[13] == 0x00
    &&& frame[14] >> 4u8 == 4
    &&& frame[14] & 0x0fu8 >= 5
    &&& frame[23] == 17
    &&& frame.len() >= udp + 8
    &&& be16(frame[udp], frame[udp + 1]) == source_port
    &&& be16(frame[udp + 2], frame[udp + 3]) == destination_port
}

/// The sequence number of an ICMP echo reply to the bring-up probe.
pub open spec fn spec_echo_reply_sequence(frame: Seq<u8>) -> Option<u16> {
    let header_len = (frame[14] & 0x0fu8) * 4;
    let echo = 14 + header_len;
    if frame.len() >= 42 && frame[12] == 0x08 && frame[13] == 0x00 && frame[14] >> 4u8 == 4
        && frame[23] == 1 && header_len >= 20 && frame.len() >= echo + 8 && frame[echo] == 0
        && frame[echo + 4] == 0x57 && frame[echo + 5] == 0x53 {
        Some(be16(frame[echo + 6], frame[echo + 7]))
    } else {
        None
    }
}

/// Whether `frame` is an IPv4/UDP packet from `source_port` to `destination_port`.
pub fn has_udp_ports(frame: &[u8], source_port: u16, destination_port: u16) -> (r: bool)
    ensures
        r == (frame@.len() >= 42 && spec_has_udp_ports(frame@, source_port, destination_port)),
{
    if frame.len() < 42 || frame[12] != 0x08 || frame[13] != 0x00 || frame[14] >> 4u8 != 4
        || frame[14] & 0x0fu8 < 5 || frame[23] != 17 {
        return false;
    }
    let udp: usize = 14 + (frame[14] & 0x0fu8) as usize * 4;
    frame.len() >= udp + 8 && frame[udp] as u16 * 256 + frame[udp + 1] as u16 == source_port
        && frame[udp + 2] as u16 * 256 + frame[udp + 3] as u16 == destination_port
}

/// Sequence number of an ICMP echo reply that answers the bring-up probe.
pub fn diagnostic_echo_reply_sequence(frame: &[u8]) -> (r: Option<u16>)
    ensures
        r == (if frame@.len() >= 42 { spec_echo_reply_sequence(frame@) } else { None }),
{
    if frame.len() < 42 || frame[12] != 0x08 || frame[13] != 0x00 || frame[14] >> 4u8 != 4
        || frame[23] != 1 {
        return None;
    }
    let header_len: usize = (frame[14] & 0x0fu8) as usize * 4;
    if header_len < 20 {
        return None;
    }
    let echo = 14 + header_len;
    if frame.len() < echo + 8 || frame[echo] != 0 || frame[echo + 4] != 0x57 || frame[echo + 5] != 0x53 {
        return None;
    }
    Some(frame[echo + 6] as u16 * 256 + frame[echo + 7] as u16)
}

/// Abstract state of the bridge.
pub struct BridgeView {
    /// Queued received frames, oldest first.
    pub queue: Seq<Seq<u8>>,
    pub dropped: u32,
    pub high_watermark: usize,
    pub echo_replies: u32,
    pub echo_sequence_mask: u32,
    pub dhcp_server_packets: u32,
    pub dhcp_client_packets: u32,
    /// Leading bytes (at most [`FRAME_PREFIX`]) of the last received frame.
    pub last_rx_prefix: Seq<u8>,
    pub last_rx_len: usize,
    /// The last transmitted frame (at most [`MTU`] bytes).
    pub last_tx: Seq<u8>,
    pub tx_count: u32,
}

/// The bridge after one received frame: its prefix and length are recorded,
/// probe replies and DHCP server packets counted, and the frame queued, or
/// counted as dropped when the queue is full. Oversized frames are ignored.
pub open spec fn spec_rx_push(v: BridgeView, frame: Seq<u8>) -> BridgeView {
    if frame.len() > MTU {
        v
    } else {
        let seq_no = if frame.len() >= 42 { spec_echo_reply_sequence(frame) } else { None };
        let (replies, mask) = match seq_no {
            Some(s) => (sat_inc(v.echo_replies), if s < 32 { v.echo_sequence_mask | (1u32 << s) } else { v.echo_sequence_mask }),
            None => (v.echo_replies, v.echo_sequence_mask),
        };
        let dhcp = if frame.len() >= 42 && spec_has_udp_ports(frame, 67, 68) { sat_inc(v.dhcp_server_packets) } else { v.dhcp_server_packets };
        let recorded = BridgeView {
            last_rx_prefix: frame.subrange(0, min_int(frame.len() as int, FRAME_PREFIX as int)),
            last_rx_len: frame.len() as usize,
            echo_replies: replies,
            echo_sequence_mask: mask,
            dhcp_server_packets: dhcp,
            ..v
        };
        if v.queue.len() >= RX_DEPTH {
            BridgeView { dropped: sat_inc(v.dropped), ..recorded }
        } else {
            let pending = (v.queue.len() + 1) as usize;
            BridgeView {
                queue: v.queue.push(frame),
                high_watermark: if v.high_watermark < pending { pending } else { v.high_watermark },
                ..recorded
            }
        }
    }
}

/// Number of queued frames.
pub open spec fn pending_frames(v: BridgeView) -> usize {
    v.queue.len() as usize
}

/// Queue occupancy and loss counters of the RX path.
#[derive(Clone, Copy, Debug, Eq, PartialEq)]
pub struct RxQueueDiagnostics {
    /// Fixed queue capacity in Ethernet frames.
    pub depth: usize,
    /// Frames waiting for the consumer now.
    pub pending: usize,
    /// Largest number of simultaneously queued frames in this window.
    pub high_watermark: usize,
    /// Frames rejected because all queue slots were occupied in this window.
    pub dropped: u32,
    /// Matching ICMP echo replies observed at the vendor-to-Rust RX seam.
    pub icmp_echo_replies: u32,
    /// Bit `n` records that echo sequence `n` crossed the RX seam.
    pub icmp_sequence_mask: u32,
}

/// DHCP packet counts observed at the L2 seam.
#[derive(Clone, Copy, Debug, Eq, PartialEq)]
pub struct DhcpDiagnostics {
    /// Client-to-server UDP packets (port 68 to 67).
    pub client_packets: u32,
    /// Server-to-client UDP packets (port 67 to 68).
    pub server_packets: u32,
}

/// IPv4 configuration returned by a DHCP server.
#[derive(Debug, Clone, Copy, PartialEq, Eq)]
pub struct DhcpConfig {
    /// Assigned IPv4 address.
    pub address: [u8; 4],
    /// Prefix length associated with `address`.
    pub prefix_len: u8,
    /// Default router, if supplied by the server.
    pub router: Option<[u8; 4]>,
}

/// The device handle the IP stack polls.
pub struct Ws63Device;

/// RX token carrying one dequeued frame length (the bytes stay in scratch storage).
pub struct RxFrame {
    pub len: usize,
}

/// TX token: the frame is written into scratch storage, then emitted.
pub struct TxBuf;

/// Frame bridge state; `S` is the transmit sink the caller invokes.
pub struct Bridge<S> {
    rx: Vec<Vec<u8>>,
    rx_head: usize,
    rx_count: usize,
    rx_dropped: u32,
    rx_high_watermark: usize,
    rx_echo_replies: u32,
    rx_echo_sequence_mask: u32,
    rx_dhcp_server_packets: u32,
    last_rx_prefix: Vec<u8>,
    last_rx_len: usize,
    tx_buf: Vec<u8>,
    tx_count: u32,
    tx_dhcp_client_packets: u32,
    tx_sink: Option<S>,
}

impl<S: Copy> Bridge<S> {
    /// Internal consistency of the ring.
    pub closed spec fn wf(&self) -> bool {
        &&& self.rx@.len() == RX_DEPTH
        &&& self.rx_head < RX_DEPTH
        &&& self.rx_count <= self.rx_high_watermark <= RX_DEPTH
        &&& forall|i: int| 0 <= i < RX_DEPTH ==> (#[trigger] self.rx@[i])@.len() <= MTU
        &&& self.last_rx_prefix@.len() == min_int(self.last_rx_len as int, FRAME_PREFIX as int)
        &&& self.tx_buf@.len() <= MTU
    }

    /// The abstract bridge state.
    pub closed spec fn view(&self) -> BridgeView {
        BridgeView {
            queue: Seq::new(self.rx_count as nat, |i: int| self.rx@[(self.rx_head + i) % (RX_DEPTH as int)]@),
            dropped: self.rx_dropped,
            high_watermark: self.rx_high_watermark,
            echo_replies: self.rx_echo_replies,
            echo_sequence_mask: self.rx_echo_sequence_mask,
            dhcp_server_packets: self.rx_dhcp_server_packets,
            dhcp_client_packets: self.tx_dhcp_client_packets,
            last_rx_prefix: self.last_rx_prefix@,
            last_rx_len: self.last_rx_len,
            last_tx: self.tx_buf@,
            tx_count: self.tx_count,
        }
    }

    /// The installed transmit sink.
    pub closed spec fn sink(&self) -> Option<S> {
        self.tx_sink
    }

    /// Empty bridge with no sink.
    pub fn new() -> (b: Self)
        ensures
            b.wf(),
            b@.queue.len() == 0,
            b@.dropped == 0 && b@.high_watermark == 0 && b@.echo_replies == 0,
            b@.echo_sequence_mask == 0 && b@.dhcp_server_packets == 0 && b@.dhcp_client_packets == 0,
            b@.last_rx_prefix.len() == 0 && b@.last_rx_len == 0,
            b@.last_tx.len() == 0 && b@.tx_count == 0,
            b.sink() is None,
    {
        let mut rx: Vec<Vec<u8>> = Vec::new();
        let mut i: usize = 0;
        while i < RX_DEPTH
            invariant
                i <= RX_DEPTH,
                rx@.len() == i,
                forall|k: int| 0 <= k < i ==> (#[trigger] rx@[k])@.len() == 0,
            decreases RX_DEPTH - i,
        {
            rx.push(Vec::new());
            i += 1;
        }
        let b = Bridge {
            rx,
            rx_head: 0,
            rx_count: 0,
            rx_dropped: 0,
            rx_high_watermark: 0,
            rx_echo_replies: 0,
            rx_echo_sequence_mask: 0,
            rx_dhcp_server_packets: 0,
            last_rx_prefix: Vec::new(),
            last_rx_len: 0,
            tx_buf: Vec::new(),
            tx_count: 0,
            tx_dhcp_client_packets: 0,
            tx_sink: None,
        };
        assert(b@.queue =~= Seq::<Seq<u8>>::empty());
        b
    }
}

/// Queue a received Ethernet frame for the stack. Drops the frame if it is
/// oversized (silently) or the queue is full (counted).
pub fn rx_push<S: Copy>(bridge: &mut Bridge<S>, frame: &[u8])
    requires
        old(bridge).wf(),
    ensures
        final(bridge).wf(),
        final(bridge)@ == spec_rx_push(old(bridge)@, frame@),
        final(bridge).sink() == old(bridge).sink(),
{
    if frame.len() > MTU {
        return;
    }
    let ghost old_view = bridge@;
    let prefix_len = if frame.len() < FRAME_PREFIX { frame.len() } else { FRAME_PREFIX };
    bridge.last_rx_prefix = prefix_vec(frame, prefix_len);
    bridge.last_rx_len = frame.len();
    match diagnostic_echo_reply_sequence(frame) {
        Some(sequence) => {
            bridge.rx_echo_replies = bridge.rx_echo_replies.saturating_add(1);
            if sequence < 32 {
                bridge.rx_echo_sequence_mask = bridge.rx_echo_sequence_mask | (1u32 << sequence);
            }
        },
        None => {},
    }
    if has_udp_ports(frame, 67, 68) {
        bridge.rx_dhcp_server_packets = bridge.rx_dhcp_server_packets.saturating_add(1);
    }
    if bridge.rx_count >= RX_DEPTH {
        bridge.rx_dropped = bridge.rx_dropped.saturating_add(1);
        assert(bridge@.queue =~= old_view.queue);
        assert(bridge@ == spec_rx_push(old_view, frame@));
        return;
    }
    let slot = (bridge.rx_head + bridge.rx_count) % RX_DEPTH;
    let copy = prefix_vec(frame, frame.len());
    assert(copy@ =~= frame@);
    bridge.rx.set(slot, copy);
    bridge.rx_count = bridge.rx_count + 1;
    if bridge.rx_high_watermark < bridge.rx_count {
        bridge.rx_high_watermark = bridge.rx_count;
    }
    proof {
        assert forall|i: int| 0 <= i < old_view.queue.len() implies bridge@.queue[i] == old_view.queue[i] by {
            assert((bridge.rx_head + i) % (RX_DEPTH as int) != slot as int);
        }
        assert(bridge@.queue =~= old_view.queue.push(frame@));
    }
}

/// Remove the oldest queued frame, copying as much of it as fits into `into`;
/// returns the number of bytes copied, or `None` when the queue is empty.
pub fn rx_pop<S: Copy>(bridge: &mut Bridge<S>, into: &mut [u8]) -> (r: Option<usize>)
    requires
        old(bridge).wf(),
    ensures
        final(bridge).wf(),
        final(bridge).sink() == old(bridge).sink(),
        old(bridge)@.queue.len() == 0 ==> r is None && final(bridge)@ == old(bridge)@ && final(into)@ == old(into)@,
        old(bridge)@.queue.len() > 0 ==> {
            let frame = old(bridge)@.queue[0];
            let n = min_int(frame.len() as int, old(into)@.len() as int);
            &&& r == Some(n as usize)
            &&& final(bridge)@ == BridgeView { queue: old(bridge)@.queue.drop_first(), ..old(bridge)@ }
            &&& final(into)@.len() == old(into)@.len()
            &&& forall|i: int| 0 <= i < old(into)@.len() ==> final(into)@[i] == if i < n { frame[i] } else { old(into)@[i] }
        },
        old(bridge)@.queue.len() > 0 && old(into)@.len() >= MTU ==> r == Some(old(bridge)@.queue[0].len() as usize),
{
    proof {
        lemma_rx_queue_bounded(&*bridge);
    }
    if bridge.rx_count == 0 {
        return None;
    }
    let ghost old_view = bridge@;
    let slot = bridge.rx_head;
    let n = bridge.rx[slot].len();
    let copied = if n < into.len() { n } else { into.len() };
    copy_prefix(into, bridge.rx[slot].as_slice(), copied);
    bridge.rx_head = (bridge.rx_head + 1) % RX_DEPTH;
    bridge.rx_count = bridge.rx_count - 1;
    proof {
        assert forall|i: int| 0 <= i < bridge@.queue.len() implies bridge@.queue[i] == old_view.queue.drop_first()[i] by {
            assert((bridge.rx_head + i) % (RX_DEPTH as int) == (slot + 1 + i) % (RX_DEPTH as int));
        }
        assert(bridge@.queue =~= old_view.queue.drop_first());
    }
    Some(copied)
}

/// Copy and remove the oldest frame received from the vendor data path.
pub fn take_received<S: Copy>(bridge: &mut Bridge<S>, out: &mut [u8]) -> (r: Option<usize>)
    requires
        old(bridge).wf(),
    ensures
        final(bridge).wf(),
        final(bridge).sink() == old(bridge).sink(),
        old(bridge)@.queue.len() == 0 ==> r is None && final(bridge)@ == old(bridge)@ && final(out)@ == old(out)@,
        old(bridge)@.queue.len() > 0 ==> {
            let frame = old(bridge)@.queue[0];
            let n = min_int(frame.len() as int, old(out)@.len() as int);
            &&& r == Some(n as usize)
            &&& final(bridge)@ == BridgeView { queue: old(bridge)@.queue.drop_first(), ..old(bridge)@ }
            &&& final(out)@.len() == old(out)@.len()
            &&& forall|i: int| 0 <= i < old(out)@.len() ==> final(out)@[i] == if i < n { frame[i] } else { old(out)@[i] }
        },
        old(bridge)@.queue.len() > 0 && old(out)@.len() >= MTU ==> r == Some(old(bridge)@.queue[0].len() as usize),
{
    proof {
        lemma_rx_queue_bounded(&*bridge);
    }
    rx_pop(bridge, out)
}

/// RX queue occupancy and loss counters.
pub fn rx_queue_diagnostics<S: Copy>(bridge: &Bridge<S>) -> (d: RxQueueDiagnostics)
    requires
        bridge.wf(),
    ensures
        d == (RxQueueDiagnostics {
            depth: RX_DEPTH,
            pending: pending_frames(bridge@),
            high_watermark: bridge@.high_watermark,
            dropped: bridge@.dropped,
            icmp_echo_replies: bridge@.echo_replies,
            icmp_sequence_mask: bridge@.echo_sequence_mask,
        }),
        d.pending == bridge@.queue.len(),
        d.pending <= d.high_watermark <= d.depth,
{
    RxQueueDiagnostics {
        depth: RX_DEPTH,
        pending: bridge.rx_count,
        high_watermark: bridge.rx_high_watermark,
        dropped: bridge.rx_dropped,
        icmp_echo_replies: bridge.rx_echo_replies,
        icmp_sequence_mask: bridge.rx_echo_sequence_mask,
    }
}

/// Start a new RX diagnostic window without discarding pending frames.
pub fn reset_rx_queue_diagnostics<S: Copy>(bridge: &mut Bridge<S>)
    requires
        old(bridge).wf(),
    ensures
        final(bridge).wf(),
        final(bridge).sink() == old(bridge).sink(),
        final(bridge)@ == (BridgeView {
            dropped: 0,
            high_watermark: old(bridge)@.queue.len() as usize,
            echo_replies: 0,
            echo_sequence_mask: 0,
            ..old(bridge)@
        }),
{
    bridge.rx_dropped = 0;
    bridge.rx_high_watermark = bridge.rx_count;
    bridge.rx_echo_replies = 0;
    bridge.rx_echo_sequence_mask = 0;
}

/// DHCP traffic counters, unchanged.
pub fn dhcp_diagnostics<S: Copy>(bridge: &Bridge<S>) -> (d: DhcpDiagnostics)
    ensures
        d == (DhcpDiagnostics { client_packets: bridge@.dhcp_client_packets, server_packets: bridge@.dhcp_server_packets }),
{
    DhcpDiagnostics { client_packets: bridge.tx_dhcp_client_packets, server_packets: bridge.rx_dhcp_server_packets }
}

/// Copy the kept prefix of the most recently received frame and return the
/// frame's full length.
pub fn last_rx<S: Copy>(bridge: &Bridge<S>, out: &mut [u8]) -> (len: usize)
    requires
        bridge.wf(),
    ensures
        len == bridge@.last_rx_len,
        final(out)@.len() == old(out)@.len(),
        forall|i: int| 0 <= i < old(out)@.len() ==> final(out)@[i] == if i < min_int(bridge@.last_rx_prefix.len() as int, old(out)@.len() as int) {
            bridge@.last_rx_prefix[i]
        } else {
            old(out)@[i]
        },
{
    let available = bridge.last_rx_prefix.len();
    let copied = if available < out.len() { available } else { out.len() };
    copy_prefix(out, bridge.last_rx_prefix.as_slice(), copied);
    bridge.last_rx_len
}

/// Capture one transmitted frame (up to [`MTU`] bytes), count it and any DHCP
/// client packet, and return the installed sink for the caller to invoke
/// outside the bridge lock.
pub fn tx_emit<S: Copy>(bridge: &mut Bridge<S>, frame: &[u8]) -> (sink: Option<S>)
    requires
        old(bridge).wf(),
    ensures
        final(bridge).wf(),
        sink == old(bridge).sink(),
        final(bridge).sink() == old(bridge).sink(),
        final(bridge)@ == (BridgeView {
            last_tx: frame@.subrange(0, min_int(frame@.len() as int, MTU as int)),
            tx_count: wrap_inc(old(bridge)@.tx_count),
            dhcp_client_packets: if frame@.len() >= 42 && spec_has_udp_ports(frame@, 68, 67) {
                sat_inc(old(bridge)@.dhcp_client_packets)
            } else {
                old(bridge)@.dhcp_client_packets
            },
            ..old(bridge)@
        }),
{
    let n = if frame.len() < MTU { frame.len() } else { MTU };
    bridge.tx_buf = prefix_vec(frame, n);
    bridge.tx_count = bridge.tx_count.wrapping_add(1);
    if has_udp_ports(frame, 68, 67) {
        bridge.tx_dhcp_client_packets = bridge.tx_dhcp_client_packets.saturating_add(1);
    }
    bridge.tx_sink
}

/// Install the sink invoked for each transmitted frame.
pub fn set_tx_sink<S: Copy>(bridge: &mut Bridge<S>, sink: S)
    requires
        old(bridge).wf(),
    ensures
        final(bridge).wf(),
        final(bridge)@ == old(bridge)@,
        final(bridge).sink() == Some(sink),
{
    bridge.tx_sink = Some(sink);
}

/// In every state the bridge reaches, the receive queue holds at most
/// [`RX_DEPTH`] frames and no more than its high watermark, which itself
/// stays within [`RX_DEPTH`]; every queued frame is at most [`MTU`] bytes,
/// so it fits an [`MTU`]-byte buffer whole; the kept prefix of the last received frame is
/// its first [`FRAME_PREFIX`] bytes or all of it.
pub proof fn lemma_rx_queue_bounded<S: Copy>(bridge: &Bridge<S>)
    requires
        bridge.wf(),
    ensures
        bridge@.queue.len() <= bridge@.high_watermark <= RX_DEPTH,
        forall|i: int| 0 <= i < bridge@.queue.len() ==> (#[trigger] bridge@.queue[i]).len() <= MTU,
        bridge@.last_rx_prefix.len() == min_int(bridge@.last_rx_len as int, FRAME_PREFIX as int),
{
    assert forall|i: int| 0 <= i < bridge@.queue.len() implies (#[trigger] bridge@.queue[i]).len() <= MTU by {
        let k = (bridge.rx_head + i) % (RX_DEPTH as int);
        assert(0 <= k < RX_DEPTH);
        assert(bridge.rx@[k]@.len() <= MTU);
    }
}

/// The transmit count after `k` emits from `count`: each adds one, wrapping.
pub open spec fn tx_count_after(count: u32, k: nat) -> u32
    decreases k,
{
    if k == 0 {
        count
    } else {
        wrap_inc(tx_count_after(count, (k - 1) as nat))
    }
}

/// `k` emits add `k` to the transmit count modulo 2^32.
pub proof fn lemma_tx_count_after_emits(count: u32, k: nat)
    ensures
        tx_count_after(count, k) as int == (count as int + k) % 0x1_0000_0000,
    decreases k,
{
    if k > 0 {
        lemma_tx_count_after_emits(count, (k - 1) as nat);
        let m: int = 0x1_0000_0000;
        let prev = (count as int + (k - 1)) % m;
        assert(prev == tx_count_after(count, (k - 1) as nat) as int);
        vstd::arithmetic::div_mod::lemma_add_mod_noop(count as int + (k - 1), 1, m);
        vstd::arithmetic::div_mod::lemma_small_mod(1nat, m as nat);
        if prev == u32::MAX as int {
            vstd::arithmetic::div_mod::lemma_mod_self_0(m);
        } else {
            vstd::arithmetic::div_mod::lemma_small_mod((prev + 1) as nat, m as nat);
        }
    }
}

/// Number of frames transmitted through the bridge.
pub fn tx_count<S: Copy>(bridge: &Bridge<S>) -> (n: u32)
    ensures
        n == bridge@.tx_count,
{
    bridge.tx_count
}

/// Copy the most recently transmitted frame into `out`; returns its length.
pub fn last_tx<S: Copy>(bridge: &Bridge<S>, out: &mut [u8]) -> (len: usize)
    requires
        bridge.wf(),
    ensures
        len == bridge@.last_tx.len(),
        final(out)@.len() == old(out)@.len(),
        forall|i: int| 0 <= i < old(out)@.len() ==> final(out)@[i] == if i < min_int(bridge@.last_tx.len() as int, old(out)@.len() as int) {
            bridge@.last_tx[i]
        } else {
            old(out)@[i]
        },
{
    let n = if bridge.tx_buf.len() < out.len() { bridge.tx_buf.len() } else { out.len() };
    copy_prefix(out, bridge.tx_buf.as_slice(), n);
    bridge.tx_buf.len()
}

/// Exclusive claims on the RX and TX scratch buffers handed out as tokens.
#[derive(Debug, Clone, Copy, PartialEq, Eq)]
pub struct ScratchClaims {
    pub rx: bool,
    pub tx: bool,
}

impl ScratchClaims {
    /// Claim both buffers for a receive; refused (claims unchanged) when either is held.
    pub fn claim_receive(&mut self) -> (ok: bool)
        ensures
            ok == (!old(self).rx && !old(self).tx),
            ok ==> final(self).rx && final(self).tx,
            !ok ==> *final(self) == *old(self),
    {
        if self.rx || self.tx {
            return false;
        }
        self.rx = true;
        self.tx = true;
        true
    }

    /// Claim the TX buffer for a transmit; refused when it is held.
    pub fn claim_transmit(&mut self) -> (ok: bool)
        ensures
            ok == !old(self).tx,
            ok ==> final(self).tx && final(self).rx == old(self).rx,
            !ok ==> *final(self) == *old(self),
    {
        if self.tx {
            return false;
        }
        self.tx = true;
        true
    }

    /// Release the RX buffer.
    pub fn release_rx(&mut self)
        ensures
            *final(self) == (ScratchClaims { rx: false, tx: old(self).tx }),
    {
        self.rx = false;
    }

    /// Release the TX buffer.
    pub fn release_tx(&mut self)
        ensures
            *final(self) == (ScratchClaims { rx: old(self).rx, tx: false }),
    {
        self.tx = false;
    }
}

} // verus!
