//! Platform services of the vendor Wi-Fi runtime: device-address policy, the
//! TCXO selector, eFuse bit extraction, the temperature stub and the systick
//! calibration.
use vstd::prelude::*;

verus! {

/// OSAL success status.
pub const UAPI_OK: u32 = 0;
/// OSAL failure status.
pub const UAPI_NOK: u32 = 1;
/// Factory key of the base Wi-Fi MAC address.
pub const NV_ID_SYSTEM_FACTORY_MAC: u16 = 0x0005;
/// eFuse byte offsets of the MAC slots, newest first.
pub const EFUSE_MAC_SLOTS: [u32; 4] = [216, 210, 204, 198];

/// Whether a MAC address is a usable unicast address: not multicast, not all
/// zeros, not all ones.
pub open spec fn spec_valid_unicast_mac(mac: Seq<u8>) -> bool {
    &&& mac[0] & 1 == 0
    &&& mac != Seq::new(6, |i: int| 0u8)
    &&& mac != Seq::new(6, |i: int| 0xffu8)
}

/// [`spec_valid_unicast_mac`].
pub fn valid_unicast_mac(mac: &[u8; 6]) -> (ok: bool)
    ensures
        ok == spec_valid_unicast_mac(mac@),
{
    let mut all_zero = true;
    let mut all_ones = true;
    let mut i: usize = 0;
    while i < 6
        invariant
            i <= 6,
            all_zero == forall|j: int| 0 <= j < i ==> mac@[j] == 0,
            all_ones == forall|j: int| 0 <= j < i ==> mac@[j] == 0xff,
        decreases 6 - i,
    {
        if mac[i] != 0 {
            all_zero = false;
        }
        if mac[i] != 0xff {
            all_ones = false;
        }
        i += 1;
    }
    proof {
        if all_zero {
            assert(mac@ =~= Seq::new(6, |i: int| 0u8));
        } else {
            let j = choose|j: int| 0 <= j < 6 && mac@[j] != 0;
            assert(mac@[j] != Seq::new(6, |i: int| 0u8)[j]);
        }
        if all_ones {
            assert(mac@ =~= Seq::new(6, |i: int| 0xffu8));
        } else {
            let j = choose|j: int| 0 <= j < 6 && mac@[j] != 0xff;
            assert(mac@[j] != Seq::new(6, |i: int| 0xffu8)[j]);
        }
    }
    mac[0] & 1 == 0 && !all_zero && !all_ones
}

/// Turn random bytes into a locally administered unicast address with the
/// vendor's `xx:00:73` prefix shape.
pub fn local_admin_mac(random: [u8; 6]) -> (mac: [u8; 6])
    ensures
        mac@ == random@.update(0, (random@[0] & 0xfc) | 0x02).update(1, 0u8).update(2, 0x73u8),
{
    let mut mac = random;
    mac[0] = (mac[0] & 0xfc) | 0x02;
    mac[1] = 0x00;
    mac[2] = 0x73;
    assert(mac@ =~= random@.update(0, (random@[0] & 0xfc) | 0x02).update(1, 0u8).update(2, 0x73u8));
    mac
}

/// Whether a read produced a usable address.
pub open spec fn usable_mac(read: Option<Seq<u8>>) -> bool {
    match read {
        Some(m) => spec_valid_unicast_mac(m),
        None => false,
    }
}

/// The base address: the factory value when present and valid, else the
/// first valid eFuse slot, else `fallback` made locally administered.
pub open spec fn spec_choose_base_mac(
    factory: Option<Seq<u8>>,
    efuse: Seq<Option<Seq<u8>>>,
    fallback: Seq<u8>,
) -> Seq<u8> {
    if usable_mac(factory) {
        factory->0
    } else if exists|i: int| 0 <= i < efuse.len() && usable_mac(efuse[i]) {
        let i = choose|i: int|
            0 <= i < efuse.len() && usable_mac(efuse[i]) && forall|j: int| 0 <= j < i ==> !usable_mac(efuse[j]);
        efuse[i]->0
    } else {
        fallback.update(0, (fallback[0] & 0xfc) | 0x02).update(1, 0u8).update(2, 0x73u8)
    }
}

/// An address read, by its bytes.
pub open spec fn mac_read(read: Option<[u8; 6]>) -> Option<Seq<u8>> {
    match read {
        Some(m) => Some(m@),
        None => None,
    }
}

/// The addresses read, by their bytes.
pub open spec fn mac_reads(reads: Seq<Option<[u8; 6]>>) -> Seq<Option<Seq<u8>>> {
    Seq::new(reads.len(), |i: int| mac_read(reads[i]))
}

/// Choose the base Wi-Fi address from the factory record (a complete
/// six-byte read), the eFuse slots in search order (successful reads), and
/// the random fallback.
pub fn choose_base_mac(factory: Option<[u8; 6]>, efuse: &[Option<[u8; 6]>], fallback: [u8; 6]) -> (mac: [u8; 6])
    ensures
        mac@ == spec_choose_base_mac(
            mac_read(factory),
            mac_reads(efuse@),
            fallback@,
        ),
{
    let ghost fac = mac_read(factory);
    let ghost ef = mac_reads(efuse@);
    match factory {
        Some(m) => {
            if valid_unicast_mac(&m) {
                return m;
            }
        },
        None => {},
    }
    let mut i: usize = 0;
    while i < efuse.len()
        invariant
            i <= efuse@.len(),
            ef == mac_reads(efuse@),
            forall|j: int| 0 <= j < i ==> !usable_mac(ef[j]),
            !usable_mac(fac),
            fac == mac_read(factory),
        decreases efuse@.len() - i,
    {
        match efuse[i] {
            Some(m) => {
                if valid_unicast_mac(&m) {
                    proof {
                        assert(ef[i as int] == Some(m@));
                        assert(usable_mac(ef[i as int]));
                        let c = choose|c: int|
                            0 <= c < ef.len() && usable_mac(ef[c]) && forall|j: int| 0 <= j < c ==> !usable_mac(ef[j]);
                        assert(c == i);
                    }
                    return m;
                }
            },
            None => {},
        }
        i += 1;
    }
    local_admin_mac(fallback)
}

/// A six-byte big-endian number.
pub open spec fn be48(m: Seq<u8>) -> int {
    m[0] * 0x100_0000_0000 + m[1] * 0x1_0000_0000 + m[2] * 0x100_0000 + m[3] * 0x1_0000 + m[4] * 0x100 + m[5]
}

/// Address offset of an interface type: station 0, AP 2, mesh and P2P 3.
pub open spec fn interface_offset(interface_type: u8) -> Option<u16> {
    if interface_type == 2 {
        Some(0)
    } else if interface_type == 3 {
        Some(2)
    } else if 7 <= interface_type <= 10 {
        Some(3)
    } else {
        None
    }
}

/// Derive an interface address from the base address: add the interface's
/// offset to the 48-bit big-endian value (wrapping) and clear the multicast
/// bit. `None` for an unknown interface type.
pub fn derive_device_address(base: [u8; 6], interface_type: u8) -> (r: Option<[u8; 6]>)
    ensures
        interface_offset(interface_type) is None <==> r is None,
        r matches Some(mac) ==> exists|sum: Seq<u8>| {
            &&& sum.len() == 6
            &&& be48(sum) == (be48(base@) + interface_offset(interface_type)->0) % 0x1_0000_0000_0000
            &&& mac@ == sum.update(0, sum[0] & 0xfe)
        },
{
    let derive: u16 = if interface_type == 2 {
        0
    } else if interface_type == 3 {
        2
    } else if 7 <= interface_type && interface_type <= 10 {
        3
    } else {
        return None;
    };
    let s5: u16 = base[5] as u16 + derive;
    let s4: u16 = base[4] as u16 + s5 / 256;
    let s3: u16 = base[3] as u16 + s4 / 256;
    let s2: u16 = base[2] as u16 + s3 / 256;
    let s1: u16 = base[1] as u16 + s2 / 256;
    let s0: u16 = base[0] as u16 + s1 / 256;
    let sum: [u8; 6] = [
        (s0 % 256) as u8,
        (s1 % 256) as u8,
        (s2 % 256) as u8,
        (s3 % 256) as u8,
        (s4 % 256) as u8,
        (s5 % 256) as u8,
    ];
    let mut mac = sum;
    mac[0] = mac[0] & 0xfe;
    proof {
        let total = be48(base@) + derive;
        assert(be48(sum@) + (s0 / 256) * 0x1_0000_0000_0000 == total);
        assert(0 <= be48(sum@) < 0x1_0000_0000_0000);
        vstd::arithmetic::div_mod::lemma_fundamental_div_mod_converse(
            total,
            0x1_0000_0000_0000,
            (s0 / 256) as int,
            be48(sum@),
        );
        assert(mac@ == sum@.update(0, sum@[0] & 0xfe));
    }
    Some(mac)
}

/// Reference clock of the TCXO strap.
#[derive(Clone, Copy, Debug, PartialEq, Eq, Structural)]
pub enum TcxoFreq {
    MHz40,
    MHz24,
}

/// The vendor's TCXO selector (not Hertz): 0 for 40 MHz, 1 for 24 MHz.
pub fn tcxo_vendor_id(freq: TcxoFreq) -> (id: u32)
    ensures
        id == (match freq {
            TcxoFreq::MHz40 => 0u32,
            TcxoFreq::MHz24 => 1u32,
        }),
{
    match freq {
        TcxoFreq::MHz40 => 0,
        TcxoFreq::MHz24 => 1,
    }
}

/// Chip temperature in degrees Celsius: a fixed 25 until a sensor is wired.
/// `UAPI_NOK` without an output.
pub fn uapi_tsensor_get_current_temp(temp: Option<&mut i8>) -> (status: u32)
    ensures
        status == (if temp is None { UAPI_NOK } else { UAPI_OK }),
        temp matches Some(t) ==> *final(t) == 25,
{
    match temp {
        Some(t) => {
            *t = 25;
            UAPI_OK
        },
        None => UAPI_NOK,
    }
}

/// Bit `bit` of an eFuse byte; `None` for a bit index past 7.
pub fn efuse_bit(byte: u8, bit: u8) -> (r: Option<u8>)
    ensures
        bit >= 8 ==> r is None,
        bit < 8 ==> r == Some((byte >> bit) & 1u8),
{
    if bit >= 8 {
        None
    } else {
        Some((byte >> bit) & 1)
    }
}

/// Systick clock (ticks per second) measured against the TCXO: ticks times a
/// million over microseconds, rounded to nearest, saturating; kept only when
/// plausible (1 kHz to 100 kHz).
pub open spec fn spec_systick_clock(systick_delta: u64, tcxo_delta: u64) -> Option<u32> {
    if tcxo_delta == 0 {
        None
    } else {
        let scaled: int = if systick_delta * 1_000_000 > u64::MAX { u64::MAX as int } else { systick_delta * 1_000_000 };
        let rounded: int = if scaled + tcxo_delta / 2 > u64::MAX { u64::MAX as int } else { scaled + tcxo_delta / 2 };
        let clock = rounded / (tcxo_delta as int);
        if 1_000 <= clock <= 100_000 {
            Some(clock as u32)
        } else {
            None
        }
    }
}

/// [`spec_systick_clock`].
pub fn systick_clock(systick_delta: u64, tcxo_delta: u64) -> (r: Option<u32>)
    ensures
        r == spec_systick_clock(systick_delta, tcxo_delta),
{
    if tcxo_delta == 0 {
        return None;
    }
    let scaled: u64 = if systick_delta > u64::MAX / 1_000_000 { u64::MAX } else { systick_delta * 1_000_000 };
    assert(scaled == (if systick_delta * 1_000_000 > u64::MAX { u64::MAX as int } else { systick_delta * 1_000_000 })) by (nonlinear_arith)
        requires
            scaled == (if systick_delta > u64::MAX / 1_000_000 { u64::MAX as int } else { systick_delta * 1_000_000 }),
    ;
    let half = tcxo_delta / 2;
    let rounded: u64 = if scaled > u64::MAX - half { u64::MAX } else { scaled + half };
    let clock = rounded / tcxo_delta;
    if 1_000 <= clock && clock <= 100_000 {
        Some(clock as u32)
    } else {
        None
    }
}

/// A microsecond count as whole seconds and the microseconds past them.
pub fn timeval_parts(us: u64) -> (r: (u64, u64))
    ensures
        r.0 == us / 1_000_000,
        r.1 == us % 1_000_000,
        r.0 * 1_000_000 + r.1 == us,
{
    (us / 1_000_000, us % 1_000_000)
}

/// A microsecond count as whole seconds and the nanoseconds past them.
pub fn timespec_parts(us: u64) -> (r: (u64, u64))
    ensures
        r.0 == us / 1_000_000,
        r.1 == (us % 1_000_000) * 1_000,
        r.1 < 1_000_000_000,
{
    (us / 1_000_000, (us % 1_000_000) * 1_000)
}

/// Length reported when a record needs more room: the required size,
/// saturated at `u16::MAX`.
pub fn required_len(required: usize) -> (len: u16)
    ensures
        len == (if required > u16::MAX { u16::MAX as int } else { required as int }),
{
    if required > u16::MAX as usize {
        u16::MAX
    } else {
        required as u16
    }
}

} // verus!
