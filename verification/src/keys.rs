//! How a supplicant key installation becomes the vendor WAL key
//! request: which flag combinations are accepted, the key material lengths
//! of each cipher, and the IEEE 802.11 cipher suite selector.
use vstd::prelude::*;

verus! {

/// A key cipher of the supplicant ABI.
#[derive(Clone, Copy, Debug, PartialEq, Eq, Structural)]
pub enum Cipher {
    NoCipher,
    Wep,
    Tkip,
    Ccmp,
    BipCmac128,
    Gcmp,
    Gcmp256,
    Ccmp256,
    BipGmac128,
    BipGmac256,
    BipCmac256,
}

/// The flag bits of a supplicant key; `other` stands for any bit outside
/// the named ones.
#[derive(Clone, Copy, Debug, PartialEq, Eq, Structural)]
pub struct KeyFlags {
    pub modify: bool,
    pub default: bool,
    pub rx: bool,
    pub tx: bool,
    pub group: bool,
    pub pairwise: bool,
    pub pmk: bool,
    pub other: bool,
}

/// One key the supplicant asks to install. `cipher` is `None` for a code the
/// ABI does not define; `sequence_capacity` is the size of the sequence
/// buffer.
#[derive(Clone, Copy, Debug)]
pub struct KeySpec {
    pub abi_matches: bool,
    pub cipher: Option<Cipher>,
    pub key_index: u8,
    pub flags: KeyFlags,
    pub peer: [u8; 6],
    pub peer_present: u8,
    pub sequence_len: u8,
    pub sequence_capacity: usize,
}

/// `key_type` of a pairwise key.
pub const KEY_TYPE_PAIRWISE: i32 = 1;
/// `key_type` of a group key.
pub const KEY_TYPE_GROUP: i32 = 0;
/// Default-key type: none.
pub const KEY_DEFAULT_INVALID: u8 = 0;
/// Default-key type: unicast.
pub const KEY_DEFAULT_UNICAST: u8 = 1;
/// Default-key type: multicast.
pub const KEY_DEFAULT_MULTICAST: u8 = 2;

/// The WAL key request built from a key: the address is the peer for a
/// pairwise key and absent otherwise; the sequence is passed only when it
/// is not empty.
#[derive(Clone, Copy, Debug, PartialEq, Eq, Structural)]
pub struct KeyRequest {
    pub key_type: i32,
    pub key_index: u32,
    pub key_len: u32,
    pub sequence_len: u32,
    pub cipher: u32,
    pub uses_peer_address: bool,
    pub uses_sequence: bool,
    pub default_data: u8,
    pub default_management: u8,
    pub default_types: u8,
}

/// Key material lengths each cipher accepts.
pub open spec fn spec_valid_key_material(cipher: Option<Cipher>, len: usize) -> bool {
    match cipher {
        Some(Cipher::Wep) => len == 5 || len == 13,
        Some(Cipher::Tkip) | Some(Cipher::Gcmp256) | Some(Cipher::Ccmp256) | Some(Cipher::BipGmac256) | Some(
            Cipher::BipCmac256,
        ) => len == 32,
        Some(Cipher::Ccmp) | Some(Cipher::BipCmac128) | Some(Cipher::Gcmp) | Some(Cipher::BipGmac128) => len == 16,
        _ => false,
    }
}

/// Whether `len` bytes of material suit `cipher`.
pub fn valid_key_material(cipher: Option<Cipher>, len: usize) -> (ok: bool)
    ensures
        ok == spec_valid_key_material(cipher, len),
{
    match cipher {
        Some(Cipher::Wep) => len == 5 || len == 13,
        Some(Cipher::Tkip) | Some(Cipher::Gcmp256) | Some(Cipher::Ccmp256) | Some(Cipher::BipGmac256) | Some(
            Cipher::BipCmac256,
        ) => len == 32,
        Some(Cipher::Ccmp) | Some(Cipher::BipCmac128) | Some(Cipher::Gcmp) | Some(Cipher::BipGmac128) => len == 16,
        _ => false,
    }
}

/// The suite selector of a cipher (WEP by its key length); `None` for an
/// unknown cipher or a WEP key of another length.
pub open spec fn spec_suite_selector(cipher: Option<Cipher>, material_len: usize) -> Option<u32> {
    match cipher {
        Some(Cipher::NoCipher) => Some(0u32),
        Some(Cipher::Wep) => if material_len == 5 {
            Some(1u32)
        } else if material_len == 13 {
            Some(5u32)
        } else {
            None
        },
        Some(Cipher::Tkip) => Some(2u32),
        Some(Cipher::Ccmp) => Some(4u32),
        Some(Cipher::BipCmac128) => Some(6u32),
        Some(Cipher::Gcmp) => Some(8u32),
        Some(Cipher::Gcmp256) => Some(9u32),
        Some(Cipher::Ccmp256) => Some(10u32),
        Some(Cipher::BipGmac128) => Some(11u32),
        Some(Cipher::BipGmac256) => Some(12u32),
        Some(Cipher::BipCmac256) => Some(13u32),
        None => None,
    }
}

/// The cipher suite: 0 for no cipher, else `00-0F-AC` and the selector.
pub open spec fn spec_cipher_suite(cipher: Option<Cipher>, material_len: usize) -> Option<u32> {
    match spec_suite_selector(cipher, material_len) {
        Some(s) => Some(if s == 0 { 0u32 } else { 0x000f_ac00u32 | s }),
        None => None,
    }
}

/// [`spec_cipher_suite`].
pub fn cipher_suite(cipher: Option<Cipher>, material_len: usize) -> (r: Option<u32>)
    ensures
        r == spec_cipher_suite(cipher, material_len),
{
    let selector: u32 = match cipher {
        Some(Cipher::NoCipher) => 0,
        Some(Cipher::Wep) => {
            if material_len == 5 {
                1
            } else if material_len == 13 {
                5
            } else {
                return None;
            }
        },
        Some(Cipher::Tkip) => 2,
        Some(Cipher::Ccmp) => 4,
        Some(Cipher::BipCmac128) => 6,
        Some(Cipher::Gcmp) => 8,
        Some(Cipher::Gcmp256) => 9,
        Some(Cipher::Ccmp256) => 10,
        Some(Cipher::BipGmac128) => 11,
        Some(Cipher::BipGmac256) => 12,
        Some(Cipher::BipCmac256) => 13,
        None => return None,
    };
    Some(if selector == 0 { 0 } else { 0x000f_ac00u32 | selector })
}

/// The suites installed for each cipher, for any key length: no cipher is
/// 0; WEP is 00-0F-AC:1 for a 5-byte key, 00-0F-AC:5 for a 13-byte key and
/// refused otherwise; TKIP is 00-0F-AC:2, CCMP :4, BIP-CMAC-128 :6, GCMP :8,
/// GCMP-256 :9, CCMP-256 :10, BIP-GMAC-128 :11, BIP-GMAC-256 :12 and
/// BIP-CMAC-256 :13; a key without a cipher is refused. Two different
/// ciphers accepted at one key length never share a suite.
pub proof fn lemma_cipher_suite_table(material_len: usize)
    ensures
        spec_cipher_suite(Some(Cipher::NoCipher), material_len) == Some(0u32),
        spec_cipher_suite(Some(Cipher::Wep), material_len) == (if material_len == 5 {
            Some(0x000f_ac01u32)
        } else if material_len == 13 {
            Some(0x000f_ac05u32)
        } else {
            None::<u32>
        }),
        spec_cipher_suite(Some(Cipher::Tkip), material_len) == Some(0x000f_ac02u32),
        spec_cipher_suite(Some(Cipher::Ccmp), material_len) == Some(0x000f_ac04u32),
        spec_cipher_suite(Some(Cipher::BipCmac128), material_len) == Some(0x000f_ac06u32),
        spec_cipher_suite(Some(Cipher::Gcmp), material_len) == Some(0x000f_ac08u32),
        spec_cipher_suite(Some(Cipher::Gcmp256), material_len) == Some(0x000f_ac09u32),
        spec_cipher_suite(Some(Cipher::Ccmp256), material_len) == Some(0x000f_ac0au32),
        spec_cipher_suite(Some(Cipher::BipGmac128), material_len) == Some(0x000f_ac0bu32),
        spec_cipher_suite(Some(Cipher::BipGmac256), material_len) == Some(0x000f_ac0cu32),
        spec_cipher_suite(Some(Cipher::BipCmac256), material_len) == Some(0x000f_ac0du32),
        spec_cipher_suite(None, material_len) == None::<u32>,
        forall|a: Cipher, b: Cipher|
            #![trigger spec_cipher_suite(Some(a), material_len), spec_cipher_suite(Some(b), material_len)]
            spec_cipher_suite(Some(a), material_len) is Some && spec_cipher_suite(Some(a), material_len)
                == spec_cipher_suite(Some(b), material_len) ==> a == b,
{
    assert(0x000f_ac00u32 | 1u32 == 0x000f_ac01u32 && 0x000f_ac00u32 | 2u32 == 0x000f_ac02u32
        && 0x000f_ac00u32 | 4u32 == 0x000f_ac04u32 && 0x000f_ac00u32 | 5u32 == 0x000f_ac05u32
        && 0x000f_ac00u32 | 6u32 == 0x000f_ac06u32 && 0x000f_ac00u32 | 8u32 == 0x000f_ac08u32
        && 0x000f_ac00u32 | 9u32 == 0x000f_ac09u32 && 0x000f_ac00u32 | 10u32 == 0x000f_ac0au32
        && 0x000f_ac00u32 | 11u32 == 0x000f_ac0bu32 && 0x000f_ac00u32 | 12u32 == 0x000f_ac0cu32
        && 0x000f_ac00u32 | 13u32 == 0x000f_ac0du32) by (bit_vector);
}

/// Whether a cipher protects management frames.
pub open spec fn is_management_cipher(cipher: Option<Cipher>) -> bool {
    match cipher {
        Some(Cipher::BipCmac128) | Some(Cipher::BipGmac128) | Some(Cipher::BipGmac256) | Some(Cipher::BipCmac256) => true,
        _ => false,
    }
}

/// Whether the flags and peer of a key are acceptable: the ABI matches, the
/// sequence fits, only known flags are set and neither modify nor PMK, it is
/// used for RX or TX, it is exactly one of pairwise and group, and the peer
/// is present (and not broadcast) for a pairwise key, absent or broadcast for
/// a group key.
pub open spec fn key_accepted(key: KeySpec) -> bool {
    let broadcast = key.peer@ == Seq::new(6, |i: int| 0xffu8);
    &&& key.abi_matches
    &&& key.sequence_len <= key.sequence_capacity
    &&& !key.flags.other && !key.flags.modify && !key.flags.pmk
    &&& key.flags.rx || key.flags.tx
    &&& key.flags.pairwise != key.flags.group
    &&& key.peer_present <= 1
    &&& key.flags.pairwise ==> key.peer_present == 1 && !broadcast
    &&& key.flags.group && key.peer_present == 1 ==> broadcast
}

/// The request an accepted key gives, when its cipher has a suite.
pub open spec fn spec_key_request(key: KeySpec, material_len: usize) -> Option<KeyRequest> {
    if !key_accepted(key) {
        None
    } else {
        match spec_cipher_suite(key.cipher, material_len) {
            None => None,
            Some(suite) => {
                let management = is_management_cipher(key.cipher);
                Some(
                    KeyRequest {
                        key_type: if key.flags.pairwise { KEY_TYPE_PAIRWISE } else { KEY_TYPE_GROUP },
                        key_index: key.key_index as u32,
                        key_len: material_len as u32,
                        sequence_len: key.sequence_len as u32,
                        cipher: suite,
                        uses_peer_address: key.flags.pairwise,
                        uses_sequence: key.sequence_len != 0,
                        default_data: if management { 0u8 } else { 1u8 },
                        default_management: if management { 1u8 } else { 0u8 },
                        default_types: if key.flags.pairwise {
                            KEY_DEFAULT_UNICAST
                        } else if key.peer_present == 1 {
                            KEY_DEFAULT_MULTICAST
                        } else {
                            KEY_DEFAULT_INVALID
                        },
                    },
                )
            },
        }
    }
}

/// [`spec_key_request`].
pub fn key_request(key: &KeySpec, material_len: usize) -> (r: Option<KeyRequest>)
    ensures
        r == spec_key_request(*key, material_len),
{
    let flags = key.flags;
    if !key.abi_matches || key.sequence_len as usize > key.sequence_capacity || flags.other || flags.modify
        || flags.pmk || !(flags.rx || flags.tx) {
        return None;
    }
    if flags.pairwise == flags.group {
        return None;
    }
    let mut broadcast = true;
    let mut i: usize = 0;
    while i < 6
        invariant
            i <= 6,
            broadcast == forall|j: int| 0 <= j < i ==> key.peer@[j] == 0xff,
        decreases 6 - i,
    {
        if key.peer[i] != 0xff {
            broadcast = false;
        }
        i += 1;
    }
    proof {
        if broadcast {
            assert(key.peer@ =~= Seq::new(6, |i: int| 0xffu8));
        } else {
            let j = choose|j: int| 0 <= j < 6 && key.peer@[j] != 0xff;
            assert(key.peer@[j] != Seq::new(6, |i: int| 0xffu8)[j]);
        }
    }
    if key.peer_present > 1 || (flags.pairwise && (key.peer_present != 1 || broadcast)) || (flags.group
        && key.peer_present == 1 && !broadcast) {
        return None;
    }
    let suite = match cipher_suite(key.cipher, material_len) {
        Some(s) => s,
        None => return None,
    };
    let management = match key.cipher {
        Some(Cipher::BipCmac128) | Some(Cipher::BipGmac128) | Some(Cipher::BipGmac256) | Some(Cipher::BipCmac256) => true,
        _ => false,
    };
    Some(
        KeyRequest {
            key_type: if flags.pairwise { KEY_TYPE_PAIRWISE } else { KEY_TYPE_GROUP },
            key_index: key.key_index as u32,
            key_len: material_len as u32,
            sequence_len: key.sequence_len as u32,
            cipher: suite,
            uses_peer_address: flags.pairwise,
            uses_sequence: key.sequence_len != 0,
            default_data: if management { 0 } else { 1 },
            default_management: if management { 1 } else { 0 },
            default_types: if flags.pairwise {
                KEY_DEFAULT_UNICAST
            } else if key.peer_present == 1 {
                KEY_DEFAULT_MULTICAST
            } else {
                KEY_DEFAULT_INVALID
            },
        },
    )
}

/// The request an install issues: none when the material is missing or its
/// length does not suit the cipher, else [`spec_key_request`].
pub open spec fn spec_install_request(key: KeySpec, material_present: bool, material_len: usize) -> Option<
    KeyRequest,
> {
    if !material_present || !spec_valid_key_material(key.cipher, material_len) {
        None
    } else {
        spec_key_request(key, material_len)
    }
}

/// [`spec_install_request`].
pub fn install_request(key: &KeySpec, material_present: bool, material_len: usize) -> (r: Option<
    KeyRequest,
>)
    ensures
        r == spec_install_request(*key, material_present, material_len),
{
    if !material_present || !valid_key_material(key.cipher, material_len) {
        return None;
    }
    key_request(key, material_len)
}

/// What an install does after the new-key request: a key used for TX whose
/// request succeeded is also made the default; if that fails the key is
/// deleted again.
#[derive(Clone, Copy, Debug, PartialEq, Eq, Structural)]
pub enum InstallStep {
    /// Return this status.
    Done(i32),
    /// Issue the set-default request next.
    SetDefault,
}

/// The step after the new-key request returned `install`.
pub fn after_new_key(install: i32, tx: bool) -> (s: InstallStep)
    ensures
        install != 0 || !tx ==> s == InstallStep::Done(install),
        install == 0 && tx ==> s == InstallStep::SetDefault,
{
    if install != 0 || !tx {
        InstallStep::Done(install)
    } else {
        InstallStep::SetDefault
    }
}

/// Whether the key must be deleted after the set-default request returned
/// `set_default` (it failed); the install returns `set_default` either way.
pub fn rollback_after_set_default(set_default: i32) -> (delete: bool)
    ensures
        delete == (set_default != 0),
{
    set_default != 0
}

/// A key is never installed as both pairwise and group, and a pairwise key
/// always names its peer while a group key never does.
pub proof fn lemma_key_roles_exclusive(key: KeySpec, material_len: usize)
    requires
        spec_key_request(key, material_len) is Some,
    ensures
        ({
            let r = spec_key_request(key, material_len)->0;
            &&& r.key_type == KEY_TYPE_PAIRWISE <==> key.flags.pairwise && !key.flags.group
            &&& r.uses_peer_address <==> r.key_type == KEY_TYPE_PAIRWISE
            &&& r.default_data + r.default_management == 1
        }),
{
}

} // verus!
