use ws63_rf::keys::{
    after_new_key, cipher_suite, install_request, key_request, rollback_after_set_default,
    valid_key_material, Cipher, InstallStep, KeyFlags, KeySpec, KEY_DEFAULT_INVALID,
    KEY_DEFAULT_MULTICAST, KEY_DEFAULT_UNICAST, KEY_TYPE_GROUP, KEY_TYPE_PAIRWISE,
};

const KEY_SEQUENCE_LEN: usize = 8;

fn flags(rx: bool, tx: bool, pairwise: bool, group: bool) -> KeyFlags {
    KeyFlags {
        modify: false,
        default: false,
        rx,
        tx,
        group,
        pairwise,
        pmk: false,
        other: false,
    }
}

fn pairwise_ccmp() -> KeySpec {
    KeySpec {
        abi_matches: true,
        cipher: Some(Cipher::Ccmp),
        key_index: 0,
        flags: flags(true, true, true, false),
        peer: [0x12, 0x34, 0x56, 0x78, 0x9a, 0xbc],
        peer_present: 1,
        sequence_len: 6,
        sequence_capacity: KEY_SEQUENCE_LEN,
    }
}

#[test]
fn validates_key_material_and_vendor_cipher_mapping() {
    assert!(valid_key_material(Some(Cipher::Ccmp), 16));
    assert!(!valid_key_material(Some(Cipher::Ccmp), 32));
    assert_eq!(cipher_suite(Some(Cipher::Ccmp), 16), Some(0x000f_ac04));
    assert_eq!(cipher_suite(Some(Cipher::BipGmac256), 32), Some(0x000f_ac0c));
    assert_eq!(cipher_suite(None, 16), None);
}

#[test]
fn translates_pairwise_ccmp_key_into_wal_contract() {
    let key = pairwise_ccmp();
    let request = key_request(&key, 16).unwrap();

    assert_eq!(request.key_type, KEY_TYPE_PAIRWISE);
    assert_eq!(request.cipher, 0x000f_ac04);
    assert_eq!(request.key_len, 16);
    assert_eq!(request.sequence_len, 6);
    assert!(request.uses_peer_address);
    assert_eq!(request.default_data, 1);
    assert_eq!(request.default_management, 0);
    assert_eq!(request.default_types, KEY_DEFAULT_UNICAST);
}

#[test]
fn rejects_ambiguous_or_private_key_flags() {
    let mut key = KeySpec {
        abi_matches: true,
        cipher: Some(Cipher::Ccmp),
        key_index: 0,
        flags: flags(true, true, true, true),
        peer: [0; 6],
        peer_present: 1,
        sequence_len: 0,
        sequence_capacity: KEY_SEQUENCE_LEN,
    };
    assert!(key_request(&key, 0).is_none());

    key.flags = flags(true, true, true, false);
    key.flags.pmk = true;
    assert!(key_request(&key, 0).is_none());
}

#[test]
fn wep_suites_follow_key_length() {
    assert_eq!(cipher_suite(Some(Cipher::Wep), 5), Some(0x000f_ac01));
    assert_eq!(cipher_suite(Some(Cipher::Wep), 13), Some(0x000f_ac05));
    assert_eq!(cipher_suite(Some(Cipher::Wep), 16), None);
    assert_eq!(cipher_suite(Some(Cipher::NoCipher), 0), Some(0));
    assert!(valid_key_material(Some(Cipher::Wep), 13));
    assert!(!valid_key_material(Some(Cipher::NoCipher), 0));
    assert!(valid_key_material(Some(Cipher::Tkip), 32));
}

#[test]
fn group_keys_use_broadcast_or_no_peer() {
    let mut key = pairwise_ccmp();
    key.flags = flags(true, false, false, true);
    key.key_index = 2;
    key.peer = [0xff; 6];
    let request = key_request(&key, 16).unwrap();
    assert_eq!(request.key_type, KEY_TYPE_GROUP);
    assert_eq!(request.key_index, 2);
    assert!(!request.uses_peer_address);
    assert_eq!(request.default_types, KEY_DEFAULT_MULTICAST);

    key.peer_present = 0;
    key.peer = [1, 2, 3, 4, 5, 6];
    let request = key_request(&key, 16).unwrap();
    assert_eq!(request.default_types, KEY_DEFAULT_INVALID);

    key.peer_present = 1;
    assert!(key_request(&key, 16).is_none());
}

#[test]
fn pairwise_key_needs_a_unicast_peer() {
    let mut key = pairwise_ccmp();
    key.peer = [0xff; 6];
    assert!(key_request(&key, 16).is_none());
    key = pairwise_ccmp();
    key.peer_present = 0;
    assert!(key_request(&key, 16).is_none());
    key = pairwise_ccmp();
    key.peer_present = 2;
    assert!(key_request(&key, 16).is_none());
}

#[test]
fn rejects_bad_abi_sequence_or_usage() {
    let mut key = pairwise_ccmp();
    key.abi_matches = false;
    assert!(key_request(&key, 16).is_none());
    key = pairwise_ccmp();
    key.sequence_len = 9;
    assert!(key_request(&key, 16).is_none());
    key = pairwise_ccmp();
    key.flags = flags(false, false, true, false);
    assert!(key_request(&key, 16).is_none());
    key = pairwise_ccmp();
    key.flags.modify = true;
    assert!(key_request(&key, 16).is_none());
    key = pairwise_ccmp();
    key.flags.other = true;
    assert!(key_request(&key, 16).is_none());
    key = pairwise_ccmp();
    key.flags.default = true;
    assert!(key_request(&key, 16).is_some());
}

#[test]
fn management_ciphers_mark_management_default() {
    let mut key = pairwise_ccmp();
    key.flags = flags(true, true, false, true);
    key.peer_present = 0;
    key.cipher = Some(Cipher::BipCmac128);
    key.sequence_len = 0;
    let request = key_request(&key, 16).unwrap();
    assert_eq!(request.cipher, 0x000f_ac06);
    assert_eq!(request.default_data, 0);
    assert_eq!(request.default_management, 1);
    assert!(!request.uses_sequence);
}

#[test]
fn install_checks_material_first() {
    let key = pairwise_ccmp();
    assert!(install_request(&key, false, 16).is_none());
    assert!(install_request(&key, true, 32).is_none());
    assert_eq!(install_request(&key, true, 16), key_request(&key, 16));
    assert!(install_request(&key, true, 16).is_some());
}

#[test]
fn install_sets_default_only_for_tx_keys() {
    assert_eq!(after_new_key(0, true), InstallStep::SetDefault);
    assert_eq!(after_new_key(0, false), InstallStep::Done(0));
    assert_eq!(after_new_key(-5, true), InstallStep::Done(-5));
    assert!(rollback_after_set_default(-1));
    assert!(!rollback_after_set_default(0));
}
