use emvault_securosys::bip32::{parse_derivation_path, ChildNumber};
use emvault_securosys::keys::{NetworkKind, PublicKey};
use emvault_securosys::pkcs11::backend::{
    build_xpub, checked_point, key_pair_outcome, master_fingerprint, master_key_handle,
    normalized_xpub, paired_public_key, parse_ec_point, public_key_query, unwrap_ec_point,
    DerivePath, KeyPair, SecurosysBackend, CKM_EC_SLIP10_KEY_PAIR_GEN, CKM_SLIP10_CHILD_DERIVE,
    CKR_OK,
};
use emvault_securosys::pkcs11::pub_map::{PubMap, PUB_MAP_CAP};
use emvault_securosys::pkcs11::template::{
    child_private_template, child_public_template, get_ec_point, get_vendor,
    master_private_template, master_public_template, public_key_search_template, read_label,
    KeyAttribute, ObjectAttribute, ObjectClass, CKA_SLIP10_CHAIN_CODE, CKK_EC_SLIP10,
    SECP256K1_OID,
};
use emvault_securosys::pkcs11::{pub_sibling_label, securosys_registrar, XpubRead};
use emvault_securosys::HsmBackendError;

const G_X: [u8; 32] = [
    0x79, 0xbe, 0x66, 0x7e, 0xf9, 0xdc, 0xbb, 0xac, 0x55, 0xa0, 0x62, 0x95, 0xce, 0x87, 0x0b, 0x07,
    0x02, 0x9b, 0xfc, 0xdb, 0x2d, 0xce, 0x28, 0xd9, 0x59, 0xf2, 0x81, 0x5b, 0x16, 0xf8, 0x17, 0x98,
];
const G_Y: [u8; 32] = [
    0x48, 0x3a, 0xda, 0x77, 0x26, 0xa3, 0xc4, 0x65, 0x5d, 0xa4, 0xfb, 0xfc, 0x0e, 0x11, 0x08, 0xa8,
    0xfd, 0x17, 0xb4, 0x48, 0xa6, 0x85, 0x54, 0x19, 0x9c, 0x47, 0xd0, 0x8f, 0xfb, 0x10, 0xd4, 0xb8,
];

fn compressed_g() -> Vec<u8> {
    let mut point = vec![0x02];
    point.extend_from_slice(&G_X);
    point
}

fn uncompressed_g() -> Vec<u8> {
    let mut point = vec![0x04];
    point.extend_from_slice(&G_X);
    point.extend_from_slice(&G_Y);
    point
}

fn der(header: &[u8], point: &[u8]) -> Vec<u8> {
    let mut bytes = header.to_vec();
    bytes.extend_from_slice(point);
    bytes
}

fn metadata_reason<T>(result: Result<T, HsmBackendError>) -> String {
    match result {
        Err(HsmBackendError::MetadataError(reason)) => reason,
        Err(e) => panic!("another error: {e:?}"),
        Ok(_) => panic!("no error"),
    }
}

fn derivation_reason<T>(result: Result<T, HsmBackendError>) -> String {
    match result {
        Err(HsmBackendError::Derivation(reason)) => reason,
        Err(e) => panic!("another error: {e:?}"),
        Ok(_) => panic!("no error"),
    }
}

#[test]
fn name_and_constants() {
    let b = SecurosysBackend::new("/usr/lib/libprimusP11.so");
    assert_eq!(b.backend_name(), "securosys");
    assert_eq!(CKM_EC_SLIP10_KEY_PAIR_GEN, 0x8000_0E02);
    assert_eq!(CKM_SLIP10_CHILD_DERIVE, 0x8000_0E01);
    assert_eq!(CKK_EC_SLIP10, 0x8000_0014);
    assert_eq!(CKA_SLIP10_CHAIN_CODE, 0x8000_1100);
}

#[test]
fn backend_keeps_its_library_path() {
    let b = SecurosysBackend::new("/opt/primus/lib/libprimusP11.so");
    assert_eq!(b.lib_path(), "/opt/primus/lib/libprimusP11.so");
    assert_eq!(b.pub_handle_for(1), None);
}

#[test]
fn registrar_makes_securosys_backends() {
    let (tag, registrar) = securosys_registrar();
    assert_eq!(tag, "securosys");
    let mut first = registrar.backend("/lib/a.so");
    first.record_pair(1, 2);
    let second = registrar.backend("/lib/a.so");
    assert_eq!(second.lib_path(), "/lib/a.so");
    assert_eq!(second.pub_handle_for(1), None);
}

#[test]
fn sibling_replaces_the_private_suffix() {
    assert_eq!(pub_sibling_label("emvault/v1/fed-1/priv"), "emvault/v1/fed-1/pub");
    assert_eq!(pub_sibling_label("/priv"), "/pub");
    assert_eq!(pub_sibling_label("a/priv/priv"), "a/priv/pub");
}

#[test]
fn sibling_is_appended_without_the_suffix() {
    assert_eq!(pub_sibling_label("fed-1"), "fed-1/pub");
    assert_eq!(pub_sibling_label(""), "/pub");
    assert_eq!(pub_sibling_label("a/priv "), "a/priv /pub");
    assert_eq!(pub_sibling_label("priv"), "priv/pub");
}

#[test]
fn sibling_counts_characters_not_bytes() {
    assert_eq!(pub_sibling_label("\u{e9}t\u{e9}/priv"), "\u{e9}t\u{e9}/pub");
}

#[test]
fn master_request_carries_seed_and_templates() {
    let b = SecurosysBackend::new("/lib/p.so");
    let seed = [7u8; 64];
    let request = match b.derive_master_key(&seed, "emvault/v1/fed-1/priv") {
        Ok(request) => request,
        Err(e) => panic!("{e:?}"),
    };
    assert_eq!(request.mechanism, CKM_EC_SLIP10_KEY_PAIR_GEN);
    assert_eq!(request.seed, &seed[..]);
    assert_eq!(
        request.public_template,
        vec![
            KeyAttribute::Class(ObjectClass::PublicKey),
            KeyAttribute::KeyType(0x8000_0014),
            KeyAttribute::Token(true),
            KeyAttribute::Derive(true),
            KeyAttribute::Verify(true),
            KeyAttribute::EcParams(vec![0x06, 0x05, 0x2B, 0x81, 0x04, 0x00, 0x0A]),
            KeyAttribute::Label(b"emvault/v1/fed-1/pub".to_vec()),
        ]
    );
    assert_eq!(
        request.private_template,
        vec![
            KeyAttribute::Class(ObjectClass::PrivateKey),
            KeyAttribute::KeyType(0x8000_0014),
            KeyAttribute::Token(true),
            KeyAttribute::Derive(true),
            KeyAttribute::Sign(true),
            KeyAttribute::Sensitive(true),
            KeyAttribute::Extractable(false),
            KeyAttribute::Label(b"emvault/v1/fed-1/priv".to_vec()),
        ]
    );
}

#[test]
fn empty_seed_is_rejected() {
    let b = SecurosysBackend::new("/lib/p.so");
    assert_eq!(
        derivation_reason(b.derive_master_key(&[], "x")),
        "Securosys SLIP-10 master gen needs a non-empty seed"
    );
    assert!(b.derive_master_key(&[0], "x").is_ok());
}

#[test]
fn templates_stand_alone() {
    assert_eq!(SECP256K1_OID, [0x06, 0x05, 0x2B, 0x81, 0x04, 0x00, 0x0A]);
    assert_eq!(
        master_public_template("k").pop(),
        Some(KeyAttribute::Label(b"k/pub".to_vec()))
    );
    assert_eq!(
        master_private_template("k").pop(),
        Some(KeyAttribute::Label(b"k".to_vec()))
    );
    assert_eq!(
        child_public_template(),
        vec![
            KeyAttribute::Token(false),
            KeyAttribute::Derive(true),
            KeyAttribute::Verify(true),
        ]
    );
    assert_eq!(
        child_private_template(),
        vec![
            KeyAttribute::Token(false),
            KeyAttribute::Derive(true),
            KeyAttribute::Sign(true),
            KeyAttribute::Sensitive(true),
            KeyAttribute::Extractable(false),
        ]
    );
    assert_eq!(
        public_key_search_template("k/pub"),
        vec![
            KeyAttribute::Class(ObjectClass::PublicKey),
            KeyAttribute::Label(b"k/pub".to_vec()),
        ]
    );
}

#[test]
fn generated_master_is_paired() {
    let mut b = SecurosysBackend::new("/lib/p.so");
    let pair = match b.master_key_generated(CKR_OK, 11, 10) {
        Ok(pair) => pair,
        Err(e) => panic!("{e:?}"),
    };
    assert_eq!(pair, KeyPair { private: 10, public: 11 });
    assert_eq!(b.pub_handle_for(10), Some(11));
    assert_eq!(b.pub_handle_for(11), None);
}

#[test]
fn failed_generation_records_nothing() {
    let mut b = SecurosysBackend::new("/lib/p.so");
    assert_eq!(
        derivation_reason(b.master_key_generated(0x8000_0001, 11, 10)),
        "C_GenerateKeyPair failed: rv=0x80000001"
    );
    assert_eq!(b.pub_handle_for(10), None);
}

#[test]
fn empty_path_is_the_parent() {
    let b = SecurosysBackend::new("/lib/p.so");
    match b.derive_path(42, &[]) {
        DerivePath::Parent(handle) => assert_eq!(handle, 42),
        DerivePath::Derive(_) => panic!("nothing to derive"),
    }
}

#[test]
fn whole_path_is_one_call() {
    let b = SecurosysBackend::new("/lib/p.so");
    let path = match parse_derivation_path("m/48'/1'/0'/2'/0/5") {
        Ok(path) => path,
        Err(e) => panic!("{e:?}"),
    };
    match b.derive_path(42, &path) {
        DerivePath::Parent(_) => panic!("there is a path"),
        DerivePath::Derive(request) => {
            assert_eq!(request.mechanism, CKM_SLIP10_CHILD_DERIVE);
            assert_eq!(request.parent, 42);
            assert_eq!(
                request.path_indexes,
                vec![0x8000_0030, 0x8000_0001, 0x8000_0000, 0x8000_0002, 0, 5]
            );
            assert_eq!(request.public_template, child_public_template());
            assert_eq!(request.private_template, child_private_template());
        }
    }
}

#[test]
fn different_paths_have_different_indexes() {
    let b = SecurosysBackend::new("/lib/p.so");
    let indexes = |path: &[ChildNumber]| match b.derive_path(1, path) {
        DerivePath::Parent(_) => vec![],
        DerivePath::Derive(request) => request.path_indexes,
    };
    let normal = indexes(&[ChildNumber::Normal { index: 3 }]);
    let hardened = indexes(&[ChildNumber::Hardened { index: 3 }]);
    assert_eq!(normal, vec![3]);
    assert_eq!(hardened, vec![0x8000_0003]);
    assert_ne!(normal, hardened);
}

#[test]
fn derived_child_is_paired() {
    let mut b = SecurosysBackend::new("/lib/p.so");
    match b.child_key_derived(CKR_OK, 21, 20) {
        Ok(handle) => assert_eq!(handle, 20),
        Err(e) => panic!("{e:?}"),
    }
    assert_eq!(b.pub_handle_for(20), Some(21));
}

#[test]
fn failed_derivation_records_nothing() {
    let mut b = SecurosysBackend::new("/lib/p.so");
    b.record_pair(20, 7);
    assert_eq!(
        derivation_reason(b.child_key_derived(0x70, 21, 20)),
        "C_DeriveKeyPair failed: rv=0x70"
    );
    assert_eq!(b.pub_handle_for(20), Some(7));
}

#[test]
fn key_pair_outcome_reads_the_return_value() {
    match key_pair_outcome("C_X", 0, 2, 1) {
        Ok(pair) => assert_eq!(pair, KeyPair { private: 1, public: 2 }),
        Err(e) => panic!("{e:?}"),
    }
    assert_eq!(
        derivation_reason(key_pair_outcome("C_X", u64::MAX, 2, 1)),
        "C_X failed: rv=0xffffffffffffffff"
    );
    assert_eq!(
        derivation_reason(key_pair_outcome("C_X", 0x1a0, 2, 1)),
        "C_X failed: rv=0x1a0"
    );
}

#[test]
fn pair_map_is_bounded_and_first_in_first_out() {
    let mut map = PubMap::new();
    let cap = PUB_MAP_CAP as u64;
    assert_eq!(cap, 4096);
    for handle in 0..cap {
        map.record_pair(handle, handle + 1_000_000);
    }
    assert_eq!(map.get(0), Some(1_000_000));
    map.record_pair(cap, 5);
    assert_eq!(map.get(0), None);
    assert_eq!(map.get(1), Some(1_000_001));
    assert_eq!(map.get(cap), Some(5));
    map.record_pair(cap + 1, 6);
    assert_eq!(map.get(1), None);
    assert_eq!(map.get(2), Some(1_000_002));
}

#[test]
fn recorded_again_handle_keeps_its_place() {
    let mut map = PubMap::new();
    let cap = PUB_MAP_CAP as u64;
    for handle in 0..cap {
        map.record_pair(handle, handle);
    }
    map.record_pair(0, 77);
    assert_eq!(map.get(0), Some(77));
    assert_eq!(map.get(1), Some(1));
    map.record_pair(cap, 1);
    assert_eq!(map.get(0), None);
}

#[test]
fn new_pair_survives_a_full_round_of_others() {
    let mut map = PubMap::new();
    for handle in 0..10_000u64 {
        map.record_pair(handle, handle);
    }
    map.record_pair(50_000, 9);
    for handle in 60_000..60_000 + PUB_MAP_CAP as u64 - 1 {
        map.record_pair(handle, handle);
    }
    assert_eq!(map.get(50_000), Some(9));
    map.record_pair(99_999, 1);
    assert_eq!(map.get(50_000), None);
}

#[test]
fn ec_point_is_unwrapped_from_short_form() {
    let point = compressed_g();
    let wrapped = der(&[0x04, 0x21], &point);
    assert_eq!(unwrap_ec_point(&wrapped), &point[..]);
    match parse_ec_point(&wrapped) {
        Ok(key) => assert_eq!(&key.compressed[..], &point[..]),
        Err(e) => panic!("{e:?}"),
    }
}

#[test]
fn ec_point_is_unwrapped_from_long_form() {
    let point = uncompressed_g();
    let wrapped = der(&[0x04, 0x81, 0x41], &point);
    assert_eq!(unwrap_ec_point(&wrapped), &point[..]);
    let wrapped_twice = der(&[0x04, 0x82, 0x00, 0x41], &point);
    assert_eq!(unwrap_ec_point(&wrapped_twice), &point[..]);
    match parse_ec_point(&wrapped) {
        Ok(key) => assert_eq!(&key.compressed[..], &compressed_g()[..]),
        Err(e) => panic!("{e:?}"),
    }
}

#[test]
fn bare_compressed_point_is_accepted() {
    match parse_ec_point(&compressed_g()) {
        Ok(key) => assert_eq!(&key.compressed[..], &compressed_g()[..]),
        Err(e) => panic!("{e:?}"),
    }
}

#[test]
fn malformed_points_are_metadata_errors() {
    for bad in [vec![], vec![0x04], vec![0x04, 0xff, 0x01], uncompressed_g()] {
        assert_eq!(
            metadata_reason(parse_ec_point(&bad)),
            "invalid secp256k1 point: malformed public key"
        );
    }
    assert_eq!(unwrap_ec_point(&[0x04, 0xff, 0x01]), &[] as &[u8]);
    assert_eq!(unwrap_ec_point(&[0x04]), &[0x04]);
    assert_eq!(unwrap_ec_point(&[0x04, 0x00]), &[] as &[u8]);
}

#[test]
fn point_parser_outcome_is_mapped() {
    let key = PublicKey { compressed: [2; 33] };
    match checked_point(Ok(key)) {
        Ok(same) => assert_eq!(same, key),
        Err(e) => panic!("{e:?}"),
    }
    assert_eq!(
        metadata_reason(checked_point(Err("why".to_string()))),
        "invalid secp256k1 point: why"
    );
}

#[test]
fn xpub_is_normalized() {
    let wrapped = der(&[0x04, 0x41], &uncompressed_g());
    let chain_code = [9u8; 32];
    let xpub = match build_xpub(&wrapped, &chain_code) {
        Ok(xpub) => xpub,
        Err(e) => panic!("{e:?}"),
    };
    assert_eq!(xpub.network, NetworkKind::Main);
    assert_eq!(xpub.depth, 0);
    assert_eq!(xpub.parent_fingerprint.bytes, [0; 4]);
    assert_eq!(xpub.child_number, ChildNumber::Normal { index: 0 });
    assert_eq!(&xpub.public_key.compressed[..], &compressed_g()[..]);
    assert_eq!(xpub.chain_code, chain_code);
    match build_xpub(&wrapped, &chain_code) {
        Ok(again) => assert_eq!(again, xpub),
        Err(e) => panic!("{e:?}"),
    }
}

#[test]
fn chain_code_must_have_32_bytes() {
    let wrapped = der(&[0x04, 0x21], &compressed_g());
    for len in [0usize, 31, 33] {
        assert_eq!(
            metadata_reason(build_xpub(&wrapped, &vec![1; len])),
            "chain code != 32 bytes"
        );
    }
    let key = PublicKey { compressed: [3; 33] };
    assert_eq!(
        metadata_reason(normalized_xpub(key, &[])),
        "chain code != 32 bytes"
    );
    assert_eq!(
        metadata_reason(build_xpub(&[], &[])),
        "invalid secp256k1 point: malformed public key"
    );
}

#[test]
fn master_handle_carries_the_fingerprint() {
    let wrapped = der(&[0x04, 0x21], &compressed_g());
    let xpub = match build_xpub(&wrapped, &[9; 32]) {
        Ok(xpub) => xpub,
        Err(e) => panic!("{e:?}"),
    };
    assert_eq!(master_fingerprint(&xpub).bytes, [0x75, 0x1e, 0x76, 0xe8]);
    let master = master_key_handle(5, xpub);
    assert_eq!(master.key_handle, 5);
    assert_eq!(master.xpub, xpub);
    assert_eq!(master.fingerprint.bytes, [0x75, 0x1e, 0x76, 0xe8]);
}

#[test]
fn reloaded_master_is_searched_by_its_sibling_label() {
    let attributes = vec![
        ObjectAttribute::Other,
        ObjectAttribute::Label(b"emvault/v1/fed-1/priv".to_vec()),
        ObjectAttribute::Label(b"another".to_vec()),
    ];
    match public_key_query(&attributes) {
        Ok(query) => assert_eq!(query, public_key_search_template("emvault/v1/fed-1/pub")),
        Err(e) => panic!("{e:?}"),
    }
    assert_eq!(metadata_reason(public_key_query(&[])), "missing CKA_LABEL");
}

#[test]
fn first_found_public_key_is_taken() {
    match paired_public_key(&[8, 9]) {
        Ok(handle) => assert_eq!(handle, 8),
        Err(e) => panic!("{e:?}"),
    }
    assert_eq!(
        metadata_reason(paired_public_key(&[])),
        "no paired public key found"
    );
}

#[test]
fn attributes_are_picked_by_kind() {
    let attributes = vec![
        ObjectAttribute::Vendor { code: 1, value: vec![1] },
        ObjectAttribute::EcPoint(vec![2]),
        ObjectAttribute::EcPoint(vec![3]),
        ObjectAttribute::Vendor { code: CKA_SLIP10_CHAIN_CODE, value: vec![4] },
    ];
    match get_ec_point(&attributes) {
        Ok(value) => assert_eq!(value, &[2]),
        Err(e) => panic!("{e:?}"),
    }
    match get_vendor(&attributes, CKA_SLIP10_CHAIN_CODE) {
        Ok(value) => assert_eq!(value, &[4]),
        Err(e) => panic!("{e:?}"),
    }
}

#[test]
fn missing_attributes_are_named() {
    assert_eq!(
        metadata_reason(get_ec_point(&[ObjectAttribute::Other])),
        "missing CKA_EC_POINT"
    );
    assert_eq!(
        metadata_reason(get_vendor(&[], CKA_SLIP10_CHAIN_CODE)),
        "missing vendor attr 0x80001100"
    );
    assert_eq!(metadata_reason(read_label(&[])), "missing CKA_LABEL");
}

#[test]
fn labels_are_read_as_text() {
    match read_label(&[ObjectAttribute::Label("f\u{e9}d".as_bytes().to_vec())]) {
        Ok(label) => assert_eq!(label, "f\u{e9}d"),
        Err(e) => panic!("{e:?}"),
    }
    match read_label(&[ObjectAttribute::Label(vec![b'a', 0xff, b'b'])]) {
        Ok(label) => assert_eq!(label, "a\u{fffd}b"),
        Err(e) => panic!("{e:?}"),
    }
}

fn question(result: Result<XpubRead, HsmBackendError>) -> XpubRead {
    match result {
        Ok(question) => question,
        Err(e) => panic!("{e:?}"),
    }
}

#[test]
fn own_keys_are_read_by_their_handles() {
    let mut b = SecurosysBackend::new("/lib/p.so");
    assert!(b.master_key_generated(CKR_OK, 11, 10).is_ok());
    match b.read_xpub(10) {
        XpubRead::EcPoint { private, public } => assert_eq!((private, public), (10, 11)),
        _ => panic!("the pair is recorded"),
    }
    match b.read_xpub(12) {
        XpubRead::Label { private } => assert_eq!(private, 12),
        _ => panic!("nothing is recorded"),
    }
}

#[test]
fn reloaded_master_is_read_step_by_step() {
    let b = SecurosysBackend::new("/lib/p.so");
    assert!(matches!(b.read_xpub(12), XpubRead::Label { private: 12 }));
    let label = [ObjectAttribute::Label(b"emvault/v1/fed-1/priv".to_vec())];
    match question(XpubRead::label_reported(12, &label)) {
        XpubRead::PublicKey { private, query } => {
            assert_eq!(private, 12);
            assert_eq!(query, public_key_search_template("emvault/v1/fed-1/pub"));
        }
        _ => panic!("the public key is searched for"),
    }
    match question(XpubRead::public_keys_found(12, &[30, 31])) {
        XpubRead::EcPoint { private, public } => assert_eq!((private, public), (12, 30)),
        _ => panic!("the EC point is read"),
    }
    let point = [ObjectAttribute::EcPoint(der(&[0x04, 0x21], &compressed_g()))];
    let ec_point = match question(XpubRead::ec_point_reported(12, &point)) {
        XpubRead::ChainCode { private, ec_point } => {
            assert_eq!(private, 12);
            ec_point
        }
        _ => panic!("the chain code is read"),
    };
    assert_eq!(ec_point, der(&[0x04, 0x21], &compressed_g()));
    let code = [ObjectAttribute::Vendor { code: CKA_SLIP10_CHAIN_CODE, value: vec![8; 32] }];
    match question(XpubRead::chain_code_reported(&ec_point, &code)) {
        XpubRead::Done(xpub) => {
            assert_eq!(&xpub.public_key.compressed[..], &compressed_g()[..]);
            assert_eq!(xpub.chain_code, [8; 32]);
            assert_eq!(xpub.depth, 0);
        }
        _ => panic!("everything was read"),
    }
}

#[test]
fn incomplete_answers_end_the_read() {
    assert_eq!(metadata_reason(XpubRead::label_reported(1, &[])), "missing CKA_LABEL");
    assert_eq!(
        metadata_reason(XpubRead::public_keys_found(1, &[])),
        "no paired public key found"
    );
    assert_eq!(metadata_reason(XpubRead::ec_point_reported(1, &[])), "missing CKA_EC_POINT");
    let wrong = [ObjectAttribute::Vendor { code: 1, value: vec![8; 32] }];
    assert_eq!(
        metadata_reason(XpubRead::chain_code_reported(&[], &wrong)),
        "missing vendor attr 0x80001100"
    );
    let short = [ObjectAttribute::Vendor { code: CKA_SLIP10_CHAIN_CODE, value: vec![8; 31] }];
    assert_eq!(
        metadata_reason(XpubRead::chain_code_reported(&[], &short)),
        "invalid secp256k1 point: malformed public key"
    );
    assert_eq!(
        metadata_reason(XpubRead::chain_code_reported(&compressed_g(), &short)),
        "chain code != 32 bytes"
    );
}

#[test]
fn sibling_of_an_emvault_master_is_its_public_label() {
    assert_eq!(pub_sibling_label("emvault.v1.fed-1.priv"), "emvault.v1.fed-1.pub");
    for name in ["fed-1", "", "a.priv", "x/priv", "\u{e9}t\u{e9}"] {
        assert_eq!(
            pub_sibling_label(&emvault_pkcs11::key_ops::priv_label(name)),
            emvault_pkcs11::key_ops::pub_label(name)
        );
    }
}

#[test]
fn sibling_is_appended_to_labels_of_another_form() {
    assert_eq!(pub_sibling_label("emvault.v1.priv"), "emvault.v1.priv/pub");
    assert_eq!(pub_sibling_label("emvault.v2.fed-1.priv"), "emvault.v2.fed-1.priv/pub");
    assert_eq!(pub_sibling_label("emvault.v1.fed-1"), "emvault.v1.fed-1/pub");
    assert_eq!(pub_sibling_label(".priv"), ".priv/pub");
    assert_eq!(pub_sibling_label("emvault.v1.fed-1/priv"), "emvault.v1.fed-1/pub");
}

#[test]
fn emvault_master_is_created_and_found_under_its_public_label() {
    let b = SecurosysBackend::new("/lib/p.so");
    let label = "emvault.v1.fed-1.priv";
    match b.derive_master_key(&[1], label) {
        Ok(mut request) => assert_eq!(
            request.public_template.pop(),
            Some(KeyAttribute::Label(b"emvault.v1.fed-1.pub".to_vec()))
        ),
        Err(e) => panic!("{e:?}"),
    }
    let reported = [ObjectAttribute::Label(label.as_bytes().to_vec())];
    match question(XpubRead::label_reported(12, &reported)) {
        XpubRead::PublicKey { query, .. } => {
            assert_eq!(query, public_key_search_template("emvault.v1.fed-1.pub"))
        }
        _ => panic!("the public key is searched for"),
    }
}
