use base64::engine::general_purpose::STANDARD;
use base64::Engine;
use emvault_securosys::bip32::{parse_derivation_path, ChildNumber};
use emvault_securosys::config::EnvVars;
use emvault_securosys::keys::{PublicKey, SchnorrSignature, FIELD_PRIME, GROUP_ORDER};
use emvault_securosys::tsb::client::{
    require_field, require_key, require_point, require_signature,
};
use emvault_securosys::tsb::request::{
    accept_reply, JsonScalar, JsonValue, TsbReply, TsbRequest,
};
use emvault_securosys::tsb::{schnorr_from_bytes, TSB_JWT_ENV, TSB_URL_ENV};
use emvault_securosys::{
    HsmBackendError, JwtProvider, Secret, SecurosysTaprootSigner, StaticJwt, TsbClient, TsbError,
};
use std::sync::atomic::{AtomicUsize, Ordering};

type Client = TsbClient<StaticJwt>;
type Signer = SecurosysTaprootSigner<StaticJwt>;

const G_UNCOMPRESSED: [u8; 65] = [
    0x04, 0x79, 0xbe, 0x66, 0x7e, 0xf9, 0xdc, 0xbb, 0xac, 0x55, 0xa0, 0x62, 0x95, 0xce, 0x87, 0x0b,
    0x07, 0x02, 0x9b, 0xfc, 0xdb, 0x2d, 0xce, 0x28, 0xd9, 0x59, 0xf2, 0x81, 0x5b, 0x16, 0xf8, 0x17,
    0x98, 0x48, 0x3a, 0xda, 0x77, 0x26, 0xa3, 0xc4, 0x65, 0x5d, 0xa4, 0xfb, 0xfc, 0x0e, 0x11, 0x08,
    0xa8, 0xfd, 0x17, 0xb4, 0x48, 0xa6, 0x85, 0x54, 0x19, 0x9c, 0x47, 0xd0, 0x8f, 0xfb, 0x10, 0xd4,
    0xb8,
];

fn secret(text: &str) -> Secret {
    Secret::new(text.to_string())
}

fn client() -> Client {
    TsbClient::with_static_jwt("https://tsb.example/v1/", secret("token"))
}

fn path(text: &str) -> Vec<ChildNumber> {
    match parse_derivation_path(text) {
        Ok(path) => path,
        Err(e) => panic!("{e:?}"),
    }
}

fn text(value: &str) -> JsonValue {
    JsonValue::Scalar(JsonScalar::Text(value.to_string()))
}

fn ok(body: &str) -> Result<TsbReply, String> {
    Ok(TsbReply { status: 200, body: body.to_string() })
}

fn decode_reason<T>(result: Result<T, TsbError>) -> String {
    match result {
        Err(TsbError::Decode(reason)) => reason,
        Err(e) => panic!("another error: {e:?}"),
        Ok(_) => panic!("no error"),
    }
}

fn env(vars: &[(&str, &str)]) -> EnvVars {
    EnvVars {
        vars: vars.iter().map(|(k, v)| (k.to_string(), v.to_string())).collect(),
    }
}

#[derive(Debug)]
struct Counting {
    asked: AtomicUsize,
}

impl JwtProvider for Counting {
    fn current(&self) -> Secret {
        let n = self.asked.fetch_add(1, Ordering::SeqCst);
        secret(&format!("token-{n}"))
    }
}

#[test]
fn sign_key_name_joins_master_and_path() {
    let path = path("m/86'/1'/0'/0/5");
    assert_eq!(
        SecurosysTaprootSigner::sign_key_name("fed-1", &path),
        "emvault.v1.fed-1.priv/86'/1'/0'/0/5"
    );
}

#[test]
fn sign_key_name_empty_path_is_bare_master() {
    let path: Vec<ChildNumber> = vec![];
    assert_eq!(
        SecurosysTaprootSigner::sign_key_name("fed-1", &path),
        "emvault.v1.fed-1.priv"
    );
}

#[test]
fn names_of_different_leaves_differ() {
    let leaf = |label: &str, text: &str| SecurosysTaprootSigner::sign_key_name(label, &path(text));
    assert_ne!(leaf("fed-1", "m/0"), leaf("fed-1", "m/0'"));
    assert_ne!(leaf("fed-1", "m/1/1"), leaf("fed-1", "m/11"));
    assert_ne!(leaf("fed-1", "m/1"), leaf("fed-1.priv/1", "m"));
    assert_eq!(leaf("a.priv/1", "m"), "emvault.v1.a.priv/1.priv");
}

#[test]
fn base_url_has_no_slash_at_its_end() {
    for url in ["https://h/v1", "https://h/v1/", "https://h/v1///"] {
        let client = TsbClient::with_static_jwt(url, secret("t"));
        assert_eq!(client.base_url(), "https://h/v1");
    }
    let client = TsbClient::new("", StaticJwt::new(secret("t")));
    assert_eq!(client.base_url(), "");
}

#[test]
fn static_token_is_always_the_same() {
    let provider = StaticJwt::new(secret("token"));
    assert_eq!(provider.current().expose_secret(), "token");
    assert_eq!(provider.clone().current().expose_secret(), "token");
    assert!(!format!("{provider:?}").contains("token"));
    let client = client();
    assert_eq!(client.bearer().expose_secret(), "token");
    assert_eq!(client.sign_bip340_request("k", &[0; 32]).bearer, "token");
    assert_eq!(client.import_slip10_master_request("k", &[1]).bearer, "token");
    assert_eq!(client.derived_public_key_request("k", "0").bearer, "token");
}

#[test]
fn provider_is_asked_on_every_request() {
    let client = TsbClient::new("https://h", Counting { asked: AtomicUsize::new(0) });
    assert_eq!(client.sign_bip340_request("k", &[0; 32]).bearer, "token-0");
    assert_eq!(client.import_slip10_master_request("k", &[1]).bearer, "token-1");
    assert_eq!(client.derived_public_key_request("k", "0").bearer, "token-2");
    let given = secret("given");
    assert_eq!(client.sign_bip340_with(&given, "k", &[0; 32]).bearer, "given");
    assert_eq!(client.sign_bip340_request("k", &[0; 32]).bearer, "token-3");
}

fn assert_sign_request(request: &TsbRequest, bearer: &str, name: &str, payload: &str) {
    assert_eq!(request.url, "https://tsb.example/v1/synchronousSign");
    assert_eq!(request.bearer, bearer);
    let members = vec![
        ("payload", JsonScalar::Text(payload.to_string())),
        ("payloadType", JsonScalar::Text("UNSPECIFIED".to_string())),
        ("signKeyName", JsonScalar::Text(name.to_string())),
        (
            "signatureAlgorithm",
            JsonScalar::Text("NONE_WITH_EC_SCHNORR_BIP0340".to_string()),
        ),
    ];
    assert!(request.body == vec![("signRequest", JsonValue::Object(members))]);
}

#[test]
fn sign_request_carries_name_and_payload() {
    let mut sighash = [0u8; 32];
    sighash[0] = 1;
    sighash[1] = 2;
    sighash[2] = 3;
    let payload = "AQIDAAAAAAAAAAAAAAAAAAAAAAAAAAAAAAAAAAAAAAA=";
    let client = client();
    assert_sign_request(
        &client.sign_bip340_request("m/0", &sighash),
        "token",
        "m/0",
        payload,
    );
    assert_sign_request(
        &client.sign_bip340_with(&secret("other"), "m/0", &sighash),
        "other",
        "m/0",
        payload,
    );
    assert_eq!(STANDARD.decode(payload).ok(), Some(sighash.to_vec()));
}

#[test]
fn import_request_marks_the_key_derivable() {
    let client = client();
    for request in [
        client.import_slip10_master_request("lbl", &[1, 2, 3, 4]),
        client.import_slip10_master_with(&secret("token"), "lbl", &[1, 2, 3, 4]),
    ] {
        assert_eq!(request.url, "https://tsb.example/v1/importedKey");
        assert_eq!(request.bearer, "token");
        let flags = [
            ("encrypt", false),
            ("decrypt", false),
            ("verify", true),
            ("sign", true),
            ("wrap", false),
            ("unwrap", false),
            ("derive", true),
            ("bip32", false),
            ("slip10", true),
            ("extractable", false),
            ("modifiable", true),
            ("destroyable", true),
            ("sensitive", true),
            ("copyable", false),
        ];
        let attributes = flags.iter().map(|(k, v)| (*k, JsonScalar::Flag(*v))).collect();
        assert!(
            request.body
                == vec![
                    ("label", text("lbl")),
                    ("algorithm", text("EC")),
                    ("curveOid", text("1.3.132.0.10")),
                    ("attributes", JsonValue::Object(attributes)),
                    ("seed", text("AQIDBA==")),
                ]
        );
    }
}

#[test]
fn derived_key_request_names_master_and_path() {
    let client = client();
    for request in [
        client.derived_public_key_request("lbl", "86'/1'/0'/0/0"),
        client.derived_public_key_with(&secret("token"), "lbl", "86'/1'/0'/0/0"),
    ] {
        assert_eq!(request.url, "https://tsb.example/v1/derivedKey");
        assert_eq!(request.bearer, "token");
        let flags = [
            ("sign", true),
            ("derive", true),
            ("slip10", true),
            ("extractable", false),
            ("destroyable", true),
        ];
        let attributes = flags.iter().map(|(k, v)| (*k, JsonScalar::Flag(*v))).collect();
        assert!(
            request.body
                == vec![
                    ("masterKeyLabel", text("lbl")),
                    ("derivationPath", text("86'/1'/0'/0/0")),
                    ("attributes", JsonValue::Object(attributes)),
                ]
        );
    }
}

#[test]
fn refusals_are_reported() {
    for status in [100u16, 199, 300, 401, 500] {
        let refused = || Ok(TsbReply { status, body: "res.error".to_string() });
        let is_refusal = |e: TsbError| match e {
            TsbError::Api { status: s, body } => s == status && body == "res.error",
            _ => false,
        };
        assert!(accept_reply(refused()).is_err_and(is_refusal));
        assert!(Client::sign_bip340_reply(refused()).is_err_and(is_refusal));
        assert!(Client::import_slip10_master_reply(refused()).is_err_and(is_refusal));
        assert!(Client::derived_public_key_reply(refused()).is_err_and(is_refusal));
    }
}

#[test]
fn failed_exchanges_are_reported() {
    let failed = || Err("connection reset".to_string());
    let is_failure = |e: TsbError| match e {
        TsbError::Http(reason) => reason == "connection reset",
        _ => false,
    };
    assert!(accept_reply(failed()).is_err_and(is_failure));
    assert!(Client::sign_bip340_reply(failed()).is_err_and(is_failure));
    assert!(Client::import_slip10_master_reply(failed()).is_err_and(is_failure));
    assert!(Client::derived_public_key_reply(failed()).is_err_and(is_failure));
}

#[test]
fn successes_give_their_body() {
    for status in [200u16, 201, 299] {
        match accept_reply(Ok(TsbReply { status, body: "b".to_string() })) {
            Ok(body) => assert_eq!(body, "b"),
            Err(e) => panic!("{e:?}"),
        }
    }
    assert!(Client::import_slip10_master_reply(ok("not json")).is_ok());
}

#[test]
fn errors_read_as_text() {
    let refused = TsbError::Api { status: 401, body: "no".to_string() };
    assert_eq!(refused.message(), "TSB API error (HTTP 401): no");
    assert_eq!(TsbError::Decode("why".to_string()).message(), "TSB decode error: why");
    assert_eq!(TsbError::Http("why".to_string()).message(), "why");
}

#[test]
fn signature_is_taken_from_the_reply() {
    let raw: Vec<u8> = (0..64).collect();
    let body = format!("{{\"signature\":\"{}\",\"x\":1}}", STANDARD.encode(&raw));
    match Client::sign_bip340_reply(ok(&body)) {
        Ok(signature) => assert_eq!(&signature[..], &raw[..]),
        Err(e) => panic!("{e:?}"),
    }
    match Signer::sign_schnorr_reply(ok(&body)) {
        Ok(signature) => assert_eq!(&signature.bytes[..], &raw[..]),
        Err(e) => panic!("{e:?}"),
    }
}

#[test]
fn replies_without_a_signature_are_decode_errors() {
    let reason = |body: &str| decode_reason(Client::sign_bip340_reply(ok(body)));
    let json_error = match serde_json::from_str::<serde_json::Value>("not json") {
        Ok(_) => panic!("no JSON"),
        Err(e) => e.to_string(),
    };
    assert_eq!(reason("not json"), json_error);
    for body in ["{}", "[]", "\"signature\"", "{\"signature\":5}", "{\"a\":{\"signature\":\"\"}}"] {
        assert_eq!(reason(body), "response missing `signature`");
    }
    let base64_error = match STANDARD.decode("?") {
        Ok(_) => panic!("no base64"),
        Err(e) => e.to_string(),
    };
    assert_eq!(
        reason("{\"signature\":\"?\"}"),
        format!("signature base64: {base64_error}")
    );
    assert_eq!(
        reason("{\"signature\":\"AQID\"}"),
        "BIP-340 signature is 3 bytes, want 64"
    );
    assert_eq!(
        reason("{\"signature\":\"\"}"),
        "BIP-340 signature is 0 bytes, want 64"
    );
}

#[test]
fn decoded_signatures_are_checked() {
    match require_signature(Ok(vec![9; 64])) {
        Ok(signature) => assert_eq!(signature, [9; 64]),
        Err(e) => panic!("{e:?}"),
    }
    assert_eq!(
        decode_reason(require_signature(Ok(vec![9; 65]))),
        "BIP-340 signature is 65 bytes, want 64"
    );
    assert_eq!(
        decode_reason(require_signature(Err("why".to_string()))),
        "signature base64: why"
    );
}

#[test]
fn found_fields_are_checked() {
    match require_field(Ok(Some("x".to_string())), "missing") {
        Ok(text) => assert_eq!(text, "x"),
        Err(e) => panic!("{e:?}"),
    }
    assert_eq!(decode_reason(require_field(Ok(None), "missing")), "missing");
    assert_eq!(
        decode_reason(require_field(Err("why".to_string()), "missing")),
        "why"
    );
}

#[test]
fn public_key_is_the_tail_of_the_key_info() {
    let mut spki = vec![0x30, 0x56, 0x01];
    spki.extend_from_slice(&G_UNCOMPRESSED);
    let encoded = STANDARD.encode(&spki);
    let mut expected = [0u8; 33];
    expected[0] = 0x02;
    expected[1..].copy_from_slice(&G_UNCOMPRESSED[1..33]);
    for body in [
        format!("{{\"json\":{{\"publicKey\":\"{encoded}\"}}}}"),
        format!("{{\"publicKey\":\"{encoded}\"}}"),
        format!("{{\"publicKey\":\"AQID\",\"json\":{{\"publicKey\":\"{encoded}\"}}}}"),
        format!("{{\"publicKey\":\"{encoded}\",\"json\":{{}}}}"),
    ] {
        match Client::derived_public_key_reply(ok(&body)) {
            Ok(key) => assert_eq!(key, PublicKey { compressed: expected }),
            Err(e) => panic!("{e:?}"),
        }
    }
}

#[test]
fn replies_without_a_public_key_are_decode_errors() {
    let reason = |body: &str| decode_reason(Client::derived_public_key_reply(ok(body)));
    assert_eq!(reason("{}"), "response missing `publicKey`");
    assert_eq!(reason("{\"publicKey\":null}"), "response missing `publicKey`");
    assert_eq!(
        reason("{\"publicKey\":\"AQID\",\"json\":{\"publicKey\":7}}"),
        "response missing `publicKey`"
    );
    assert_eq!(reason("{\"publicKey\":\"AQID\"}"), "publicKey SPKI too short");
    assert!(reason("{\"publicKey\":\"?\"}").starts_with("publicKey base64: "));
    let zeros = STANDARD.encode([0u8; 65]);
    assert_eq!(
        reason(&format!("{{\"publicKey\":\"{zeros}\"}}")),
        "secp256k1 point: malformed public key"
    );
}

#[test]
fn decoded_key_infos_are_checked() {
    let mut spki = vec![1, 2];
    spki.extend_from_slice(&[7; 65]);
    match require_point(Ok(spki)) {
        Ok(point) => assert_eq!(point, vec![7; 65]),
        Err(e) => panic!("{e:?}"),
    }
    assert_eq!(
        decode_reason(require_point(Ok(vec![7; 64]))),
        "publicKey SPKI too short"
    );
    assert_eq!(
        decode_reason(require_point(Err("why".to_string()))),
        "publicKey base64: why"
    );
    let key = PublicKey { compressed: [2; 33] };
    match require_key(Ok(key)) {
        Ok(same) => assert_eq!(same, key),
        Err(e) => panic!("{e:?}"),
    }
    assert_eq!(
        decode_reason(require_key(Err("why".to_string()))),
        "secp256k1 point: why"
    );
}

#[test]
fn schnorr_signature_keeps_its_bytes() {
    match schnorr_from_bytes(&[5; 64]) {
        Ok(signature) => assert_eq!(signature.bytes, [5; 64]),
        Err(e) => panic!("{e:?}"),
    }
}

#[test]
fn signer_asks_for_the_leaf() {
    let signer = SecurosysTaprootSigner::new(client());
    assert_eq!(signer.client().base_url(), "https://tsb.example/v1");
    let leaf = path("m/86'/1'/0'/0/5");
    let payload = STANDARD.encode([4u8; 32]);
    assert_sign_request(
        &signer.sign_schnorr_request("fed-1", &leaf, &[4; 32]),
        "token",
        "emvault.v1.fed-1.priv/86'/1'/0'/0/5",
        &payload,
    );
    assert_sign_request(
        &signer.sign_schnorr_with(&secret("t2"), "fed-1", &[], &[4; 32]),
        "t2",
        "emvault.v1.fed-1.priv",
        &payload,
    );
}

#[test]
fn signer_failures_are_signing_errors() {
    let reason = |reply: Result<TsbReply, String>| match Signer::sign_schnorr_reply(reply) {
        Err(HsmBackendError::Signing(reason)) => reason,
        _ => panic!("no signing error"),
    };
    assert_eq!(
        reason(Ok(TsbReply { status: 500, body: "boom".to_string() })),
        "TSB API error (HTTP 500): boom"
    );
    assert_eq!(
        reason(ok("{}")),
        "TSB decode error: response missing `signature`"
    );
    assert_eq!(reason(Err("timed out".to_string())), "timed out");
}

#[test]
fn signer_needs_both_variables_or_none() {
    assert_eq!(TSB_URL_ENV, "SECUROSYS_TSB_URL");
    assert_eq!(TSB_JWT_ENV, "SECUROSYS_TSB_JWT");
    match SecurosysTaprootSigner::from_env(&env(&[
        ("SECUROSYS_TSB_URL", "https://h/v1/"),
        ("SECUROSYS_TSB_JWT", "jwt"),
    ])) {
        Ok(Some(signer)) => {
            assert_eq!(signer.client().base_url(), "https://h/v1");
            assert_eq!(signer.client().bearer().expose_secret(), "jwt");
        }
        _ => panic!("both are set"),
    }
    for vars in [
        env(&[]),
        env(&[("SECUROSYS_TSB_URL", ""), ("SECUROSYS_TSB_JWT", "")]),
    ] {
        assert!(matches!(SecurosysTaprootSigner::from_env(&vars), Ok(None)));
    }
}

#[test]
fn half_configured_signer_is_an_error() {
    for vars in [
        env(&[("SECUROSYS_TSB_URL", "https://h")]),
        env(&[("SECUROSYS_TSB_URL", "https://h"), ("SECUROSYS_TSB_JWT", "")]),
    ] {
        assert_eq!(
            decode_reason(SecurosysTaprootSigner::from_env(&vars)),
            "SECUROSYS_TSB_URL set but SECUROSYS_TSB_JWT missing"
        );
    }
    assert_eq!(
        decode_reason(SecurosysTaprootSigner::from_env(&env(&[(
            "SECUROSYS_TSB_JWT",
            "jwt"
        )]))),
        "SECUROSYS_TSB_JWT set but SECUROSYS_TSB_URL missing"
    );
}

#[test]
fn different_leaves_and_payloads_give_different_requests() {
    let signer = SecurosysTaprootSigner::new(client());
    let leaf = path("m/0/5");
    let other = path("m/0'/5");
    let request = |label: &str, path: &[ChildNumber], sighash: [u8; 32]| {
        signer.sign_schnorr_request(label, path, &sighash).body
    };
    let one = request("a", &leaf, [1; 32]);
    assert!(one == request("a", &leaf, [1; 32]));
    assert!(one != request("b", &leaf, [1; 32]));
    assert!(one != request("a", &other, [1; 32]));
    assert!(one != request("a", &leaf, [2; 32]));
    let import = |label: &str, seed: &[u8]| {
        signer.client().import_slip10_master_request(label, seed).body
    };
    assert!(import("a", &[1]) == import("a", &[1]));
    assert!(import("a", &[1]) != import("b", &[1]));
    assert!(import("a", &[1]) != import("a", &[1, 0]));
}

fn halves(r: [u8; 32], s: [u8; 32]) -> [u8; 64] {
    let mut raw = [0u8; 64];
    raw[..32].copy_from_slice(&r);
    raw[32..].copy_from_slice(&s);
    raw
}

#[test]
fn curve_constants_are_those_of_secp256k1() {
    assert_eq!(FIELD_PRIME, bitcoin::secp256k1::constants::FIELD_SIZE);
    assert_eq!(GROUP_ORDER, bitcoin::secp256k1::constants::CURVE_ORDER);
}

#[test]
fn schnorr_signature_halves_are_in_range() {
    let mut last_field = FIELD_PRIME;
    last_field[31] -= 1;
    let mut last_scalar = GROUP_ORDER;
    last_scalar[31] -= 1;
    for raw in [
        [0; 64],
        halves(last_field, last_scalar),
        halves([0xfe; 32], [0x7f; 32]),
    ] {
        assert!(SchnorrSignature::is_encoding(&raw));
        match schnorr_from_bytes(&raw) {
            Ok(signature) => assert_eq!(signature.bytes, raw),
            Err(e) => panic!("{e:?}"),
        }
    }
    let mut above_scalar = GROUP_ORDER;
    above_scalar[16] += 1;
    above_scalar[31] = 0;
    for raw in [
        [0xff; 64],
        halves(FIELD_PRIME, [0; 32]),
        halves([0xff; 32], [0; 32]),
        halves([0; 32], GROUP_ORDER),
        halves([0; 32], above_scalar),
        halves([0; 32], [0xff; 32]),
    ] {
        assert!(!SchnorrSignature::is_encoding(&raw));
        assert_eq!(decode_reason(schnorr_from_bytes(&raw)), "malformed signature");
    }
}

#[test]
fn signer_refuses_bytes_that_are_no_signature() {
    let body = format!("{{\"signature\":\"{}\"}}", STANDARD.encode([0xff; 64]));
    match Client::sign_bip340_reply(ok(&body)) {
        Ok(raw) => assert_eq!(raw, [0xff; 64]),
        Err(e) => panic!("{e:?}"),
    }
    match Signer::sign_schnorr_reply(ok(&body)) {
        Err(HsmBackendError::Signing(reason)) => {
            assert_eq!(reason, "TSB decode error: malformed signature")
        }
        _ => panic!("no signature"),
    }
}
