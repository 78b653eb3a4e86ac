//! secp256k1 public keys and signatures, key fingerprints and extended public keys.
use crate::bip32::ChildNumber;
use bitcoin::hashes::hash160;
use vstd::prelude::*;

verus! {

/// A secp256k1 public key in SEC1 compressed form.
#[derive(Clone, Copy, Debug, PartialEq, Eq)]
pub struct PublicKey {
    /// `0x02` or `0x03` by the parity of y, then the 32 bytes of x.
    pub compressed: [u8; 33],
}

impl View for PublicKey {
    type V = Seq<u8>;

    open spec fn view(&self) -> Seq<u8> {
        self.compressed@
    }
}

/// Whether `bytes` are the SEC1 encoding of a point on secp256k1.
pub uninterp spec fn is_secp256k1_point(bytes: Seq<u8>) -> bool;

/// Whether `bytes` have the outer form of a SEC1 encoded point: 33 bytes for a
/// compressed one, 65 for an uncompressed or hybrid one.
pub open spec fn has_sec1_form(bytes: Seq<u8>) -> bool {
    ||| bytes.len() == 33 && (bytes[0] == 2 || bytes[0] == 3)
    ||| bytes.len() == 65 && (bytes[0] == 4 || bytes[0] == 6 || bytes[0] == 7)
}

/// The compressed form of a SEC1 encoded point.
pub open spec fn compressed_point(bytes: Seq<u8>) -> Seq<u8> {
    if bytes.len() == 33 {
        bytes
    } else {
        seq![(2 + bytes[64] % 2) as u8] + bytes.subrange(1, 33)
    }
}

/// Calls `secp256k1::PublicKey::from_slice` and `serialize`: it accepts the
/// points of the curve in a SEC1 form, keeps x and the parity of y, and has one
/// error. Which x and y lie on the curve is named, not spelled out.
#[verifier::external_body]
fn parse_point(bytes: &[u8]) -> (key: Result<PublicKey, String>)
    ensures
        key is Ok <==> is_secp256k1_point(bytes@),
        match key {
            Ok(key) => has_sec1_form(bytes@) && key@ == compressed_point(bytes@),
            Err(reason) => reason@ == "malformed public key"@,
        },
{
    match bitcoin::secp256k1::PublicKey::from_slice(bytes) {
        Ok(key) => Ok(PublicKey { compressed: key.serialize() }),
        Err(e) => Err(e.to_string()),
    }
}

impl PublicKey {
    /// Parse a SEC1 encoded point.
    pub fn from_slice(bytes: &[u8]) -> (key: Result<PublicKey, String>)
        ensures
            key is Ok <==> is_secp256k1_point(bytes@),
            match key {
                Ok(key) => has_sec1_form(bytes@) && key@ == compressed_point(bytes@),
                Err(reason) => reason@ == "malformed public key"@,
            },
    {
        parse_point(bytes)
    }
}

/// A BIP-340 Schnorr signature: the 32 bytes of x(R), then the 32 bytes of s.
#[derive(Clone, Copy, Debug, PartialEq, Eq)]
pub struct SchnorrSignature {
    pub bytes: [u8; 64],
}

impl View for SchnorrSignature {
    type V = Seq<u8>;

    open spec fn view(&self) -> Seq<u8> {
        self.bytes@
    }
}

/// Calls `secp256k1::schnorr::Signature::from_slice` and `serialize`: it takes
/// any 64 bytes as they are, and has one error for any other length.
#[verifier::external_body]
fn parse_schnorr(bytes: &[u8]) -> (signature: Result<SchnorrSignature, String>)
    ensures
        match signature {
            Ok(signature) => bytes@.len() == 64 && signature@ == bytes@,
            Err(reason) => bytes@.len() != 64 && reason@ == "malformed signature"@,
        },
{
    match bitcoin::secp256k1::schnorr::Signature::from_slice(bytes) {
        Ok(signature) => Ok(SchnorrSignature { bytes: signature.serialize() }),
        Err(e) => Err(e.to_string()),
    }
}

/// The prime of the field that secp256k1 is defined over, big-endian.
pub const FIELD_PRIME: [u8; 32] = [
    0xff, 0xff, 0xff, 0xff, 0xff, 0xff, 0xff, 0xff, 0xff, 0xff, 0xff, 0xff, 0xff, 0xff, 0xff, 0xff,
    0xff, 0xff, 0xff, 0xff, 0xff, 0xff, 0xff, 0xff, 0xff, 0xff, 0xff, 0xfe, 0xff, 0xff, 0xfc, 0x2f,
];

/// The order of the group of secp256k1, big-endian.
pub const GROUP_ORDER: [u8; 32] = [
    0xff, 0xff, 0xff, 0xff, 0xff, 0xff, 0xff, 0xff, 0xff, 0xff, 0xff, 0xff, 0xff, 0xff, 0xff, 0xfe,
    0xba, 0xae, 0xdc, 0xe6, 0xaf, 0x48, 0xa0, 0x3b, 0xbf, 0xd2, 0x5e, 0x8c, 0xd0, 0x36, 0x41, 0x41,
];

/// Whether `a` stands for a smaller number than `b`, both big-endian and of the
/// same length: at the first place where they differ, `a` has the smaller byte.
pub open spec fn is_below(a: Seq<u8>, b: Seq<u8>) -> bool {
    exists|i: int| 0 <= i < a.len() && a.take(i) == b.take(i) && #[trigger] a[i] < b[i]
}

/// Whether 64 bytes encode a BIP-340 signature: the first half stands for an
/// element of the field, the second for a scalar.
pub open spec fn is_schnorr_encoding(raw: Seq<u8>) -> bool {
    is_below(raw.take(32), FIELD_PRIME@) && is_below(raw.skip(32), GROUP_ORDER@)
}

/// Whether the 32 bytes of `raw` from `start` on stand for a smaller number than `bound`.
fn half_is_below(raw: &[u8; 64], start: usize, bound: &[u8; 32]) -> (below: bool)
    requires
        start <= 32,
    ensures
        below == is_below(raw@.subrange(start as int, start + 32), bound@),
{
    let ghost half = raw@.subrange(start as int, start + 32);
    let mut i: usize = 0;
    while i < 32
        invariant
            i <= 32,
            start <= 32,
            half == raw@.subrange(start as int, start + 32),
            forall|j: int| 0 <= j < i ==> half[j] == bound@[j],
        decreases 32 - i,
    {
        assert(half[i as int] == raw@[start + i]);
        if raw[start + i] < bound[i] {
            assert(half.take(i as int) =~= bound@.take(i as int));
            return true;
        }
        if raw[start + i] > bound[i] {
            assert forall|k: int| 0 <= k < 32 && half.take(k) == bound@.take(k) implies !(
            #[trigger] half[k] < bound@[k]) by {
                if k > i {
                    assert(half.take(k)[i as int] == bound@.take(k)[i as int]);
                }
            }
            return false;
        }
        i = i + 1;
    }
    false
}

impl SchnorrSignature {
    /// Whether `raw` encodes a BIP-340 signature.
    pub fn is_encoding(raw: &[u8; 64]) -> (valid: bool)
        ensures
            valid == is_schnorr_encoding(raw@),
    {
        assert(raw@.take(32) =~= raw@.subrange(0, 32));
        assert(raw@.skip(32) =~= raw@.subrange(32, 64));
        half_is_below(raw, 0, &FIELD_PRIME) && half_is_below(raw, 32, &GROUP_ORDER)
    }

    /// Take up 64 raw bytes, in range or not; [`SchnorrSignature::is_encoding`] tells.
    pub fn from_slice(bytes: &[u8]) -> (signature: Result<SchnorrSignature, String>)
        ensures
            match signature {
                Ok(signature) => bytes@.len() == 64 && signature@ == bytes@,
                Err(reason) => bytes@.len() != 64 && reason@ == "malformed signature"@,
            },
    {
        parse_schnorr(bytes)
    }
}

/// The HASH160 digest of `bytes`: RIPEMD-160 of SHA-256.
pub uninterp spec fn hash160_digest(bytes: Seq<u8>) -> Seq<u8>;

/// Calls `bitcoin::hashes::hash160::Hash::hash`. The digest is named, not spelled out.
#[verifier::external_body]
fn hash160_of(bytes: &[u8]) -> (digest: [u8; 20])
    ensures
        digest@ == hash160_digest(bytes@),
{
    let digest = <hash160::Hash as bitcoin::hashes::Hash>::hash(bytes);
    bitcoin::hashes::Hash::to_byte_array(digest)
}

/// A key fingerprint: the first four bytes of the HASH160 of a public key.
#[derive(Clone, Copy, Debug, PartialEq, Eq)]
pub struct Fingerprint {
    pub bytes: [u8; 4],
}

impl View for Fingerprint {
    type V = Seq<u8>;

    open spec fn view(&self) -> Seq<u8> {
        self.bytes@
    }
}

/// The fingerprint that the HASH160 digest of a key gives.
pub fn fingerprint_from_digest(digest: &[u8; 20]) -> (fingerprint: Fingerprint)
    ensures
        fingerprint@ == digest@.take(4),
{
    let fingerprint = Fingerprint { bytes: [digest[0], digest[1], digest[2], digest[3]] };
    assert(fingerprint@ =~= digest@.take(4));
    fingerprint
}

/// The fingerprint of `key`.
pub fn fingerprint_of(key: &PublicKey) -> (fingerprint: Fingerprint)
    ensures
        fingerprint@ == hash160_digest(key@).take(4),
{
    fingerprint_from_digest(&hash160_of(key.compressed.as_slice()))
}

/// The kind of network an extended key is for.
#[derive(Clone, Copy, Debug, PartialEq, Eq, Structural)]
pub enum NetworkKind {
    /// The main network.
    Main,
    /// A test network.
    Test,
}

/// An extended public key.
#[derive(Clone, Copy, Debug, PartialEq, Eq)]
pub struct Xpub {
    /// The kind of network.
    pub network: NetworkKind,
    /// How many derivations lie between the master key and this one.
    pub depth: u8,
    /// The fingerprint of the parent key.
    pub parent_fingerprint: Fingerprint,
    /// The step that led from the parent to this key.
    pub child_number: ChildNumber,
    /// The public key.
    pub public_key: PublicKey,
    /// The chain code.
    pub chain_code: [u8; 32],
}

/// The number that `bytes` stand for, big-endian.
pub open spec fn number(bytes: Seq<u8>) -> nat
    decreases bytes.len(),
{
    if bytes.len() == 0 {
        0
    } else {
        number(bytes.drop_last()) * 256 + bytes.last() as nat
    }
}

/// Bytes are below others of the same length exactly where their number is the smaller one.
pub proof fn law_below_is_by_number(a: Seq<u8>, b: Seq<u8>)
    requires
        a.len() == b.len(),
    ensures
        is_below(a, b) <==> number(a) < number(b),
        a == b <==> number(a) == number(b),
    decreases a.len(),
{
    if a.len() == 0 {
        assert(a =~= b);
    } else {
        let n = a.len() - 1;
        let (x, y) = (a.drop_last(), b.drop_last());
        law_below_is_by_number(x, y);
        assert(a =~= x.push(a.last()) && b =~= y.push(b.last()));
        if is_below(x, y) {
            let i = choose|i: int| 0 <= i < x.len() && x.take(i) == y.take(i) && #[trigger] x[i]
                < y[i];
            assert(a.take(i) =~= x.take(i) && b.take(i) =~= y.take(i));
            assert(a[i] < b[i]);
        }
        if x == y && a.last() < b.last() {
            assert(a.take(n) =~= x && b.take(n) =~= y);
            assert(a[n] < b[n]);
        }
        if is_below(a, b) {
            let i = choose|i: int| 0 <= i < a.len() && a.take(i) == b.take(i) && #[trigger] a[i]
                < b[i];
            if i < n {
                assert(x.take(i) =~= a.take(i) && y.take(i) =~= b.take(i));
                assert(x[i] < y[i]);
            } else {
                assert(x =~= a.take(n) && y =~= b.take(n));
            }
        }
    }
}

/// The views of keys, signatures and fingerprints are their bytes.
pub proof fn law_bytes_are_seen_whole(
    key: PublicKey,
    signature: SchnorrSignature,
    fingerprint: Fingerprint,
)
    ensures
        key@ == key.compressed@,
        signature@ == signature.bytes@,
        fingerprint@ == fingerprint.bytes@,
{
}

/// A point has 33 bytes with a first byte of 2 or 3, or 65 with one of 4, 6 or 7.
pub proof fn law_sec1_form(head: u8, rest: Seq<u8>)
    ensures
        has_sec1_form(seq![head] + rest) <==> (rest.len() == 32 && 2 <= head <= 3) || (rest.len()
            == 64 && (head == 4 || 6 <= head <= 7)),
        !has_sec1_form(Seq::empty()),
{
}

/// The compressed form of a point keeps x; its first byte is kept, or tells
/// whether y is even or odd.
pub proof fn law_compression_keeps_x(head: u8, x: Seq<u8>, y: Seq<u8>)
    requires
        x.len() == 32,
        y.len() == 32,
    ensures
        compressed_point(seq![head] + x) == seq![head] + x,
        compressed_point(seq![head] + x + y).len() == 33,
        compressed_point(seq![head] + x + y).skip(1) == x,
        number(y) % 2 == 0 ==> compressed_point(seq![head] + x + y)[0] == 2,
        number(y) % 2 == 1 ==> compressed_point(seq![head] + x + y)[0] == 3,
{
    let point = seq![head] + x + y;
    assert(point.subrange(1, 33) =~= x);
    assert(compressed_point(point).skip(1) =~= x);
    assert(point[64] == y.last());
    assert(number(y) == number(y.drop_last()) * 256 + y.last() as nat);
    assert(number(y) % 2 == y.last() as nat % 2);
}

/// A byte more multiplies the number by 256 and adds the byte.
pub proof fn law_number_of_one_byte_more(bytes: Seq<u8>, byte: u8)
    ensures
        number(Seq::empty()) == 0,
        number(bytes.push(byte)) == number(bytes) * 256 + byte,
{
    assert(bytes.push(byte).drop_last() =~= bytes);
}

/// 64 bytes encode a signature exactly where the number of their first half is
/// below the field prime and that of their second half below the group order.
pub proof fn law_encoding_is_in_range(r: Seq<u8>, s: Seq<u8>)
    requires
        r.len() == 32,
        s.len() == 32,
    ensures
        is_schnorr_encoding(r + s) <==> number(r) < number(FIELD_PRIME@) && number(s) < number(
            GROUP_ORDER@,
        ),
{
    assert((r + s).take(32) =~= r);
    assert((r + s).skip(32) =~= s);
    law_below_is_by_number(r, FIELD_PRIME@);
    law_below_is_by_number(s, GROUP_ORDER@);
}

} // verus!
