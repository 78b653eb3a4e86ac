//! What the Securosys backend asks of the HSM, step by step, and what it makes of the answers.
//!
//! A master key pair is generated from a seed in one call; a whole derivation
//! path is derived in one call. The EC point of a key lives on its public
//! object, so every generated or derived private handle is paired with its
//! public handle; a key that was loaded by label is paired by the label of its
//! public sibling.
use crate::bip32::{is_path, law_words_determine_path, path_words, ChildNumber};
use crate::error::{HsmBackendError, HsmBackendErrorView};
use crate::keys::{
    compressed_point, fingerprint_of, has_sec1_form, hash160_digest, is_secp256k1_point,
    Fingerprint, NetworkKind, PublicKey, Xpub,
};
use crate::pkcs11::pub_map::{law_recorded_pair_is_found, PairLog, PubMap};
use crate::pkcs11::template::{
    child_private_attributes, child_private_template, child_public_attributes,
    child_public_template, first_value, law_first_ec_point_is_read, master_private_attributes, master_private_template,
    master_public_attributes, master_public_template, pub_sibling, pub_sibling_label,
    public_key_search, public_key_search_template, read_label, template_view, KeyAttribute,
    ObjectAttribute,
};
use crate::text::{
    ends_with, hexadecimal, hexadecimal_of, join3, law_ends_with, text_of_bytes,
};
use vstd::prelude::*;

verus! {

/// `CKM_EC_SLIP10_KEY_PAIR_GEN`: master key pair generation (seed as mechanism parameter).
pub const CKM_EC_SLIP10_KEY_PAIR_GEN: u64 = 0x8000_0E02;

/// `CKM_SLIP10_CHILD_DERIVE`: child derivation (whole-path parameters).
pub const CKM_SLIP10_CHILD_DERIVE: u64 = 0x8000_0E01;

/// `CKR_OK`: the call succeeded.
pub const CKR_OK: u64 = 0;

/// The call that generates a SLIP-10 master key pair.
pub struct MasterKeyRequest<'a> {
    /// The mechanism.
    pub mechanism: u64,
    /// The mechanism's parameter: the seed.
    pub seed: &'a [u8],
    /// The template of the public key.
    pub public_template: Vec<KeyAttribute>,
    /// The template of the private key.
    pub private_template: Vec<KeyAttribute>,
}

/// The call that derives a whole path from a parent key.
pub struct ChildKeyRequest {
    /// The mechanism.
    pub mechanism: u64,
    /// The parent private key.
    pub parent: u64,
    /// The mechanism's parameter: the child numbers of the path, as words.
    pub path_indexes: Vec<u64>,
    /// The template of the public key.
    pub public_template: Vec<KeyAttribute>,
    /// The template of the private key.
    pub private_template: Vec<KeyAttribute>,
}

/// How a path is derived.
pub enum DerivePath {
    /// The path is empty: the key is the parent itself, and nothing is called.
    Parent(u64),
    /// The path is derived by this call.
    Derive(ChildKeyRequest),
}

/// The handles of a key pair.
#[derive(Clone, Copy, Debug, PartialEq, Eq, Structural)]
pub struct KeyPair {
    /// The private key.
    pub private: u64,
    /// The public key.
    pub public: u64,
}

/// A master key on the token.
pub struct MasterKeyHandle {
    /// The private key.
    pub key_handle: u64,
    /// Its extended public key.
    pub xpub: Xpub,
    /// Its fingerprint.
    pub fingerprint: Fingerprint,
}

/// The words of a path, as the HSM takes them.
pub open spec fn path_indexes(path: Seq<ChildNumber>) -> Seq<u64> {
    path.map_values(|child: ChildNumber| child.word() as u64)
}

/// What is wrapped in a DER OCTET STRING that holds an EC point: what follows
/// the tag and the length octets. Bytes that do not start with the tag are
/// taken as they are; length octets that are cut short leave nothing.
pub open spec fn ec_point_payload(der: Seq<u8>) -> Seq<u8> {
    if der.len() >= 2 && der[0] == 0x04 {
        if der[1] < 0x80 {
            der.skip(2)
        } else if 2 + (der[1] - 0x80) <= der.len() {
            der.skip(2 + (der[1] - 0x80))
        } else {
            Seq::empty()
        }
    } else {
        der
    }
}

/// Whether the positional fields of `xpub` are the normalized ones: a main
/// network key of depth zero without a parent.
///
/// A path is derived as a whole, so the parent is never seen; a descriptor
/// carries the origin beside the key and does not read these fields.
pub open spec fn is_normalized(xpub: Xpub) -> bool {
    &&& xpub.network == NetworkKind::Main
    &&& xpub.depth == 0
    &&& xpub.parent_fingerprint@ == seq![0u8, 0u8, 0u8, 0u8]
    &&& xpub.child_number == ChildNumber::Normal { index: 0 }
}

/// What failed `call` reads.
pub open spec fn call_failed(call: Seq<char>, rv: u64) -> Seq<char> {
    call + " failed: rv=0x"@ + hexadecimal(rv as nat)
}

/// The point inside a DER OCTET STRING.
pub fn unwrap_ec_point<'a>(der: &'a [u8]) -> (inner: &'a [u8])
    ensures
        inner@ == ec_point_payload(der@),
{
    let n: usize = der.len();
    if n >= 2 && der[0] == 0x04 {
        let start: usize = if der[1] < 0x80 {
            2
        } else {
            2 + (der[1] - 0x80) as usize
        };
        if start <= n {
            let inner = vstd::slice::slice_subrange(der, start, n);
            assert(inner@ =~= der@.skip(start as int));
            inner
        } else {
            let inner = vstd::slice::slice_subrange(der, 0, 0);
            assert(inner@ =~= Seq::<u8>::empty());
            inner
        }
    } else {
        der
    }
}

/// The key that the point parser found, or its reason as an error.
pub fn checked_point(parsed: Result<PublicKey, String>) -> (key: Result<PublicKey, HsmBackendError>)
    ensures
        match parsed {
            Ok(parsed) => key == Ok::<PublicKey, HsmBackendError>(parsed),
            Err(reason) => key matches Err(e) && e@ == HsmBackendErrorView::MetadataError(
                "invalid secp256k1 point: "@ + reason@,
            ),
        },
{
    match parsed {
        Ok(key) => Ok(key),
        Err(reason) => {
            let mut text = "invalid secp256k1 point: ".to_owned();
            text.append(reason.as_str());
            Err(HsmBackendError::MetadataError(text))
        },
    }
}

/// Unwrap a DER OCTET STRING (`CKA_EC_POINT`) to the SEC1 point, and parse it.
pub fn parse_ec_point(der: &[u8]) -> (key: Result<PublicKey, HsmBackendError>)
    ensures
        key is Ok <==> is_secp256k1_point(ec_point_payload(der@)),
        match key {
            Ok(key) => has_sec1_form(ec_point_payload(der@)) && key@ == compressed_point(
                ec_point_payload(der@),
            ),
            Err(e) => e@ == HsmBackendErrorView::MetadataError(
                "invalid secp256k1 point: "@ + "malformed public key"@,
            ),
        },
{
    checked_point(PublicKey::from_slice(unwrap_ec_point(der)))
}

/// The normalized extended public key of `public_key` and `chain_code`.
pub fn normalized_xpub(public_key: PublicKey, chain_code: &[u8]) -> (xpub: Result<
    Xpub,
    HsmBackendError,
>)
    ensures
        if chain_code@.len() == 32 {
            xpub matches Ok(xpub) && is_normalized(xpub) && xpub.public_key == public_key
                && xpub.chain_code@ == chain_code@
        } else {
            xpub matches Err(e) && e@ == HsmBackendErrorView::MetadataError(
                "chain code != 32 bytes"@,
            )
        },
{
    if chain_code.len() != 32 {
        return Err(HsmBackendError::MetadataError("chain code != 32 bytes".to_owned()));
    }
    let mut code: [u8; 32] = [0u8; 32];
    let mut i: usize = 0;
    while i < 32
        invariant
            i <= 32,
            chain_code@.len() == 32,
            forall|j: int| 0 <= j < i ==> code@[j] == chain_code@[j],
        decreases 32 - i,
    {
        code[i] = chain_code[i];
        i = i + 1;
    }
    assert(code@ =~= chain_code@);
    let parent_fingerprint = Fingerprint { bytes: [0u8, 0u8, 0u8, 0u8] };
    assert(parent_fingerprint@ =~= seq![0u8, 0u8, 0u8, 0u8]);
    Ok(
        Xpub {
            network: NetworkKind::Main,
            depth: 0,
            parent_fingerprint,
            child_number: ChildNumber::Normal { index: 0 },
            public_key,
            chain_code: code,
        },
    )
}

/// The normalized extended public key whose EC point the public object
/// reported as `ec_point` and whose chain code the private object reported as
/// `chain_code`.
pub fn build_xpub(ec_point: &[u8], chain_code: &[u8]) -> (xpub: Result<Xpub, HsmBackendError>)
    ensures
        xpub is Ok <==> is_secp256k1_point(ec_point_payload(ec_point@)) && chain_code@.len() == 32,
        match xpub {
            Ok(xpub) => has_sec1_form(ec_point_payload(ec_point@)) && is_normalized(xpub)
                && xpub.public_key@ == compressed_point(ec_point_payload(ec_point@))
                && xpub.chain_code@ == chain_code@,
            Err(e) => e@ == HsmBackendErrorView::MetadataError(
                if !is_secp256k1_point(ec_point_payload(ec_point@)) {
                    "invalid secp256k1 point: "@ + "malformed public key"@
                } else {
                    "chain code != 32 bytes"@
                },
            ),
        },
{
    match parse_ec_point(ec_point) {
        Ok(public_key) => normalized_xpub(public_key, chain_code),
        Err(e) => Err(e),
    }
}

/// The master key of handle `key_handle` with the extended public key `xpub`.
pub fn master_key_handle(key_handle: u64, xpub: Xpub) -> (master: MasterKeyHandle)
    ensures
        master.key_handle == key_handle,
        master.xpub == xpub,
        master.fingerprint@ == hash160_digest(xpub.public_key@).take(4),
{
    let fingerprint = fingerprint_of(&xpub.public_key);
    MasterKeyHandle { key_handle, xpub, fingerprint }
}

/// The fingerprint of a master key with the extended public key `xpub`.
pub fn master_fingerprint(xpub: &Xpub) -> (fingerprint: Fingerprint)
    ensures
        fingerprint@ == hash160_digest(xpub.public_key@).take(4),
{
    fingerprint_of(&xpub.public_key)
}

/// The search for the public key beside a private key that reported
/// `attributes`: by the label of its sibling.
pub fn public_key_query(attributes: &[ObjectAttribute]) -> (query: Result<
    Vec<KeyAttribute>,
    HsmBackendError,
>)
    ensures
        match first_value(attributes@, |a: ObjectAttribute| a.label()) {
            Some(bytes) => query matches Ok(query) && template_view(query@) == public_key_search(
                pub_sibling(text_of_bytes(bytes)),
            ),
            None => query matches Err(e) && e@ == HsmBackendErrorView::MetadataError(
                "missing CKA_LABEL"@,
            ),
        },
{
    match read_label(attributes) {
        Ok(label) => {
            let sibling = pub_sibling_label(label.as_str());
            Ok(public_key_search_template(sibling.as_str()))
        },
        Err(e) => Err(e),
    }
}

/// The first of the public keys that a search found.
pub fn paired_public_key(found: &[u64]) -> (public: Result<u64, HsmBackendError>)
    ensures
        if found@.len() > 0 {
            public == Ok::<u64, HsmBackendError>(found@[0])
        } else {
            public matches Err(e) && e@ == HsmBackendErrorView::MetadataError(
                "no paired public key found"@,
            )
        },
{
    if found.len() > 0 {
        Ok(found[0])
    } else {
        Err(HsmBackendError::MetadataError("no paired public key found".to_owned()))
    }
}

/// The pair that a key-pair call returned, or what its failure reads.
pub fn key_pair_outcome(call: &str, rv: u64, public: u64, private: u64) -> (pair: Result<
    KeyPair,
    HsmBackendError,
>)
    ensures
        if rv == CKR_OK {
            pair == Ok::<KeyPair, HsmBackendError>(KeyPair { private, public })
        } else {
            pair matches Err(e) && e@ == HsmBackendErrorView::Derivation(call_failed(call@, rv))
        },
{
    if rv == CKR_OK {
        Ok(KeyPair { private, public })
    } else {
        let code = hexadecimal_of(rv);
        Err(HsmBackendError::Derivation(join3(call, " failed: rv=0x", code.as_str())))
    }
}

/// The Securosys Primus / `CloudHSM` backend: where its provider library is,
/// and which public handle belongs to which private one.
pub struct SecurosysBackend {
    lib_path: String,
    pub_of: PubMap,
}

impl SecurosysBackend {
    /// The path of the provider library.
    pub closed spec fn library(self) -> Seq<char> {
        self.lib_path@
    }

    /// The recorded key pairs.
    pub closed spec fn pairs(self) -> PairLog {
        self.pub_of@
    }

    /// The recorded pairs are well-formed and bounded.
    pub open spec fn wf(self) -> bool {
        self.pairs().wf()
    }

    /// A backend that loads the vendor entry points from `lib_path` on first use.
    pub fn new(lib_path: &str) -> (backend: SecurosysBackend)
        ensures
            backend.library() == lib_path@,
            backend.pairs() == PairLog::empty(),
            backend.wf(),
    {
        SecurosysBackend { lib_path: lib_path.to_owned(), pub_of: PubMap::new() }
    }

    /// The path of the provider library.
    pub fn lib_path(&self) -> (path: &str)
        ensures
            path@ == self.library(),
    {
        self.lib_path.as_str()
    }

    /// The vendor's name.
    pub fn backend_name(&self) -> (name: &'static str)
        ensures
            name@ == "securosys"@,
    {
        "securosys"
    }

    /// Pair a private handle with its public one.
    pub fn record_pair(&mut self, private: u64, public: u64)
        requires
            old(self).wf(),
        ensures
            final(self).pairs() == old(self).pairs().record(private, public),
            final(self).pairs().lookup(private) == Some(public),
            final(self).library() == old(self).library(),
            final(self).wf(),
    {
        proof {
            law_recorded_pair_is_found(self.pairs(), private, public);
        }
        self.pub_of.record_pair(private, public);
    }

    /// The public handle paired with `private`, where this backend recorded one.
    pub fn pub_handle_for(&self, private: u64) -> (public: Option<u64>)
        ensures
            public == self.pairs().lookup(private),
    {
        self.pub_of.get(private)
    }

    /// The call that generates the master key labelled `label` from `seed`; it
    /// is kept on the token.
    pub fn derive_master_key<'a>(&self, seed: &'a [u8], label: &str) -> (request: Result<
        MasterKeyRequest<'a>,
        HsmBackendError,
    >)
        ensures
            if seed@.len() == 0 {
                request matches Err(e) && e@ == HsmBackendErrorView::Derivation(
                    "Securosys SLIP-10 master gen needs a non-empty seed"@,
                )
            } else {
                request matches Ok(request) && request.mechanism == CKM_EC_SLIP10_KEY_PAIR_GEN
                    && request.seed@ == seed@ && template_view(request.public_template@)
                    == master_public_attributes(label@) && template_view(request.private_template@)
                    == master_private_attributes(label@)
            },
    {
        if seed.len() == 0 {
            return Err(
                HsmBackendError::Derivation(
                    "Securosys SLIP-10 master gen needs a non-empty seed".to_owned(),
                ),
            );
        }
        Ok(
            MasterKeyRequest {
                mechanism: CKM_EC_SLIP10_KEY_PAIR_GEN,
                seed,
                public_template: master_public_template(label),
                private_template: master_private_template(label),
            },
        )
    }

    /// Take in what the generation of a master key returned.
    pub fn master_key_generated(&mut self, rv: u64, public: u64, private: u64) -> (pair: Result<
        KeyPair,
        HsmBackendError,
    >)
        requires
            old(self).wf(),
        ensures
            final(self).wf(),
            final(self).library() == old(self).library(),
            if rv == CKR_OK {
                &&& pair == Ok::<KeyPair, HsmBackendError>(KeyPair { private, public })
                &&& final(self).pairs() == old(self).pairs().record(private, public)
                &&& final(self).pairs().lookup(private) == Some(public)
            } else {
                &&& pair matches Err(e)
                &&& e@ == HsmBackendErrorView::Derivation(call_failed("C_GenerateKeyPair"@, rv))
                &&& *final(self) == *old(self)
            },
    {
        let outcome = key_pair_outcome("C_GenerateKeyPair", rv, public, private);
        if outcome.is_ok() {
            self.record_pair(private, public);
        }
        outcome
    }

    /// How the key at `path` below `parent` is derived.
    pub fn derive_path(&self, parent: u64, path: &[ChildNumber]) -> (step: DerivePath)
        ensures
            match step {
                DerivePath::Parent(handle) => path@.len() == 0 && handle == parent,
                DerivePath::Derive(request) => {
                    &&& path@.len() > 0
                    &&& request.mechanism == CKM_SLIP10_CHILD_DERIVE
                    &&& request.parent == parent
                    &&& request.path_indexes@ == path_indexes(path@)
                    &&& request.path_indexes@.len() == path@.len()
                    &&& forall|i: int|
                        0 <= i < path@.len() ==> request.path_indexes@[i] == (
                        #[trigger] path@[i]).word()
                    &&& template_view(request.public_template@) == child_public_attributes()
                    &&& template_view(request.private_template@) == child_private_attributes()
                },
            },
    {
        if path.len() == 0 {
            return DerivePath::Parent(parent);
        }
        let mut indexes: Vec<u64> = Vec::new();
        let mut i: usize = 0;
        while i < path.len()
            invariant
                i <= path@.len(),
                indexes@.len() == i,
                forall|j: int| 0 <= j < i ==> indexes@[j] == (#[trigger] path@[j]).word(),
            decreases path@.len() - i,
        {
            indexes.push(path[i].to_word() as u64);
            i = i + 1;
        }
        assert(indexes@ =~= path_indexes(path@));
        DerivePath::Derive(
            ChildKeyRequest {
                mechanism: CKM_SLIP10_CHILD_DERIVE,
                parent,
                path_indexes: indexes,
                public_template: child_public_template(),
                private_template: child_private_template(),
            },
        )
    }

    /// Take in what the derivation of a path returned; the derived key's
    /// private handle comes back.
    pub fn child_key_derived(&mut self, rv: u64, public: u64, private: u64) -> (handle: Result<
        u64,
        HsmBackendError,
    >)
        requires
            old(self).wf(),
        ensures
            final(self).wf(),
            final(self).library() == old(self).library(),
            if rv == CKR_OK {
                &&& handle == Ok::<u64, HsmBackendError>(private)
                &&& final(self).pairs() == old(self).pairs().record(private, public)
                &&& final(self).pairs().lookup(private) == Some(public)
            } else {
                &&& handle matches Err(e)
                &&& e@ == HsmBackendErrorView::Derivation(call_failed("C_DeriveKeyPair"@, rv))
                &&& *final(self) == *old(self)
            },
    {
        match key_pair_outcome("C_DeriveKeyPair", rv, public, private) {
            Ok(pair) => {
                self.record_pair(pair.private, pair.public);
                Ok(pair.private)
            },
            Err(e) => Err(e),
        }
    }
}

/// An EC point in a DER OCTET STRING with a short-form length is unwrapped to the point.
pub proof fn law_short_form_is_unwrapped(point: Seq<u8>)
    requires
        point.len() < 0x80,
    ensures
        ec_point_payload(seq![0x04u8, point.len() as u8] + point) == point,
{
    let der = seq![0x04u8, point.len() as u8] + point;
    assert(der.skip(2) =~= point);
}

/// An EC point in a DER OCTET STRING with a long-form length is unwrapped to the point.
pub proof fn law_long_form_is_unwrapped(length_octets: Seq<u8>, point: Seq<u8>)
    requires
        length_octets.len() < 0x80,
    ensures
        ec_point_payload(seq![0x04u8, (0x80 + length_octets.len()) as u8] + length_octets + point)
            == point,
{
    let der = seq![0x04u8, (0x80 + length_octets.len()) as u8] + length_octets + point;
    assert(der.skip(2 + length_octets.len() as int) =~= point);
}

/// A compressed point that is not wrapped is taken as it is.
pub proof fn law_compressed_point_is_kept(point: Seq<u8>)
    requires
        point.len() == 33,
        point[0] == 2 || point[0] == 3,
    ensures
        ec_point_payload(point) == point,
{
}

/// Different paths are derived by different calls.
pub proof fn law_indexes_determine_path(a: Seq<ChildNumber>, b: Seq<ChildNumber>)
    requires
        is_path(a),
        is_path(b),
        path_indexes(a) == path_indexes(b),
    ensures
        a == b,
{
    assert(path_indexes(a).len() == a.len() && path_indexes(b).len() == b.len());
    assert(path_words(a) =~= path_words(b)) by {
        assert forall|i: int| 0 <= i < a.len() implies path_words(a)[i] == path_words(b)[i] by {
            assert(path_indexes(a)[i] == a[i].word() && path_indexes(b)[i] == b[i].word());
        }
    }
    law_words_determine_path(a, b);
}

/// A key always gives the same extended public key: one that is normalized is
/// determined by the public key and the chain code.
pub proof fn law_normalized_xpub_is_stable(a: Xpub, b: Xpub)
    requires
        is_normalized(a),
        is_normalized(b),
        a.public_key@ == b.public_key@,
        a.chain_code@ == b.chain_code@,
    ensures
        a == b,
{
    assert(a.public_key.compressed =~= b.public_key.compressed);
    assert(a.chain_code =~= b.chain_code);
    assert(a.parent_fingerprint.bytes =~= b.parent_fingerprint.bytes);
}

/// The words of a path are handed to the device in the order of the path, one
/// for each step.
pub proof fn law_indexes_stand_in_order(path: Seq<ChildNumber>, i: int)
    ensures
        path_indexes(path).len() == path.len(),
        0 <= i < path.len() ==> path_indexes(path)[i] == path[i].word(),
{
}

/// Behind the tag and a short length everything is payload; behind a long one
/// everything but the length octets it announces, or nothing where they are cut
/// short; bytes without a tag and a length are payload as they are.
pub proof fn law_payload(length: u8, rest: Seq<u8>, bytes: Seq<u8>)
    ensures
        length < 0x80 ==> ec_point_payload(seq![0x04u8, length] + rest) == rest,
        length >= 0x80 && length - 0x80 <= rest.len() ==> ec_point_payload(
            seq![0x04u8, length] + rest,
        ) == rest.skip(length - 0x80),
        length >= 0x80 && length - 0x80 > rest.len() ==> ec_point_payload(
            seq![0x04u8, length] + rest,
        ).len() == 0,
        bytes.len() < 2 || bytes[0] != 0x04 ==> ec_point_payload(bytes) == bytes,
{
    let der = seq![0x04u8, length] + rest;
    assert(der.skip(2) =~= rest);
    if length >= 0x80 && length - 0x80 <= rest.len() {
        assert(der.skip(2 + (length - 0x80)) =~= rest.skip(length - 0x80));
    }
}

/// A point that the device reports as an OCTET STRING, the usual way, is the
/// one that the key is made of: the wrapping is taken off once.
pub proof fn law_reported_point_is_unwrapped_once(
    attributes: Seq<ObjectAttribute>,
    k: int,
    point: Seq<u8>,
)
    requires
        has_sec1_form(point),
        0 <= k < attributes.len(),
        attributes[k] is EcPoint,
        attributes[k]->EcPoint_0@ == seq![0x04u8, point.len() as u8] + point,
        forall|j: int| 0 <= j < k ==> !((#[trigger] attributes[j]) is EcPoint),
    ensures
        first_value(attributes, |a: ObjectAttribute| a.ec_point()) matches Some(reported)
            && ec_point_payload(reported) == point,
{
    law_first_ec_point_is_read(attributes, k);
    law_short_form_is_unwrapped(point);
}

/// Normalized is a main network key of depth zero, without a parent, and the
/// zeroth normal child.
pub proof fn law_normalized(xpub: Xpub)
    ensures
        is_normalized(xpub) <==> {
            &&& xpub.network is Main
            &&& xpub.depth == 0
            &&& forall|i: int| 0 <= i < 4 ==> #[trigger] xpub.parent_fingerprint.bytes@[i] == 0
            &&& xpub.child_number == ChildNumber::Normal { index: 0 }
        },
{
    let zeros = seq![0u8, 0u8, 0u8, 0u8];
    if forall|i: int| 0 <= i < 4 ==> #[trigger] xpub.parent_fingerprint.bytes@[i] == 0 {
        assert(xpub.parent_fingerprint@ =~= zeros);
    }
    if is_normalized(xpub) {
        assert(forall|i: int| 0 <= i < 4 ==> zeros[i] == 0);
    }
}

/// A failed call reads as its name and its return value in hexadecimal.
pub proof fn law_failed_call_names_call_and_value(call: Seq<char>, rv: u64)
    ensures
        call.is_prefix_of(call_failed(call, rv)),
        ends_with(call_failed(call, rv), hexadecimal(rv as nat)),
        call_failed(call, rv) == call + (" failed: rv=0x"@ + hexadecimal(rv as nat)),
{
    let text = call + (" failed: rv=0x"@ + hexadecimal(rv as nat));
    assert(call_failed(call, rv) =~= text);
    assert(text.subrange(0, call.len() as int) =~= call);
    law_ends_with(call + " failed: rv=0x"@, hexadecimal(rv as nat), text);
}

} // verus!
