//! Reading the extended public key of a private key, one question to the HSM at a time.
//!
//! The EC point lives on the public object and the chain code on the private
//! one. The public object is the recorded pair of the private one, or else,
//! for a master that was loaded by label, the object with the label of its
//! public sibling.
use crate::error::{HsmBackendError, HsmBackendErrorView};
use crate::keys::{compressed_point, has_sec1_form, is_secp256k1_point, Xpub};
use crate::pkcs11::backend::{
    build_xpub, ec_point_payload, is_normalized, paired_public_key, public_key_query,
    SecurosysBackend,
};
use crate::pkcs11::pub_map::{law_recorded_pair_is_found, PairLog};
use crate::pkcs11::template::{
    first_value, get_ec_point, get_vendor, pub_sibling, public_key_search, template_view,
    KeyAttribute, KeyAttributeView, ObjectAttribute, CKA_SLIP10_CHAIN_CODE,
};
use crate::text::{hexadecimal, text_of_bytes};
use vstd::prelude::*;

verus! {

/// What is asked of the HSM next, to read the extended public key of `private`.
pub enum XpubRead {
    /// Read the label of the private key.
    Label {
        /// The private key.
        private: u64,
    },
    /// Search for the public key.
    PublicKey {
        /// The private key.
        private: u64,
        /// The attributes to search by.
        query: Vec<KeyAttribute>,
    },
    /// Read the EC point of the public key.
    EcPoint {
        /// The private key.
        private: u64,
        /// The public key.
        public: u64,
    },
    /// Read the chain code of the private key.
    ChainCode {
        /// The private key.
        private: u64,
        /// The EC point of the public key.
        ec_point: Vec<u8>,
    },
    /// Nothing: this is the extended public key.
    Done(Xpub),
}

/// An [`XpubRead`] with its query and its bytes as sequences.
pub enum XpubReadView {
    Label { private: u64 },
    PublicKey { private: u64, query: Seq<KeyAttributeView> },
    EcPoint { private: u64, public: u64 },
    ChainCode { private: u64, ec_point: Seq<u8> },
    Done(Xpub),
}

impl View for XpubRead {
    type V = XpubReadView;

    open spec fn view(&self) -> XpubReadView {
        match *self {
            XpubRead::Label { private } => XpubReadView::Label { private },
            XpubRead::PublicKey { private, query } => XpubReadView::PublicKey {
                private,
                query: template_view(query@),
            },
            XpubRead::EcPoint { private, public } => XpubReadView::EcPoint { private, public },
            XpubRead::ChainCode { private, ec_point } => XpubReadView::ChainCode {
                private,
                ec_point: ec_point@,
            },
            XpubRead::Done(xpub) => XpubReadView::Done(xpub),
        }
    }
}

/// The first question about `private`: the recorded pair comes first, then the label.
pub open spec fn first_question(pairs: PairLog, private: u64) -> XpubReadView {
    match pairs.lookup(private) {
        Some(public) => XpubReadView::EcPoint { private, public },
        None => XpubReadView::Label { private },
    }
}

impl SecurosysBackend {
    /// The first question on the way to the extended public key of `private`.
    pub fn read_xpub(&self, private: u64) -> (question: XpubRead)
        ensures
            question@ == first_question(self.pairs(), private),
    {
        match self.pub_handle_for(private) {
            Some(public) => XpubRead::EcPoint { private, public },
            None => XpubRead::Label { private },
        }
    }
}

impl XpubRead {
    /// The question after the private key reported `attributes` for its label.
    ///
    /// # Errors
    /// [`HsmBackendError::MetadataError`] where there is no label among them.
    pub fn label_reported(private: u64, attributes: &[ObjectAttribute]) -> (question: Result<
        XpubRead,
        HsmBackendError,
    >)
        ensures
            match first_value(attributes@, |a: ObjectAttribute| a.label()) {
                Some(bytes) => question matches Ok(question) && question@
                    == (XpubReadView::PublicKey {
                    private,
                    query: public_key_search(pub_sibling(text_of_bytes(bytes))),
                }),
                None => question matches Err(e) && e@ == HsmBackendErrorView::MetadataError(
                    "missing CKA_LABEL"@,
                ),
            },
    {
        match public_key_query(attributes) {
            Ok(query) => Ok(XpubRead::PublicKey { private, query }),
            Err(e) => Err(e),
        }
    }

    /// The question after the search found the objects `found`.
    ///
    /// # Errors
    /// [`HsmBackendError::MetadataError`] where it found none.
    pub fn public_keys_found(private: u64, found: &[u64]) -> (question: Result<
        XpubRead,
        HsmBackendError,
    >)
        ensures
            if found@.len() > 0 {
                question matches Ok(question) && question@ == (XpubReadView::EcPoint {
                    private,
                    public: found@[0],
                })
            } else {
                question matches Err(e) && e@ == HsmBackendErrorView::MetadataError(
                    "no paired public key found"@,
                )
            },
    {
        match paired_public_key(found) {
            Ok(public) => Ok(XpubRead::EcPoint { private, public }),
            Err(e) => Err(e),
        }
    }

    /// The question after the public key reported `attributes` for its EC point.
    ///
    /// # Errors
    /// [`HsmBackendError::MetadataError`] where there is no EC point among them.
    pub fn ec_point_reported(private: u64, attributes: &[ObjectAttribute]) -> (question: Result<
        XpubRead,
        HsmBackendError,
    >)
        ensures
            match first_value(attributes@, |a: ObjectAttribute| a.ec_point()) {
                Some(bytes) => question matches Ok(question) && question@
                    == (XpubReadView::ChainCode { private, ec_point: bytes }),
                None => question matches Err(e) && e@ == HsmBackendErrorView::MetadataError(
                    "missing CKA_EC_POINT"@,
                ),
            },
            forall|k: int|
                0 <= k < attributes@.len() && ((#[trigger] attributes@[k]) is EcPoint) && (forall|
                    j: int,
                |
                    0 <= j < k ==> !((#[trigger] attributes@[j]) is EcPoint)) ==> (
                question matches Ok(XpubRead::ChainCode { private: of, ec_point }) && of == private
                    && ec_point@ == attributes@[k]->EcPoint_0@),
    {
        match get_ec_point(attributes) {
            Ok(value) => {
                let ec_point = vstd::slice::slice_to_vec(value);
                Ok(XpubRead::ChainCode { private, ec_point })
            },
            Err(e) => Err(e),
        }
    }

    /// The end, after the private key reported `attributes` for its chain code.
    ///
    /// # Errors
    /// [`HsmBackendError::MetadataError`] where there is no chain code among
    /// them, where the EC point is no point of the curve, or where the chain
    /// code has another length than 32 bytes, in this order.
    pub fn chain_code_reported(ec_point: &[u8], attributes: &[ObjectAttribute]) -> (question:
        Result<XpubRead, HsmBackendError>)
        ensures
            match first_value(attributes@, |a: ObjectAttribute| a.vendor(CKA_SLIP10_CHAIN_CODE)) {
                Some(code) => if !is_secp256k1_point(ec_point_payload(ec_point@)) {
                    question matches Err(e) && e@ == HsmBackendErrorView::MetadataError(
                        "invalid secp256k1 point: "@ + "malformed public key"@,
                    )
                } else if code.len() != 32 {
                    question matches Err(e) && e@ == HsmBackendErrorView::MetadataError(
                        "chain code != 32 bytes"@,
                    )
                } else {
                    question matches Ok(XpubRead::Done(xpub)) && has_sec1_form(
                        ec_point_payload(ec_point@),
                    ) && is_normalized(xpub) && xpub.public_key@ == compressed_point(ec_point_payload(ec_point@))
                        && xpub.chain_code@ == code
                },
                None => question matches Err(e) && e@ == HsmBackendErrorView::MetadataError(
                    "missing vendor attr 0x"@ + hexadecimal(CKA_SLIP10_CHAIN_CODE as nat),
                ),
            },
    {
        match get_vendor(attributes, CKA_SLIP10_CHAIN_CODE) {
            Ok(chain_code) => match build_xpub(ec_point, chain_code) {
                Ok(xpub) => Ok(XpubRead::Done(xpub)),
                Err(e) => Err(e),
            },
            Err(e) => Err(e),
        }
    }
}

/// A key pair that was just recorded is read by its own handles: no label is
/// read, and nothing is searched for.
pub proof fn law_recorded_key_needs_no_search(pairs: PairLog, private: u64, public: u64)
    requires
        pairs.wf(),
    ensures
        first_question(pairs.record(private, public), private) == (XpubReadView::EcPoint {
            private,
            public,
        }),
{
    law_recorded_pair_is_found(pairs, private, public);
}

/// A key that was never recorded is found by its label.
pub proof fn law_unrecorded_key_is_found_by_label(private: u64)
    ensures
        first_question(PairLog::empty(), private) == (XpubReadView::Label { private }),
{
}

/// The view of a question is of the same kind and holds the same handles, query and bytes.
pub proof fn law_question_is_seen_whole(question: XpubRead)
    ensures
        match question {
            XpubRead::Label { private } => question@ == (XpubReadView::Label { private }),
            XpubRead::PublicKey { private, query } => question@ matches XpubReadView::PublicKey {
                private: of,
                query: seen,
            } && of == private && seen == template_view(query@),
            XpubRead::EcPoint { private, public } => question@ == (XpubReadView::EcPoint {
                private,
                public,
            }),
            XpubRead::ChainCode { private, ec_point } => question@ matches XpubReadView::ChainCode {
                private: of,
                ec_point: seen,
            } && of == private && seen == ec_point@,
            XpubRead::Done(xpub) => question@ == XpubReadView::Done(xpub),
        },
{
}

/// A key is read by its recorded public handle where there is one, else by its label.
pub proof fn law_recorded_handle_comes_first(pairs: PairLog, private: u64, public: u64)
    ensures
        pairs.pairs.contains_key(private) && pairs.pairs[private] == public ==> first_question(
            pairs,
            private,
        ) == (XpubReadView::EcPoint { private, public }),
        !pairs.pairs.contains_key(private) ==> first_question(pairs, private)
            == (XpubReadView::Label { private }),
{
}

} // verus!
