//! The TSB client: what it sends to sign, to import a master key and to look up
//! a derived key, and what it makes of the replies.
use crate::keys::{
    compressed_point, has_sec1_form, is_schnorr_encoding, is_secp256k1_point, PublicKey,
    SchnorrSignature,
};
use crate::secret::Secret;
use crate::text::{decimal, decimal_of, join3, trim_end, trim_end_slashes};
use crate::tsb::codec::{
    base64_bytes, base64_decode, base64_encode, base64_fits, base64_text, json_document,
    json_member, json_nodes, json_parse, json_pointer, json_text, text_at,
};
use crate::tsb::error::{TsbError, TsbErrorView};
use crate::tsb::jwt::{law_static_token, JwtProvider, StaticJwt};
use crate::tsb::request::{
    accept_reply, accepted_body, body_view, is_success, members_view, JsonScalar, JsonScalarView, JsonValue,
    JsonValueView, TsbReply, TsbRequest, TsbRequestView,
};
use vstd::prelude::*;

verus! {

/// The body of a request to sign `payload`, in base64, with the key called `sign_key_name`.
pub open spec fn sign_body(payload: Seq<char>, sign_key_name: Seq<char>) -> Seq<
    (Seq<char>, JsonValueView),
> {
    seq![
        (
            "signRequest"@,
            JsonValueView::Object(
                seq![
                    ("payload"@, JsonScalarView::Text(payload)),
                    ("payloadType"@, JsonScalarView::Text("UNSPECIFIED"@)),
                    ("signKeyName"@, JsonScalarView::Text(sign_key_name)),
                    (
                        "signatureAlgorithm"@,
                        JsonScalarView::Text("NONE_WITH_EC_SCHNORR_BIP0340"@),
                    ),
                ],
            ),
        ),
    ]
}

/// The attributes that an imported master key gets: it signs, verifies and
/// derives SLIP-10 children, and it never leaves the device.
pub open spec fn imported_key_attributes() -> Seq<(Seq<char>, JsonScalarView)> {
    seq![
        ("encrypt"@, JsonScalarView::Flag(false)),
        ("decrypt"@, JsonScalarView::Flag(false)),
        ("verify"@, JsonScalarView::Flag(true)),
        ("sign"@, JsonScalarView::Flag(true)),
        ("wrap"@, JsonScalarView::Flag(false)),
        ("unwrap"@, JsonScalarView::Flag(false)),
        ("derive"@, JsonScalarView::Flag(true)),
        ("bip32"@, JsonScalarView::Flag(false)),
        ("slip10"@, JsonScalarView::Flag(true)),
        ("extractable"@, JsonScalarView::Flag(false)),
        ("modifiable"@, JsonScalarView::Flag(true)),
        ("destroyable"@, JsonScalarView::Flag(true)),
        ("sensitive"@, JsonScalarView::Flag(true)),
        ("copyable"@, JsonScalarView::Flag(false)),
    ]
}

/// The body of a request to import the master key of `seed`, in base64, under `label`.
pub open spec fn import_body(label: Seq<char>, seed: Seq<char>) -> Seq<(Seq<char>, JsonValueView)> {
    seq![
        ("label"@, JsonValueView::Scalar(JsonScalarView::Text(label))),
        ("algorithm"@, JsonValueView::Scalar(JsonScalarView::Text("EC"@))),
        ("curveOid"@, JsonValueView::Scalar(JsonScalarView::Text("1.3.132.0.10"@))),
        ("attributes"@, JsonValueView::Object(imported_key_attributes())),
        ("seed"@, JsonValueView::Scalar(JsonScalarView::Text(seed))),
    ]
}

/// The body of a request for the key at `path` below the master labelled `master_label`.
pub open spec fn derived_key_body(master_label: Seq<char>, path: Seq<char>) -> Seq<
    (Seq<char>, JsonValueView),
> {
    seq![
        ("masterKeyLabel"@, JsonValueView::Scalar(JsonScalarView::Text(master_label))),
        ("derivationPath"@, JsonValueView::Scalar(JsonScalarView::Text(path))),
        (
            "attributes"@,
            JsonValueView::Object(
                seq![
                    ("sign"@, JsonScalarView::Flag(true)),
                    ("derive"@, JsonScalarView::Flag(true)),
                    ("slip10"@, JsonScalarView::Flag(true)),
                    ("extractable"@, JsonScalarView::Flag(false)),
                    ("destroyable"@, JsonScalarView::Flag(true)),
                ],
            ),
        ),
    ]
}

/// A sign request to the API at `base`, with the bearer token `token`.
pub open spec fn sign_request(
    base: Seq<char>,
    token: Seq<char>,
    sign_key_name: Seq<char>,
    sighash: Seq<u8>,
) -> TsbRequestView {
    TsbRequestView {
        url: base + "/synchronousSign"@,
        bearer: token,
        body: sign_body(base64_text(sighash), sign_key_name),
    }
}

/// An import request to the API at `base`, with the bearer token `token`.
pub open spec fn import_request(
    base: Seq<char>,
    token: Seq<char>,
    label: Seq<char>,
    seed: Seq<u8>,
) -> TsbRequestView {
    TsbRequestView {
        url: base + "/importedKey"@,
        bearer: token,
        body: import_body(label, base64_text(seed)),
    }
}

/// A request for a derived key to the API at `base`, with the bearer token `token`.
pub open spec fn derived_key_request(
    base: Seq<char>,
    token: Seq<char>,
    master_label: Seq<char>,
    path: Seq<char>,
) -> TsbRequestView {
    TsbRequestView {
        url: base + "/derivedKey"@,
        bearer: token,
        body: derived_key_body(master_label, path),
    }
}

/// The signature that was decoded from base64, where it has 64 bytes.
pub open spec fn checked_signature(decoded: Result<Seq<u8>, Seq<char>>) -> Result<
    Seq<u8>,
    TsbErrorView,
> {
    match decoded {
        Ok(raw) => if raw.len() == 64 {
            Ok(raw)
        } else {
            Err(
                TsbErrorView::Decode(
                    "BIP-340 signature is "@ + decimal(raw.len()) + " bytes, want 64"@,
                ),
            )
        },
        Err(reason) => Err(TsbErrorView::Decode("signature base64: "@ + reason)),
    }
}

/// The field that was found in a JSON document, or why there is none.
pub open spec fn checked_field(
    found: Result<Option<Seq<char>>, Seq<char>>,
    missing: Seq<char>,
) -> Result<Seq<char>, TsbErrorView> {
    match found {
        Ok(Some(text)) => Ok(text),
        Ok(None) => Err(TsbErrorView::Decode(missing)),
        Err(reason) => Err(TsbErrorView::Decode(reason)),
    }
}

/// The text of the `signature` member of a JSON document, where there is one.
pub open spec fn signature_field(body: Seq<char>) -> Result<Option<Seq<char>>, Seq<char>> {
    match json_document(body) {
        Ok(nodes) => Ok(text_at(nodes, "/signature"@)),
        Err(reason) => Err(reason),
    }
}

/// The text of the `publicKey` member, nested under `json` or at the top of a
/// JSON document. What is nested comes first, also where it is no string.
pub open spec fn public_key_field(body: Seq<char>) -> Result<Option<Seq<char>>, Seq<char>> {
    match json_document(body) {
        Ok(nodes) => Ok(
            if nodes.contains_key("/json/publicKey"@) {
                nodes["/json/publicKey"@]
            } else {
                text_at(nodes, "/publicKey"@)
            },
        ),
        Err(reason) => Err(reason),
    }
}

/// The signature in the body of a reply.
pub open spec fn signature_in(body: Seq<char>) -> Result<Seq<u8>, TsbErrorView> {
    match checked_field(signature_field(body), "response missing `signature`"@) {
        Ok(text) => checked_signature(base64_bytes(text)),
        Err(e) => Err(e),
    }
}

/// The signature in a reply.
pub open spec fn signature_of(reply: Result<TsbReply, String>) -> Result<Seq<u8>, TsbErrorView> {
    match accepted_body(reply) {
        Ok(body) => signature_in(body),
        Err(e) => Err(e),
    }
}

/// The SEC1 point at the end of a `SubjectPublicKeyInfo` that was decoded from base64.
pub open spec fn spki_point(decoded: Result<Seq<u8>, Seq<char>>) -> Result<Seq<u8>, TsbErrorView> {
    match decoded {
        Ok(spki) => if spki.len() < 65 {
            Err(TsbErrorView::Decode("publicKey SPKI too short"@))
        } else {
            Ok(spki.skip(spki.len() - 65))
        },
        Err(reason) => Err(TsbErrorView::Decode("publicKey base64: "@ + reason)),
    }
}

/// The point in the body of a reply.
pub open spec fn point_in(body: Seq<char>) -> Result<Seq<u8>, TsbErrorView> {
    match checked_field(public_key_field(body), "response missing `publicKey`"@) {
        Ok(text) => spki_point(base64_bytes(text)),
        Err(e) => Err(e),
    }
}

/// The public key in a reply, in compressed form.
pub open spec fn public_key_of(reply: Result<TsbReply, String>) -> Result<Seq<u8>, TsbErrorView> {
    match accepted_body(reply) {
        Ok(body) => match point_in(body) {
            Ok(point) => if is_secp256k1_point(point) {
                Ok(compressed_point(point))
            } else {
                Err(TsbErrorView::Decode("secp256k1 point: "@ + "malformed public key"@))
            },
            Err(e) => Err(e),
        },
        Err(e) => Err(e),
    }
}

/// What was decoded, as sequences.
pub open spec fn decoded_view(decoded: Result<Vec<u8>, String>) -> Result<Seq<u8>, Seq<char>> {
    match decoded {
        Ok(bytes) => Ok(bytes@),
        Err(reason) => Err(reason@),
    }
}

/// What was found, as sequences.
pub open spec fn found_view(found: Result<Option<String>, String>) -> Result<
    Option<Seq<char>>,
    Seq<char>,
> {
    match found {
        Ok(Some(text)) => Ok(Some(text@)),
        Ok(None) => Ok(None),
        Err(reason) => Err(reason@),
    }
}

/// The field that was found in a JSON document, or why there is none: the
/// document is not JSON, or the field is missing or no string.
pub fn require_field(found: Result<Option<String>, String>, missing: &str) -> (text: Result<
    String,
    TsbError,
>)
    ensures
        match text {
            Ok(text) => checked_field(found_view(found), missing@) == Ok::<
                Seq<char>,
                TsbErrorView,
            >(text@),
            Err(e) => checked_field(found_view(found), missing@) == Err::<
                Seq<char>,
                TsbErrorView,
            >(e@),
        },
{
    match found {
        Ok(Some(text)) => Ok(text),
        Ok(None) => Err(TsbError::Decode(missing.to_owned())),
        Err(reason) => Err(TsbError::Decode(reason)),
    }
}

/// The signature that was decoded from base64, where it has 64 bytes.
pub fn require_signature(decoded: Result<Vec<u8>, String>) -> (signature: Result<[u8; 64], TsbError>)
    ensures
        match signature {
            Ok(signature) => checked_signature(decoded_view(decoded)) == Ok::<
                Seq<u8>,
                TsbErrorView,
            >(signature@),
            Err(e) => checked_signature(decoded_view(decoded)) == Err::<Seq<u8>, TsbErrorView>(e@),
        },
{
    match decoded {
        Ok(raw) => {
            if raw.len() != 64 {
                let len = decimal_of(raw.len() as u64);
                return Err(
                    TsbError::Decode(
                        join3("BIP-340 signature is ", len.as_str(), " bytes, want 64"),
                    ),
                );
            }
            let mut signature: [u8; 64] = [0u8; 64];
            let mut i: usize = 0;
            while i < 64
                invariant
                    i <= 64,
                    raw@.len() == 64,
                    forall|j: int| 0 <= j < i ==> signature@[j] == raw@[j],
                decreases 64 - i,
            {
                signature[i] = raw[i];
                i = i + 1;
            }
            assert(signature@ =~= raw@);
            Ok(signature)
        },
        Err(reason) => {
            let mut text = "signature base64: ".to_owned();
            text.append(reason.as_str());
            Err(TsbError::Decode(text))
        },
    }
}

/// The SEC1 point at the end of a `SubjectPublicKeyInfo` that was decoded from base64.
pub fn require_point(decoded: Result<Vec<u8>, String>) -> (point: Result<Vec<u8>, TsbError>)
    ensures
        match point {
            Ok(point) => spki_point(decoded_view(decoded)) == Ok::<Seq<u8>, TsbErrorView>(point@),
            Err(e) => spki_point(decoded_view(decoded)) == Err::<Seq<u8>, TsbErrorView>(e@),
        },
{
    match decoded {
        Ok(spki) => {
            let n: usize = spki.len();
            if n < 65 {
                return Err(TsbError::Decode("publicKey SPKI too short".to_owned()));
            }
            let point = vstd::slice::slice_subrange(spki.as_slice(), n - 65, n);
            assert(point@ =~= spki@.skip(n - 65));
            Ok(vstd::slice::slice_to_vec(point))
        },
        Err(reason) => {
            let mut text = "publicKey base64: ".to_owned();
            text.append(reason.as_str());
            Err(TsbError::Decode(text))
        },
    }
}

/// The key that the point parser found, or its reason as an error.
pub fn require_key(parsed: Result<PublicKey, String>) -> (key: Result<PublicKey, TsbError>)
    ensures
        match parsed {
            Ok(parsed) => key == Ok::<PublicKey, TsbError>(parsed),
            Err(reason) => key matches Err(e) && e@ == TsbErrorView::Decode(
                "secp256k1 point: "@ + reason@,
            ),
        },
{
    match parsed {
        Ok(key) => Ok(key),
        Err(reason) => {
            let mut text = "secp256k1 point: ".to_owned();
            text.append(reason.as_str());
            Err(TsbError::Decode(text))
        },
    }
}

/// The text of a JSON value that may be there.
fn node_text(node: Option<&serde_json::Value>) -> (text: Option<String>)
    ensures
        match node {
            Some(node) => match text {
                Some(text) => json_nodes(*node)[Seq::empty()] == Some(text@),
                None => json_nodes(*node)[Seq::empty()] is None,
            },
            None => text is None,
        },
{
    match node {
        Some(node) => match json_text(node) {
            Some(text) => Some(text.to_owned()),
            None => None,
        },
        None => None,
    }
}

/// The text of the `signature` member of a JSON document, where there is one.
fn find_signature(body: &str) -> (found: Result<Option<String>, String>)
    ensures
        found_view(found) == signature_field(body@),
{
    match json_parse(body) {
        Ok(document) => {
            proof {
                reveal_strlit("/");
                reveal_strlit("signature");
                reveal_strlit("/signature");
                assert("/"@ + "signature"@ =~= "/signature"@);
            }
            Ok(node_text(json_member(&document, "signature")))
        },
        Err(reason) => Err(reason),
    }
}

/// The text of the `publicKey` member, nested under `json` or at the top of a JSON document.
fn find_public_key(body: &str) -> (found: Result<Option<String>, String>)
    ensures
        found_view(found) == public_key_field(body@),
{
    match json_parse(body) {
        Ok(document) => {
            proof {
                reveal_strlit("/");
                reveal_strlit("publicKey");
                reveal_strlit("/publicKey");
                assert("/"@ + "publicKey"@ =~= "/publicKey"@);
            }
            match json_pointer(&document, "/json/publicKey") {
                Some(node) => Ok(node_text(Some(node))),
                None => Ok(node_text(json_member(&document, "publicKey"))),
            }
        },
        Err(reason) => Err(reason),
    }
}

/// Client for the Securosys Transaction Security Broker REST API.
///
/// The base URL is the versioned root, such as
/// `https://sbx-rest-api.cloudshsm.com/v1`.
pub struct TsbClient<J: JwtProvider> {
    base_url: String,
    jwt: J,
}

impl<J: JwtProvider> TsbClient<J> {
    /// The base URL.
    pub closed spec fn base(self) -> Seq<char> {
        self.base_url@
    }

    /// The token provider.
    pub closed spec fn provider(self) -> J {
        self.jwt
    }

    /// A client for a versioned base URL with a token provider. Slashes at the
    /// end of the URL are dropped.
    pub fn new(base_url: &str, jwt: J) -> (client: TsbClient<J>)
        ensures
            client.base() == trim_end(base_url@, '/'),
            client.provider() == jwt,
    {
        TsbClient { base_url: trim_end_slashes(base_url), jwt }
    }

    /// The configured base URL.
    pub fn base_url(&self) -> (url: &str)
        ensures
            url@ == self.base(),
    {
        self.base_url.as_str()
    }

    /// The bearer token of the next request, asked of the provider.
    pub fn bearer(&self) -> (token: Secret)
        ensures
            call_ensures(J::current, (&self.provider(),), token),
    {
        self.jwt.current()
    }

    /// A `POST` of `body` to `endpoint`, with the bearer token `token`.
    fn post(&self, token: &Secret, endpoint: &str, body: Vec<(&'static str, JsonValue)>) -> (request:
        TsbRequest)
        ensures
            request@ == (TsbRequestView {
                url: self.base() + endpoint@,
                bearer: token@,
                body: body_view(body@),
            }),
    {
        let mut url = self.base_url.clone();
        url.append(endpoint);
        TsbRequest { url, bearer: token.expose_secret().to_owned(), body }
    }

    /// The request for a BIP-340 signature of the 32-byte `sighash` by the key
    /// named `sign_key_name`, with the bearer token `token`.
    pub fn sign_bip340_with(&self, token: &Secret, sign_key_name: &str, sighash: &[u8; 32]) -> (request:
        TsbRequest)
        ensures
            request@ == sign_request(self.base(), token@, sign_key_name@, sighash@),
            base64_bytes(base64_text(sighash@)) == Ok::<Seq<u8>, Seq<char>>(sighash@),
    {
        let members = vec![
            ("payload", JsonScalar::Text(base64_encode(sighash.as_slice()))),
            ("payloadType", JsonScalar::Text("UNSPECIFIED".to_owned())),
            ("signKeyName", JsonScalar::Text(sign_key_name.to_owned())),
            ("signatureAlgorithm", JsonScalar::Text("NONE_WITH_EC_SCHNORR_BIP0340".to_owned())),
        ];
        let body = vec![("signRequest", JsonValue::Object(members))];
        proof {
            let expected = sign_body(base64_text(sighash@), sign_key_name@);
            assert(members_view(members@) =~= expected[0].1->Object_0);
            assert(body_view(body@) =~= expected);
        }
        self.post(token, "/synchronousSign", body)
    }

    /// The request for a BIP-340 signature of the 32-byte `sighash` by the key
    /// named `sign_key_name`, which is `"<master label>/<bip32 path>"` for a
    /// temporary SLIP-10 child. The provider is asked for the bearer token.
    ///
    /// A script-path leaf is untweaked, so the request carries no tweak.
    pub fn sign_bip340_request(&self, sign_key_name: &str, sighash: &[u8; 32]) -> (request:
        TsbRequest)
        ensures
            exists|token: Secret|
                call_ensures(J::current, (&self.provider(),), token) && request@ == sign_request(
                    self.base(),
                    (#[trigger] token@),
                    sign_key_name@,
                    sighash@,
                ),
            base64_bytes(base64_text(sighash@)) == Ok::<Seq<u8>, Seq<char>>(sighash@),
    {
        let token = self.bearer();
        self.sign_bip340_with(&token, sign_key_name, sighash)
    }

    /// The raw 64-byte `R || s` signature in the reply to a sign request.
    ///
    /// # Errors
    /// [`TsbError::Api`] on another status than a success,
    /// [`TsbError::Http`] where the exchange failed, [`TsbError::Decode`] where
    /// the reply holds no signature of 64 bytes.
    pub fn sign_bip340_reply(reply: Result<TsbReply, String>) -> (signature: Result<
        [u8; 64],
        TsbError,
    >)
        ensures
            match signature {
                Ok(signature) => signature_of(reply) == Ok::<Seq<u8>, TsbErrorView>(signature@),
                Err(e) => signature_of(reply) == Err::<Seq<u8>, TsbErrorView>(e@),
            },
            reply matches Ok(sent) ==> (200 <= sent.status <= 299 ==> (json_document(
                sent.body@,
            ) matches Ok(nodes) ==> (nodes.contains_key("/signature"@) ==> (
            nodes["/signature"@] matches Some(text) ==> (base64_bytes(text) matches Ok(raw) ==> (
            raw.len() == 64 ==> (signature matches Ok(signature) && signature@ == raw))))))),
    {
        let body = match accept_reply(reply) {
            Ok(body) => body,
            Err(e) => return Err(e),
        };
        let found = find_signature(body.as_str());
        let text = match require_field(found, "response missing `signature`") {
            Ok(text) => text,
            Err(e) => return Err(e),
        };
        require_signature(base64_decode(text.as_str()))
    }

    /// The request to import a SLIP-10 master key from `seed` under `label`,
    /// with the bearer token `token`.
    pub fn import_slip10_master_with(&self, token: &Secret, label: &str, seed: &[u8]) -> (request:
        TsbRequest)
        requires
            base64_fits(seed@.len()),
        ensures
            request@ == import_request(self.base(), token@, label@, seed@),
            base64_bytes(base64_text(seed@)) == Ok::<Seq<u8>, Seq<char>>(seed@),
    {
        let attributes = vec![
            ("encrypt", JsonScalar::Flag(false)),
            ("decrypt", JsonScalar::Flag(false)),
            ("verify", JsonScalar::Flag(true)),
            ("sign", JsonScalar::Flag(true)),
            ("wrap", JsonScalar::Flag(false)),
            ("unwrap", JsonScalar::Flag(false)),
            ("derive", JsonScalar::Flag(true)),
            ("bip32", JsonScalar::Flag(false)),
            ("slip10", JsonScalar::Flag(true)),
            ("extractable", JsonScalar::Flag(false)),
            ("modifiable", JsonScalar::Flag(true)),
            ("destroyable", JsonScalar::Flag(true)),
            ("sensitive", JsonScalar::Flag(true)),
            ("copyable", JsonScalar::Flag(false)),
        ];
        proof {
            assert(members_view(attributes@) =~= imported_key_attributes());
        }
        let body = vec![
            ("label", JsonValue::Scalar(JsonScalar::Text(label.to_owned()))),
            ("algorithm", JsonValue::Scalar(JsonScalar::Text("EC".to_owned()))),
            ("curveOid", JsonValue::Scalar(JsonScalar::Text("1.3.132.0.10".to_owned()))),
            ("attributes", JsonValue::Object(attributes)),
            ("seed", JsonValue::Scalar(JsonScalar::Text(base64_encode(seed)))),
        ];
        proof {
            assert(body_view(body@) =~= import_body(label@, base64_text(seed@)));
        }
        self.post(token, "/importedKey", body)
    }

    /// The request to import a SLIP-10 **master** key from a BIP-39 `seed`,
    /// registered under `label` and marked TSB-derivable. The provider is asked
    /// for the bearer token.
    pub fn import_slip10_master_request(&self, label: &str, seed: &[u8]) -> (request: TsbRequest)
        requires
            base64_fits(seed@.len()),
        ensures
            exists|token: Secret|
                call_ensures(J::current, (&self.provider(),), token) && request@ == import_request(
                    self.base(),
                    (#[trigger] token@),
                    label@,
                    seed@,
                ),
            base64_bytes(base64_text(seed@)) == Ok::<Seq<u8>, Seq<char>>(seed@),
    {
        let token = self.bearer();
        self.import_slip10_master_with(&token, label, seed)
    }

    /// What the reply to an import request says. A success holds nothing more.
    ///
    /// # Errors
    /// [`TsbError::Api`] on another status than a success (also where the key
    /// exists already), [`TsbError::Http`] where the exchange failed.
    pub fn import_slip10_master_reply(reply: Result<TsbReply, String>) -> (outcome: Result<
        (),
        TsbError,
    >)
        ensures
            match outcome {
                Ok(()) => accepted_body(reply) is Ok,
                Err(e) => accepted_body(reply) == Err::<Seq<char>, TsbErrorView>(e@),
            },
    {
        match accept_reply(reply) {
            Ok(_) => Ok(()),
            Err(e) => Err(e),
        }
    }

    /// The request for the public key at `path` below the master labelled
    /// `master_label`, with the bearer token `token`.
    pub fn derived_public_key_with(&self, token: &Secret, master_label: &str, path: &str) -> (request:
        TsbRequest)
        ensures
            request@ == derived_key_request(self.base(), token@, master_label@, path@),
    {
        let attributes = vec![
            ("sign", JsonScalar::Flag(true)),
            ("derive", JsonScalar::Flag(true)),
            ("slip10", JsonScalar::Flag(true)),
            ("extractable", JsonScalar::Flag(false)),
            ("destroyable", JsonScalar::Flag(true)),
        ];
        let body = vec![
            ("masterKeyLabel", JsonValue::Scalar(JsonScalar::Text(master_label.to_owned()))),
            ("derivationPath", JsonValue::Scalar(JsonScalar::Text(path.to_owned()))),
            ("attributes", JsonValue::Object(attributes)),
        ];
        proof {
            let expected = derived_key_body(master_label@, path@);
            assert(members_view(attributes@) =~= expected[2].1->Object_0);
            assert(body_view(body@) =~= expected);
        }
        self.post(token, "/derivedKey", body)
    }

    /// The request for the public key of a temporarily derived key: the one at
    /// `path` (such as `"86'/1'/0'/0/0"`) below the master labelled
    /// `master_label`. The provider is asked for the bearer token.
    pub fn derived_public_key_request(&self, master_label: &str, path: &str) -> (request:
        TsbRequest)
        ensures
            exists|token: Secret|
                call_ensures(J::current, (&self.provider(),), token) && request@
                    == derived_key_request(
                    self.base(),
                    (#[trigger] token@),
                    master_label@,
                    path@,
                ),
    {
        let token = self.bearer();
        self.derived_public_key_with(&token, master_label, path)
    }

    /// The public key in the reply to a request for a derived key.
    ///
    /// # Errors
    /// [`TsbError::Api`] on another status than a success,
    /// [`TsbError::Http`] where the exchange failed, [`TsbError::Decode`] where
    /// the reply holds no `SubjectPublicKeyInfo` that ends with a point of the
    /// curve.
    pub fn derived_public_key_reply(reply: Result<TsbReply, String>) -> (key: Result<
        PublicKey,
        TsbError,
    >)
        ensures
            match key {
                Ok(key) => public_key_of(reply) == Ok::<Seq<u8>, TsbErrorView>(key@),
                Err(e) => public_key_of(reply) == Err::<Seq<u8>, TsbErrorView>(e@),
            },
            key is Ok ==> (accepted_body(reply) matches Ok(body) && point_in(body) matches Ok(point)
                && has_sec1_form(point)),
    {
        let body = match accept_reply(reply) {
            Ok(body) => body,
            Err(e) => return Err(e),
        };
        let found = find_public_key(body.as_str());
        let text = match require_field(found, "response missing `publicKey`") {
            Ok(text) => text,
            Err(e) => return Err(e),
        };
        let point = match require_point(base64_decode(text.as_str())) {
            Ok(point) => point,
            Err(e) => return Err(e),
        };
        require_key(PublicKey::from_slice(point.as_slice()))
    }
}

impl TsbClient<StaticJwt> {
    /// Convenience: a client with a static (non-refreshing) JWT.
    pub fn with_static_jwt(base_url: &str, jwt: Secret) -> (client: TsbClient<StaticJwt>)
        ensures
            client.base() == trim_end(base_url@, '/'),
            client.provider()@ == jwt@,
    {
        TsbClient::new(base_url, StaticJwt::new(jwt))
    }
}

/// The signature in 64 raw bytes, where they encode one.
pub open spec fn schnorr_of(raw: Seq<u8>) -> Result<Seq<u8>, TsbErrorView> {
    if is_schnorr_encoding(raw) {
        Ok(raw)
    } else {
        Err(TsbErrorView::Decode("malformed signature"@))
    }
}

/// Parse a raw 64-byte BIP-340 signature.
///
/// # Errors
/// [`TsbError::Decode`] where the bytes are no valid Schnorr signature: R is
/// not below the field prime, or s is not below the group order.
pub fn schnorr_from_bytes(raw: &[u8; 64]) -> (signature: Result<SchnorrSignature, TsbError>)
    ensures
        signature is Ok <==> is_schnorr_encoding(raw@),
        match signature {
            Ok(signature) => schnorr_of(raw@) == Ok::<Seq<u8>, TsbErrorView>(signature@),
            Err(e) => schnorr_of(raw@) == Err::<Seq<u8>, TsbErrorView>(e@),
        },
{
    match SchnorrSignature::from_slice(raw.as_slice()) {
        Ok(signature) => if SchnorrSignature::is_encoding(raw) {
            Ok(signature)
        } else {
            Err(TsbError::Decode("malformed signature".to_owned()))
        },
        Err(reason) => Err(TsbError::Decode(reason)),
    }
}

/// Whatever number of slashes a base URL ends with, the client's has none, and
/// nothing but slashes was dropped: an endpoint path follows it with exactly one.
pub proof fn law_base_url_has_no_slash_at_its_end(base_url: Seq<char>)
    ensures
        trim_end(base_url, '/').len() > 0 ==> trim_end(base_url, '/').last() != '/',
        trim_end(base_url, '/').is_prefix_of(base_url),
        forall|i: int|
            trim_end(base_url, '/').len() <= i < base_url.len() ==> #[trigger] base_url[i] == '/',
    decreases base_url.len(),
{
    if base_url.len() > 0 && base_url.last() == '/' {
        law_base_url_has_no_slash_at_its_end(base_url.drop_last());
        let trimmed = trim_end(base_url, '/');
        assert forall|i: int| trimmed.len() <= i < base_url.len() implies #[trigger] base_url[i]
            == '/' by {
            if i < base_url.len() - 1 {
                assert(base_url.drop_last()[i] == base_url[i]);
            }
        }
    }
}

/// A client with a static token sends that token with every request.
pub proof fn law_static_token_is_sent(client: TsbClient<StaticJwt>, token: Secret)
    requires
        call_ensures(StaticJwt::current, (&client.provider(),), token),
    ensures
        forall|name: Seq<char>, sighash: Seq<u8>|
            (#[trigger] sign_request(client.base(), token@, name, sighash)).bearer
                == client.provider()@,
        forall|label: Seq<char>, seed: Seq<u8>|
            (#[trigger] import_request(client.base(), token@, label, seed)).bearer
                == client.provider()@,
        forall|label: Seq<char>, path: Seq<char>|
            (#[trigger] derived_key_request(client.base(), token@, label, path)).bearer
                == client.provider()@,
{
    law_static_token(client.provider(), token);
}

/// A refused request is answered with the status and the body of the refusal,
/// whatever was asked for and whatever the body holds.
pub proof fn law_refusal_is_reported(reply: TsbReply)
    requires
        !is_success(reply.status),
    ensures
        accepted_body(Ok(reply)) == Err::<Seq<char>, TsbErrorView>(
            TsbErrorView::Api { status: reply.status, body: reply.body@ },
        ),
        signature_of(Ok(reply)) == Err::<Seq<u8>, TsbErrorView>(
            TsbErrorView::Api { status: reply.status, body: reply.body@ },
        ),
        public_key_of(Ok(reply)) == Err::<Seq<u8>, TsbErrorView>(
            TsbErrorView::Api { status: reply.status, body: reply.body@ },
        ),
{
}

/// An exchange that failed is answered with the reason of the failure,
/// whatever was asked for.
pub proof fn law_failed_exchange_is_reported(reason: String)
    ensures
        accepted_body(Err(reason)) == Err::<Seq<char>, TsbErrorView>(TsbErrorView::Http(reason@)),
        signature_of(Err(reason)) == Err::<Seq<u8>, TsbErrorView>(TsbErrorView::Http(reason@)),
        public_key_of(Err(reason)) == Err::<Seq<u8>, TsbErrorView>(TsbErrorView::Http(reason@)),
{
}

/// Two sign requests are the same only if they name the same key and carry the
/// same payload; the payloads are those that their base64 texts decode to.
pub proof fn law_sign_request_determines_key_and_payload(
    base: Seq<char>,
    token: Seq<char>,
    name_a: Seq<char>,
    sighash_a: Seq<u8>,
    name_b: Seq<char>,
    sighash_b: Seq<u8>,
)
    requires
        base64_bytes(base64_text(sighash_a)) == Ok::<Seq<u8>, Seq<char>>(sighash_a),
        base64_bytes(base64_text(sighash_b)) == Ok::<Seq<u8>, Seq<char>>(sighash_b),
        sign_request(base, token, name_a, sighash_a) == sign_request(
            base,
            token,
            name_b,
            sighash_b,
        ),
    ensures
        name_a == name_b,
        sighash_a == sighash_b,
{
    let a = sign_body(base64_text(sighash_a), name_a);
    let b = sign_body(base64_text(sighash_b), name_b);
    assert(a == b);
    assert(a[0].1->Object_0 == b[0].1->Object_0);
    assert(a[0].1->Object_0[0].1 == JsonScalarView::Text(base64_text(sighash_a)));
    assert(b[0].1->Object_0[0].1 == JsonScalarView::Text(base64_text(sighash_b)));
    assert(a[0].1->Object_0[2].1 == JsonScalarView::Text(name_a));
    assert(b[0].1->Object_0[2].1 == JsonScalarView::Text(name_b));
}

/// Two import requests are the same only if they name the same label and carry
/// the same seed; the seeds are those that their base64 texts decode to.
pub proof fn law_import_request_determines_label_and_seed(
    base: Seq<char>,
    token: Seq<char>,
    label_a: Seq<char>,
    seed_a: Seq<u8>,
    label_b: Seq<char>,
    seed_b: Seq<u8>,
)
    requires
        base64_bytes(base64_text(seed_a)) == Ok::<Seq<u8>, Seq<char>>(seed_a),
        base64_bytes(base64_text(seed_b)) == Ok::<Seq<u8>, Seq<char>>(seed_b),
        import_request(base, token, label_a, seed_a) == import_request(base, token, label_b, seed_b),
    ensures
        label_a == label_b,
        seed_a == seed_b,
{
    let a = import_body(label_a, base64_text(seed_a));
    let b = import_body(label_b, base64_text(seed_b));
    assert(a == b);
    assert(a[0].1 == JsonValueView::Scalar(JsonScalarView::Text(label_a)));
    assert(b[0].1 == JsonValueView::Scalar(JsonScalarView::Text(label_b)));
    assert(a[4].1 == JsonValueView::Scalar(JsonScalarView::Text(base64_text(seed_a))));
    assert(b[4].1 == JsonValueView::Scalar(JsonScalarView::Text(base64_text(seed_b))));
}

/// Whatever its label and seed, an imported master can be derived from and
/// signs, and it does not leave the device.
pub proof fn law_imported_master_derives_and_stays_inside(label: Seq<char>, seed: Seq<char>)
    ensures
        import_body(label, seed).contains(
            ("attributes"@, JsonValueView::Object(imported_key_attributes())),
        ),
        imported_key_attributes().contains(("slip10"@, JsonScalarView::Flag(true))),
        imported_key_attributes().contains(("derive"@, JsonScalarView::Flag(true))),
        imported_key_attributes().contains(("sign"@, JsonScalarView::Flag(true))),
        imported_key_attributes().contains(("sensitive"@, JsonScalarView::Flag(true))),
        imported_key_attributes().contains(("extractable"@, JsonScalarView::Flag(false))),
        imported_key_attributes().contains(("copyable"@, JsonScalarView::Flag(false))),
{
    let attributes = imported_key_attributes();
    assert(import_body(label, seed)[3] == ("attributes"@, JsonValueView::Object(attributes)));
    assert(attributes[3] == ("sign"@, JsonScalarView::Flag(true)));
    assert(attributes[6] == ("derive"@, JsonScalarView::Flag(true)));
    assert(attributes[8] == ("slip10"@, JsonScalarView::Flag(true)));
    assert(attributes[9] == ("extractable"@, JsonScalarView::Flag(false)));
    assert(attributes[12] == ("sensitive"@, JsonScalarView::Flag(true)));
    assert(attributes[13] == ("copyable"@, JsonScalarView::Flag(false)));
}

/// What was decoded is seen as its bytes, what was found as its text, and a
/// failure as its reason.
pub proof fn law_outcomes_are_seen_whole(bytes: Vec<u8>, text: String, reason: String)
    ensures
        decoded_view(Ok(bytes)) == Ok::<Seq<u8>, Seq<char>>(bytes@),
        decoded_view(Err(reason)) == Err::<Seq<u8>, Seq<char>>(reason@),
        found_view(Ok(Some(text))) == Ok::<Option<Seq<char>>, Seq<char>>(Some(text@)),
        found_view(Ok(None)) == Ok::<Option<Seq<char>>, Seq<char>>(None),
        found_view(Err(reason)) == Err::<Option<Seq<char>>, Seq<char>>(reason@),
{
}

/// A field that was found is given as it is; one that was not is reported as
/// missing, and a document that is not JSON with the parser's reason.
pub proof fn law_field_is_given_as_found(text: Seq<char>, missing: Seq<char>, reason: Seq<char>)
    ensures
        checked_field(Ok(Some(text)), missing) == Ok::<Seq<char>, TsbErrorView>(text),
        checked_field(Ok(None), missing) == Err::<Seq<char>, TsbErrorView>(
            TsbErrorView::Decode(missing),
        ),
        checked_field(Err(reason), missing) == Err::<Seq<char>, TsbErrorView>(
            TsbErrorView::Decode(reason),
        ),
{
}

/// A decoded signature of 64 bytes is given byte for byte, in order; one of any
/// other length is refused with its length, and a text that is no base64 with
/// the decoder's reason.
pub proof fn law_decoded_signature_is_kept(raw: Seq<u8>, reason: Seq<char>, i: int)
    ensures
        raw.len() == 64 && 0 <= i < 64 ==> (checked_signature(Ok(raw)) matches Ok(signature)
            && signature.len() == 64 && signature[i] == raw[i]),
        raw.len() == 64 ==> checked_signature(Ok(raw)) == Ok::<Seq<u8>, TsbErrorView>(raw),
        raw.len() != 64 ==> checked_signature(Ok(raw)) == Err::<Seq<u8>, TsbErrorView>(
            TsbErrorView::Decode(
                "BIP-340 signature is "@ + decimal(raw.len()) + " bytes, want 64"@,
            ),
        ),
        checked_signature(Err(reason)) == Err::<Seq<u8>, TsbErrorView>(
            TsbErrorView::Decode("signature base64: "@ + reason),
        ),
{
}

/// The signature that a successful reply sends is the one that comes out: the
/// 64 bytes that its `signature` text stands for in base64, in their order.
pub proof fn law_signature_is_as_sent(
    reply: TsbReply,
    nodes: Map<Seq<char>, Option<Seq<char>>>,
    text: Seq<char>,
    raw: Seq<u8>,
)
    requires
        200 <= reply.status <= 299,
        json_document(reply.body@) == Ok::<Map<Seq<char>, Option<Seq<char>>>, Seq<char>>(nodes),
        nodes.contains_key("/signature"@),
        nodes["/signature"@] == Some(text),
        base64_bytes(text) == Ok::<Seq<u8>, Seq<char>>(raw),
        raw.len() == 64,
    ensures
        signature_of(Ok(reply)) == Ok::<Seq<u8>, TsbErrorView>(raw),
        signature_in(reply.body@) == Ok::<Seq<u8>, TsbErrorView>(raw),
{
}

/// A successful reply without a signature is refused for what it lacks: it is
/// not JSON, has no `signature` string, that is no base64, or not 64 bytes.
pub proof fn law_reply_without_signature_is_refused(reply: TsbReply)
    requires
        200 <= reply.status <= 299,
    ensures
        json_document(reply.body@) matches Err(reason) ==> signature_of(Ok(reply)) == Err::<
            Seq<u8>,
            TsbErrorView,
        >(TsbErrorView::Decode(reason)),
        json_document(reply.body@) matches Ok(nodes) ==> {
            &&& !nodes.contains_key("/signature"@) || nodes["/signature"@] is None ==> signature_of(
                Ok(reply),
            ) == Err::<Seq<u8>, TsbErrorView>(
                TsbErrorView::Decode("response missing `signature`"@),
            )
            &&& nodes.contains_key("/signature"@) ==> (nodes["/signature"@] matches Some(text)
                ==> match base64_bytes(text) {
                Err(reason) => signature_of(Ok(reply)) == Err::<Seq<u8>, TsbErrorView>(
                    TsbErrorView::Decode("signature base64: "@ + reason),
                ),
                Ok(raw) => raw.len() != 64 ==> signature_of(Ok(reply)) == Err::<
                    Seq<u8>,
                    TsbErrorView,
                >(
                    TsbErrorView::Decode(
                        "BIP-340 signature is "@ + decimal(raw.len()) + " bytes, want 64"@,
                    ),
                ),
            })
        },
        signature_of(Ok(reply)) == signature_in(reply.body@),
{
}

/// The signature field is the text at the top of the document.
pub proof fn law_signature_field(body: Seq<char>)
    ensures
        match json_document(body) {
            Err(reason) => signature_field(body) == Err::<Option<Seq<char>>, Seq<char>>(reason),
            Ok(nodes) => signature_field(body) == Ok::<Option<Seq<char>>, Seq<char>>(
                if nodes.contains_key("/signature"@) {
                    nodes["/signature"@]
                } else {
                    None
                },
            ),
        },
{
}

/// A public key nested under `json` comes before one at the top, also where it
/// is no string; without either there is none.
pub proof fn law_nested_public_key_comes_first(body: Seq<char>)
    ensures
        json_document(body) matches Err(reason) ==> public_key_field(body) == Err::<
            Option<Seq<char>>,
            Seq<char>,
        >(reason),
        json_document(body) matches Ok(nodes) ==> {
            let nested = nodes.contains_key("/json/publicKey"@);
            let top = nodes.contains_key("/publicKey"@);
            &&& nested ==> public_key_field(body) == Ok::<Option<Seq<char>>, Seq<char>>(
                nodes["/json/publicKey"@],
            )
            &&& !nested && top ==> public_key_field(body) == Ok::<Option<Seq<char>>, Seq<char>>(
                nodes["/publicKey"@],
            )
            &&& !nested && !top ==> public_key_field(body) == Ok::<Option<Seq<char>>, Seq<char>>(
                None,
            )
        },
{
}

/// The point is what stands at the end of the key info, its last 65 bytes,
/// whatever stands before.
pub proof fn law_point_ends_the_key_info(head: Seq<u8>, point: Seq<u8>, reason: Seq<char>)
    ensures
        point.len() == 65 ==> spki_point(Ok(head + point)) == Ok::<Seq<u8>, TsbErrorView>(point),
        head.len() < 65 ==> spki_point(Ok(head)) == Err::<Seq<u8>, TsbErrorView>(
            TsbErrorView::Decode("publicKey SPKI too short"@),
        ),
        spki_point(Err(reason)) == Err::<Seq<u8>, TsbErrorView>(
            TsbErrorView::Decode("publicKey base64: "@ + reason),
        ),
{
    let spki = head + point;
    assert(spki.skip(spki.len() - point.len()) =~= point);
}

/// The key that a successful reply sends is the one that comes out: that of the
/// curve point at the end of what its `publicKey` text stands for in base64.
pub proof fn law_public_key_is_as_sent(
    reply: TsbReply,
    nodes: Map<Seq<char>, Option<Seq<char>>>,
    text: Seq<char>,
    head: Seq<u8>,
    point: Seq<u8>,
)
    requires
        200 <= reply.status <= 299,
        json_document(reply.body@) == Ok::<Map<Seq<char>, Option<Seq<char>>>, Seq<char>>(nodes),
        nodes.contains_key("/json/publicKey"@) && nodes["/json/publicKey"@] == Some(text)
            || !nodes.contains_key("/json/publicKey"@) && nodes.contains_key("/publicKey"@)
            && nodes["/publicKey"@] == Some(text),
        base64_bytes(text) == Ok::<Seq<u8>, Seq<char>>(head + point),
        point.len() == 65,
    ensures
        point_in(reply.body@) == Ok::<Seq<u8>, TsbErrorView>(point),
        is_secp256k1_point(point) ==> public_key_of(Ok(reply)) == Ok::<Seq<u8>, TsbErrorView>(
            compressed_point(point),
        ),
        !is_secp256k1_point(point) ==> public_key_of(Ok(reply)) == Err::<Seq<u8>, TsbErrorView>(
            TsbErrorView::Decode("secp256k1 point: "@ + "malformed public key"@),
        ),
{
    law_point_ends_the_key_info(head, point, text);
}

/// A successful reply without a public key is refused for what it lacks.
pub proof fn law_reply_without_public_key_is_refused(reply: TsbReply)
    requires
        200 <= reply.status <= 299,
    ensures
        match public_key_field(reply.body@) {
            Err(reason) => public_key_of(Ok(reply)) == Err::<Seq<u8>, TsbErrorView>(
                TsbErrorView::Decode(reason),
            ),
            Ok(None) => public_key_of(Ok(reply)) == Err::<Seq<u8>, TsbErrorView>(
                TsbErrorView::Decode("response missing `publicKey`"@),
            ),
            Ok(Some(text)) => match base64_bytes(text) {
                Err(reason) => public_key_of(Ok(reply)) == Err::<Seq<u8>, TsbErrorView>(
                    TsbErrorView::Decode("publicKey base64: "@ + reason),
                ),
                Ok(spki) => spki.len() < 65 ==> public_key_of(Ok(reply)) == Err::<
                    Seq<u8>,
                    TsbErrorView,
                >(TsbErrorView::Decode("publicKey SPKI too short"@)),
            },
        },
        public_key_of(Ok(reply)) is Ok ==> point_in(reply.body@) is Ok,
        point_in(reply.body@) matches Err(e) ==> public_key_of(Ok(reply)) == Err::<
            Seq<u8>,
            TsbErrorView,
        >(e),
{
}

/// The bytes of a signature are kept where they encode one, and else refused.
pub proof fn law_schnorr_bytes_are_kept(raw: Seq<u8>)
    ensures
        is_schnorr_encoding(raw) ==> schnorr_of(raw) == Ok::<Seq<u8>, TsbErrorView>(raw),
        !is_schnorr_encoding(raw) ==> schnorr_of(raw) == Err::<Seq<u8>, TsbErrorView>(
            TsbErrorView::Decode("malformed signature"@),
        ),
{
}

/// Each kind of request goes to its own endpoint below the base URL and carries
/// the token that it was given.
pub proof fn law_requests_go_to_their_endpoints(
    base: Seq<char>,
    token: Seq<char>,
    name: Seq<char>,
    path: Seq<char>,
    bytes: Seq<u8>,
)
    ensures
        sign_request(base, token, name, bytes).url == base + "/synchronousSign"@,
        import_request(base, token, name, bytes).url == base + "/importedKey"@,
        derived_key_request(base, token, name, path).url == base + "/derivedKey"@,
        sign_request(base, token, name, bytes).bearer == token,
        import_request(base, token, name, bytes).bearer == token,
        derived_key_request(base, token, name, path).bearer == token,
        sign_request(base, token, name, bytes).body == sign_body(base64_text(bytes), name),
        import_request(base, token, name, bytes).body == import_body(name, base64_text(bytes)),
        derived_key_request(base, token, name, path).body == derived_key_body(name, path),
{
}

/// Whatever the key and the payload, a sign request asks for one BIP-340
/// signature by that key of that payload, taken as it is, and for nothing else.
pub proof fn law_sign_body(payload: Seq<char>, name: Seq<char>)
    ensures
        sign_body(payload, name).len() == 1,
        sign_body(payload, name)[0].0 == "signRequest"@,
        sign_body(payload, name)[0].1 matches JsonValueView::Object(members) && members.len() == 4
            && forall|key: Seq<char>, value: JsonScalarView| #[trigger]
            members.contains((key, value)) <==> {
                ||| key == "payload"@ && value == JsonScalarView::Text(payload)
                ||| key == "payloadType"@ && value == JsonScalarView::Text("UNSPECIFIED"@)
                ||| key == "signKeyName"@ && value == JsonScalarView::Text(name)
                ||| key == "signatureAlgorithm"@ && value == JsonScalarView::Text(
                    "NONE_WITH_EC_SCHNORR_BIP0340"@,
                )
            },
{
    let members = sign_body(payload, name)[0].1->Object_0;
    assert(members[0] == ("payload"@, JsonScalarView::Text(payload)));
    assert(members[1] == ("payloadType"@, JsonScalarView::Text("UNSPECIFIED"@)));
    assert(members[2] == ("signKeyName"@, JsonScalarView::Text(name)));
    assert(members[3] == (
        "signatureAlgorithm"@,
        JsonScalarView::Text("NONE_WITH_EC_SCHNORR_BIP0340"@),
    ));
}

/// Whatever the label and the seed, an import asks for an EC key on secp256k1 of
/// that label and seed with the attributes of an imported master, and each of
/// these is said once.
pub proof fn law_import_body(label: Seq<char>, seed: Seq<char>)
    ensures
        import_body(label, seed).len() == 5,
        forall|v: JsonValueView| #[trigger]
            import_body(label, seed).contains(("label"@, v)) <==> v == JsonValueView::Scalar(
                JsonScalarView::Text(label),
            ),
        forall|v: JsonValueView| #[trigger]
            import_body(label, seed).contains(("algorithm"@, v)) <==> v == JsonValueView::Scalar(
                JsonScalarView::Text("EC"@),
            ),
        forall|v: JsonValueView| #[trigger]
            import_body(label, seed).contains(("curveOid"@, v)) <==> v == JsonValueView::Scalar(
                JsonScalarView::Text("1.3.132.0.10"@),
            ),
        forall|v: JsonValueView| #[trigger]
            import_body(label, seed).contains(("attributes"@, v)) <==> v == JsonValueView::Object(
                imported_key_attributes(),
            ),
        forall|v: JsonValueView| #[trigger]
            import_body(label, seed).contains(("seed"@, v)) <==> v == JsonValueView::Scalar(
                JsonScalarView::Text(seed),
            ),
{
    reveal_strlit("label");
    reveal_strlit("algorithm");
    reveal_strlit("curveOid");
    reveal_strlit("attributes");
    reveal_strlit("seed");
    assert("label"@.len() == 5 && "algorithm"@.len() == 9 && "curveOid"@.len() == 8);
    assert("attributes"@.len() == 10 && "seed"@.len() == 4);
    let body = import_body(label, seed);
    assert(body[0] == ("label"@, JsonValueView::Scalar(JsonScalarView::Text(label))));
    assert(body[1] == ("algorithm"@, JsonValueView::Scalar(JsonScalarView::Text("EC"@))));
    assert(body[2] == ("curveOid"@, JsonValueView::Scalar(JsonScalarView::Text("1.3.132.0.10"@))));
    assert(body[3] == ("attributes"@, JsonValueView::Object(imported_key_attributes())));
    assert(body[4] == ("seed"@, JsonValueView::Scalar(JsonScalarView::Text(seed))));
}

/// Of an imported master these attributes are set and those are not, and no
/// other is named.
pub proof fn law_imported_key_attributes(name: Seq<char>, value: JsonScalarView)
    ensures
        imported_key_attributes().len() == 14,
        imported_key_attributes().contains((name, value)) <==> {
            ||| value == JsonScalarView::Flag(true) && (name == "verify"@ || name == "sign"@ || name
                == "derive"@ || name == "slip10"@ || name == "modifiable"@ || name
                == "destroyable"@ || name == "sensitive"@)
            ||| value == JsonScalarView::Flag(false) && (name == "encrypt"@ || name == "decrypt"@
                || name == "wrap"@ || name == "unwrap"@ || name == "bip32"@ || name
                == "extractable"@ || name == "copyable"@)
        },
{
    let all = imported_key_attributes();
    assert(all[0] == ("encrypt"@, JsonScalarView::Flag(false)));
    assert(all[1] == ("decrypt"@, JsonScalarView::Flag(false)));
    assert(all[2] == ("verify"@, JsonScalarView::Flag(true)));
    assert(all[3] == ("sign"@, JsonScalarView::Flag(true)));
    assert(all[4] == ("wrap"@, JsonScalarView::Flag(false)));
    assert(all[5] == ("unwrap"@, JsonScalarView::Flag(false)));
    assert(all[6] == ("derive"@, JsonScalarView::Flag(true)));
    assert(all[7] == ("bip32"@, JsonScalarView::Flag(false)));
    assert(all[8] == ("slip10"@, JsonScalarView::Flag(true)));
    assert(all[9] == ("extractable"@, JsonScalarView::Flag(false)));
    assert(all[10] == ("modifiable"@, JsonScalarView::Flag(true)));
    assert(all[11] == ("destroyable"@, JsonScalarView::Flag(true)));
    assert(all[12] == ("sensitive"@, JsonScalarView::Flag(true)));
    assert(all[13] == ("copyable"@, JsonScalarView::Flag(false)));
}

/// Whatever the master and the path, a request for a derived key names both as
/// they are and asks for a signing, deriving key that does not leave the device.
pub proof fn law_derived_key_body(master_label: Seq<char>, path: Seq<char>)
    ensures
        derived_key_body(master_label, path).len() == 3,
        derived_key_body(master_label, path).contains(
            ("masterKeyLabel"@, JsonValueView::Scalar(JsonScalarView::Text(master_label))),
        ),
        derived_key_body(master_label, path).contains(
            ("derivationPath"@, JsonValueView::Scalar(JsonScalarView::Text(path))),
        ),
        derived_key_body(master_label, path)[2].0 == "attributes"@,
        derived_key_body(master_label, path)[2].1 matches JsonValueView::Object(members)
            && members.len() == 5 && forall|name: Seq<char>, value: JsonScalarView| #[trigger]
            members.contains((name, value)) <==> {
                ||| value == JsonScalarView::Flag(true) && (name == "sign"@ || name == "derive"@
                    || name == "slip10"@ || name == "destroyable"@)
                ||| value == JsonScalarView::Flag(false) && name == "extractable"@
            },
{
    let body = derived_key_body(master_label, path);
    assert(body[0] == (
        "masterKeyLabel"@,
        JsonValueView::Scalar(JsonScalarView::Text(master_label)),
    ));
    assert(body[1] == ("derivationPath"@, JsonValueView::Scalar(JsonScalarView::Text(path))));
    let members = body[2].1->Object_0;
    assert(members[0] == ("sign"@, JsonScalarView::Flag(true)));
    assert(members[1] == ("derive"@, JsonScalarView::Flag(true)));
    assert(members[2] == ("slip10"@, JsonScalarView::Flag(true)));
    assert(members[3] == ("extractable"@, JsonScalarView::Flag(false)));
    assert(members[4] == ("destroyable"@, JsonScalarView::Flag(true)));
}

} // verus!
