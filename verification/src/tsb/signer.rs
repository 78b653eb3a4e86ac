//! Taproot signing over TSB: the name of a leaf key, and the round-trip that signs with it.
use crate::bip32::{
    law_path_text_joins, law_text_determines_path, lemma_path_text, path_text, path_to_text,
    ChildNumber,
};
use crate::config::EnvVars;
use crate::error::{HsmBackendError, HsmBackendErrorView};
use crate::keys::{is_schnorr_encoding, SchnorrSignature};
use crate::secret::Secret;
use crate::text::{join3, trim_end};
use crate::tsb::client::{
    law_sign_request_determines_key_and_payload, law_signature_is_as_sent, schnorr_from_bytes, schnorr_of, sign_request,
    signature_of, TsbClient,
};
use crate::tsb::codec::{base64_bytes, base64_text, json_document};
use crate::tsb::error::{TsbError, TsbErrorView};
use crate::tsb::jwt::{JwtProvider, StaticJwt};
use crate::tsb::request::{TsbReply, TsbRequest};
use vstd::prelude::*;

verus! {

/// Env var naming the TSB versioned base URL (such as
/// `https://sbx-rest-api.cloudshsm.com/v1`).
pub const TSB_URL_ENV: &'static str = "SECUROSYS_TSB_URL";

/// Env var carrying the TSB bearer JWT.
pub const TSB_JWT_ENV: &'static str = "SECUROSYS_TSB_JWT";

/// The on-token label of the master private key of the signer labelled `label`.
pub open spec fn master_label(label: Seq<char>) -> Seq<char> {
    "emvault.v1."@ + label + ".priv"@
}

/// Calls `emvault_pkcs11::key_ops::priv_label`: the label between `emvault.v1.`
/// and `.priv`.
#[verifier::external_body]
fn master_label_of(label: &str) -> (name: String)
    ensures
        name@ == master_label(label@),
{
    emvault_pkcs11::key_ops::priv_label(label)
}

/// The name under which TSB finds the leaf at `path` below the master of the
/// signer labelled `label`.
pub open spec fn key_name(label: Seq<char>, path: Seq<ChildNumber>) -> Seq<char> {
    if path.len() == 0 {
        master_label(label)
    } else {
        master_label(label) + "/"@ + path_text(path)
    }
}

/// A variable of `env` that is set to more than the empty text.
pub open spec fn nonempty_value(env: EnvVars, name: Seq<char>) -> Option<Seq<char>> {
    match env.value(name) {
        Some(value) => if value.len() > 0 {
            Some(value)
        } else {
            None
        },
        None => None,
    }
}

/// A variable of `env` that is set to more than the empty text.
fn nonempty_var(env: &EnvVars, name: &str) -> (value: Option<String>)
    ensures
        match value {
            Some(value) => nonempty_value(*env, name@) == Some(value@),
            None => nonempty_value(*env, name@) is None,
        },
{
    match env.var(name) {
        Some(value) => if value.as_str().unicode_len() > 0 {
            Some(value)
        } else {
            None
        },
        None => None,
    }
}

/// The base URL and the bearer token that `env` names: both, or neither, or
/// which of the two is missing.
pub open spec fn tsb_access_from(env: EnvVars) -> Result<
    Option<(Seq<char>, Seq<char>)>,
    TsbErrorView,
> {
    match (nonempty_value(env, TSB_URL_ENV@), nonempty_value(env, TSB_JWT_ENV@)) {
        (Some(url), Some(jwt)) => Ok(Some((url, jwt))),
        (None, None) => Ok(None),
        (Some(_), None) => Err(
            TsbErrorView::Decode(TSB_URL_ENV@ + " set but "@ + TSB_JWT_ENV@ + " missing"@),
        ),
        (None, Some(_)) => Err(
            TsbErrorView::Decode(TSB_JWT_ENV@ + " set but "@ + TSB_URL_ENV@ + " missing"@),
        ),
    }
}

/// What a configuration error of the two variables reads.
fn half_configured(set: &str, missing: &str) -> (e: TsbError)
    ensures
        e@ == TsbErrorView::Decode(set@ + " set but "@ + missing@ + " missing"@),
{
    let mut text = join3(set, " set but ", missing);
    text.append(" missing");
    TsbError::Decode(text)
}

/// The signature in a reply, where its bytes encode one.
pub open spec fn schnorr_in(reply: Result<TsbReply, String>) -> Result<Seq<u8>, TsbErrorView> {
    match signature_of(reply) {
        Ok(raw) => schnorr_of(raw),
        Err(e) => Err(e),
    }
}

/// A TSB failure as a signing error.
pub open spec fn signing_error(e: TsbErrorView) -> HsmBackendErrorView {
    HsmBackendErrorView::Signing(e.message())
}

/// The Securosys Taproot signer: BIP-340 Schnorr over TSB REST.
///
/// It is handed the signer's label and the full BIP-32 path to the leaf,
/// reconstructs the name that TSB knows the key by, and lets TSB derive and
/// sign with the leaf in one round-trip. No PKCS#11 session or handle is used.
pub struct SecurosysTaprootSigner<J: JwtProvider> {
    tsb: TsbClient<J>,
}

impl<J: JwtProvider> SecurosysTaprootSigner<J> {
    /// The underlying TSB client.
    pub closed spec fn tsb(self) -> TsbClient<J> {
        self.tsb
    }

    /// Wrap a ready [`TsbClient`].
    pub fn new(tsb: TsbClient<J>) -> (signer: SecurosysTaprootSigner<J>)
        ensures
            signer.tsb() == tsb,
    {
        SecurosysTaprootSigner { tsb }
    }

    /// The underlying TSB client (for public key lookups).
    pub fn client(&self) -> (tsb: &TsbClient<J>)
        ensures
            *tsb == self.tsb(),
    {
        &self.tsb
    }

    /// The request that signs `sighash` with the leaf at `full_path` below the
    /// master of the signer labelled `label`, with the bearer token `token`.
    pub fn sign_schnorr_with(
        &self,
        token: &Secret,
        label: &str,
        full_path: &[ChildNumber],
        sighash: &[u8; 32],
    ) -> (request: TsbRequest)
        ensures
            request@ == sign_request(
                self.tsb().base(),
                token@,
                key_name(label@, full_path@),
                sighash@,
            ),
            base64_bytes(base64_text(sighash@)) == Ok::<Seq<u8>, Seq<char>>(sighash@),
    {
        let name = SecurosysTaprootSigner::<StaticJwt>::sign_key_name(label, full_path);
        self.tsb.sign_bip340_with(token, name.as_str(), sighash)
    }

    /// The request that signs `sighash` with the leaf at `full_path` below the
    /// master of the signer labelled `label`. The provider is asked for the
    /// bearer token.
    pub fn sign_schnorr_request(
        &self,
        label: &str,
        full_path: &[ChildNumber],
        sighash: &[u8; 32],
    ) -> (request: TsbRequest)
        ensures
            exists|token: Secret|
                call_ensures(J::current, (&self.tsb().provider(),), token) && request@
                    == sign_request(
                    self.tsb().base(),
                    (#[trigger] token@),
                    key_name(label@, full_path@),
                    sighash@,
                ),
            base64_bytes(base64_text(sighash@)) == Ok::<Seq<u8>, Seq<char>>(sighash@),
    {
        let name = SecurosysTaprootSigner::<StaticJwt>::sign_key_name(label, full_path);
        self.tsb.sign_bip340_request(name.as_str(), sighash)
    }

    /// The signature in the reply to a sign request.
    ///
    /// # Errors
    /// [`HsmBackendError::Signing`] with what the TSB error reads; also where
    /// the 64 bytes in the reply are no valid Schnorr signature.
    pub fn sign_schnorr_reply(reply: Result<TsbReply, String>) -> (signature: Result<
        SchnorrSignature,
        HsmBackendError,
    >)
        ensures
            match schnorr_in(reply) {
                Ok(bytes) => signature matches Ok(signature) && signature@ == bytes,
                Err(e) => signature matches Err(error) && error@ == signing_error(e),
            },
    {
        match TsbClient::<J>::sign_bip340_reply(reply) {
            Ok(raw) => match schnorr_from_bytes(&raw) {
                Ok(signature) => Ok(signature),
                Err(e) => Err(HsmBackendError::Signing(e.message())),
            },
            Err(e) => Err(HsmBackendError::Signing(e.message())),
        }
    }
}

impl SecurosysTaprootSigner<StaticJwt> {
    /// Build from the environment: [`TSB_URL_ENV`] and [`TSB_JWT_ENV`].
    ///
    /// `Ok(None)` where **neither** is set: Taproot is unavailable then. A
    /// variable that is set to the empty text counts as not set.
    ///
    /// # Errors
    /// [`TsbError::Decode`] where only one of the two is set.
    pub fn from_env(env: &EnvVars) -> (signer: Result<
        Option<SecurosysTaprootSigner<StaticJwt>>,
        TsbError,
    >)
        ensures
            match tsb_access_from(*env) {
                Ok(Some((url, jwt))) => signer matches Ok(Some(signer)) && signer.tsb().base()
                    == trim_end(url, '/') && signer.tsb().provider()@ == jwt,
                Ok(None) => signer matches Ok(None),
                Err(e) => signer matches Err(error) && error@ == e,
            },
    {
        let url = nonempty_var(env, TSB_URL_ENV);
        let jwt = nonempty_var(env, TSB_JWT_ENV);
        match (url, jwt) {
            (Some(url), Some(jwt)) => {
                let client = TsbClient::with_static_jwt(url.as_str(), Secret::new(jwt));
                Ok(Some(SecurosysTaprootSigner::new(client)))
            },
            (None, None) => Ok(None),
            (Some(_), None) => Err(half_configured(TSB_URL_ENV, TSB_JWT_ENV)),
            (None, Some(_)) => Err(half_configured(TSB_JWT_ENV, TSB_URL_ENV)),
        }
    }

    /// The name under which TSB finds a leaf: `"<master label>/<bip32 path>"`,
    /// or the master's label alone for the empty path.
    pub fn sign_key_name(label: &str, full_path: &[ChildNumber]) -> (name: String)
        ensures
            name@ == key_name(label@, full_path@),
    {
        let master = master_label_of(label);
        if full_path.len() == 0 {
            master
        } else {
            join3(master.as_str(), "/", path_to_text(full_path).as_str())
        }
    }
}

/// A name belongs to one leaf of one signer: equal names come from equal labels
/// and equal paths, so that TSB never signs with another key than the one meant.
pub proof fn law_name_determines_label_and_path(
    label_a: Seq<char>,
    path_a: Seq<ChildNumber>,
    label_b: Seq<char>,
    path_b: Seq<ChildNumber>,
)
    requires
        key_name(label_a, path_a) == key_name(label_b, path_b),
    ensures
        label_a == label_b,
        path_a == path_b,
{
    reveal_strlit("emvault.v1.");
    reveal_strlit(".priv");
    reveal_strlit("/");
    let name = key_name(label_a, path_a);
    let (master_a, master_b) = (master_label(label_a), master_label(label_b));
    let (n, m) = (master_a.len() as int, master_b.len() as int);
    lemma_master_ends_name(label_a, path_a);
    lemma_master_ends_name(label_b, path_b);
    assert(n == m);
    assert(master_a =~= name.take(n));
    assert(master_b =~= name.take(n));
    assert(label_a =~= master_a.subrange(11, n - 5));
    assert(label_b =~= master_b.subrange(11, n - 5));
    if path_a.len() > 0 && path_b.len() > 0 {
        assert(path_text(path_a) =~= name.skip(n + 1));
        assert(path_text(path_b) =~= name.skip(n + 1));
        law_text_determines_path(path_a, path_b);
    } else {
        assert(path_a =~= path_b);
    }
}

/// The last `v` of a key's name is the one that ends the master's label.
proof fn lemma_master_ends_name(label: Seq<char>, path: Seq<ChildNumber>)
    ensures
        16 <= master_label(label).len() <= key_name(label, path).len(),
        key_name(label, path)[master_label(label).len() - 1] == 'v',
        forall|i: int|
            master_label(label).len() <= i < key_name(label, path).len() ==> (
            #[trigger] key_name(label, path)[i]) != 'v',
{
    reveal_strlit("emvault.v1.");
    reveal_strlit(".priv");
    reveal_strlit("/");
    let name = key_name(label, path);
    let n = master_label(label).len() as int;
    if path.len() > 0 {
        lemma_path_text(path);
        assert forall|i: int| n <= i < name.len() implies (#[trigger] name[i]) != 'v' by {
            if i > n {
                assert(name[i] == path_text(path)[i - n - 1]);
            }
        }
    }
}

/// Two requests of a Taproot signer are the same only if they mean the same
/// leaf of the same signer and the same sighash; the sighashes are those that
/// their base64 texts decode to.
pub proof fn law_schnorr_request_determines_leaf_and_sighash(
    base: Seq<char>,
    token: Seq<char>,
    label_a: Seq<char>,
    path_a: Seq<ChildNumber>,
    sighash_a: Seq<u8>,
    label_b: Seq<char>,
    path_b: Seq<ChildNumber>,
    sighash_b: Seq<u8>,
)
    requires
        base64_bytes(base64_text(sighash_a)) == Ok::<Seq<u8>, Seq<char>>(sighash_a),
        base64_bytes(base64_text(sighash_b)) == Ok::<Seq<u8>, Seq<char>>(sighash_b),
        sign_request(base, token, key_name(label_a, path_a), sighash_a) == sign_request(
            base,
            token,
            key_name(label_b, path_b),
            sighash_b,
        ),
    ensures
        label_a == label_b,
        path_a == path_b,
        sighash_a == sighash_b,
{
    law_sign_request_determines_key_and_payload(
        base,
        token,
        key_name(label_a, path_a),
        sighash_a,
        key_name(label_b, path_b),
        sighash_b,
    );
    law_name_determines_label_and_path(label_a, path_a, label_b, path_b);
}

/// A leaf's name is that of its master, followed by a slash and the leaf's path
/// unless that is empty; the master's is the label between `emvault.v1.` and
/// `.priv`.
pub proof fn law_name_is_master_and_path(label: Seq<char>, path: Seq<ChildNumber>)
    ensures
        master_label(label) == "emvault.v1."@ + label + ".priv"@,
        key_name(label, Seq::empty()) == "emvault.v1."@ + label + ".priv"@,
        path.len() > 0 ==> key_name(label, path) == ("emvault.v1."@ + label + ".priv"@).push('/')
            + path_text(path),
{
    reveal_strlit("/");
    let master = "emvault.v1."@ + label + ".priv"@;
    assert(master + "/"@ =~= master.push('/'));
}

/// A child's name is its parent's, followed by a slash and the child's own step.
pub proof fn law_name_of_a_child(label: Seq<char>, path: Seq<ChildNumber>, child: ChildNumber)
    ensures
        key_name(label, path.push(child)) == key_name(label, path).push('/') + child.text(),
{
    law_name_is_master_and_path(label, path);
    law_name_is_master_and_path(label, path.push(child));
    law_path_text_joins(path, seq![child], child);
    assert(path.push(child) =~= path + seq![child]);
    if path.len() == 0 {
        assert(path =~= Seq::empty());
        assert(path.push(child) =~= seq![child]);
    } else {
        assert(key_name(label, path.push(child)) =~= key_name(label, path).push('/')
            + child.text());
    }
}

/// A variable that is set to more than the empty text counts, with its whole
/// value; an empty or absent one does not.
pub proof fn law_empty_value_counts_as_absent(env: EnvVars, name: Seq<char>)
    ensures
        env.value(name) is None ==> nonempty_value(env, name) is None,
        env.value(name) matches Some(value) ==> (value.len() == 0 ==> nonempty_value(
            env,
            name,
        ) is None),
        env.value(name) matches Some(value) ==> (value.len() > 0 ==> nonempty_value(env, name)
            == Some(value)),
{
}

/// TSB is reached with both the address and the token, not at all with neither,
/// and is half configured with one: the error names the one that is set first
/// and the one that is missing second.
pub proof fn law_access_needs_both_variables(env: EnvVars)
    ensures
        ({
            let url = nonempty_value(env, "SECUROSYS_TSB_URL"@);
            let jwt = nonempty_value(env, "SECUROSYS_TSB_JWT"@);
            &&& url is Some && jwt is Some ==> tsb_access_from(env) == Ok::<
                Option<(Seq<char>, Seq<char>)>,
                TsbErrorView,
            >(Some((url->0, jwt->0)))
            &&& url is None && jwt is None ==> tsb_access_from(env) == Ok::<
                Option<(Seq<char>, Seq<char>)>,
                TsbErrorView,
            >(None)
            &&& url is Some && jwt is None ==> tsb_access_from(env) == Err::<
                Option<(Seq<char>, Seq<char>)>,
                TsbErrorView,
            >(
                TsbErrorView::Decode(
                    "SECUROSYS_TSB_URL"@ + " set but "@ + "SECUROSYS_TSB_JWT"@ + " missing"@,
                ),
            )
            &&& url is None && jwt is Some ==> tsb_access_from(env) == Err::<
                Option<(Seq<char>, Seq<char>)>,
                TsbErrorView,
            >(
                TsbErrorView::Decode(
                    "SECUROSYS_TSB_JWT"@ + " set but "@ + "SECUROSYS_TSB_URL"@ + " missing"@,
                ),
            )
        }),
{
}

/// The signature that a successful reply sends is the one that the signer gives,
/// byte for byte, where its halves are in range, and else it is refused.
pub proof fn law_signer_gives_the_signature_as_sent(
    reply: TsbReply,
    nodes: Map<Seq<char>, Option<Seq<char>>>,
    text: Seq<char>,
    raw: Seq<u8>,
)
    requires
        200 <= reply.status <= 299,
        json_document(reply.body@) == Ok::<Map<Seq<char>, Option<Seq<char>>>, Seq<char>>(nodes),
        nodes.contains_key("/signature"@),
        nodes["/signature"@] == Some(text),
        base64_bytes(text) == Ok::<Seq<u8>, Seq<char>>(raw),
        raw.len() == 64,
    ensures
        is_schnorr_encoding(raw) ==> schnorr_in(Ok(reply)) == Ok::<Seq<u8>, TsbErrorView>(raw),
        !is_schnorr_encoding(raw) ==> schnorr_in(Ok(reply)) == Err::<Seq<u8>, TsbErrorView>(
            TsbErrorView::Decode("malformed signature"@),
        ),
{
    law_signature_is_as_sent(reply, nodes, text, raw);
}

/// Where there is no signature in the reply the signer fails for the same
/// reason, and its error reads as that reason does.
pub proof fn law_signer_fails_as_the_client_does(reply: Result<TsbReply, String>, e: TsbErrorView)
    ensures
        signature_of(reply) == Err::<Seq<u8>, TsbErrorView>(e) ==> schnorr_in(reply) == Err::<
            Seq<u8>,
            TsbErrorView,
        >(e),
        signing_error(e) == HsmBackendErrorView::Signing(e.message()),
{
}

} // verus!
