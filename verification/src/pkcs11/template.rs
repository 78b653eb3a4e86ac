//! Attribute templates of the keys that the HSM creates, and the attributes it reports.
use crate::error::{HsmBackendError, HsmBackendErrorView};
use crate::text::{
    ends_with, hexadecimal, hexadecimal_of, law_ends_with, starts_with, strip_suffix,
    text_from_bytes, text_of_bytes,
};
use vstd::prelude::*;

verus! {

/// `CKK_EC_SLIP10`: key type for SLIP-10 EC keys (secp256k1 / secp256r1).
pub const CKK_EC_SLIP10: u64 = 0x8000_0014;

/// `CKA_SLIP10_CHAIN_CODE`: vendor attribute carrying the 32-byte chain code.
pub const CKA_SLIP10_CHAIN_CODE: u64 = 0x8000_1100;

/// secp256k1 curve OID (DER: 1.3.132.0.10).
pub const SECP256K1_OID: [u8; 7] = [0x06, 0x05, 0x2B, 0x81, 0x04, 0x00, 0x0A];

/// The class of a key object.
#[derive(Clone, Copy, Debug, PartialEq, Eq, Structural)]
pub enum ObjectClass {
    /// `CKO_PUBLIC_KEY`.
    PublicKey,
    /// `CKO_PRIVATE_KEY`.
    PrivateKey,
}

/// One attribute of a key template or of an object search.
#[derive(Debug, PartialEq, Eq)]
pub enum KeyAttribute {
    /// `CKA_CLASS`.
    Class(ObjectClass),
    /// `CKA_KEY_TYPE`.
    KeyType(u64),
    /// `CKA_TOKEN`: whether the object outlives the session.
    Token(bool),
    /// `CKA_DERIVE`: whether keys can be derived from this one.
    Derive(bool),
    /// `CKA_VERIFY`: whether it verifies signatures.
    Verify(bool),
    /// `CKA_SIGN`: whether it signs.
    Sign(bool),
    /// `CKA_SENSITIVE`: whether its value is kept inside the device.
    Sensitive(bool),
    /// `CKA_EXTRACTABLE`: whether it can be wrapped out of the device.
    Extractable(bool),
    /// `CKA_EC_PARAMS`: the DER-encoded curve.
    EcParams(Vec<u8>),
    /// `CKA_LABEL`.
    Label(Vec<u8>),
}

/// A [`KeyAttribute`] with its bytes as a sequence.
pub enum KeyAttributeView {
    Class(ObjectClass),
    KeyType(u64),
    Token(bool),
    Derive(bool),
    Verify(bool),
    Sign(bool),
    Sensitive(bool),
    Extractable(bool),
    EcParams(Seq<u8>),
    Label(Seq<u8>),
}

impl View for KeyAttribute {
    type V = KeyAttributeView;

    open spec fn view(&self) -> KeyAttributeView {
        match *self {
            KeyAttribute::Class(class) => KeyAttributeView::Class(class),
            KeyAttribute::KeyType(key_type) => KeyAttributeView::KeyType(key_type),
            KeyAttribute::Token(set) => KeyAttributeView::Token(set),
            KeyAttribute::Derive(set) => KeyAttributeView::Derive(set),
            KeyAttribute::Verify(set) => KeyAttributeView::Verify(set),
            KeyAttribute::Sign(set) => KeyAttributeView::Sign(set),
            KeyAttribute::Sensitive(set) => KeyAttributeView::Sensitive(set),
            KeyAttribute::Extractable(set) => KeyAttributeView::Extractable(set),
            KeyAttribute::EcParams(bytes) => KeyAttributeView::EcParams(bytes@),
            KeyAttribute::Label(bytes) => KeyAttributeView::Label(bytes@),
        }
    }
}

/// The views of a template's attributes.
pub open spec fn template_view(template: Seq<KeyAttribute>) -> Seq<KeyAttributeView> {
    template.map_values(|attribute: KeyAttribute| attribute@)
}

/// Whether `label` is the label of an emvault master private key,
/// `emvault.v1.<name>.priv`.
pub open spec fn is_master_label(label: Seq<char>) -> bool {
    ends_with(label, ".priv"@) && "emvault.v1."@.is_prefix_of(
        label.take(label.len() - ".priv"@.len()),
    )
}

/// The label of the public key that stands beside the private key labelled
/// `priv_label`: `emvault.v1.<name>.pub` beside `emvault.v1.<name>.priv`; a
/// `/priv` at its end becomes `/pub`; any other label gets `/pub` appended.
pub open spec fn pub_sibling(priv_label: Seq<char>) -> Seq<char> {
    if ends_with(priv_label, "/priv"@) {
        priv_label.take(priv_label.len() - "/priv"@.len()) + "/pub"@
    } else if is_master_label(priv_label) {
        priv_label.take(priv_label.len() - ".priv"@.len()) + ".pub"@
    } else {
        priv_label + "/pub"@
    }
}

/// The label of the public key that stands beside the private key labelled
/// `priv_label`, as `emvault_pkcs11::key_ops::pub_label` gives it for a master.
pub fn pub_sibling_label(priv_label: &str) -> (label: String)
    ensures
        label@ == pub_sibling(priv_label@),
{
    if let Some(base) = strip_suffix(priv_label, "/priv") {
        assert(base@ =~= priv_label@.take(priv_label@.len() - "/priv"@.len()));
        let mut label = base.to_owned();
        label.append("/pub");
        return label;
    }
    if let Some(base) = strip_suffix(priv_label, ".priv") {
        assert(base@ =~= priv_label@.take(priv_label@.len() - ".priv"@.len()));
        if starts_with(base, "emvault.v1.") {
            let mut label = base.to_owned();
            label.append(".pub");
            return label;
        }
    }
    let mut label = priv_label.to_owned();
    label.append("/pub");
    label
}

/// The template of a master public key for the private key labelled `label`.
pub open spec fn master_public_attributes(label: Seq<char>) -> Seq<KeyAttributeView> {
    seq![
        KeyAttributeView::Class(ObjectClass::PublicKey),
        KeyAttributeView::KeyType(CKK_EC_SLIP10),
        KeyAttributeView::Token(true),
        KeyAttributeView::Derive(true),
        KeyAttributeView::Verify(true),
        KeyAttributeView::EcParams(SECP256K1_OID@),
        KeyAttributeView::Label(vstd::utf8::encode_utf8(pub_sibling(label))),
    ]
}

/// The template of a master private key labelled `label`.
pub open spec fn master_private_attributes(label: Seq<char>) -> Seq<KeyAttributeView> {
    seq![
        KeyAttributeView::Class(ObjectClass::PrivateKey),
        KeyAttributeView::KeyType(CKK_EC_SLIP10),
        KeyAttributeView::Token(true),
        KeyAttributeView::Derive(true),
        KeyAttributeView::Sign(true),
        KeyAttributeView::Sensitive(true),
        KeyAttributeView::Extractable(false),
        KeyAttributeView::Label(vstd::utf8::encode_utf8(label)),
    ]
}

/// The template of a derived public key: a session object.
pub open spec fn child_public_attributes() -> Seq<KeyAttributeView> {
    seq![
        KeyAttributeView::Token(false),
        KeyAttributeView::Derive(true),
        KeyAttributeView::Verify(true),
    ]
}

/// The template of a derived private key: a session object, usable as a parent and as a signer.
pub open spec fn child_private_attributes() -> Seq<KeyAttributeView> {
    seq![
        KeyAttributeView::Token(false),
        KeyAttributeView::Derive(true),
        KeyAttributeView::Sign(true),
        KeyAttributeView::Sensitive(true),
        KeyAttributeView::Extractable(false),
    ]
}

/// The search for the public key labelled `label`.
pub open spec fn public_key_search(label: Seq<char>) -> Seq<KeyAttributeView> {
    seq![
        KeyAttributeView::Class(ObjectClass::PublicKey),
        KeyAttributeView::Label(vstd::utf8::encode_utf8(label)),
    ]
}

/// The template of a master public key for the private key labelled `label`.
pub fn master_public_template(label: &str) -> (template: Vec<KeyAttribute>)
    ensures
        template_view(template@) == master_public_attributes(label@),
{
    let sibling = pub_sibling_label(label);
    let template = vec![
        KeyAttribute::Class(ObjectClass::PublicKey),
        KeyAttribute::KeyType(CKK_EC_SLIP10),
        KeyAttribute::Token(true),
        KeyAttribute::Derive(true),
        KeyAttribute::Verify(true),
        KeyAttribute::EcParams(vstd::slice::slice_to_vec(SECP256K1_OID.as_slice())),
        KeyAttribute::Label(sibling.as_str().as_bytes_vec()),
    ];
    assert(template_view(template@) =~= master_public_attributes(label@));
    template
}

/// The template of a master private key labelled `label`.
pub fn master_private_template(label: &str) -> (template: Vec<KeyAttribute>)
    ensures
        template_view(template@) == master_private_attributes(label@),
{
    let template = vec![
        KeyAttribute::Class(ObjectClass::PrivateKey),
        KeyAttribute::KeyType(CKK_EC_SLIP10),
        KeyAttribute::Token(true),
        KeyAttribute::Derive(true),
        KeyAttribute::Sign(true),
        KeyAttribute::Sensitive(true),
        KeyAttribute::Extractable(false),
        KeyAttribute::Label(label.as_bytes_vec()),
    ];
    assert(template_view(template@) =~= master_private_attributes(label@));
    template
}

/// The template of a derived public key.
pub fn child_public_template() -> (template: Vec<KeyAttribute>)
    ensures
        template_view(template@) == child_public_attributes(),
{
    let template = vec![
        KeyAttribute::Token(false),
        KeyAttribute::Derive(true),
        KeyAttribute::Verify(true),
    ];
    assert(template_view(template@) =~= child_public_attributes());
    template
}

/// The template of a derived private key.
pub fn child_private_template() -> (template: Vec<KeyAttribute>)
    ensures
        template_view(template@) == child_private_attributes(),
{
    let template = vec![
        KeyAttribute::Token(false),
        KeyAttribute::Derive(true),
        KeyAttribute::Sign(true),
        KeyAttribute::Sensitive(true),
        KeyAttribute::Extractable(false),
    ];
    assert(template_view(template@) =~= child_private_attributes());
    template
}

/// The search for the public key labelled `label`.
pub fn public_key_search_template(label: &str) -> (template: Vec<KeyAttribute>)
    ensures
        template_view(template@) == public_key_search(label@),
{
    let template = vec![
        KeyAttribute::Class(ObjectClass::PublicKey),
        KeyAttribute::Label(label.as_bytes_vec()),
    ];
    assert(template_view(template@) =~= public_key_search(label@));
    template
}

/// An attribute that the HSM reports of an object.
#[derive(Debug)]
pub enum ObjectAttribute {
    /// `CKA_EC_POINT`.
    EcPoint(Vec<u8>),
    /// `CKA_LABEL`.
    Label(Vec<u8>),
    /// A vendor-defined attribute.
    Vendor {
        /// The attribute's type code.
        code: u64,
        /// Its value.
        value: Vec<u8>,
    },
    /// Any other attribute.
    Other,
}

impl ObjectAttribute {
    /// The value, where this is an EC point.
    pub open spec fn ec_point(self) -> Option<Seq<u8>> {
        match self {
            ObjectAttribute::EcPoint(value) => Some(value@),
            _ => None,
        }
    }

    /// The value, where this is a label.
    pub open spec fn label(self) -> Option<Seq<u8>> {
        match self {
            ObjectAttribute::Label(value) => Some(value@),
            _ => None,
        }
    }

    /// The value, where this is the vendor attribute `wanted`.
    pub open spec fn vendor(self, wanted: u64) -> Option<Seq<u8>> {
        match self {
            ObjectAttribute::Vendor { code, value } => if code == wanted {
                Some(value@)
            } else {
                None
            },
            _ => None,
        }
    }
}

/// Whether `attribute` is the vendor attribute `wanted`.
pub open spec fn is_vendor(attribute: ObjectAttribute, wanted: u64) -> bool {
    attribute is Vendor && attribute->code == wanted
}

/// The first value that `pick` finds among `attributes`.
pub open spec fn first_value(
    attributes: Seq<ObjectAttribute>,
    pick: spec_fn(ObjectAttribute) -> Option<Seq<u8>>,
) -> Option<Seq<u8>>
    decreases attributes.len(),
{
    if attributes.len() == 0 {
        None
    } else if pick(attributes[0]) is Some {
        pick(attributes[0])
    } else {
        first_value(attributes.drop_first(), pick)
    }
}

/// The first EC point among `attributes`.
pub fn get_ec_point<'a>(attributes: &'a [ObjectAttribute]) -> (value: Result<
    &'a [u8],
    HsmBackendError,
>)
    ensures
        match first_value(attributes@, |a: ObjectAttribute| a.ec_point()) {
            Some(bytes) => value matches Ok(value) && value@ == bytes,
            None => value matches Err(e) && e@ == HsmBackendErrorView::MetadataError(
                "missing CKA_EC_POINT"@,
            ),
        },
        forall|k: int|
            0 <= k < attributes@.len() && ((#[trigger] attributes@[k]) is EcPoint) && (forall|j: int|
                0 <= j < k ==> !((#[trigger] attributes@[j]) is EcPoint)) ==> (value matches Ok(value) && value@ == attributes@[k]->EcPoint_0@),
        (forall|j: int| 0 <= j < attributes@.len() ==> !((#[trigger] attributes@[j]) is EcPoint)) ==> value is Err,
{
    let ghost pick = |a: ObjectAttribute| a.ec_point();
    let mut i: usize = 0;
    assert(attributes@.skip(0) =~= attributes@);
    while i < attributes.len()
        invariant
            i <= attributes@.len(),
            pick == (|a: ObjectAttribute| a.ec_point()),
            forall|j: int| 0 <= j < i ==> !((#[trigger] attributes@[j]) is EcPoint),
            first_value(attributes@, pick) == first_value(attributes@.skip(i as int), pick),
        decreases attributes@.len() - i,
    {
        assert(attributes@.skip(i as int).drop_first() =~= attributes@.skip(i + 1));
        if let ObjectAttribute::EcPoint(value) = &attributes[i] {
            return Ok(value.as_slice());
        }
        i = i + 1;
    }
    Err(HsmBackendError::MetadataError("missing CKA_EC_POINT".to_owned()))
}

/// The first vendor attribute `wanted` among `attributes`.
pub fn get_vendor<'a>(attributes: &'a [ObjectAttribute], wanted: u64) -> (value: Result<
    &'a [u8],
    HsmBackendError,
>)
    ensures
        match first_value(attributes@, |a: ObjectAttribute| a.vendor(wanted)) {
            Some(bytes) => value matches Ok(value) && value@ == bytes,
            None => value matches Err(e) && e@ == HsmBackendErrorView::MetadataError(
                "missing vendor attr 0x"@ + hexadecimal(wanted as nat),
            ),
        },
        forall|k: int|
            0 <= k < attributes@.len() && is_vendor(#[trigger] attributes@[k], wanted) && (forall|
                j: int,
            |
                0 <= j < k ==> !is_vendor(#[trigger] attributes@[j], wanted)) ==> (value matches Ok(
                value,
            ) && value@ == attributes@[k]->value@),
        (forall|j: int| 0 <= j < attributes@.len() ==> !is_vendor(#[trigger] attributes@[j], wanted))
            ==> value is Err,
{
    let ghost pick = |a: ObjectAttribute| a.vendor(wanted);
    let mut i: usize = 0;
    assert(attributes@.skip(0) =~= attributes@);
    while i < attributes.len()
        invariant
            i <= attributes@.len(),
            pick == (|a: ObjectAttribute| a.vendor(wanted)),
            forall|j: int| 0 <= j < i ==> !is_vendor(#[trigger] attributes@[j], wanted),
            first_value(attributes@, pick) == first_value(attributes@.skip(i as int), pick),
        decreases attributes@.len() - i,
    {
        assert(attributes@.skip(i as int).drop_first() =~= attributes@.skip(i + 1));
        if let ObjectAttribute::Vendor { code, value } = &attributes[i] {
            if *code == wanted {
                return Ok(value.as_slice());
            }
        }
        i = i + 1;
    }
    let mut reason = "missing vendor attr 0x".to_owned();
    reason.append(hexadecimal_of(wanted).as_str());
    Err(HsmBackendError::MetadataError(reason))
}

/// The first label among `attributes`, as text.
pub fn read_label(attributes: &[ObjectAttribute]) -> (label: Result<String, HsmBackendError>)
    ensures
        match first_value(attributes@, |a: ObjectAttribute| a.label()) {
            Some(bytes) => label matches Ok(label) && label@ == text_of_bytes(bytes),
            None => label matches Err(e) && e@ == HsmBackendErrorView::MetadataError(
                "missing CKA_LABEL"@,
            ),
        },
        forall|k: int|
            0 <= k < attributes@.len() && ((#[trigger] attributes@[k]) is Label) && (forall|j: int|
                0 <= j < k ==> !((#[trigger] attributes@[j]) is Label)) ==> (label matches Ok(label) && label@ == text_of_bytes(attributes@[k]->Label_0@)),
        (forall|j: int| 0 <= j < attributes@.len() ==> !((#[trigger] attributes@[j]) is Label)) ==> label is Err,
{
    let ghost pick = |a: ObjectAttribute| a.label();
    let mut i: usize = 0;
    assert(attributes@.skip(0) =~= attributes@);
    while i < attributes.len()
        invariant
            i <= attributes@.len(),
            pick == (|a: ObjectAttribute| a.label()),
            forall|j: int| 0 <= j < i ==> !((#[trigger] attributes@[j]) is Label),
            first_value(attributes@, pick) == first_value(attributes@.skip(i as int), pick),
        decreases attributes@.len() - i,
    {
        assert(attributes@.skip(i as int).drop_first() =~= attributes@.skip(i + 1));
        if let ObjectAttribute::Label(value) = &attributes[i] {
            return Ok(text_from_bytes(value.as_slice()));
        }
        i = i + 1;
    }
    Err(HsmBackendError::MetadataError("missing CKA_LABEL".to_owned()))
}

/// A private label `<base>/priv` has the sibling `<base>/pub`.
pub proof fn law_sibling_replaces_suffix(base: Seq<char>)
    ensures
        pub_sibling(base + "/priv"@) == base + "/pub"@,
{
    let label = base + "/priv"@;
    assert(label.skip(label.len() - "/priv"@.len()) =~= "/priv"@);
    assert(label.take(label.len() - "/priv"@.len()) =~= base);
}

/// The label of an emvault master, `emvault.v1.<name>.priv`, has the sibling
/// `emvault.v1.<name>.pub`, whatever the name.
pub proof fn law_sibling_of_emvault_master(name: Seq<char>)
    ensures
        pub_sibling("emvault.v1."@ + name + ".priv"@) == "emvault.v1."@ + name + ".pub"@,
{
    reveal_strlit("/priv");
    reveal_strlit(".priv");
    let base = "emvault.v1."@ + name;
    let label = base + ".priv"@;
    assert(label.skip(label.len() - ".priv"@.len()) =~= ".priv"@);
    assert(label.take(label.len() - ".priv"@.len()) =~= base);
    assert(label[label.len() - 5] == '.');
    assert(!ends_with(label, "/priv"@)) by {
        assert(label.skip(label.len() - 5)[0] == '.');
        assert("/priv"@[0] == '/');
    }
    assert(base.subrange(0, "emvault.v1."@.len() as int) =~= "emvault.v1."@);
}

/// A private label of neither form keeps all of its text in its sibling's label.
pub proof fn law_sibling_appends_suffix(label: Seq<char>)
    requires
        !ends_with(label, "/priv"@),
        !is_master_label(label),
    ensures
        pub_sibling(label) == label + "/pub"@,
{
}

/// The public key of a master can be found again by the label of its private
/// key: the label that the private object was created with, read back and
/// mapped to its sibling, is the one that the public object was created with.
pub proof fn law_reloaded_master_finds_its_public_key(label: Seq<char>)
    ensures
        master_private_attributes(label).contains(
            KeyAttributeView::Label(vstd::utf8::encode_utf8(label)),
        ),
        forall|i: int|
            #![trigger public_key_search(pub_sibling(text_of_bytes(vstd::utf8::encode_utf8(label))))[i]]
            0 <= i < 2 ==> master_public_attributes(label).contains(
                public_key_search(pub_sibling(text_of_bytes(vstd::utf8::encode_utf8(label))))[i],
            ),
{
    broadcast use vstd::utf8::encode_utf8_valid_utf8;

    vstd::utf8::encode_utf8_decode_utf8(label);
    assert(master_private_attributes(label)[7] == KeyAttributeView::Label(
        vstd::utf8::encode_utf8(label),
    ));
    let search = public_key_search(pub_sibling(text_of_bytes(vstd::utf8::encode_utf8(label))));
    assert(search[0] == master_public_attributes(label)[0]);
    assert(search[1] == master_public_attributes(label)[6]);
}

/// No private key, master or derived, can leave the device: it is created
/// sensitive and not extractable.
pub proof fn law_private_keys_stay_inside(label: Seq<char>)
    ensures
        master_private_attributes(label).contains(KeyAttributeView::Sensitive(true)),
        master_private_attributes(label).contains(KeyAttributeView::Extractable(false)),
        !master_private_attributes(label).contains(KeyAttributeView::Sensitive(false)),
        !master_private_attributes(label).contains(KeyAttributeView::Extractable(true)),
        child_private_attributes().contains(KeyAttributeView::Sensitive(true)),
        child_private_attributes().contains(KeyAttributeView::Extractable(false)),
        !child_private_attributes().contains(KeyAttributeView::Sensitive(false)),
        !child_private_attributes().contains(KeyAttributeView::Extractable(true)),
{
    assert(master_private_attributes(label)[5] == KeyAttributeView::Sensitive(true));
    assert(master_private_attributes(label)[6] == KeyAttributeView::Extractable(false));
    assert(child_private_attributes()[3] == KeyAttributeView::Sensitive(true));
    assert(child_private_attributes()[4] == KeyAttributeView::Extractable(false));
}

/// Masters are kept on the token, derived keys live in the session; and every
/// private key can both derive and sign, so that a derived handle serves as an
/// account's parent or as a leaf's signer.
pub proof fn law_key_roles(label: Seq<char>)
    ensures
        master_public_attributes(label).contains(KeyAttributeView::Token(true)),
        master_private_attributes(label).contains(KeyAttributeView::Token(true)),
        child_public_attributes().contains(KeyAttributeView::Token(false)),
        child_private_attributes().contains(KeyAttributeView::Token(false)),
        master_private_attributes(label).contains(KeyAttributeView::Derive(true)),
        master_private_attributes(label).contains(KeyAttributeView::Sign(true)),
        child_private_attributes().contains(KeyAttributeView::Derive(true)),
        child_private_attributes().contains(KeyAttributeView::Sign(true)),
{
    assert(master_public_attributes(label)[2] == KeyAttributeView::Token(true));
    assert(master_private_attributes(label)[2] == KeyAttributeView::Token(true));
    assert(child_public_attributes()[0] == KeyAttributeView::Token(false));
    assert(child_private_attributes()[0] == KeyAttributeView::Token(false));
    assert(master_private_attributes(label)[3] == KeyAttributeView::Derive(true));
    assert(master_private_attributes(label)[4] == KeyAttributeView::Sign(true));
    assert(child_private_attributes()[1] == KeyAttributeView::Derive(true));
    assert(child_private_attributes()[2] == KeyAttributeView::Sign(true));
}

/// The view of a template holds its attributes in order, each of the same kind
/// and with the same value.
pub proof fn law_template_is_seen_whole(template: Seq<KeyAttribute>, i: int)
    requires
        0 <= i < template.len(),
    ensures
        template_view(template).len() == template.len(),
        match template[i] {
            KeyAttribute::Class(class) => template_view(template)[i] == KeyAttributeView::Class(
                class,
            ),
            KeyAttribute::KeyType(code) => template_view(template)[i] == KeyAttributeView::KeyType(
                code,
            ),
            KeyAttribute::Token(set) => template_view(template)[i] == KeyAttributeView::Token(set),
            KeyAttribute::Derive(set) => template_view(template)[i] == KeyAttributeView::Derive(set),
            KeyAttribute::Verify(set) => template_view(template)[i] == KeyAttributeView::Verify(set),
            KeyAttribute::Sign(set) => template_view(template)[i] == KeyAttributeView::Sign(set),
            KeyAttribute::Sensitive(set) => template_view(template)[i]
                == KeyAttributeView::Sensitive(set),
            KeyAttribute::Extractable(set) => template_view(template)[i]
                == KeyAttributeView::Extractable(set),
            KeyAttribute::EcParams(bytes) => template_view(template)[i]
                == KeyAttributeView::EcParams(bytes@),
            KeyAttribute::Label(bytes) => template_view(template)[i] == KeyAttributeView::Label(
                bytes@,
            ),
        },
{
}

/// A label is that of an emvault master exactly where a name stands between
/// `emvault.v1.` and `.priv`.
pub proof fn law_master_labels(label: Seq<char>, name: Seq<char>)
    ensures
        is_master_label("emvault.v1."@ + name + ".priv"@),
        is_master_label(label) ==> exists|inner: Seq<char>|
            label == "emvault.v1."@ + inner + ".priv"@,
{
    let base = "emvault.v1."@ + name;
    law_ends_with(base, ".priv"@, label);
    assert((base + ".priv"@).take((base + ".priv"@).len() - ".priv"@.len()) =~= base);
    assert(base.subrange(0, "emvault.v1."@.len() as int) =~= "emvault.v1."@);
    if is_master_label(label) {
        let front = label.take(label.len() - ".priv"@.len());
        let inner = front.skip("emvault.v1."@.len() as int);
        assert(front =~= "emvault.v1."@ + inner);
        assert(label == "emvault.v1."@ + inner + ".priv"@);
    }
}

/// Whatever its label, a master's public key is a verifying, deriving SLIP-10
/// key on secp256k1 that is kept on the token under its sibling label, and its
/// template says each of these once and nothing else.
pub proof fn law_master_public_key(label: Seq<char>)
    ensures
        master_public_attributes(label).len() == 7,
        forall|a: KeyAttributeView| #[trigger]
            master_public_attributes(label).contains(a) <==> match a {
                KeyAttributeView::Class(class) => class == ObjectClass::PublicKey,
                KeyAttributeView::KeyType(code) => code == 0x8000_0014,
                KeyAttributeView::Token(set) => set,
                KeyAttributeView::Derive(set) => set,
                KeyAttributeView::Verify(set) => set,
                KeyAttributeView::EcParams(oid) => oid == seq![
                    0x06u8,
                    0x05u8,
                    0x2Bu8,
                    0x81u8,
                    0x04u8,
                    0x00u8,
                    0x0Au8,
                ],
                KeyAttributeView::Label(bytes) => bytes == vstd::utf8::encode_utf8(
                    pub_sibling(label),
                ),
                _ => false,
            },
{
    let all = master_public_attributes(label);
    assert(SECP256K1_OID@ =~= seq![0x06u8, 0x05u8, 0x2Bu8, 0x81u8, 0x04u8, 0x00u8, 0x0Au8]);
    assert(all[0] == KeyAttributeView::Class(ObjectClass::PublicKey));
    assert(all[1] == KeyAttributeView::KeyType(0x8000_0014));
    assert(all[2] == KeyAttributeView::Token(true));
    assert(all[3] == KeyAttributeView::Derive(true));
    assert(all[4] == KeyAttributeView::Verify(true));
    assert(all[5] == KeyAttributeView::EcParams(SECP256K1_OID@));
    assert(all[6] == KeyAttributeView::Label(vstd::utf8::encode_utf8(pub_sibling(label))));
}

/// Whatever its label, a master's private key is a signing, deriving SLIP-10
/// key that is kept on the token under that label and does not leave the
/// device, and its template says each of these once and nothing else.
pub proof fn law_master_private_key(label: Seq<char>)
    ensures
        master_private_attributes(label).len() == 8,
        forall|a: KeyAttributeView| #[trigger]
            master_private_attributes(label).contains(a) <==> match a {
                KeyAttributeView::Class(class) => class == ObjectClass::PrivateKey,
                KeyAttributeView::KeyType(code) => code == 0x8000_0014,
                KeyAttributeView::Token(set) => set,
                KeyAttributeView::Derive(set) => set,
                KeyAttributeView::Sign(set) => set,
                KeyAttributeView::Sensitive(set) => set,
                KeyAttributeView::Extractable(set) => !set,
                KeyAttributeView::Label(bytes) => bytes == vstd::utf8::encode_utf8(label),
                _ => false,
            },
{
    let all = master_private_attributes(label);
    assert(all[0] == KeyAttributeView::Class(ObjectClass::PrivateKey));
    assert(all[1] == KeyAttributeView::KeyType(0x8000_0014));
    assert(all[2] == KeyAttributeView::Token(true));
    assert(all[3] == KeyAttributeView::Derive(true));
    assert(all[4] == KeyAttributeView::Sign(true));
    assert(all[5] == KeyAttributeView::Sensitive(true));
    assert(all[6] == KeyAttributeView::Extractable(false));
    assert(all[7] == KeyAttributeView::Label(vstd::utf8::encode_utf8(label)));
}

/// Derived keys are session objects that derive; the public one verifies, the
/// private one signs and does not leave the device; nothing else is said.
pub proof fn law_derived_keys()
    ensures
        child_public_attributes().len() == 3,
        child_private_attributes().len() == 5,
        forall|a: KeyAttributeView| #[trigger]
            child_public_attributes().contains(a) <==> match a {
                KeyAttributeView::Token(set) => !set,
                KeyAttributeView::Derive(set) => set,
                KeyAttributeView::Verify(set) => set,
                _ => false,
            },
        forall|a: KeyAttributeView| #[trigger]
            child_private_attributes().contains(a) <==> match a {
                KeyAttributeView::Token(set) => !set,
                KeyAttributeView::Derive(set) => set,
                KeyAttributeView::Sign(set) => set,
                KeyAttributeView::Sensitive(set) => set,
                KeyAttributeView::Extractable(set) => !set,
                _ => false,
            },
{
    let public = child_public_attributes();
    assert(public[0] == KeyAttributeView::Token(false));
    assert(public[1] == KeyAttributeView::Derive(true));
    assert(public[2] == KeyAttributeView::Verify(true));
    let private = child_private_attributes();
    assert(private[0] == KeyAttributeView::Token(false));
    assert(private[1] == KeyAttributeView::Derive(true));
    assert(private[2] == KeyAttributeView::Sign(true));
    assert(private[3] == KeyAttributeView::Sensitive(true));
    assert(private[4] == KeyAttributeView::Extractable(false));
}

/// Whatever the label, the search asks for a public key of exactly that label.
pub proof fn law_search_is_for_the_label(label: Seq<char>)
    ensures
        public_key_search(label).len() == 2,
        forall|a: KeyAttributeView| #[trigger]
            public_key_search(label).contains(a) <==> match a {
                KeyAttributeView::Class(class) => class == ObjectClass::PublicKey,
                KeyAttributeView::Label(bytes) => bytes == vstd::utf8::encode_utf8(label),
                _ => false,
            },
{
    let all = public_key_search(label);
    assert(all[0] == KeyAttributeView::Class(ObjectClass::PublicKey));
    assert(all[1] == KeyAttributeView::Label(vstd::utf8::encode_utf8(label)));
}

/// An attribute's value is taken whole, and only by who asks for its kind, and
/// for its code where it is a vendor's.
pub proof fn law_values_are_taken_whole(bytes: Vec<u8>, code: u64, wanted: u64)
    ensures
        ObjectAttribute::EcPoint(bytes).ec_point() == Some(bytes@),
        ObjectAttribute::EcPoint(bytes).label() is None,
        ObjectAttribute::EcPoint(bytes).vendor(wanted) is None,
        ObjectAttribute::Label(bytes).label() == Some(bytes@),
        ObjectAttribute::Label(bytes).ec_point() is None,
        ObjectAttribute::Label(bytes).vendor(wanted) is None,
        (ObjectAttribute::Vendor { code, value: bytes }).ec_point() is None,
        (ObjectAttribute::Vendor { code, value: bytes }).label() is None,
        code == wanted ==> (ObjectAttribute::Vendor { code, value: bytes }).vendor(wanted) == Some(
            bytes@,
        ),
        code != wanted ==> (ObjectAttribute::Vendor { code, value: bytes }).vendor(wanted) is None,
        ObjectAttribute::Other.ec_point() is None,
        ObjectAttribute::Other.label() is None,
        ObjectAttribute::Other.vendor(wanted) is None,
{
}

/// Among several attributes, the first that has a value gives it, and it is that value.
pub proof fn law_first_value_counts(
    attributes: Seq<ObjectAttribute>,
    pick: spec_fn(ObjectAttribute) -> Option<Seq<u8>>,
    k: int,
)
    requires
        0 <= k < attributes.len(),
        pick(attributes[k]) is Some,
        forall|j: int| 0 <= j < k ==> pick(#[trigger] attributes[j]) is None,
    ensures
        first_value(attributes, pick) == pick(attributes[k]),
    decreases k,
{
    if k > 0 {
        let rest = attributes.drop_first();
        assert forall|j: int| 0 <= j < k - 1 implies pick(#[trigger] rest[j]) is None by {
            assert(rest[j] == attributes[j + 1]);
        }
        assert(pick(attributes[0]) is None);
        law_first_value_counts(rest, pick, k - 1);
    }
}

/// Where no attribute has a value, there is none.
pub proof fn law_no_value(
    attributes: Seq<ObjectAttribute>,
    pick: spec_fn(ObjectAttribute) -> Option<Seq<u8>>,
)
    requires
        forall|j: int| 0 <= j < attributes.len() ==> pick(#[trigger] attributes[j]) is None,
    ensures
        first_value(attributes, pick) is None,
    decreases attributes.len(),
{
    if attributes.len() > 0 {
        let rest = attributes.drop_first();
        assert forall|j: int| 0 <= j < rest.len() implies pick(#[trigger] rest[j]) is None by {
            assert(rest[j] == attributes[j + 1]);
        }
        assert(pick(attributes[0]) is None);
        law_no_value(rest, pick);
    }
}

/// Whether an attribute is a vendor's does not depend on its value.
pub proof fn law_vendor_attributes(bytes: Vec<u8>, code: u64, wanted: u64)
    ensures
        is_vendor(ObjectAttribute::Vendor { code, value: bytes }, wanted) <==> code == wanted,
        !is_vendor(ObjectAttribute::EcPoint(bytes), wanted),
        !is_vendor(ObjectAttribute::Label(bytes), wanted),
        !is_vendor(ObjectAttribute::Other, wanted),
{
}

/// The first EC point among the attributes is read byte for byte, whatever
/// stands before and behind it.
pub proof fn law_first_ec_point_is_read(attributes: Seq<ObjectAttribute>, k: int)
    requires
        0 <= k < attributes.len(),
        attributes[k] is EcPoint,
        forall|j: int| 0 <= j < k ==> !((#[trigger] attributes[j]) is EcPoint),
    ensures
        first_value(attributes, |a: ObjectAttribute| a.ec_point()) == Some(
            attributes[k]->EcPoint_0@,
        ),
{
    law_first_value_counts(attributes, |a: ObjectAttribute| a.ec_point(), k);
}

/// The first label among the attributes is read byte for byte.
pub proof fn law_first_label_is_read(attributes: Seq<ObjectAttribute>, k: int)
    requires
        0 <= k < attributes.len(),
        attributes[k] is Label,
        forall|j: int| 0 <= j < k ==> !((#[trigger] attributes[j]) is Label),
    ensures
        first_value(attributes, |a: ObjectAttribute| a.label()) == Some(attributes[k]->Label_0@),
{
    law_first_value_counts(attributes, |a: ObjectAttribute| a.label(), k);
}

/// The first vendor attribute of the wanted code is read byte for byte.
pub proof fn law_first_vendor_value_is_read(attributes: Seq<ObjectAttribute>, wanted: u64, k: int)
    requires
        0 <= k < attributes.len(),
        attributes[k] is Vendor,
        attributes[k]->code == wanted,
        forall|j: int|
            0 <= j < k ==> !((#[trigger] attributes[j]) is Vendor && attributes[j]->code == wanted),
    ensures
        first_value(attributes, |a: ObjectAttribute| a.vendor(wanted)) == Some(
            attributes[k]->value@,
        ),
{
    law_first_value_counts(attributes, |a: ObjectAttribute| a.vendor(wanted), k);
}

} // verus!
