//! Error types of the connector.
use crate::text::join3;
use vstd::prelude::*;

verus! {

/// Errors produced while configuring a Securosys `CloudHSM` connection.
#[derive(Debug)]
pub enum SecurosysError {
    /// A required configuration value was missing from the environment.
    MissingConfig(String),
    /// A configuration value was present but malformed.
    InvalidConfig {
        /// The offending config key.
        key: String,
        /// Why it was rejected.
        reason: String,
    },
    /// What the PKCS#11 signer said while building the config or the signer.
    Pkcs11(String),
    /// Why a BIP-32 derivation path was rejected.
    DerivationPath(String),
}

/// A [`SecurosysError`] with its texts as character sequences.
pub enum SecurosysErrorView {
    MissingConfig(Seq<char>),
    InvalidConfig { key: Seq<char>, reason: Seq<char> },
    Pkcs11(Seq<char>),
    DerivationPath(Seq<char>),
}

impl View for SecurosysError {
    type V = SecurosysErrorView;

    open spec fn view(&self) -> SecurosysErrorView {
        match *self {
            SecurosysError::MissingConfig(name) => SecurosysErrorView::MissingConfig(name@),
            SecurosysError::InvalidConfig { key, reason } => SecurosysErrorView::InvalidConfig {
                key: key@,
                reason: reason@,
            },
            SecurosysError::Pkcs11(reason) => SecurosysErrorView::Pkcs11(reason@),
            SecurosysError::DerivationPath(reason) => SecurosysErrorView::DerivationPath(reason@),
        }
    }
}

impl SecurosysErrorView {
    /// What the error reads.
    pub open spec fn message(self) -> Seq<char> {
        match self {
            SecurosysErrorView::MissingConfig(name) => "missing Securosys config: "@ + name,
            SecurosysErrorView::InvalidConfig { key, reason } => "invalid Securosys config for `"@
                + key + "`: "@ + reason,
            SecurosysErrorView::Pkcs11(reason) => reason,
            SecurosysErrorView::DerivationPath(reason) => "invalid derivation path: "@ + reason,
        }
    }
}

impl SecurosysError {
    /// What the error reads.
    pub fn message(&self) -> (text: String)
        ensures
            text@ == self@.message(),
    {
        match self {
            SecurosysError::MissingConfig(name) => {
                let mut text = "missing Securosys config: ".to_owned();
                text.append(name.as_str());
                text
            },
            SecurosysError::InvalidConfig { key, reason } => {
                let mut text = join3("invalid Securosys config for `", key.as_str(), "`: ");
                text.append(reason.as_str());
                text
            },
            SecurosysError::Pkcs11(reason) => reason.clone(),
            SecurosysError::DerivationPath(reason) => {
                let mut text = "invalid derivation path: ".to_owned();
                text.append(reason.as_str());
                text
            },
        }
    }
}

/// Errors of the HSM backend that this connector raises.
#[derive(Debug)]
pub enum HsmBackendError {
    /// Key generation or derivation failed.
    Derivation(String),
    /// A key's metadata is missing or malformed.
    MetadataError(String),
    /// Signing failed.
    Signing(String),
}

/// An [`HsmBackendError`] with its text as a character sequence.
pub enum HsmBackendErrorView {
    Derivation(Seq<char>),
    MetadataError(Seq<char>),
    Signing(Seq<char>),
}

impl View for HsmBackendError {
    type V = HsmBackendErrorView;

    open spec fn view(&self) -> HsmBackendErrorView {
        match *self {
            HsmBackendError::Derivation(reason) => HsmBackendErrorView::Derivation(reason@),
            HsmBackendError::MetadataError(reason) => HsmBackendErrorView::MetadataError(reason@),
            HsmBackendError::Signing(reason) => HsmBackendErrorView::Signing(reason@),
        }
    }
}

/// The view of a configuration error is of the same variant and holds the same texts.
pub proof fn law_configuration_error_is_seen_whole(e: SecurosysError)
    ensures
        e is MissingConfig ==> e@ == SecurosysErrorView::MissingConfig(e->MissingConfig_0@),
        e is InvalidConfig ==> e@ is InvalidConfig && e@->key == e->key@ && e@->reason
            == e->reason@,
        e is Pkcs11 ==> e@ == SecurosysErrorView::Pkcs11(e->Pkcs11_0@),
        e is DerivationPath ==> e@ == SecurosysErrorView::DerivationPath(e->DerivationPath_0@),
{
}

/// A configuration error reads as what went wrong, followed by the text it holds.
pub proof fn law_configuration_error_message(text: Seq<char>, key: Seq<char>)
    ensures
        SecurosysErrorView::MissingConfig(text).message() == "missing Securosys config: "@ + text,
        (SecurosysErrorView::InvalidConfig { key, reason: text }).message()
            == "invalid Securosys config for `"@ + key + "`: "@ + text,
        SecurosysErrorView::Pkcs11(text).message() == text,
        SecurosysErrorView::DerivationPath(text).message() == "invalid derivation path: "@ + text,
{
}

/// The view of a backend error is of the same variant and holds the same text.
pub proof fn law_backend_error_is_seen_whole(e: HsmBackendError)
    ensures
        e is Derivation ==> e@ == HsmBackendErrorView::Derivation(e->Derivation_0@),
        e is MetadataError ==> e@ == HsmBackendErrorView::MetadataError(e->MetadataError_0@),
        e is Signing ==> e@ == HsmBackendErrorView::Signing(e->Signing_0@),
{
}

} // verus!
