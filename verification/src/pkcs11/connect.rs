//! A ready-to-use PKCS#11 configuration pointed at a Securosys `CloudHSM`, and
//! the registrar that lets Securosys co-sign in a mixed-vendor fleet.
use crate::bip32::ChildNumber;
use crate::config::{SecurosysConfig, SlotIdentifier};
use crate::error::SecurosysError;
use crate::pkcs11::backend::SecurosysBackend;
use crate::pkcs11::pub_map::PairLog;
use crate::secret::Secret;
use vstd::prelude::*;

verus! {

/// What a PKCS#11 signer is opened with.
pub struct Pkcs11Config {
    /// Filesystem path to the PKCS#11 library.
    pub library_path: String,
    /// The token.
    pub slot: SlotIdentifier,
    /// The user password.
    pub pin: Secret,
    /// The signer's BIP-32 derivation path.
    pub derivation_path: Vec<ChildNumber>,
    /// The backend.
    pub backend: SecurosysBackend,
}

/// The fleet's maker of Securosys backends.
#[derive(Clone, Copy, Debug)]
pub struct SecurosysRegistrar {}

impl SecurosysRegistrar {
    /// The backend of a fleet member whose provider library is at `library_path`.
    pub fn backend(&self, library_path: &str) -> (backend: SecurosysBackend)
        ensures
            backend.library() == library_path@,
            backend.pairs() == PairLog::empty(),
            backend.wf(),
    {
        SecurosysBackend::new(library_path)
    }
}

/// The registry entry of Securosys: the vendor tag and the registrar.
pub fn securosys_registrar() -> (entry: (&'static str, SecurosysRegistrar))
    ensures
        entry.0@ == "securosys"@,
{
    ("securosys", SecurosysRegistrar {  })
}

/// Turn a [`SecurosysConfig`] into a [`Pkcs11Config`] whose backend is the
/// Securosys one and loads the vendor entry points from the same library.
pub fn pkcs11_config(cfg: SecurosysConfig) -> (config: Result<Pkcs11Config, SecurosysError>)
    ensures
        config matches Ok(config) && config.library_path@ == cfg.library_path@ && config.slot
            == cfg.slot && config.pin == cfg.pin && config.derivation_path == cfg.derivation_path
            && config.backend.library() == cfg.library_path@ && config.backend.pairs()
            == PairLog::empty() && config.backend.wf(),
{
    let backend = SecurosysBackend::new(cfg.library_path.as_str());
    Ok(
        Pkcs11Config {
            library_path: cfg.library_path,
            slot: cfg.slot,
            pin: cfg.pin,
            derivation_path: cfg.derivation_path,
            backend,
        },
    )
}

} // verus!
