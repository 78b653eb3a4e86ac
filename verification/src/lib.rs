//! Securosys `CloudHSM` connector: the decisions, encodings and checks behind
//! the PKCS#11 (Primus provider) and TSB (REST) transports.
pub mod bip32;
pub mod config;
pub mod error;
pub mod keys;
pub mod pkcs11;
pub mod secret;
pub mod text;
pub mod tsb;

pub use config::SecurosysConfig;
pub use error::{HsmBackendError, SecurosysError};
pub use pkcs11::{pkcs11_config, SecurosysBackend};
pub use secret::Secret;
pub use tsb::{JwtProvider, SecurosysTaprootSigner, StaticJwt, TsbClient, TsbError};
