//! Transaction Security Broker (REST) transport: BIP-340 Schnorr for Taproot.
//!
//! Schnorr signing is offered by the TSB REST API alone. Derivation is
//! server-side and temporary: a sign request names the key as
//! `"<master label>/<bip32 path>"`, and TSB derives the SLIP-10 child on the fly.
pub mod client;
pub mod codec;
pub mod error;
pub mod jwt;
pub mod request;
pub mod signer;

pub use client::{schnorr_from_bytes, TsbClient};
pub use error::TsbError;
pub use jwt::{JwtProvider, StaticJwt};
pub use signer::{SecurosysTaprootSigner, TSB_JWT_ENV, TSB_URL_ENV};
