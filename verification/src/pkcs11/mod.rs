//! Native PKCS#11 (Primus provider) transport: ECDSA and SLIP-10 derivation.
pub mod backend;
pub mod connect;
pub mod pub_map;
pub mod template;
pub mod xpub_read;

pub use backend::SecurosysBackend;
pub use connect::{pkcs11_config, securosys_registrar};
pub use template::pub_sibling_label;
pub use xpub_read::XpubRead;
