//! Private keys of the NIST P-256 curve for ECDSA signing with public-key
//! recovery: validated construction from bytes or hex text, public-key
//! derivation, deterministic recoverable signing and erasable secret export.

pub mod error;
pub mod scalar;
pub mod erasable;
pub mod hex;
pub mod engine;
pub mod signature;
pub mod public;
pub mod private;
pub mod laws;

pub use erasable::ErasableBytes;
pub use error::KeyPairError;
pub use private::PrivateKey;
pub use public::PublicKey;
pub use signature::Signature;
