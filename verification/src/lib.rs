//! Renewal of a bearer API key that is kept obfuscated at rest.
//!
//! The stored form of a key is the standard base64 text of its UTF-8 bytes,
//! each combined with one fixed, publicly known byte. This hides the key from
//! a casual glance and from nothing else: whoever holds the stored text
//! recovers the key.

pub mod codec;
pub mod error;
pub mod flow;
pub mod renewal;

pub use codec::{decrypt_api_key, encrypt_api_key};
