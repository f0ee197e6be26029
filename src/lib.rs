//! Credential transport and verification helpers for web services:
//! password decryption and peppered hashing, bearer-token lookup, and the
//! settings and request facts that the surrounding server reads.
pub mod config;
pub mod cors;
pub mod db;
pub mod metrics;
pub mod pw;
pub mod redirect;
pub mod text;
pub mod token;
pub mod xml;
