//! Attestation core: validation, metrics, identity commitments, record
//! assembly and the canonical byte layout of attestation records.

pub mod assemble;
pub mod bytes;
pub mod codec;
pub mod commitment;
pub mod decimal;
pub mod hex_text;
pub mod metrics;
pub mod model;
pub mod service;
pub mod validate;
