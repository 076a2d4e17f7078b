//! Canonical stack frames for crash reports, built from language-specific
//! raw frames, and content fingerprints of those raw frames.

pub mod fingerprint;
pub mod frames;
pub mod node;
