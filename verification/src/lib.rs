//! Normalization of noisy, localized artifact text into typed records:
//! stat-line parsing, nearest-name correction over a closed corpus of
//! canonical names, set/slot classification, and assembly of the
//! resulting artifact record.

pub mod artifact;
pub mod classify;
pub mod corpus;
pub mod corrector;
pub mod number;
pub mod stat;
pub mod text;
