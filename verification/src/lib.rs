//! A verified core for Python bindings over grit-lib: object ids, signatures
//! and parsed objects; references, ref-name validation and the guards on ref
//! writes; the bytes of new commit and tag objects; diffs and their
//! statistics; merge conflicts; checkout planning; config lookups; push and
//! fetch planning and reports; and the classification of every failure.

pub mod text;
pub mod error;
pub mod oid;
pub mod signature;
pub mod objects;
pub mod transport;
pub mod push;
pub mod remote;
pub mod refs;
pub mod repository;
pub mod diff;
pub mod merge;
pub mod revwalk;
pub mod config;
pub mod index;
pub mod checkout;
pub mod progress;
