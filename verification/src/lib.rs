//! Key-addressed storage for the artifacts of a multi-round proof pipeline.
//!
//! Two kinds of artifact exist: small, human-inspectable verification keys and
//! large binary prover setup bundles.  A logical identity (circuit type plus
//! aggregation round) is mapped by a pure resolver to a stable on-disk
//! location, and typed encode/decode guarantees that what is read back is
//! exactly what was written.  All file reading and writing happens outside
//! this crate; the functions here compute paths, encode artifacts to bytes,
//! and decide, from the bytes found at a resolved path, what a load returns.

pub mod codec;
pub mod frame;
pub mod hex;
pub mod keys;
pub mod paths;
pub mod rounds;
pub mod setup;
pub mod store;
