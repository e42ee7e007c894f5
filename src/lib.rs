//! Zero-knowledge rewards proofs: a range proof that bounds a reward and a
//! linear proof that binds a private state vector to a public policy vector,
//! composed into one artifact and verified singly or in batch.

pub mod api;
pub mod arith;
pub mod binder;
pub mod codec;
pub mod crypto;
pub mod generators;
pub mod onchain;
pub mod subproofs;
