//! What the test utilities for IDkg and canister threshold signatures decide
//! and compute: who deals and who receives, which receivers a test picks, and
//! how signatures and other binary data are corrupted.
pub mod types;
pub mod participants;
pub mod selection;
pub mod corrupt;
mod rng;
