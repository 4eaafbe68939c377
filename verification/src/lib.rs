//! Governance data of the Network Nervous System, and the decisions and
//! byte corruptions that the canister threshold signature test utilities make.
pub mod content;
pub mod ids;
pub mod nervous_system;
pub mod sns_swap;
pub mod pb;
pub mod canister_threshold_sigs;
