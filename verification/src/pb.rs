//! The governance messages, as the ProtoBuf definition gives them.
pub mod v1;
