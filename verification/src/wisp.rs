//! The Wisp wire protocol.

pub mod error;
pub mod packet;
