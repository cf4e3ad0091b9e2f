//! Networking.

pub mod socket;
pub mod tcp;
pub mod udp;
