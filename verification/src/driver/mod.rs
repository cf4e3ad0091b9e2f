//! The ring driver: status, reserved tags and completion routing.

pub mod reactor;
pub mod context;
pub mod laws;
pub mod procedure;
pub mod push;
pub mod ring;
pub mod shared;
pub mod status;
pub mod token;
pub mod unpark;
