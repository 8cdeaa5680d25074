//! Port forwarding through an Internet Gateway Device.
//!
//! The library decides; the caller performs. Each operation is a small state
//! machine that names the next gateway action to perform (locate a gateway,
//! add or remove a mapping, wait before a renewal) and takes back what the
//! gateway answered. The network exchange itself is left to the caller.
//! A small text module reads a host's address out of command and HTTP output.
pub mod address;
pub mod error;
pub mod lease;
pub mod mapping;
pub mod renewal;
pub mod forward;
pub mod laws;
pub mod text;
