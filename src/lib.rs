//! Isolates one application's network traffic inside a Linux network
//! namespace whose only way out is a VPN tunnel.
//!
//! The library decides what is run and in which order; the host program
//! performs each step and reports back.
pub mod addr;
pub mod error;
pub mod host;
pub mod netns;
pub mod session;
pub mod text;
pub mod vpn;
