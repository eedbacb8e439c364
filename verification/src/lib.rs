//! Fetching one blob from a storage container, as decisions.
//!
//! The library decides; a host performs. Every network exchange of a fetch
//! (asking for a bearer token, reading the next chunk of the blob) is an
//! [`fetch::Action`] that the library hands out, and what came of it is an
//! [`fetch::Event`] that the host hands back.

pub mod container;
pub mod credential;
pub mod download;
pub mod fetch;
pub mod laws;
pub mod replay;
pub mod request;
