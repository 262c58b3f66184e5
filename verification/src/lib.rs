//! Volume control for the sound devices of a PipeWire server.
//!
//! The library decides; it does no input or output of its own. It keeps what is known of the
//! devices ([`registry`]) from what the server announces ([`globals`]) and reports ([`props`],
//! [`defaults`]), looks devices up and changes them ([`device`], [`client`]), and says step by
//! step how the connection is set up and kept ([`connection`]). What each operation
//! does is stated over plain fields in [`ground`], and what holds of all of it together in
//! [`laws`].

pub mod client;
pub mod connection;
pub mod defaults;
pub mod device;
pub mod error;
pub mod globals;
pub mod ground;
pub mod kind;
pub mod laws;
pub mod props;
pub mod registry;
pub mod text;
