//! A minimal LDAP listener core: the per-connection decision logic of a
//! demonstration server that answers four request kinds (simple bind, search,
//! unbind, whoami) with canned success responses and closes the connection on
//! anything it cannot decode.
//!
//! The wire protocol itself (BER framing, message encoding and decoding) is
//! the work of the `ldap3_proto` crate, reached through the trusted items in
//! [`codec`]. Everything that decides — which reaction a decoded operation
//! gets, and when the connection closes — is verified, in [`server`].

pub mod codec;
pub mod server;
