//! Decoding and encoding of a server's listener configuration.
//!
//! A configuration document is a TOML text whose `listen` table holds exactly
//! one of the tables `http` and `https`:
//!
//! ```toml
//! [listen.https]
//! tcp_port = 443
//! tcp_port_http_redirect = 80
//! udp_port = 443
//! ```
//!
//! [`parse_server_config`] turns such a text into a [`Server`], or into a
//! [`ConfigError`] that names what is wrong with it; [`format_server_config`]
//! writes a [`Server`] back as text. The `toml` crate parses and serializes;
//! [`decode_table`] and [`encode_table`] go between its tables and the
//! configuration, and are verified against the rules in [`decode`] and
//! [`encode`]. What follows from these rules for every document is proved in
//! [`laws`].

pub mod config;
pub mod decode;
pub mod document;
pub mod encode;
pub mod error;
pub mod laws;

pub use config::{Listen, Server};
pub use decode::{decode_table, parse_server_config};
pub use encode::{encode_table, format_server_config, EncodeError};
pub use error::{ConfigError, Conflict, Field};
