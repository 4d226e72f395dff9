//! Decoding: from a document to a configuration, or to the error that says
//! why the document holds none.
//!
//! The rules are stated over the document's model, in `decode_document` and
//! the spec functions it is made of:
//!
//! - Every key is read as optional first. A key that is there with a value of
//!   the wrong type, or with a port outside `0..=65535`, is a type error that
//!   names it, and comes before the error for a key that is missing.
//! - In the `listen` table, `http` and `https` are read in this order, and
//!   then have to be exactly one. The fields of a mode are read only when it
//!   is the one mode named: two modes are refused whatever they hold.
//! - In a mode's table the ports are read in the order `tcp_port`,
//!   `tcp_port_http_redirect`, `udp_port`.
//! - Keys that these rules do not mention are ignored.

use vstd::prelude::*;
use crate::config::{Listen, Server};
use crate::document::{
    parse_document, parsed, table_entries, table_get, value_integer, value_node, value_table,
    Node,
};
use crate::error::{ConfigError, Conflict, Field};

verus! {

/// The port that a value stands for: it is an integer from 0 to 65535.
pub open spec fn port_of(node: Node) -> Option<u16> {
    match node {
        Node::Integer(i) => if 0 <= i <= 65535 {
            Some(i as u16)
        } else {
            None
        },
        _ => None,
    }
}

/// The port under a key that may be missing: `None` where the table lacks
/// the key, and a type error where it holds anything but a port.
pub open spec fn optional_port(table: Map<Seq<char>, Node>, field: Field) -> Result<
    Option<u16>,
    ConfigError,
> {
    if !table.contains_key(field.key_text()) {
        Ok(None)
    } else {
        match port_of(table[field.key_text()]) {
            Some(port) => Ok(Some(port)),
            None => Err(ConfigError::Type(field)),
        }
    }
}

/// The entries of the table under a key that may be missing: `None` where
/// the table lacks the key, and a type error where it holds no table.
pub open spec fn optional_table(table: Map<Seq<char>, Node>, field: Field) -> Result<
    Option<Map<Seq<char>, Node>>,
    ConfigError,
> {
    if !table.contains_key(field.key_text()) {
        Ok(None)
    } else {
        match table[field.key_text()] {
            Node::Table(entries) => Ok(Some(entries)),
            _ => Err(ConfigError::Type(field)),
        }
    }
}

/// What was read under a key that has to be there: a missing one is a schema
/// error.
pub open spec fn required<T>(read: Result<Option<T>, ConfigError>, field: Field) -> Result<
    T,
    ConfigError,
> {
    match read {
        Err(e) => Err(e),
        Ok(None) => Err(ConfigError::Schema(field)),
        Ok(Some(value)) => Ok(value),
    }
}

/// The listener that an `http` table describes.
pub open spec fn http_listener(table: Map<Seq<char>, Node>) -> Result<Listen, ConfigError> {
    match required(optional_port(table, Field::HttpTcpPort), Field::HttpTcpPort) {
        Err(e) => Err(e),
        Ok(tcp_port) => Ok(Listen::Http { tcp_port }),
    }
}

/// The listener that an `https` table describes.
pub open spec fn https_listener(table: Map<Seq<char>, Node>) -> Result<Listen, ConfigError> {
    let tcp_port = optional_port(table, Field::HttpsTcpPort);
    let tcp_port_http_redirect = optional_port(table, Field::HttpsTcpPortHttpRedirect);
    let udp_port = optional_port(table, Field::HttpsUdpPort);
    match (tcp_port, tcp_port_http_redirect, udp_port) {
        (Err(e), _, _) => Err(e),
        (_, Err(e), _) => Err(e),
        (_, _, Err(e)) => Err(e),
        (Ok(None), _, _) => Err(ConfigError::Schema(Field::HttpsTcpPort)),
        (Ok(Some(tcp_port)), Ok(tcp_port_http_redirect), Ok(udp_port)) => Ok(
            Listen::Https { tcp_port_http_redirect, tcp_port, udp_port },
        ),
    }
}

/// The listener that a `listen` table describes: the one mode that it names.
pub open spec fn listener(table: Map<Seq<char>, Node>) -> Result<Listen, ConfigError> {
    match (optional_table(table, Field::Http), optional_table(table, Field::Https)) {
        (Err(e), _) => Err(e),
        (_, Err(e)) => Err(e),
        (Ok(Some(_)), Ok(Some(_))) => Err(ConfigError::Validation(Conflict::Both)),
        (Ok(None), Ok(None)) => Err(ConfigError::Validation(Conflict::Neither)),
        (Ok(Some(http)), Ok(None)) => http_listener(http),
        (Ok(None), Ok(Some(https))) => https_listener(https),
    }
}

/// The configuration that a document describes, given the entries of its
/// root table.
pub open spec fn decode_document(root: Map<Seq<char>, Node>) -> Result<Server, ConfigError> {
    match required(optional_table(root, Field::Listen), Field::Listen) {
        Err(e) => Err(e),
        Ok(listen) => match listener(listen) {
            Err(e) => Err(e),
            Ok(listen) => Ok(Server { listen }),
        },
    }
}

/// The result of decoding, given what the parser made of the text.
pub open spec fn decode_parsed(outcome: Result<toml::Table, toml::de::Error>) -> Result<
    Server,
    ConfigError,
> {
    match outcome {
        Ok(root) => decode_document(table_entries(root)),
        Err(e) => Err(ConfigError::Syntax(e)),
    }
}

fn read_port(value: &toml::Value) -> (r: Option<u16>)
    ensures
        r == port_of(value_node(*value)),
{
    match value_integer(value) {
        Some(i) => if 0 <= i && i <= 65535 {
            Some(i as u16)
        } else {
            None
        },
        None => None,
    }
}

fn read_optional_port(table: &toml::Table, field: Field) -> (r: Result<Option<u16>, ConfigError>)
    ensures
        r == optional_port(table_entries(*table), field),
{
    match table_get(table, field.key()) {
        None => Ok(None),
        Some(value) => match read_port(value) {
            Some(port) => Ok(Some(port)),
            None => Err(ConfigError::Type(field)),
        },
    }
}

/// What was read as an optional table, with the table taken by its entries.
spec fn entries_read(read: Result<Option<&toml::Table>, ConfigError>) -> Result<
    Option<Map<Seq<char>, Node>>,
    ConfigError,
> {
    match read {
        Err(e) => Err(e),
        Ok(None) => Ok(None),
        Ok(Some(found)) => Ok(Some(table_entries(*found))),
    }
}

fn read_optional_table<'a>(table: &'a toml::Table, field: Field) -> (r: Result<
    Option<&'a toml::Table>,
    ConfigError,
>)
    ensures
        entries_read(r) == optional_table(table_entries(*table), field),
{
    match table_get(table, field.key()) {
        None => Ok(None),
        Some(value) => match value_table(value) {
            Some(found) => Ok(Some(found)),
            None => Err(ConfigError::Type(field)),
        },
    }
}

fn decode_http(table: &toml::Table) -> (r: Result<Listen, ConfigError>)
    ensures
        r == http_listener(table_entries(*table)),
{
    match read_optional_port(table, Field::HttpTcpPort) {
        Err(e) => Err(e),
        Ok(None) => Err(ConfigError::Schema(Field::HttpTcpPort)),
        Ok(Some(tcp_port)) => Ok(Listen::Http { tcp_port }),
    }
}

fn decode_https(table: &toml::Table) -> (r: Result<Listen, ConfigError>)
    ensures
        r == https_listener(table_entries(*table)),
{
    let tcp_port = match read_optional_port(table, Field::HttpsTcpPort) {
        Ok(port) => port,
        Err(e) => return Err(e),
    };
    let tcp_port_http_redirect = match read_optional_port(table, Field::HttpsTcpPortHttpRedirect) {
        Ok(port) => port,
        Err(e) => return Err(e),
    };
    let udp_port = match read_optional_port(table, Field::HttpsUdpPort) {
        Ok(port) => port,
        Err(e) => return Err(e),
    };
    match tcp_port {
        None => Err(ConfigError::Schema(Field::HttpsTcpPort)),
        Some(tcp_port) => Ok(Listen::Https { tcp_port_http_redirect, tcp_port, udp_port }),
    }
}

fn decode_listen(table: &toml::Table) -> (r: Result<Listen, ConfigError>)
    ensures
        r == listener(table_entries(*table)),
{
    let http = match read_optional_table(table, Field::Http) {
        Ok(found) => found,
        Err(e) => return Err(e),
    };
    let https = match read_optional_table(table, Field::Https) {
        Ok(found) => found,
        Err(e) => return Err(e),
    };
    match (http, https) {
        (Some(_), Some(_)) => Err(ConfigError::Validation(Conflict::Both)),
        (None, None) => Err(ConfigError::Validation(Conflict::Neither)),
        (Some(http), None) => decode_http(http),
        (None, Some(https)) => decode_https(https),
    }
}

/// Decodes a parsed document, given its root table.
///
/// The result is `Ok` exactly when the root has a `listen` table that names
/// one listener mode whose fields are well formed, and each error comes on
/// exactly the documents that `decode_document` gives it for.
pub fn decode_table(root: &toml::Table) -> (r: Result<Server, ConfigError>)
    ensures
        r == decode_document(table_entries(*root)),
{
    match read_optional_table(root, Field::Listen) {
        Err(e) => Err(e),
        Ok(None) => Err(ConfigError::Schema(Field::Listen)),
        Ok(Some(listen)) => match decode_listen(listen) {
            Err(e) => Err(e),
            Ok(listen) => Ok(Server { listen }),
        },
    }
}

/// Decodes a configuration document from its text.
///
/// A text that the TOML parser refuses gives `ConfigError::Syntax` with the
/// parser's error; any other text is decoded as `decode_table` decodes its
/// root table.
pub fn parse_server_config(toml_str: &str) -> (r: Result<Server, ConfigError>)
    ensures
        r == decode_parsed(parsed(toml_str@)),
{
    match parse_document(toml_str) {
        Ok(root) => decode_table(&root),
        Err(e) => Err(ConfigError::Syntax(e)),
    }
}

} // verus!
