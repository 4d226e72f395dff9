//! Encoding: from a configuration back to a document that decodes to it.

use vstd::prelude::*;
use crate::config::{Listen, Server};
use crate::document::{
    empty_entries, integer_value, new_table, serialize_table, serialized, table_entries,
    table_insert, table_value, Node,
};
use crate::error::Field;

verus! {

/// A table's entries with one more port, where there is one to add.
pub open spec fn with_port(table: Map<Seq<char>, Node>, field: Field, port: Option<u16>) -> Map<
    Seq<char>,
    Node,
> {
    match port {
        Some(p) => table.insert(field.key_text(), Node::Integer(p as i64)),
        None => table,
    }
}

impl Listen {
    /// The key of the listener's mode in the `listen` table.
    pub open spec fn mode(self) -> Field {
        match self {
            Listen::Http { .. } => Field::Http,
            Listen::Https { .. } => Field::Https,
        }
    }

    /// The entries of the mode's table: a key for each port that is set.
    pub open spec fn entries(self) -> Map<Seq<char>, Node> {
        match self {
            Listen::Http { tcp_port } => with_port(
                empty_entries(),
                Field::HttpTcpPort,
                Some(tcp_port),
            ),
            Listen::Https { tcp_port_http_redirect, tcp_port, udp_port } => with_port(
                with_port(
                    with_port(empty_entries(), Field::HttpsTcpPort, Some(tcp_port)),
                    Field::HttpsTcpPortHttpRedirect,
                    tcp_port_http_redirect,
                ),
                Field::HttpsUdpPort,
                udp_port,
            ),
        }
    }
}

impl Server {
    /// The entries of the root table of the document that the configuration
    /// is written as: `listen`, and in it the table of the one mode.
    pub open spec fn document(self) -> Map<Seq<char>, Node> {
        empty_entries().insert(
            Field::Listen.key_text(),
            Node::Table(
                empty_entries().insert(
                    self.listen.mode().key_text(),
                    Node::Table(self.listen.entries()),
                ),
            ),
        )
    }
}

/// An encoding that the serializer refused, with the serializer's error.
#[derive(Debug, PartialEq, Eq)]
pub struct EncodeError {
    pub cause: toml::ser::Error,
}

/// Whether a result of `format_server_config` is what the serializer made:
/// the same text, or the same error.
pub open spec fn written_as(
    outcome: Result<Seq<char>, toml::ser::Error>,
    r: Result<String, EncodeError>,
) -> bool {
    match r {
        Ok(text) => outcome matches Ok(written) && written == text@,
        Err(e) => outcome matches Err(refusal) && refusal == e.cause,
    }
}

fn insert_port(table: &mut toml::Table, field: Field, port: Option<u16>)
    ensures
        table_entries(*final(table)) == with_port(table_entries(*old(table)), field, port),
{
    match port {
        Some(p) => table_insert(table, field.key(), integer_value(p as i64)),
        None => {},
    }
}

fn encode_listen(listen: &Listen) -> (table: toml::Table)
    ensures
        table_entries(table) == listen.entries(),
{
    let mut table = new_table();
    match listen {
        Listen::Http { tcp_port } => {
            insert_port(&mut table, Field::HttpTcpPort, Some(*tcp_port));
        },
        Listen::Https { tcp_port_http_redirect, tcp_port, udp_port } => {
            insert_port(&mut table, Field::HttpsTcpPort, Some(*tcp_port));
            insert_port(&mut table, Field::HttpsTcpPortHttpRedirect, *tcp_port_http_redirect);
            insert_port(&mut table, Field::HttpsUdpPort, *udp_port);
        },
    }
    table
}

/// Writes a configuration as a document: the root table that holds `listen`,
/// the table of its one mode and in that a key for each port that is set.
pub fn encode_table(server: &Server) -> (root: toml::Table)
    ensures
        table_entries(root) == server.document(),
{
    let mode = match server.listen {
        Listen::Http { .. } => Field::Http,
        Listen::Https { .. } => Field::Https,
    };
    let mut listen = new_table();
    table_insert(&mut listen, mode.key(), table_value(encode_listen(&server.listen)));
    let mut root = new_table();
    table_insert(&mut root, Field::Listen.key(), table_value(listen));
    root
}

/// Writes a configuration as the text of a TOML document.
///
/// The text is what the serializer makes of the table that `encode_table`
/// builds; where the serializer refuses that table, its error comes back.
pub fn format_server_config(server: &Server) -> (r: Result<String, EncodeError>)
    ensures
        exists|root: toml::Table|
            #[trigger] table_entries(root) == server.document() && written_as(
                serialized(root),
                r,
            ),
{
    let root = encode_table(server);
    match serialize_table(&root) {
        Ok(text) => Ok(text),
        Err(cause) => Err(EncodeError { cause }),
    }
}

} // verus!
