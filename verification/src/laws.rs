//! What holds of decoding and encoding on every document, proved from the
//! rules in `decode` and `encode`.

use vstd::prelude::*;
use crate::config::{Listen, Server};
use crate::decode::{decode_document, http_listener, https_listener, listener};
use crate::document::Node;
use crate::error::{ConfigError, Conflict, Field};

verus! {

/// Whether `parent` holds the table `child` under `key`.
pub open spec fn holds_table(
    parent: Map<Seq<char>, Node>,
    key: Seq<char>,
    child: Map<Seq<char>, Node>,
) -> bool {
    parent.contains_key(key) && parent[key] == Node::Table(child)
}

/// Whether `table` holds the integer `i` under `key`.
pub open spec fn holds_integer(table: Map<Seq<char>, Node>, key: Seq<char>, i: int) -> bool {
    table.contains_key(key) && table[key] == Node::Integer(i as i64) && i64::MIN <= i <= i64::MAX
}

/// Whether `table` holds `port` under `key` where there is a port, and lacks
/// the key where there is none.
pub open spec fn holds_optional_port(
    table: Map<Seq<char>, Node>,
    key: Seq<char>,
    port: Option<u16>,
) -> bool {
    match port {
        Some(p) => holds_integer(table, key, p as int),
        None => !table.contains_key(key),
    }
}

proof fn lemma_keys_differ()
    ensures
        "http"@ != "https"@,
        "tcp_port"@ != "tcp_port_http_redirect"@,
        "tcp_port"@ != "udp_port"@,
        "tcp_port_http_redirect"@ != "udp_port"@,
{
    reveal_strlit("http");
    reveal_strlit("https");
    reveal_strlit("tcp_port");
    reveal_strlit("tcp_port_http_redirect");
    reveal_strlit("udp_port");
    assert("http"@.len() == 4 && "https"@.len() == 5);
    assert("tcp_port"@.len() == 8 && "tcp_port_http_redirect"@.len() == 22);
    assert("tcp_port"@[0] == 't' && "udp_port"@[0] == 'u');
}

/// A document whose `listen` table names `http` alone, with a `tcp_port`
/// from 0 to 65535 in it, decodes to the HTTP listener on that port.
pub proof fn law_http_document_decodes(
    root: Map<Seq<char>, Node>,
    listen: Map<Seq<char>, Node>,
    http: Map<Seq<char>, Node>,
    port: u16,
)
    requires
        holds_table(root, "listen"@, listen),
        holds_table(listen, "http"@, http),
        !listen.contains_key("https"@),
        holds_integer(http, "tcp_port"@, port as int),
    ensures
        decode_document(root) == Ok::<Server, ConfigError>(
            Server { listen: Listen::Http { tcp_port: port } },
        ),
{
}

/// A document whose `listen` table names `https` alone, with a `tcp_port`
/// from 0 to 65535 in it and each of `tcp_port_http_redirect` and `udp_port`
/// either such a port or missing, decodes to the HTTPS listener with these
/// ports, the missing ones as `None`.
pub proof fn law_https_document_decodes(
    root: Map<Seq<char>, Node>,
    listen: Map<Seq<char>, Node>,
    https: Map<Seq<char>, Node>,
    port: u16,
    redirect: Option<u16>,
    udp: Option<u16>,
)
    requires
        holds_table(root, "listen"@, listen),
        holds_table(listen, "https"@, https),
        !listen.contains_key("http"@),
        holds_integer(https, "tcp_port"@, port as int),
        holds_optional_port(https, "tcp_port_http_redirect"@, redirect),
        holds_optional_port(https, "udp_port"@, udp),
    ensures
        decode_document(root) == Ok::<Server, ConfigError>(
            Server {
                listen: Listen::Https {
                    tcp_port_http_redirect: redirect,
                    tcp_port: port,
                    udp_port: udp,
                },
            },
        ),
{
}

/// Mutual exclusion: a document whose `listen` table holds both an `http`
/// and an `https` table is refused as a validation error, whatever the two
/// tables hold.
pub proof fn law_both_modes_refused(
    root: Map<Seq<char>, Node>,
    listen: Map<Seq<char>, Node>,
    http: Map<Seq<char>, Node>,
    https: Map<Seq<char>, Node>,
)
    requires
        holds_table(root, "listen"@, listen),
        holds_table(listen, "http"@, http),
        holds_table(listen, "https"@, https),
    ensures
        decode_document(root) == Err::<Server, ConfigError>(
            ConfigError::Validation(Conflict::Both),
        ),
{
}

/// Completeness: a document whose `listen` table has neither `http` nor
/// `https` is refused as a validation error.
pub proof fn law_no_mode_refused(root: Map<Seq<char>, Node>, listen: Map<Seq<char>, Node>)
    requires
        holds_table(root, "listen"@, listen),
        !listen.contains_key("http"@),
        !listen.contains_key("https"@),
    ensures
        decode_document(root) == Err::<Server, ConfigError>(
            ConfigError::Validation(Conflict::Neither),
        ),
{
}

/// Whether a document holds a configuration: its `listen` table has the
/// table of the configuration's mode and lacks the key of the other mode, and
/// the mode's table holds the configuration's ports, each optional one under
/// its key where it is set and no such key where it is not.
pub open spec fn describes(root: Map<Seq<char>, Node>, server: Server) -> bool {
    &&& root.contains_key("listen"@)
    &&& root["listen"@] matches Node::Table(listen)
    &&& match server.listen {
        Listen::Http { tcp_port } => {
            &&& listen.contains_key("http"@)
            &&& !listen.contains_key("https"@)
            &&& listen["http"@] matches Node::Table(http)
            &&& holds_integer(http, "tcp_port"@, tcp_port as int)
        },
        Listen::Https { tcp_port_http_redirect, tcp_port, udp_port } => {
            &&& listen.contains_key("https"@)
            &&& !listen.contains_key("http"@)
            &&& listen["https"@] matches Node::Table(https)
            &&& holds_integer(https, "tcp_port"@, tcp_port as int)
            &&& holds_optional_port(https, "tcp_port_http_redirect"@, tcp_port_http_redirect)
            &&& holds_optional_port(https, "udp_port"@, udp_port)
        },
    }
}

/// A document decodes to a configuration exactly when it holds that
/// configuration. So a document that decodes has exactly one of `http` and
/// `https` in its `listen` table, and a port that the document leaves out is
/// `None` in the configuration, never a number made up for it.
pub proof fn law_decodes_exactly_what_the_document_holds(
    root: Map<Seq<char>, Node>,
    server: Server,
)
    ensures
        decode_document(root) == Ok::<Server, ConfigError>(server) <==> describes(root, server),
{
}

/// Keys that the rules do not mention are ignored: adding one to the root,
/// to the `listen` table or to the table of a mode changes nothing in what
/// the table decodes to.
pub proof fn law_other_keys_are_ignored(table: Map<Seq<char>, Node>, key: Seq<char>, node: Node)
    ensures
        key != "listen"@ ==> decode_document(table.insert(key, node)) == decode_document(table),
        key != "http"@ && key != "https"@
            ==> listener(table.insert(key, node)) == listener(table),
        key != "tcp_port"@ ==> http_listener(table.insert(key, node)) == http_listener(table),
        key != "tcp_port"@ && key != "tcp_port_http_redirect"@ && key != "udp_port"@
            ==> https_listener(table.insert(key, node)) == https_listener(table),
{
}

/// Round trip: the document that a configuration is written as decodes to
/// that configuration.
pub proof fn law_round_trip(server: Server)
    ensures
        decode_document(server.document()) == Ok::<Server, ConfigError>(server),
{
    lemma_keys_differ();
}

/// The bounds of a port: an HTTP `tcp_port` that is an integer below 0 or
/// above 65535 is refused as a type error that names the field.
pub proof fn law_http_port_out_of_range_refused(
    root: Map<Seq<char>, Node>,
    listen: Map<Seq<char>, Node>,
    http: Map<Seq<char>, Node>,
    i: int,
)
    requires
        holds_table(root, "listen"@, listen),
        holds_table(listen, "http"@, http),
        !listen.contains_key("https"@),
        holds_integer(http, "tcp_port"@, i),
        i < 0 || i > 65535,
    ensures
        decode_document(root) == Err::<Server, ConfigError>(
            ConfigError::Type(Field::HttpTcpPort),
        ),
{
}

/// The bounds of a port: an HTTPS `tcp_port` that is an integer below 0 or
/// above 65535 is refused as a type error that names the field.
pub proof fn law_https_port_out_of_range_refused(
    root: Map<Seq<char>, Node>,
    listen: Map<Seq<char>, Node>,
    https: Map<Seq<char>, Node>,
    i: int,
)
    requires
        holds_table(root, "listen"@, listen),
        holds_table(listen, "https"@, https),
        !listen.contains_key("http"@),
        holds_integer(https, "tcp_port"@, i),
        i < 0 || i > 65535,
    ensures
        decode_document(root) == Err::<Server, ConfigError>(
            ConfigError::Type(Field::HttpsTcpPort),
        ),
{
}

} // verus!
