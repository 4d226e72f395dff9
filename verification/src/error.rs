//! The ways in which decoding a configuration document fails.

use vstd::prelude::*;
use vstd::string::StringExecFns;
use crate::document::{report, syntax_report};

verus! {

/// A key of the configuration document, named by its place in it.
#[derive(Debug, Clone, Copy, PartialEq, Eq)]
pub enum Field {
    /// `listen`
    Listen,
    /// `listen.http`
    Http,
    /// `listen.https`
    Https,
    /// `listen.http.tcp_port`
    HttpTcpPort,
    /// `listen.https.tcp_port`
    HttpsTcpPort,
    /// `listen.https.tcp_port_http_redirect`
    HttpsTcpPortHttpRedirect,
    /// `listen.https.udp_port`
    HttpsUdpPort,
}

/// How a `listen` table breaks the rule that it names exactly one listener
/// mode.
#[derive(Debug, Clone, Copy, PartialEq, Eq)]
pub enum Conflict {
    /// Both `http` and `https` are there.
    Both,
    /// Neither `http` nor `https` is there.
    Neither,
}

/// Why a document did not decode. Every error ends the decoding: no partial
/// configuration is ever returned.
#[derive(Debug, PartialEq, Eq)]
pub enum ConfigError {
    /// The text is not a TOML document; the parser's error says where.
    Syntax(toml::de::Error),
    /// A required key is missing.
    Schema(Field),
    /// A key holds a value of the wrong type, or a port outside `0..=65535`.
    Type(Field),
    /// The `listen` table does not name exactly one listener mode.
    Validation(Conflict),
}

impl Field {
    /// The key under which the field stands in its table.
    pub open spec fn key_text(self) -> Seq<char> {
        match self {
            Field::Listen => "listen"@,
            Field::Http => "http"@,
            Field::Https => "https"@,
            Field::HttpTcpPort => "tcp_port"@,
            Field::HttpsTcpPort => "tcp_port"@,
            Field::HttpsTcpPortHttpRedirect => "tcp_port_http_redirect"@,
            Field::HttpsUdpPort => "udp_port"@,
        }
    }

    /// The dotted path of the field from the document's root.
    pub open spec fn path_text(self) -> Seq<char> {
        match self {
            Field::Listen => "listen"@,
            Field::Http => "listen.http"@,
            Field::Https => "listen.https"@,
            Field::HttpTcpPort => "listen.http.tcp_port"@,
            Field::HttpsTcpPort => "listen.https.tcp_port"@,
            Field::HttpsTcpPortHttpRedirect => "listen.https.tcp_port_http_redirect"@,
            Field::HttpsUdpPort => "listen.https.udp_port"@,
        }
    }

    /// What a value of the field has to be.
    pub open spec fn expected_text(self) -> Seq<char> {
        match self {
            Field::Listen | Field::Http | Field::Https => "a table"@,
            _ => "an integer from 0 to 65535"@,
        }
    }

    /// The key under which the field stands in its table.
    pub fn key(&self) -> (r: &'static str)
        ensures
            r@ == self.key_text(),
    {
        match self {
            Field::Listen => "listen",
            Field::Http => "http",
            Field::Https => "https",
            Field::HttpTcpPort => "tcp_port",
            Field::HttpsTcpPort => "tcp_port",
            Field::HttpsTcpPortHttpRedirect => "tcp_port_http_redirect",
            Field::HttpsUdpPort => "udp_port",
        }
    }

    /// The dotted path of the field from the document's root.
    pub fn path(&self) -> (r: &'static str)
        ensures
            r@ == self.path_text(),
    {
        match self {
            Field::Listen => "listen",
            Field::Http => "listen.http",
            Field::Https => "listen.https",
            Field::HttpTcpPort => "listen.http.tcp_port",
            Field::HttpsTcpPort => "listen.https.tcp_port",
            Field::HttpsTcpPortHttpRedirect => "listen.https.tcp_port_http_redirect",
            Field::HttpsUdpPort => "listen.https.udp_port",
        }
    }

    /// What a value of the field has to be.
    pub fn expected(&self) -> (r: &'static str)
        ensures
            r@ == self.expected_text(),
    {
        match self {
            Field::Listen | Field::Http | Field::Https => "a table",
            _ => "an integer from 0 to 65535",
        }
    }
}

impl Conflict {
    /// The sentence that states the conflict.
    pub open spec fn message_text(self) -> Seq<char> {
        match self {
            Conflict::Both => "Cannot specify both http and https"@,
            Conflict::Neither => "Must specify either http or https"@,
        }
    }

    /// The sentence that states the conflict.
    pub fn message(&self) -> (r: &'static str)
        ensures
            r@ == self.message_text(),
    {
        match self {
            Conflict::Both => "Cannot specify both http and https",
            Conflict::Neither => "Must specify either http or https",
        }
    }
}

impl ConfigError {
    /// The text of the error: the parser's report of a syntax error, and for
    /// the others a sentence that names the field by its path.
    pub open spec fn message_text(self) -> Seq<char> {
        match self {
            ConfigError::Syntax(e) => report(e),
            ConfigError::Schema(field) => "missing required field: "@ + field.path_text(),
            ConfigError::Type(field) => "invalid value for "@ + field.path_text() + ": expected "@
                + field.expected_text(),
            ConfigError::Validation(conflict) => conflict.message_text(),
        }
    }

    /// The text of the error, for a person to read.
    pub fn message(&self) -> (r: String)
        ensures
            r@ == self.message_text(),
    {
        match self {
            ConfigError::Syntax(e) => syntax_report(e),
            ConfigError::Schema(field) => {
                let mut text = "missing required field: ".to_owned();
                text.append(field.path());
                text
            },
            ConfigError::Type(field) => {
                let mut text = "invalid value for ".to_owned();
                text.append(field.path());
                text.append(": expected ");
                text.append(field.expected());
                text
            },
            ConfigError::Validation(conflict) => conflict.message().to_owned(),
        }
    }
}

} // verus!
