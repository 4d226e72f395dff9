use listen_config::{
    decode_table, encode_table, format_server_config, parse_server_config, ConfigError, Conflict,
    Field, Listen, Server,
};

fn http(tcp_port: u16) -> Server {
    Server { listen: Listen::Http { tcp_port } }
}

fn https(tcp_port: u16, tcp_port_http_redirect: Option<u16>, udp_port: Option<u16>) -> Server {
    Server { listen: Listen::Https { tcp_port_http_redirect, tcp_port, udp_port } }
}

fn table(entries: Vec<(&str, toml::Value)>) -> toml::Table {
    let mut t = toml::Table::new();
    for (key, value) in entries {
        t.insert(key.to_string(), value);
    }
    t
}

fn nested(entries: Vec<(&str, toml::Value)>) -> toml::Value {
    toml::Value::Table(table(entries))
}

fn sample() -> Vec<Server> {
    let mut servers = Vec::new();
    let choices = [None, Some(0u16), Some(80), Some(65535)];
    for port in [0u16, 1, 443, 8000, 65535] {
        servers.push(http(port));
        for redirect in choices {
            for udp in choices {
                servers.push(https(port, redirect, udp));
            }
        }
    }
    servers
}

#[test]
fn decode_table_reads_a_table_built_by_hand() {
    let root = table(vec![(
        "listen",
        nested(vec![("http", nested(vec![("tcp_port", toml::Value::Integer(8000))]))]),
    )]);
    assert_eq!(decode_table(&root), Ok(http(8000)));
    let root = table(vec![(
        "listen",
        nested(vec![(
            "https",
            nested(vec![
                ("udp_port", toml::Value::Integer(443)),
                ("tcp_port", toml::Value::Integer(443)),
                ("tcp_port_http_redirect", toml::Value::Integer(80)),
            ]),
        )]),
    )]);
    assert_eq!(decode_table(&root), Ok(https(443, Some(80), Some(443))));
}

#[test]
fn decode_table_refuses_what_the_rules_refuse() {
    assert_eq!(decode_table(&toml::Table::new()), Err(ConfigError::Schema(Field::Listen)));
    let root = table(vec![("listen", toml::Value::Boolean(true))]);
    assert_eq!(decode_table(&root), Err(ConfigError::Type(Field::Listen)));
    let root = table(vec![("listen", nested(vec![]))]);
    assert_eq!(decode_table(&root), Err(ConfigError::Validation(Conflict::Neither)));
    let root = table(vec![("listen", nested(vec![("http", nested(vec![])), ("https", nested(vec![]))]))]);
    assert_eq!(decode_table(&root), Err(ConfigError::Validation(Conflict::Both)));
    let root = table(vec![(
        "listen",
        nested(vec![("http", nested(vec![("tcp_port", toml::Value::Integer(65536))]))]),
    )]);
    assert_eq!(decode_table(&root), Err(ConfigError::Type(Field::HttpTcpPort)));
    let root = table(vec![(
        "listen",
        nested(vec![("https", nested(vec![("tcp_port", toml::Value::Float(443.0))]))]),
    )]);
    assert_eq!(decode_table(&root), Err(ConfigError::Type(Field::HttpsTcpPort)));
    let root = table(vec![("listen", nested(vec![("https", toml::Value::Array(vec![]))]))]);
    assert_eq!(decode_table(&root), Err(ConfigError::Type(Field::Https)));
}

#[test]
fn decode_table_leaves_the_table_as_it_was() {
    let root = table(vec![(
        "listen",
        nested(vec![("http", nested(vec![("tcp_port", toml::Value::Integer(8000))]))]),
    )]);
    let before = root.clone();
    assert_eq!(decode_table(&root), Ok(http(8000)));
    assert_eq!(root, before);
}

#[test]
fn encode_table_writes_http_as_nested_tables() {
    let expected = table(vec![(
        "listen",
        nested(vec![("http", nested(vec![("tcp_port", toml::Value::Integer(8000))]))]),
    )]);
    assert_eq!(encode_table(&http(8000)), expected);
}

#[test]
fn encode_table_writes_https_with_the_ports_that_are_set() {
    let expected = table(vec![(
        "listen",
        nested(vec![(
            "https",
            nested(vec![
                ("tcp_port", toml::Value::Integer(443)),
                ("tcp_port_http_redirect", toml::Value::Integer(80)),
                ("udp_port", toml::Value::Integer(444)),
            ]),
        )]),
    )]);
    assert_eq!(encode_table(&https(443, Some(80), Some(444))), expected);
    let expected = table(vec![(
        "listen",
        nested(vec![("https", nested(vec![("tcp_port", toml::Value::Integer(443))]))]),
    )]);
    assert_eq!(encode_table(&https(443, None, None)), expected);
    let expected = table(vec![(
        "listen",
        nested(vec![(
            "https",
            nested(vec![
                ("tcp_port", toml::Value::Integer(65535)),
                ("udp_port", toml::Value::Integer(0)),
            ]),
        )]),
    )]);
    assert_eq!(encode_table(&https(65535, None, Some(0))), expected);
}

#[test]
fn encoded_table_decodes_to_the_configuration() {
    for server in sample() {
        assert_eq!(decode_table(&encode_table(&server)), Ok(server));
    }
}

#[test]
fn format_writes_the_text_of_the_document() {
    assert_eq!(
        format_server_config(&http(8000)).unwrap(),
        "[listen.http]\ntcp_port = 8000\n"
    );
    assert_eq!(
        format_server_config(&https(443, Some(80), Some(444))).unwrap(),
        "[listen.https]\ntcp_port = 443\ntcp_port_http_redirect = 80\nudp_port = 444\n"
    );
    assert_eq!(
        format_server_config(&https(443, None, None)).unwrap(),
        "[listen.https]\ntcp_port = 443\n"
    );
}

#[test]
fn format_is_the_serializer_s_text_of_the_encoded_table() {
    for server in sample() {
        let text = format_server_config(&server).unwrap();
        assert_eq!(text, toml::to_string(&encode_table(&server)).unwrap());
    }
}

#[test]
fn formatted_text_decodes_to_the_configuration() {
    for server in sample() {
        let text = format_server_config(&server).unwrap();
        assert_eq!(parse_server_config(&text), Ok(server));
    }
}

#[test]
fn decoded_configuration_survives_encoding_and_decoding() {
    let texts = [
        "listen.http.tcp_port = 8000",
        "listen.https.tcp_port = 443",
        "listen.https.tcp_port = 443\nlisten.https.tcp_port_http_redirect = 80\nlisten.https.udp_port = 443\n",
        "name = \"x\"\n[listen.https]\nudp_port = 8443\ntcp_port = 65535\nextra = true\n",
    ];
    for text in texts {
        let server = parse_server_config(text).unwrap();
        let again = parse_server_config(&format_server_config(&server).unwrap()).unwrap();
        assert_eq!(again, server);
        assert_eq!(decode_table(&encode_table(&server)), Ok(server));
    }
}
