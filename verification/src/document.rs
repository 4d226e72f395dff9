//! The parsed document: TOML tables and values as the `toml` crate holds them,
//! and the mathematical model that the contracts of this crate speak of.
//!
//! Parsing and serializing are the `toml` crate's work. Its types are opaque
//! to the verifier, and every function in this file that reaches into the
//! crate is believed, not proved: its contract says what the crate's source
//! shows of the call, over the model below.

use vstd::prelude::*;

verus! {

/// What a TOML value holds, as far as a listener configuration reads it.
pub enum Node {
    /// A TOML integer.
    Integer(i64),
    /// A TOML table: its keys, each with what its value holds.
    Table(Map<Seq<char>, Node>),
    /// A string, float, boolean, date-time or array.
    Other,
}

/// `toml::map::Map`, the type of a TOML table (`toml::Table` is this map from
/// `String` to `toml::Value`). Opaque: `table_entries` names what it holds.
#[verifier::external_type_specification]
#[verifier::external_body]
#[verifier::reject_recursive_types(K)]
#[verifier::reject_recursive_types(V)]
pub struct ExTomlMap<K, V>(toml::map::Map<K, V>);

/// `toml::Value`, a TOML value of any type. Opaque: `value_node` names what
/// it holds.
#[verifier::external_type_specification]
#[verifier::external_body]
pub struct ExTomlValue(toml::Value);

/// `toml::de::Error`, the parser's error. Opaque.
#[verifier::external_type_specification]
#[verifier::external_body]
pub struct ExTomlDeError(toml::de::Error);

/// `toml::ser::Error`, the serializer's error. Opaque.
#[verifier::external_type_specification]
#[verifier::external_body]
pub struct ExTomlSerError(toml::ser::Error);

/// The entries of a table that has none.
pub open spec fn empty_entries() -> Map<Seq<char>, Node> {
    Map::empty()
}

/// What a table holds: its keys, each with what its value holds.
pub uninterp spec fn table_entries(table: toml::Table) -> Map<Seq<char>, Node>;

/// What a value holds: `Node::Integer` for `toml::Value::Integer`,
/// `Node::Table` with the table's entries for `toml::Value::Table`, and
/// `Node::Other` for the rest.
pub uninterp spec fn value_node(value: toml::Value) -> Node;

/// What `toml::from_str` makes of a text: the document's root table, or the
/// parser's error.
pub uninterp spec fn parsed(text: Seq<char>) -> Result<toml::Table, toml::de::Error>;

/// The text that the parser's error displays as: its message and, where the
/// parser knows it, the line and column.
pub uninterp spec fn report(error: toml::de::Error) -> Seq<char>;

/// What `toml::to_string` makes of a table: its text as a TOML document, or
/// the serializer's error.
pub uninterp spec fn serialized(table: toml::Table) -> Result<Seq<char>, toml::ser::Error>;

/// `toml::from_str` at the type `toml::Table`: parses a text as a TOML
/// document. The parser is a function of the text alone; its result is
/// `parsed` of the text.
#[verifier::external_body]
pub(crate) fn parse_document(text: &str) -> (r: Result<toml::Table, toml::de::Error>)
    ensures
        r == parsed(text@),
{
    toml::from_str::<toml::Table>(text)
}

/// `toml::map::Map::get`: a reference to the value stored under `key`, or
/// `None` where the table has no such key.
#[verifier::external_body]
pub(crate) fn table_get<'a>(table: &'a toml::Table, key: &str) -> (r: Option<&'a toml::Value>)
    ensures
        r is Some <==> table_entries(*table).contains_key(key@),
        r matches Some(value) ==> value_node(*value) == table_entries(*table)[key@],
{
    table.get(key)
}

/// `toml::Value::as_integer`: the integer of the `Integer` variant, and `None`
/// for every other variant.
#[verifier::external_body]
pub(crate) fn value_integer(value: &toml::Value) -> (r: Option<i64>)
    ensures
        r == (match value_node(*value) {
            Node::Integer(i) => Some(i),
            _ => None,
        }),
{
    value.as_integer()
}

/// `toml::Value::as_table`: a reference to the table of the `Table` variant,
/// and `None` for every other variant.
#[verifier::external_body]
pub(crate) fn value_table<'a>(value: &'a toml::Value) -> (r: Option<&'a toml::Table>)
    ensures
        match value_node(*value) {
            Node::Table(entries) => r matches Some(table) && table_entries(*table) == entries,
            _ => r is None,
        },
{
    value.as_table()
}

/// `toml::map::Map::new`: a table without entries.
#[verifier::external_body]
pub(crate) fn new_table() -> (table: toml::Table)
    ensures
        table_entries(table) == empty_entries(),
{
    toml::Table::new()
}

/// `toml::map::Map::insert`: afterwards the table holds `value` under `key`,
/// in place of what it held there before, and its other entries as they were.
#[verifier::external_body]
pub(crate) fn table_insert(table: &mut toml::Table, key: &str, value: toml::Value)
    ensures
        table_entries(*final(table)) == table_entries(*old(table)).insert(key@, value_node(value)),
{
    table.insert(key.to_owned(), value);
}

/// The variant `toml::Value::Integer`: the value that holds the integer `i`.
#[verifier::external_body]
pub(crate) fn integer_value(i: i64) -> (value: toml::Value)
    ensures
        value_node(value) == Node::Integer(i),
{
    toml::Value::Integer(i)
}

/// The variant `toml::Value::Table`: the value that holds `table`.
#[verifier::external_body]
pub(crate) fn table_value(table: toml::Table) -> (value: toml::Value)
    ensures
        value_node(value) == Node::Table(table_entries(table)),
{
    toml::Value::Table(table)
}

/// `toml::to_string` at the type `toml::Table`: writes a table as the text of
/// a TOML document. The serializer is a function of the table alone; its
/// result is `serialized` of the table.
#[verifier::external_body]
pub(crate) fn serialize_table(table: &toml::Table) -> (r: Result<String, toml::ser::Error>)
    ensures
        r matches Ok(text) ==> serialized(*table) matches Ok(written) && written == text@,
        r matches Err(e) ==> serialized(*table) matches Err(refusal) && refusal == e,
{
    toml::to_string(table)
}

/// `Display` of `toml::de::Error`, through `to_string`: the parser's own
/// account of a syntax error, a function of the error alone.
#[verifier::external_body]
pub(crate) fn syntax_report(error: &toml::de::Error) -> (r: String)
    ensures
        r@ == report(*error),
{
    error.to_string()
}

} // verus!
