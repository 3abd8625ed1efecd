//! Trusted boundary to the toml crate.
//!
//! Configuration files are TOML documents. The toml crate turns the text
//! into a tree of `toml::Value` nodes; everything after that — which keys
//! are read, which types they must have, which defaults apply, and how the
//! result becomes a client or server configuration — is the library's own
//! verified logic.
//!
//! A `toml::Value` and a `toml::map::Map` are opaque here, so their
//! contents are given names: [`value_model`] and [`table_model`] stand for
//! what a node holds, and [`toml_document`] for what parsing a text yields
//! — a function of the text alone. Each accessor below is specified over
//! those names exactly as the crate's source shows: it answers `Some` for
//! its own kind of node, handing that kind's payload out, and `None` for
//! every other kind.

use vstd::prelude::*;

verus! {

/// The shape and contents of one TOML node, as plain values: the payload
/// of a string, integer, fractional (as its bit pattern), boolean, array
/// or table node. A datetime node carries nothing this library reads.
pub enum TomlData {
    Text(Seq<char>),
    Integer(i64),
    FloatBits(u64),
    Boolean(bool),
    Datetime,
    Array(Seq<TomlData>),
    Table(Map<Seq<char>, TomlData>),
}

#[verifier::external_type_specification]
#[verifier::external_body]
pub struct ExTomlValue(toml::Value);

#[verifier::external_type_specification]
#[verifier::external_body]
#[verifier::reject_recursive_types(K)]
#[verifier::reject_recursive_types(V)]
pub struct ExTomlMap<K, V>(toml::map::Map<K, V>);

/// What one TOML node holds. Named here; stated by the accessors below.
pub uninterp spec fn value_model(v: toml::Value) -> TomlData;

/// What a TOML table holds, keyed by its keys. Named here; stated by
/// [`table_get`] and the accessors below.
pub uninterp spec fn table_model(t: toml::map::Map<String, toml::Value>) -> Map<Seq<char>, TomlData>;

/// The top-level table that the TOML format assigns to a text: `Some`
/// exactly when the text is a well-formed TOML document, holding its
/// contents. A function of the text alone. Named here; stated by
/// [`parse_toml_table`].
pub uninterp spec fn toml_document(text: Seq<char>) -> Option<Map<Seq<char>, TomlData>>;

/// What a list of TOML nodes holds, element by element.
pub open spec fn values_model(s: Seq<toml::Value>) -> Seq<TomlData> {
    s.map_values(|v: toml::Value| value_model(v))
}

/// Relies on `toml::from_str`: parses a TOML document into its top-level
/// table — succeeding exactly on well-formed documents, whose contents
/// depend on the text alone — or reports a syntax error described by
/// `toml::de::Error`.
#[verifier::external_body]
pub(crate) fn parse_toml_table(text: &str) -> (r: Result<
    toml::map::Map<String, toml::Value>,
    String,
>)
    ensures
        match r {
            Ok(t) => toml_document(text@) == Some(table_model(t)),
            Err(_) => toml_document(text@) is None,
        },
{
    match toml::from_str::<toml::Table>(text) {
        Ok(table) => Ok(table),
        Err(e) => Err(e.to_string()),
    }
}

/// Relies on `toml::map::Map::get`: looks a key up in a table, answering
/// exactly when the table holds the key.
#[verifier::external_body]
pub(crate) fn table_get<'a>(table: &'a toml::map::Map<String, toml::Value>, key: &str) -> (r:
    Option<&'a toml::Value>)
    ensures
        match r {
            Some(v) => table_model(*table).contains_key(key@) && value_model(*v) == table_model(
                *table,
            )[key@],
            None => !table_model(*table).contains_key(key@),
        },
{
    table.get(key)
}

/// Relies on `toml::Value::as_str`: the string a node holds, exactly when
/// it is a string node.
#[verifier::external_body]
pub(crate) fn value_as_string(v: &toml::Value) -> (r: Option<String>)
    ensures
        match r {
            Some(s) => value_model(*v) == TomlData::Text(s@),
            None => !(value_model(*v) is Text),
        },
{
    v.as_str().map(|s| s.to_owned())
}

/// Relies on `toml::Value::as_integer`: the integer a node holds, exactly
/// when it is an integer node.
#[verifier::external_body]
pub(crate) fn value_as_integer(v: &toml::Value) -> (r: Option<i64>)
    ensures
        match r {
            Some(i) => value_model(*v) == TomlData::Integer(i),
            None => !(value_model(*v) is Integer),
        },
{
    v.as_integer()
}

/// Relies on `toml::Value::as_bool`: the boolean a node holds, exactly
/// when it is a boolean node.
#[verifier::external_body]
pub(crate) fn value_as_bool(v: &toml::Value) -> (r: Option<bool>)
    ensures
        match r {
            Some(b) => value_model(*v) == TomlData::Boolean(b),
            None => !(value_model(*v) is Boolean),
        },
{
    v.as_bool()
}

/// Relies on `toml::Value::as_float`: the bit pattern of the
/// double-precision number a node holds, exactly when it is a fractional
/// node.
#[verifier::external_body]
pub(crate) fn value_as_float_bits(v: &toml::Value) -> (r: Option<u64>)
    ensures
        match r {
            Some(bits) => value_model(*v) == TomlData::FloatBits(bits),
            None => !(value_model(*v) is FloatBits),
        },
{
    v.as_float().map(|x| x.to_bits())
}

/// Relies on `toml::Value::as_array`: the element list a node holds,
/// exactly when it is an array node.
#[verifier::external_body]
pub(crate) fn value_as_array<'a>(v: &'a toml::Value) -> (r: Option<&'a Vec<toml::Value>>)
    ensures
        match r {
            Some(arr) => value_model(*v) == TomlData::Array(values_model(arr@)),
            None => !(value_model(*v) is Array),
        },
{
    v.as_array()
}

/// Relies on `toml::Value::as_table`: the table a node holds, exactly when
/// it is a table node.
#[verifier::external_body]
pub(crate) fn value_as_table<'a>(v: &'a toml::Value) -> (r: Option<
    &'a toml::map::Map<String, toml::Value>,
>)
    ensures
        match r {
            Some(t) => value_model(*v) == TomlData::Table(table_model(*t)),
            None => !(value_model(*v) is Table),
        },
{
    v.as_table()
}

} // verus!
