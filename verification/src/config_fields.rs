//! Shared plumbing for reading configuration files: what the TOML tree
//! offers for one expected key, how a single field resolves — defaults,
//! required fields, ranges — and how a field's failure reads. Everything is
//! specified against the named contents of the parsed document, so a file's
//! text decides the outcome.

use vstd::prelude::*;
use crate::text::{contains_seq, lemma_contains_at};
use crate::toml_values::{
    TomlData, table_get, table_model, value_as_bool, value_as_integer, value_as_string,
};

verus! {

broadcast use vstd::string::group_string_axioms;

/// What the TOML tree offers for one expected key: nothing, a value of the
/// wrong type, or a value of the expected type.
pub enum TomlField<T> {
    Absent,
    WrongType,
    Present(T),
}

/// What a text-valued field holds.
pub open spec fn string_field_model(f: TomlField<String>) -> TomlField<Seq<char>> {
    match f {
        TomlField::Absent => TomlField::Absent,
        TomlField::WrongType => TomlField::WrongType,
        TomlField::Present(s) => TomlField::Present(s@),
    }
}

/// What a document offers under a key as text.
pub open spec fn string_field_spec(m: Map<Seq<char>, TomlData>, key: Seq<char>) -> TomlField<
    Seq<char>,
> {
    if !m.contains_key(key) {
        TomlField::Absent
    } else {
        match m[key] {
            TomlData::Text(s) => TomlField::Present(s),
            _ => TomlField::WrongType,
        }
    }
}

/// What a document offers under a key as a boolean.
pub open spec fn bool_field_spec(m: Map<Seq<char>, TomlData>, key: Seq<char>) -> TomlField<bool> {
    if !m.contains_key(key) {
        TomlField::Absent
    } else {
        match m[key] {
            TomlData::Boolean(b) => TomlField::Present(b),
            _ => TomlField::WrongType,
        }
    }
}

/// What a document offers under a key as an integer.
pub open spec fn integer_field_spec(m: Map<Seq<char>, TomlData>, key: Seq<char>) -> TomlField<
    i64,
> {
    if !m.contains_key(key) {
        TomlField::Absent
    } else {
        match m[key] {
            TomlData::Integer(i) => TomlField::Present(i),
            _ => TomlField::WrongType,
        }
    }
}

/// Reads one key as text.
pub fn get_string_field(t: &toml::map::Map<String, toml::Value>, key: &str) -> (r: TomlField<
    String,
>)
    ensures
        string_field_model(r) == string_field_spec(table_model(*t), key@),
{
    match table_get(t, key) {
        None => TomlField::Absent,
        Some(v) => match value_as_string(v) {
            Some(s) => TomlField::Present(s),
            None => TomlField::WrongType,
        },
    }
}

/// Reads one key as a boolean.
pub fn get_bool_field(t: &toml::map::Map<String, toml::Value>, key: &str) -> (r: TomlField<bool>)
    ensures
        r == bool_field_spec(table_model(*t), key@),
{
    match table_get(t, key) {
        None => TomlField::Absent,
        Some(v) => match value_as_bool(v) {
            Some(b) => TomlField::Present(b),
            None => TomlField::WrongType,
        },
    }
}

/// Reads one key as an integer.
pub fn get_integer_field(t: &toml::map::Map<String, toml::Value>, key: &str) -> (r: TomlField<
    i64,
>)
    ensures
        r == integer_field_spec(table_model(*t), key@),
{
    match table_get(t, key) {
        None => TomlField::Absent,
        Some(v) => match value_as_integer(v) {
            Some(i) => TomlField::Present(i),
            None => TomlField::WrongType,
        },
    }
}

/// An error localized to one field of a configuration file.
#[derive(Clone, Debug)]
pub enum FieldError {
    Missing { field: String },
    WrongType { field: String },
    UnknownToken { field: String, token: String },
}

/// The mathematical content of a field error: which kind, at which field,
/// with which offending token.
pub enum FieldErrorModel {
    Missing { field: Seq<char> },
    WrongType { field: Seq<char> },
    UnknownToken { field: Seq<char>, token: Seq<char> },
}

/// What a field error holds.
pub open spec fn fe_model(e: FieldError) -> FieldErrorModel {
    match e {
        FieldError::Missing { field } => FieldErrorModel::Missing { field: field@ },
        FieldError::WrongType { field } => FieldErrorModel::WrongType { field: field@ },
        FieldError::UnknownToken { field, token } => FieldErrorModel::UnknownToken {
            field: field@,
            token: token@,
        },
    }
}

/// How a field error reads.
pub open spec fn fe_message_spec(e: FieldErrorModel) -> Seq<char> {
    match e {
        FieldErrorModel::Missing { field } => "missing field \""@ + field + "\""@,
        FieldErrorModel::WrongType { field } => "invalid value for field \""@ + field + "\""@,
        FieldErrorModel::UnknownToken { field, token } => "unknown value \""@ + token
            + "\" for field \""@ + field + "\""@,
    }
}

impl FieldError {
    /// Renders this error as text.
    pub fn message(&self) -> (r: String)
        ensures
            r@ == fe_message_spec(fe_model(*self)),
    {
        match self {
            FieldError::Missing { field } => {
                let mut m = "missing field \"".to_owned();
                m.append(field.as_str());
                m.append("\"");
                m
            },
            FieldError::WrongType { field } => {
                let mut m = "invalid value for field \"".to_owned();
                m.append(field.as_str());
                m.append("\"");
                m
            },
            FieldError::UnknownToken { field, token } => {
                let mut m = "unknown value \"".to_owned();
                m.append(token.as_str());
                m.append("\" for field \"");
                m.append(field.as_str());
                m.append("\"");
                m
            },
        }
    }
}

/// A boolean setting with a default: absent means the default, a value of
/// another type is an error.
pub open spec fn resolve_bool_spec(f: TomlField<bool>, name: Seq<char>, default: bool) -> Result<
    bool,
    FieldErrorModel,
> {
    match f {
        TomlField::Absent => Ok(default),
        TomlField::WrongType => Err(FieldErrorModel::WrongType { field: name }),
        TomlField::Present(b) => Ok(b),
    }
}

/// An optional text setting: absent means none.
pub open spec fn resolve_opt_string_spec(f: TomlField<Seq<char>>, name: Seq<char>) -> Result<
    Option<Seq<char>>,
    FieldErrorModel,
> {
    match f {
        TomlField::Absent => Ok(None),
        TomlField::WrongType => Err(FieldErrorModel::WrongType { field: name }),
        TomlField::Present(s) => Ok(Some(s)),
    }
}

/// A required text setting.
pub open spec fn resolve_req_string_spec(f: TomlField<Seq<char>>, name: Seq<char>) -> Result<
    Seq<char>,
    FieldErrorModel,
> {
    match f {
        TomlField::Absent => Err(FieldErrorModel::Missing { field: name }),
        TomlField::WrongType => Err(FieldErrorModel::WrongType { field: name }),
        TomlField::Present(s) => Ok(s),
    }
}

/// An unsigned setting with a default: the integer must fit in 32 bits.
pub open spec fn resolve_u32_or_spec(f: TomlField<i64>, name: Seq<char>, default: u32) -> Result<
    u32,
    FieldErrorModel,
> {
    match f {
        TomlField::Absent => Ok(default),
        TomlField::WrongType => Err(FieldErrorModel::WrongType { field: name }),
        TomlField::Present(i) => if 0 <= i <= u32::MAX {
            Ok(i as u32)
        } else {
            Err(FieldErrorModel::WrongType { field: name })
        },
    }
}

/// An optional unsigned setting: the integer must fit in 32 bits.
pub open spec fn resolve_opt_u32_spec(f: TomlField<i64>, name: Seq<char>) -> Result<
    Option<u32>,
    FieldErrorModel,
> {
    match f {
        TomlField::Absent => Ok(None),
        TomlField::WrongType => Err(FieldErrorModel::WrongType { field: name }),
        TomlField::Present(i) => if 0 <= i <= u32::MAX {
            Ok(Some(i as u32))
        } else {
            Err(FieldErrorModel::WrongType { field: name })
        },
    }
}

pub fn resolve_bool(f: TomlField<bool>, name: &str, default: bool) -> (r: Result<bool, FieldError>)
    ensures
        match r {
            Ok(v) => resolve_bool_spec(f, name@, default) == Ok::<bool, FieldErrorModel>(v),
            Err(e) => resolve_bool_spec(f, name@, default) == Err::<bool, _>(fe_model(e)),
        },
{
    match f {
        TomlField::Absent => Ok(default),
        TomlField::WrongType => Err(FieldError::WrongType { field: name.to_owned() }),
        TomlField::Present(b) => Ok(b),
    }
}

pub fn resolve_opt_string(f: TomlField<String>, name: &str) -> (r: Result<
    Option<String>,
    FieldError,
>)
    ensures
        match r {
            Ok(v) => resolve_opt_string_spec(string_field_model(f), name@) == Ok::<
                Option<Seq<char>>,
                FieldErrorModel,
            >(v.deep_view()),
            Err(e) => resolve_opt_string_spec(string_field_model(f), name@) == Err::<
                Option<Seq<char>>,
                _,
            >(fe_model(e)),
        },
{
    match f {
        TomlField::Absent => Ok(None),
        TomlField::WrongType => Err(FieldError::WrongType { field: name.to_owned() }),
        TomlField::Present(s) => Ok(Some(s)),
    }
}

pub fn resolve_req_string(f: TomlField<String>, name: &str) -> (r: Result<String, FieldError>)
    ensures
        match r {
            Ok(v) => resolve_req_string_spec(string_field_model(f), name@) == Ok::<
                Seq<char>,
                FieldErrorModel,
            >(v@),
            Err(e) => resolve_req_string_spec(string_field_model(f), name@) == Err::<Seq<char>, _>(
                fe_model(e),
            ),
        },
{
    match f {
        TomlField::Absent => Err(FieldError::Missing { field: name.to_owned() }),
        TomlField::WrongType => Err(FieldError::WrongType { field: name.to_owned() }),
        TomlField::Present(s) => Ok(s),
    }
}

pub fn resolve_u32_or(f: TomlField<i64>, name: &str, default: u32) -> (r: Result<u32, FieldError>)
    ensures
        match r {
            Ok(v) => resolve_u32_or_spec(f, name@, default) == Ok::<u32, FieldErrorModel>(v),
            Err(e) => resolve_u32_or_spec(f, name@, default) == Err::<u32, _>(fe_model(e)),
        },
{
    match f {
        TomlField::Absent => Ok(default),
        TomlField::WrongType => Err(FieldError::WrongType { field: name.to_owned() }),
        TomlField::Present(i) => if 0 <= i && i <= u32::MAX as i64 {
            Ok(i as u32)
        } else {
            Err(FieldError::WrongType { field: name.to_owned() })
        },
    }
}

pub fn resolve_opt_u32(f: TomlField<i64>, name: &str) -> (r: Result<Option<u32>, FieldError>)
    ensures
        match r {
            Ok(v) => resolve_opt_u32_spec(f, name@) == Ok::<Option<u32>, FieldErrorModel>(v),
            Err(e) => resolve_opt_u32_spec(f, name@) == Err::<Option<u32>, _>(fe_model(e)),
        },
{
    match f {
        TomlField::Absent => Ok(None),
        TomlField::WrongType => Err(FieldError::WrongType { field: name.to_owned() }),
        TomlField::Present(i) => if 0 <= i && i <= u32::MAX as i64 {
            Ok(Some(i as u32))
        } else {
            Err(FieldError::WrongType { field: name.to_owned() })
        },
    }
}

/// Wraps a parse failure's description in the message the store reports.
pub open spec fn parse_error_message(stem: Seq<char>, detail: Seq<char>) -> Seq<char> {
    "could not parse TOML \""@ + stem + "\", "@ + detail
}

/// Wraps a parse failure's description in the message the store reports.
pub fn wrap_parse_error(stem: &str, detail: &str) -> (r: String)
    ensures
        r@ == parse_error_message(stem@, detail@),
{
    let mut m = "could not parse TOML \"".to_owned();
    m.append(stem);
    m.append("\", ");
    m.append(detail);
    m
}

/// A wrapped parse failure names its file and says what went wrong.
pub proof fn lemma_wrap_contains(m: Seq<char>, stem: Seq<char>, detail: Seq<char>)
    requires
        m == parse_error_message(stem, detail),
    ensures
        contains_seq(m, "could not parse TOML"@),
        contains_seq(m, stem),
{
    reveal_strlit("could not parse TOML \"");
    reveal_strlit("could not parse TOML");
    let p = "could not parse TOML \""@;
    assert(m.subrange(0, "could not parse TOML"@.len() as int) =~= "could not parse TOML"@);
    lemma_contains_at(m, "could not parse TOML"@, 0);
    assert(m.subrange(p.len() as int, p.len() as int + stem.len() as int) =~= stem);
    lemma_contains_at(m, stem, p.len() as int);
}

} // verus!
