//! The server's own configuration: bind address, configuration directory,
//! optional event-log destination, log level and rotation policy, optional
//! TLS material — read once at startup from a TOML file whose path comes
//! from an explicit argument first, the environment second, and otherwise
//! fails.

use vstd::prelude::*;
use crate::config_fields::{
    FieldError, FieldErrorModel, TomlField, fe_message_spec, fe_model, get_string_field,
    lemma_wrap_contains, parse_error_message, resolve_opt_string, resolve_opt_string_spec,
    resolve_req_string, resolve_req_string_spec, string_field_model, string_field_spec,
    wrap_parse_error,
};
use crate::text::{contains_seq, str_eq};
use crate::toml_values::{
    TomlData, parse_toml_table, table_get, table_model, toml_document, value_as_table,
};

verus! {

/// How uploaded events are written out. One combined log is the only mode
/// so far.
#[derive(Clone, Copy, Debug, PartialEq, Eq, Structural)]
pub enum EventLogMode {
    Combined,
}

/// The server log's verbosity threshold.
#[derive(Clone, Copy, Debug, PartialEq, Eq, Structural)]
pub enum LogLevel {
    Trace,
    Debug,
    Info,
    Warn,
    Error,
    Critical,
}

/// What to do when the server log file already exists.
#[derive(Clone, Copy, Debug, PartialEq, Eq, Structural)]
pub enum LogMode {
    Fail,
    Truncate,
    Append,
}

/// The log level a token names, if any: the closed set of tokens is
/// `trace`, `debug`, `info`, `warn`, `error` and `critical`.
pub open spec fn log_level_from_spec(s: Seq<char>) -> Option<LogLevel> {
    if s == "trace"@ {
        Some(LogLevel::Trace)
    } else if s == "debug"@ {
        Some(LogLevel::Debug)
    } else if s == "info"@ {
        Some(LogLevel::Info)
    } else if s == "warn"@ {
        Some(LogLevel::Warn)
    } else if s == "error"@ {
        Some(LogLevel::Error)
    } else if s == "critical"@ {
        Some(LogLevel::Critical)
    } else {
        None
    }
}

/// Parses a log-level token.
pub fn log_level_from_str(s: &str) -> (r: Option<LogLevel>)
    ensures
        r == log_level_from_spec(s@),
{
    if str_eq(s, "trace") {
        Some(LogLevel::Trace)
    } else if str_eq(s, "debug") {
        Some(LogLevel::Debug)
    } else if str_eq(s, "info") {
        Some(LogLevel::Info)
    } else if str_eq(s, "warn") {
        Some(LogLevel::Warn)
    } else if str_eq(s, "error") {
        Some(LogLevel::Error)
    } else if str_eq(s, "critical") {
        Some(LogLevel::Critical)
    } else {
        None
    }
}

/// The log mode a token names, if any: the closed set of tokens is `fail`,
/// `truncate` and `append`.
pub open spec fn log_mode_from_spec(s: Seq<char>) -> Option<LogMode> {
    if s == "fail"@ {
        Some(LogMode::Fail)
    } else if s == "truncate"@ {
        Some(LogMode::Truncate)
    } else if s == "append"@ {
        Some(LogMode::Append)
    } else {
        None
    }
}

/// Parses a log-mode token.
pub fn log_mode_from_str(s: &str) -> (r: Option<LogMode>)
    ensures
        r == log_mode_from_spec(s@),
{
    if str_eq(s, "fail") {
        Some(LogMode::Fail)
    } else if str_eq(s, "truncate") {
        Some(LogMode::Truncate)
    } else if str_eq(s, "append") {
        Some(LogMode::Append)
    } else {
        None
    }
}

/// Paths to the certificate and key files for TLS.
#[derive(Clone, Debug)]
pub struct TlsConfig {
    pub cert_file: String,
    pub key_file: String,
}

/// The server's startup configuration.
#[derive(Clone, Debug)]
pub struct ServerConfig {
    /// The socket address to bind, kept as written; the transport layer
    /// parses it.
    pub bind_address: String,
    /// The directory of per-machine configuration files.
    pub client_config_path: String,
    /// Where uploaded events are appended; absent means event logging is
    /// disabled.
    pub event_log_path: Option<String>,
    pub log_level: LogLevel,
    pub log_mode: LogMode,
    pub log_path: String,
    pub tls_config: Option<TlsConfig>,
}

/// The configuration file's path resolves from the explicit argument first,
/// then from the environment, and otherwise the startup fails.
pub open spec fn config_path_resolution(arg: Option<String>, env_val: Option<String>) -> Option<
    String,
> {
    match arg {
        Some(p) => Some(p),
        None => env_val,
    }
}

/// Resolves where the server configuration file is, by the explicit
/// precedence: argument, then environment, then failure.
pub fn resolve_config_path(arg: Option<String>, env_val: Option<String>) -> (r: Result<
    String,
    String,
>)
    ensures
        match r {
            Ok(p) => config_path_resolution(arg, env_val) == Some(p),
            Err(m) => config_path_resolution(arg, env_val) is None && m@
                == "chimney server config path not defined"@,
        },
{
    match arg {
        Some(p) => Ok(p),
        None => match env_val {
            Some(p) => Ok(p),
            None => Err("chimney server config path not defined".to_owned()),
        },
    }
}

/// The mathematical content of a TLS section.
pub struct TlsConfigModel {
    pub cert_file: Seq<char>,
    pub key_file: Seq<char>,
}

/// The mathematical content of a server configuration.
pub struct ServerConfigModel {
    pub bind_address: Seq<char>,
    pub client_config_path: Seq<char>,
    pub event_log_path: Option<Seq<char>>,
    pub log_level: LogLevel,
    pub log_mode: LogMode,
    pub log_path: Seq<char>,
    pub tls_config: Option<TlsConfigModel>,
}

/// What a server configuration holds.
pub open spec fn server_config_model(c: ServerConfig) -> ServerConfigModel {
    ServerConfigModel {
        bind_address: c.bind_address@,
        client_config_path: c.client_config_path@,
        event_log_path: c.event_log_path.deep_view(),
        log_level: c.log_level,
        log_mode: c.log_mode,
        log_path: c.log_path@,
        tls_config: match c.tls_config {
            None => None,
            Some(t) => Some(TlsConfigModel { cert_file: t.cert_file@, key_file: t.key_file@ }),
        },
    }
}

/// The log level, defaulting to `info` when absent.
pub open spec fn resolve_log_level_spec(f: TomlField<Seq<char>>, name: Seq<char>) -> Result<
    LogLevel,
    FieldErrorModel,
> {
    match f {
        TomlField::Absent => Ok(LogLevel::Info),
        TomlField::WrongType => Err(FieldErrorModel::WrongType { field: name }),
        TomlField::Present(s) => match log_level_from_spec(s) {
            Some(l) => Ok(l),
            None => Err(FieldErrorModel::UnknownToken { field: name, token: s }),
        },
    }
}

/// The log mode, defaulting to `append` when absent.
pub open spec fn resolve_log_mode_spec(f: TomlField<Seq<char>>, name: Seq<char>) -> Result<
    LogMode,
    FieldErrorModel,
> {
    match f {
        TomlField::Absent => Ok(LogMode::Append),
        TomlField::WrongType => Err(FieldErrorModel::WrongType { field: name }),
        TomlField::Present(s) => match log_mode_from_spec(s) {
            Some(m) => Ok(m),
            None => Err(FieldErrorModel::UnknownToken { field: name, token: s }),
        },
    }
}

fn resolve_log_level(f: TomlField<String>, name: &str) -> (r: Result<LogLevel, FieldError>)
    ensures
        match r {
            Ok(v) => resolve_log_level_spec(string_field_model(f), name@) == Ok::<
                LogLevel,
                FieldErrorModel,
            >(v),
            Err(e) => resolve_log_level_spec(string_field_model(f), name@) == Err::<LogLevel, _>(
                fe_model(e),
            ),
        },
{
    match f {
        TomlField::Absent => Ok(LogLevel::Info),
        TomlField::WrongType => Err(FieldError::WrongType { field: name.to_owned() }),
        TomlField::Present(s) => match log_level_from_str(s.as_str()) {
            Some(l) => Ok(l),
            None => Err(FieldError::UnknownToken { field: name.to_owned(), token: s }),
        },
    }
}

fn resolve_log_mode(f: TomlField<String>, name: &str) -> (r: Result<LogMode, FieldError>)
    ensures
        match r {
            Ok(v) => resolve_log_mode_spec(string_field_model(f), name@) == Ok::<
                LogMode,
                FieldErrorModel,
            >(v),
            Err(e) => resolve_log_mode_spec(string_field_model(f), name@) == Err::<LogMode, _>(
                fe_model(e),
            ),
        },
{
    match f {
        TomlField::Absent => Ok(LogMode::Append),
        TomlField::WrongType => Err(FieldError::WrongType { field: name.to_owned() }),
        TomlField::Present(s) => match log_mode_from_str(s.as_str()) {
            Some(m) => Ok(m),
            None => Err(FieldError::UnknownToken { field: name.to_owned(), token: s }),
        },
    }
}

/// What the TLS section offers for each expected key.
pub struct RawTls {
    pub cert_file: TomlField<String>,
    pub key_file: TomlField<String>,
}

/// The mathematical content of a raw TLS section.
pub struct RawTlsModel {
    pub cert_file: TomlField<Seq<char>>,
    pub key_file: TomlField<Seq<char>>,
}

/// What a raw TLS section holds.
pub open spec fn raw_tls_model(raw: RawTls) -> RawTlsModel {
    RawTlsModel {
        cert_file: string_field_model(raw.cert_file),
        key_file: string_field_model(raw.key_file),
    }
}

/// What a server configuration file offers for each expected key.
pub struct RawServerConfig {
    pub bind_address: TomlField<String>,
    pub client_config_path: TomlField<String>,
    pub event_log_path: TomlField<String>,
    pub log_level: TomlField<String>,
    pub log_mode: TomlField<String>,
    pub log_path: TomlField<String>,
    pub tls_config: TomlField<RawTls>,
}

/// The mathematical content of a raw server configuration.
pub struct RawServerConfigModel {
    pub bind_address: TomlField<Seq<char>>,
    pub client_config_path: TomlField<Seq<char>>,
    pub event_log_path: TomlField<Seq<char>>,
    pub log_level: TomlField<Seq<char>>,
    pub log_mode: TomlField<Seq<char>>,
    pub log_path: TomlField<Seq<char>>,
    pub tls_config: TomlField<RawTlsModel>,
}

/// What a raw server configuration holds.
pub open spec fn raw_server_config_model(raw: RawServerConfig) -> RawServerConfigModel {
    RawServerConfigModel {
        bind_address: string_field_model(raw.bind_address),
        client_config_path: string_field_model(raw.client_config_path),
        event_log_path: string_field_model(raw.event_log_path),
        log_level: string_field_model(raw.log_level),
        log_mode: string_field_model(raw.log_mode),
        log_path: string_field_model(raw.log_path),
        tls_config: match raw.tls_config {
            TomlField::Absent => TomlField::Absent,
            TomlField::WrongType => TomlField::WrongType,
            TomlField::Present(t) => TomlField::Present(raw_tls_model(t)),
        },
    }
}

/// What a parsed document offers for the TLS section.
pub open spec fn tls_field_spec(m: Map<Seq<char>, TomlData>) -> TomlField<RawTlsModel> {
    if !m.contains_key("tls_config"@) {
        TomlField::Absent
    } else {
        match m["tls_config"@] {
            TomlData::Table(t) => TomlField::Present(
                RawTlsModel {
                    cert_file: string_field_spec(t, "cert_file"@),
                    key_file: string_field_spec(t, "key_file"@),
                },
            ),
            _ => TomlField::WrongType,
        }
    }
}

/// What a parsed document offers for the server configuration's keys.
pub open spec fn raw_server_config_of_doc(m: Map<Seq<char>, TomlData>) -> RawServerConfigModel {
    RawServerConfigModel {
        bind_address: string_field_spec(m, "bind_address"@),
        client_config_path: string_field_spec(m, "client_config_path"@),
        event_log_path: string_field_spec(m, "event_log_path"@),
        log_level: string_field_spec(m, "log_level"@),
        log_mode: string_field_spec(m, "log_mode"@),
        log_path: string_field_spec(m, "log_path"@),
        tls_config: tls_field_spec(m),
    }
}

/// Reads the TLS section.
fn raw_tls_from_table(t: &toml::map::Map<String, toml::Value>) -> (r: TomlField<RawTls>)
    ensures
        (match r {
            TomlField::Absent => TomlField::Absent,
            TomlField::WrongType => TomlField::WrongType,
            TomlField::Present(tls) => TomlField::Present(raw_tls_model(tls)),
        }) == tls_field_spec(table_model(*t)),
{
    match table_get(t, "tls_config") {
        None => TomlField::Absent,
        Some(v) => match value_as_table(v) {
            None => TomlField::WrongType,
            Some(tls) => TomlField::Present(
                RawTls {
                    cert_file: get_string_field(tls, "cert_file"),
                    key_file: get_string_field(tls, "key_file"),
                },
            ),
        },
    }
}

/// Reads a server configuration file's keys.
pub fn raw_server_config_from_table(t: &toml::map::Map<String, toml::Value>) -> (r:
    RawServerConfig)
    ensures
        raw_server_config_model(r) == raw_server_config_of_doc(table_model(*t)),
{
    RawServerConfig {
        bind_address: get_string_field(t, "bind_address"),
        client_config_path: get_string_field(t, "client_config_path"),
        event_log_path: get_string_field(t, "event_log_path"),
        log_level: get_string_field(t, "log_level"),
        log_mode: get_string_field(t, "log_mode"),
        log_path: get_string_field(t, "log_path"),
        tls_config: raw_tls_from_table(t),
    }
}

/// How the TLS section resolves: both file paths are required.
pub open spec fn tls_resolution(f: TomlField<RawTlsModel>, name: Seq<char>) -> Result<
    Option<TlsConfigModel>,
    FieldErrorModel,
> {
    match f {
        TomlField::Absent => Ok(None),
        TomlField::WrongType => Err(FieldErrorModel::WrongType { field: name }),
        TomlField::Present(raw) => {
            let r_cert = resolve_req_string_spec(raw.cert_file, "cert_file"@);
            let r_key = resolve_req_string_spec(raw.key_file, "key_file"@);
            if r_cert is Err {
                Err(r_cert->Err_0)
            } else if r_key is Err {
                Err(r_key->Err_0)
            } else {
                Ok(Some(TlsConfigModel { cert_file: r_cert->Ok_0, key_file: r_key->Ok_0 }))
            }
        },
    }
}

fn resolve_tls(f: TomlField<RawTls>, name: &str) -> (r: Result<Option<TlsConfig>, FieldError>)
    ensures
        match r {
            Ok(v) => tls_resolution(
                match f {
                    TomlField::Absent => TomlField::Absent,
                    TomlField::WrongType => TomlField::WrongType,
                    TomlField::Present(t) => TomlField::Present(raw_tls_model(t)),
                },
                name@,
            ) == Ok::<Option<TlsConfigModel>, FieldErrorModel>(
                match v {
                    None => None,
                    Some(t) => Some(
                        TlsConfigModel { cert_file: t.cert_file@, key_file: t.key_file@ },
                    ),
                },
            ),
            Err(e) => tls_resolution(
                match f {
                    TomlField::Absent => TomlField::Absent,
                    TomlField::WrongType => TomlField::WrongType,
                    TomlField::Present(t) => TomlField::Present(raw_tls_model(t)),
                },
                name@,
            ) == Err::<Option<TlsConfigModel>, _>(fe_model(e)),
        },
{
    match f {
        TomlField::Absent => Ok(None),
        TomlField::WrongType => Err(FieldError::WrongType { field: name.to_owned() }),
        TomlField::Present(raw) => {
            let RawTls { cert_file, key_file } = raw;
            let cert_file = match resolve_req_string(cert_file, "cert_file") {
                Ok(v) => v,
                Err(e) => return Err(e),
            };
            let key_file = match resolve_req_string(key_file, "key_file") {
                Ok(v) => v,
                Err(e) => return Err(e),
            };
            Ok(Some(TlsConfig { cert_file, key_file }))
        },
    }
}

/// How a raw server configuration resolves: the first offending field in
/// declaration order decides the error; `bind_address`, the configuration
/// directory and the log path are required, the log level defaults to
/// `info`, the log mode to `append`, and the event log and TLS sections are
/// optional.
pub open spec fn server_config_resolution(raw: RawServerConfigModel) -> Result<
    ServerConfigModel,
    FieldErrorModel,
> {
    let r_bind = resolve_req_string_spec(raw.bind_address, "bind_address"@);
    let r_dir = resolve_req_string_spec(raw.client_config_path, "client_config_path"@);
    let r_event = resolve_opt_string_spec(raw.event_log_path, "event_log_path"@);
    let r_level = resolve_log_level_spec(raw.log_level, "log_level"@);
    let r_mode = resolve_log_mode_spec(raw.log_mode, "log_mode"@);
    let r_path = resolve_req_string_spec(raw.log_path, "log_path"@);
    let r_tls = tls_resolution(raw.tls_config, "tls_config"@);
    if r_bind is Err {
        Err(r_bind->Err_0)
    } else if r_dir is Err {
        Err(r_dir->Err_0)
    } else if r_event is Err {
        Err(r_event->Err_0)
    } else if r_level is Err {
        Err(r_level->Err_0)
    } else if r_mode is Err {
        Err(r_mode->Err_0)
    } else if r_path is Err {
        Err(r_path->Err_0)
    } else if r_tls is Err {
        Err(r_tls->Err_0)
    } else {
        Ok(
            ServerConfigModel {
                bind_address: r_bind->Ok_0,
                client_config_path: r_dir->Ok_0,
                event_log_path: r_event->Ok_0,
                log_level: r_level->Ok_0,
                log_mode: r_mode->Ok_0,
                log_path: r_path->Ok_0,
                tls_config: r_tls->Ok_0,
            },
        )
    }
}

/// Resolves a raw server configuration.
pub fn server_config_from_raw(raw: RawServerConfig) -> (r: Result<ServerConfig, FieldError>)
    ensures
        match r {
            Ok(c) => server_config_resolution(raw_server_config_model(raw)) == Ok::<
                ServerConfigModel,
                FieldErrorModel,
            >(server_config_model(c)),
            Err(e) => server_config_resolution(raw_server_config_model(raw)) == Err::<
                ServerConfigModel,
                _,
            >(fe_model(e)),
        },
{
    let RawServerConfig {
        bind_address,
        client_config_path,
        event_log_path,
        log_level,
        log_mode,
        log_path,
        tls_config,
    } = raw;
    let bind_address = match resolve_req_string(bind_address, "bind_address") {
        Ok(v) => v,
        Err(e) => return Err(e),
    };
    let client_config_path = match resolve_req_string(client_config_path, "client_config_path") {
        Ok(v) => v,
        Err(e) => return Err(e),
    };
    let event_log_path = match resolve_opt_string(event_log_path, "event_log_path") {
        Ok(v) => v,
        Err(e) => return Err(e),
    };
    let log_level = match resolve_log_level(log_level, "log_level") {
        Ok(v) => v,
        Err(e) => return Err(e),
    };
    let log_mode = match resolve_log_mode(log_mode, "log_mode") {
        Ok(v) => v,
        Err(e) => return Err(e),
    };
    let log_path = match resolve_req_string(log_path, "log_path") {
        Ok(v) => v,
        Err(e) => return Err(e),
    };
    let tls_config = match resolve_tls(tls_config, "tls_config") {
        Ok(v) => v,
        Err(e) => return Err(e),
    };
    Ok(
        ServerConfig {
            bind_address,
            client_config_path,
            event_log_path,
            log_level,
            log_mode,
            log_path,
            tls_config,
        },
    )
}

/// Everything [`ServerConfig::from_text`] promises: success exactly when
/// the text is a well-formed TOML document whose every field resolves, and
/// then the configuration is the document's resolution; otherwise failure,
/// with a message that wraps the exact field error (or the TOML syntax
/// error's description) and names the file.
pub open spec fn server_from_text_post(label: Seq<char>, text: Seq<char>, r: Result<
    ServerConfig,
    String,
>) -> bool {
    match r {
        Ok(c) => (toml_document(text) matches Some(doc) && server_config_resolution(
            raw_server_config_of_doc(doc),
        ) == Ok::<ServerConfigModel, FieldErrorModel>(server_config_model(c))),
        Err(msg) => {
            &&& match toml_document(text) {
                None => exists|detail: Seq<char>|
                    msg@ == #[trigger] parse_error_message(label, detail),
                Some(doc) => server_config_resolution(raw_server_config_of_doc(doc)) matches Err(e)
                    && msg@ == parse_error_message(label, fe_message_spec(e)),
            }
            &&& contains_seq(msg@, "could not parse TOML"@)
            &&& contains_seq(msg@, label)
        },
    }
}

impl ServerConfig {
    /// Parses the server configuration file's text. Succeeds exactly when
    /// the text parses and every field resolves; any failure — TOML syntax,
    /// a missing required field, a wrong type, a token outside its closed
    /// set — is reported as one message that names the file.
    pub fn from_text(path_label: &str, text: &str) -> (r: Result<ServerConfig, String>)
        ensures
            server_from_text_post(path_label@, text@, r),
    {
        let table = match parse_toml_table(text) {
            Ok(t) => t,
            Err(detail) => {
                let m = wrap_parse_error(path_label, detail.as_str());
                proof {
                    assert(m@ == parse_error_message(path_label@, detail@));
                    lemma_wrap_contains(m@, path_label@, detail@);
                }
                return Err(m);
            },
        };
        let raw = raw_server_config_from_table(&table);
        match server_config_from_raw(raw) {
            Ok(c) => Ok(c),
            Err(e) => {
                let msg = e.message();
                let m = wrap_parse_error(path_label, msg.as_str());
                proof {
                    lemma_wrap_contains(m@, path_label@, msg@);
                }
                Err(m)
            },
        }
    }

    /// Checks that the configured log destinations name files, not
    /// directories. The file system's answer about each path comes in as an
    /// argument; the decision and the exact message are made here.
    pub fn validate(&self, log_path_is_dir: bool, event_log_path_is_dir: bool) -> (r: Result<
        (),
        String,
    >)
        ensures
            match r {
                Ok(_) => !log_path_is_dir && (self.event_log_path is Some
                    ==> !event_log_path_is_dir),
                Err(m) => {
                    ||| log_path_is_dir && m@ == "log path \""@ + self.log_path@
                        + "\" must include the log filename"@
                    ||| !log_path_is_dir && (self.event_log_path matches Some(p)
                        && event_log_path_is_dir && m@ == "event log path \""@ + p@
                        + "\" must include the log filename"@)
                },
            },
    {
        if log_path_is_dir {
            let mut m = "log path \"".to_owned();
            m.append(self.log_path.as_str());
            m.append("\" must include the log filename");
            return Err(m);
        }
        match &self.event_log_path {
            Some(p) => {
                if event_log_path_is_dir {
                    let mut m = "event log path \"".to_owned();
                    m.append(p.as_str());
                    m.append("\" must include the log filename");
                    return Err(m);
                }
            },
            None => {},
        }
        Ok(())
    }
}

} // verus!
