//! One client configuration file: a flat settings section (the preflight
//! answer) plus an optional list of rules, parsed from TOML text. The
//! machine identifier is derived from the file's name, never from its
//! contents. The whole path from text to configuration is pinned down: the
//! named parse result of the TOML boundary decides which document the text
//! holds, and the resolution functions here decide — exactly — which
//! configuration or which error that document yields.

use vstd::prelude::*;
use crate::config_fields::{
    FieldError, FieldErrorModel, TomlField, bool_field_spec, fe_model, fe_message_spec,
    get_bool_field, get_integer_field, get_string_field, integer_field_spec, lemma_wrap_contains,
    parse_error_message, resolve_bool, resolve_bool_spec, resolve_opt_string,
    resolve_opt_string_spec, resolve_opt_u32, resolve_opt_u32_spec, resolve_req_string,
    resolve_req_string_spec, resolve_u32_or, resolve_u32_or_spec, string_field_model,
    string_field_spec, wrap_parse_error,
};
use crate::preflight::{
    ClientMode, OverrideFileAccessAction, Preflight, PreflightModel, SyncType,
    client_mode_from_spec, client_mode_from_str, override_action_from_spec,
    override_action_from_str, preflight_model, sync_type_from_spec, sync_type_from_str,
};
use crate::rule_download::{
    CreationTime, Policy, Rule, RuleModel, RuleType, policy_from_spec, policy_from_str, rule_model,
    rule_type_from_spec, rule_type_from_str, rules_model,
};
use crate::text::contains_seq;
use crate::toml_values::{
    TomlData, parse_toml_table, table_get, table_model, toml_document, value_as_array,
    value_as_float_bits, value_as_integer, value_as_table, value_model, values_model,
};

verus! {

broadcast use vstd::string::group_string_axioms;

/// What a document offers under a key as a creation time: a fractional
/// number's bit pattern or a whole number, as the file spelled it.
pub open spec fn time_field_spec(m: Map<Seq<char>, TomlData>, key: Seq<char>) -> TomlField<
    CreationTime,
> {
    if !m.contains_key(key) {
        TomlField::Absent
    } else {
        match m[key] {
            TomlData::FloatBits(bits) => TomlField::Present(CreationTime::FloatBits(bits)),
            TomlData::Integer(i) => TomlField::Present(CreationTime::Integer(i)),
            _ => TomlField::WrongType,
        }
    }
}

/// Reads one key as a creation time.
fn get_time_field(t: &toml::map::Map<String, toml::Value>, key: &str) -> (r: TomlField<
    CreationTime,
>)
    ensures
        r == time_field_spec(table_model(*t), key@),
{
    match table_get(t, key) {
        None => TomlField::Absent,
        Some(v) => match value_as_float_bits(v) {
            Some(bits) => TomlField::Present(CreationTime::FloatBits(bits)),
            None => match value_as_integer(v) {
                Some(i) => TomlField::Present(CreationTime::Integer(i)),
                None => TomlField::WrongType,
            },
        },
    }
}

/// An optional creation time.
pub open spec fn resolve_opt_time_spec(f: TomlField<CreationTime>, name: Seq<char>) -> Result<
    Option<CreationTime>,
    FieldErrorModel,
> {
    match f {
        TomlField::Absent => Ok(None),
        TomlField::WrongType => Err(FieldErrorModel::WrongType { field: name }),
        TomlField::Present(t) => Ok(Some(t)),
    }
}

fn resolve_opt_time(f: TomlField<CreationTime>, name: &str) -> (r: Result<
    Option<CreationTime>,
    FieldError,
>)
    ensures
        match r {
            Ok(v) => resolve_opt_time_spec(f, name@) == Ok::<Option<CreationTime>, FieldErrorModel>(
                v,
            ),
            Err(e) => resolve_opt_time_spec(f, name@) == Err::<Option<CreationTime>, _>(
                fe_model(e),
            ),
        },
{
    match f {
        TomlField::Absent => Ok(None),
        TomlField::WrongType => Err(FieldError::WrongType { field: name.to_owned() }),
        TomlField::Present(t) => Ok(Some(t)),
    }
}

/// The required client mode: its token must belong to the closed set.
pub open spec fn resolve_client_mode_spec(f: TomlField<Seq<char>>, name: Seq<char>) -> Result<
    ClientMode,
    FieldErrorModel,
> {
    match f {
        TomlField::Absent => Err(FieldErrorModel::Missing { field: name }),
        TomlField::WrongType => Err(FieldErrorModel::WrongType { field: name }),
        TomlField::Present(s) => match client_mode_from_spec(s) {
            Some(m) => Ok(m),
            None => Err(FieldErrorModel::UnknownToken { field: name, token: s }),
        },
    }
}

/// The sync type, defaulting to a normal sync when absent.
pub open spec fn resolve_sync_type_spec(f: TomlField<Seq<char>>, name: Seq<char>) -> Result<
    SyncType,
    FieldErrorModel,
> {
    match f {
        TomlField::Absent => Ok(SyncType::Normal),
        TomlField::WrongType => Err(FieldErrorModel::WrongType { field: name }),
        TomlField::Present(s) => match sync_type_from_spec(s) {
            Some(t) => Ok(t),
            None => Err(FieldErrorModel::UnknownToken { field: name, token: s }),
        },
    }
}

/// The required override action: its token must belong to the closed set.
pub open spec fn resolve_override_spec(f: TomlField<Seq<char>>, name: Seq<char>) -> Result<
    OverrideFileAccessAction,
    FieldErrorModel,
> {
    match f {
        TomlField::Absent => Err(FieldErrorModel::Missing { field: name }),
        TomlField::WrongType => Err(FieldErrorModel::WrongType { field: name }),
        TomlField::Present(s) => match override_action_from_spec(s) {
            Some(a) => Ok(a),
            None => Err(FieldErrorModel::UnknownToken { field: name, token: s }),
        },
    }
}

/// The required rule policy: its token must belong to the closed set.
pub open spec fn resolve_policy_spec(f: TomlField<Seq<char>>, name: Seq<char>) -> Result<
    Policy,
    FieldErrorModel,
> {
    match f {
        TomlField::Absent => Err(FieldErrorModel::Missing { field: name }),
        TomlField::WrongType => Err(FieldErrorModel::WrongType { field: name }),
        TomlField::Present(s) => match policy_from_spec(s) {
            Some(p) => Ok(p),
            None => Err(FieldErrorModel::UnknownToken { field: name, token: s }),
        },
    }
}

/// The required rule type: its token must belong to the closed set.
pub open spec fn resolve_rule_type_spec(f: TomlField<Seq<char>>, name: Seq<char>) -> Result<
    RuleType,
    FieldErrorModel,
> {
    match f {
        TomlField::Absent => Err(FieldErrorModel::Missing { field: name }),
        TomlField::WrongType => Err(FieldErrorModel::WrongType { field: name }),
        TomlField::Present(s) => match rule_type_from_spec(s) {
            Some(t) => Ok(t),
            None => Err(FieldErrorModel::UnknownToken { field: name, token: s }),
        },
    }
}

fn resolve_client_mode(f: TomlField<String>, name: &str) -> (r: Result<ClientMode, FieldError>)
    ensures
        match r {
            Ok(v) => resolve_client_mode_spec(string_field_model(f), name@) == Ok::<
                ClientMode,
                FieldErrorModel,
            >(v),
            Err(e) => resolve_client_mode_spec(string_field_model(f), name@) == Err::<
                ClientMode,
                _,
            >(fe_model(e)),
        },
{
    match f {
        TomlField::Absent => Err(FieldError::Missing { field: name.to_owned() }),
        TomlField::WrongType => Err(FieldError::WrongType { field: name.to_owned() }),
        TomlField::Present(s) => match client_mode_from_str(s.as_str()) {
            Some(m) => Ok(m),
            None => Err(FieldError::UnknownToken { field: name.to_owned(), token: s }),
        },
    }
}

fn resolve_sync_type(f: TomlField<String>, name: &str) -> (r: Result<SyncType, FieldError>)
    ensures
        match r {
            Ok(v) => resolve_sync_type_spec(string_field_model(f), name@) == Ok::<
                SyncType,
                FieldErrorModel,
            >(v),
            Err(e) => resolve_sync_type_spec(string_field_model(f), name@) == Err::<SyncType, _>(
                fe_model(e),
            ),
        },
{
    match f {
        TomlField::Absent => Ok(SyncType::Normal),
        TomlField::WrongType => Err(FieldError::WrongType { field: name.to_owned() }),
        TomlField::Present(s) => match sync_type_from_str(s.as_str()) {
            Some(t) => Ok(t),
            None => Err(FieldError::UnknownToken { field: name.to_owned(), token: s }),
        },
    }
}

fn resolve_override(f: TomlField<String>, name: &str) -> (r: Result<
    OverrideFileAccessAction,
    FieldError,
>)
    ensures
        match r {
            Ok(v) => resolve_override_spec(string_field_model(f), name@) == Ok::<
                OverrideFileAccessAction,
                FieldErrorModel,
            >(v),
            Err(e) => resolve_override_spec(string_field_model(f), name@) == Err::<
                OverrideFileAccessAction,
                _,
            >(fe_model(e)),
        },
{
    match f {
        TomlField::Absent => Err(FieldError::Missing { field: name.to_owned() }),
        TomlField::WrongType => Err(FieldError::WrongType { field: name.to_owned() }),
        TomlField::Present(s) => match override_action_from_str(s.as_str()) {
            Some(a) => Ok(a),
            None => Err(FieldError::UnknownToken { field: name.to_owned(), token: s }),
        },
    }
}

fn resolve_policy(f: TomlField<String>, name: &str) -> (r: Result<Policy, FieldError>)
    ensures
        match r {
            Ok(v) => resolve_policy_spec(string_field_model(f), name@) == Ok::<
                Policy,
                FieldErrorModel,
            >(v),
            Err(e) => resolve_policy_spec(string_field_model(f), name@) == Err::<Policy, _>(
                fe_model(e),
            ),
        },
{
    match f {
        TomlField::Absent => Err(FieldError::Missing { field: name.to_owned() }),
        TomlField::WrongType => Err(FieldError::WrongType { field: name.to_owned() }),
        TomlField::Present(s) => match policy_from_str(s.as_str()) {
            Some(p) => Ok(p),
            None => Err(FieldError::UnknownToken { field: name.to_owned(), token: s }),
        },
    }
}

fn resolve_rule_type(f: TomlField<String>, name: &str) -> (r: Result<RuleType, FieldError>)
    ensures
        match r {
            Ok(v) => resolve_rule_type_spec(string_field_model(f), name@) == Ok::<
                RuleType,
                FieldErrorModel,
            >(v),
            Err(e) => resolve_rule_type_spec(string_field_model(f), name@) == Err::<RuleType, _>(
                fe_model(e),
            ),
        },
{
    match f {
        TomlField::Absent => Err(FieldError::Missing { field: name.to_owned() }),
        TomlField::WrongType => Err(FieldError::WrongType { field: name.to_owned() }),
        TomlField::Present(s) => match rule_type_from_str(s.as_str()) {
            Some(t) => Ok(t),
            None => Err(FieldError::UnknownToken { field: name.to_owned(), token: s }),
        },
    }
}

/// What the settings section of a configuration file offers for each
/// expected key.
pub struct RawPreflight {
    pub enable_bundles: TomlField<bool>,
    pub enable_transitive_rules: TomlField<bool>,
    pub batch_size: TomlField<i64>,
    pub full_sync_interval: TomlField<i64>,
    pub client_mode: TomlField<String>,
    pub allowed_path_regex: TomlField<String>,
    pub blocked_path_regex: TomlField<String>,
    pub block_usb_mount: TomlField<bool>,
    pub remount_usb_mode: TomlField<String>,
    pub sync_type: TomlField<String>,
    pub override_file_access_action: TomlField<String>,
}

/// The mathematical content of a raw settings section.
pub struct RawPreflightModel {
    pub enable_bundles: TomlField<bool>,
    pub enable_transitive_rules: TomlField<bool>,
    pub batch_size: TomlField<i64>,
    pub full_sync_interval: TomlField<i64>,
    pub client_mode: TomlField<Seq<char>>,
    pub allowed_path_regex: TomlField<Seq<char>>,
    pub blocked_path_regex: TomlField<Seq<char>>,
    pub block_usb_mount: TomlField<bool>,
    pub remount_usb_mode: TomlField<Seq<char>>,
    pub sync_type: TomlField<Seq<char>>,
    pub override_file_access_action: TomlField<Seq<char>>,
}

/// What a raw settings section holds.
pub open spec fn raw_preflight_model(raw: RawPreflight) -> RawPreflightModel {
    RawPreflightModel {
        enable_bundles: raw.enable_bundles,
        enable_transitive_rules: raw.enable_transitive_rules,
        batch_size: raw.batch_size,
        full_sync_interval: raw.full_sync_interval,
        client_mode: string_field_model(raw.client_mode),
        allowed_path_regex: string_field_model(raw.allowed_path_regex),
        blocked_path_regex: string_field_model(raw.blocked_path_regex),
        block_usb_mount: raw.block_usb_mount,
        remount_usb_mode: string_field_model(raw.remount_usb_mode),
        sync_type: string_field_model(raw.sync_type),
        override_file_access_action: string_field_model(raw.override_file_access_action),
    }
}

/// What a parsed document offers for the settings section's keys.
pub open spec fn raw_preflight_of_doc(m: Map<Seq<char>, TomlData>) -> RawPreflightModel {
    RawPreflightModel {
        enable_bundles: bool_field_spec(m, "enable_bundles"@),
        enable_transitive_rules: bool_field_spec(m, "enable_transitive_rules"@),
        batch_size: integer_field_spec(m, "batch_size"@),
        full_sync_interval: integer_field_spec(m, "full_sync_interval"@),
        client_mode: string_field_spec(m, "client_mode"@),
        allowed_path_regex: string_field_spec(m, "allowed_path_regex"@),
        blocked_path_regex: string_field_spec(m, "blocked_path_regex"@),
        block_usb_mount: bool_field_spec(m, "block_usb_mount"@),
        remount_usb_mode: string_field_spec(m, "remount_usb_mode"@),
        sync_type: string_field_spec(m, "sync_type"@),
        override_file_access_action: string_field_spec(m, "override_file_access_action"@),
    }
}

/// Reads the flat settings section of a configuration file.
pub fn raw_preflight_from_table(t: &toml::map::Map<String, toml::Value>) -> (r: RawPreflight)
    ensures
        raw_preflight_model(r) == raw_preflight_of_doc(table_model(*t)),
{
    RawPreflight {
        enable_bundles: get_bool_field(t, "enable_bundles"),
        enable_transitive_rules: get_bool_field(t, "enable_transitive_rules"),
        batch_size: get_integer_field(t, "batch_size"),
        full_sync_interval: get_integer_field(t, "full_sync_interval"),
        client_mode: get_string_field(t, "client_mode"),
        allowed_path_regex: get_string_field(t, "allowed_path_regex"),
        blocked_path_regex: get_string_field(t, "blocked_path_regex"),
        block_usb_mount: get_bool_field(t, "block_usb_mount"),
        remount_usb_mode: get_string_field(t, "remount_usb_mode"),
        sync_type: get_string_field(t, "sync_type"),
        override_file_access_action: get_string_field(t, "override_file_access_action"),
    }
}

/// How a raw settings section resolves: the first offending field in
/// declaration order decides the error; otherwise every switch defaults to
/// off, the sync interval to 600, the sync type to a normal sync, while
/// `client_mode` and `override_file_access_action` are required.
pub open spec fn preflight_resolution(raw: RawPreflightModel) -> Result<
    PreflightModel,
    FieldErrorModel,
> {
    let r_enable_bundles = resolve_bool_spec(raw.enable_bundles, "enable_bundles"@, false);
    let r_enable_transitive = resolve_bool_spec(
        raw.enable_transitive_rules,
        "enable_transitive_rules"@,
        false,
    );
    let r_batch_size = resolve_opt_u32_spec(raw.batch_size, "batch_size"@);
    let r_interval = resolve_u32_or_spec(raw.full_sync_interval, "full_sync_interval"@, 600);
    let r_client_mode = resolve_client_mode_spec(raw.client_mode, "client_mode"@);
    let r_allowed = resolve_opt_string_spec(raw.allowed_path_regex, "allowed_path_regex"@);
    let r_blocked = resolve_opt_string_spec(raw.blocked_path_regex, "blocked_path_regex"@);
    let r_block_usb = resolve_bool_spec(raw.block_usb_mount, "block_usb_mount"@, false);
    let r_remount = resolve_opt_string_spec(raw.remount_usb_mode, "remount_usb_mode"@);
    let r_sync_type = resolve_sync_type_spec(raw.sync_type, "sync_type"@);
    let r_override = resolve_override_spec(
        raw.override_file_access_action,
        "override_file_access_action"@,
    );
    if r_enable_bundles is Err {
        Err(r_enable_bundles->Err_0)
    } else if r_enable_transitive is Err {
        Err(r_enable_transitive->Err_0)
    } else if r_batch_size is Err {
        Err(r_batch_size->Err_0)
    } else if r_interval is Err {
        Err(r_interval->Err_0)
    } else if r_client_mode is Err {
        Err(r_client_mode->Err_0)
    } else if r_allowed is Err {
        Err(r_allowed->Err_0)
    } else if r_blocked is Err {
        Err(r_blocked->Err_0)
    } else if r_block_usb is Err {
        Err(r_block_usb->Err_0)
    } else if r_remount is Err {
        Err(r_remount->Err_0)
    } else if r_sync_type is Err {
        Err(r_sync_type->Err_0)
    } else if r_override is Err {
        Err(r_override->Err_0)
    } else {
        Ok(
            PreflightModel {
                enable_bundles: r_enable_bundles->Ok_0,
                enable_transitive_rules: r_enable_transitive->Ok_0,
                batch_size: r_batch_size->Ok_0,
                full_sync_interval: r_interval->Ok_0,
                client_mode: r_client_mode->Ok_0,
                allowed_path_regex: r_allowed->Ok_0,
                blocked_path_regex: r_blocked->Ok_0,
                block_usb_mount: r_block_usb->Ok_0,
                remount_usb_mode: r_remount->Ok_0,
                sync_type: r_sync_type->Ok_0,
                override_file_access_action: r_override->Ok_0,
            },
        )
    }
}

/// Resolves the raw settings section into the preflight answer.
pub fn preflight_from_raw(raw: RawPreflight) -> (r: Result<Preflight, FieldError>)
    ensures
        match r {
            Ok(p) => preflight_resolution(raw_preflight_model(raw)) == Ok::<
                PreflightModel,
                FieldErrorModel,
            >(preflight_model(p)),
            Err(e) => preflight_resolution(raw_preflight_model(raw)) == Err::<PreflightModel, _>(
                fe_model(e),
            ),
        },
{
    let RawPreflight {
        enable_bundles,
        enable_transitive_rules,
        batch_size,
        full_sync_interval,
        client_mode,
        allowed_path_regex,
        blocked_path_regex,
        block_usb_mount,
        remount_usb_mode,
        sync_type,
        override_file_access_action,
    } = raw;
    let enable_bundles = match resolve_bool(enable_bundles, "enable_bundles", false) {
        Ok(v) => v,
        Err(e) => return Err(e),
    };
    let enable_transitive_rules = match resolve_bool(
        enable_transitive_rules,
        "enable_transitive_rules",
        false,
    ) {
        Ok(v) => v,
        Err(e) => return Err(e),
    };
    let batch_size = match resolve_opt_u32(batch_size, "batch_size") {
        Ok(v) => v,
        Err(e) => return Err(e),
    };
    let full_sync_interval = match resolve_u32_or(full_sync_interval, "full_sync_interval", 600) {
        Ok(v) => v,
        Err(e) => return Err(e),
    };
    let client_mode = match resolve_client_mode(client_mode, "client_mode") {
        Ok(v) => v,
        Err(e) => return Err(e),
    };
    let allowed_path_regex = match resolve_opt_string(allowed_path_regex, "allowed_path_regex") {
        Ok(v) => v,
        Err(e) => return Err(e),
    };
    let blocked_path_regex = match resolve_opt_string(blocked_path_regex, "blocked_path_regex") {
        Ok(v) => v,
        Err(e) => return Err(e),
    };
    let block_usb_mount = match resolve_bool(block_usb_mount, "block_usb_mount", false) {
        Ok(v) => v,
        Err(e) => return Err(e),
    };
    let remount_usb_mode = match resolve_opt_string(remount_usb_mode, "remount_usb_mode") {
        Ok(v) => v,
        Err(e) => return Err(e),
    };
    let sync_type = match resolve_sync_type(sync_type, "sync_type") {
        Ok(v) => v,
        Err(e) => return Err(e),
    };
    let override_file_access_action = match resolve_override(
        override_file_access_action,
        "override_file_access_action",
    ) {
        Ok(v) => v,
        Err(e) => return Err(e),
    };
    Ok(
        Preflight {
            enable_bundles,
            enable_transitive_rules,
            batch_size,
            full_sync_interval,
            client_mode,
            allowed_path_regex,
            blocked_path_regex,
            block_usb_mount,
            remount_usb_mode,
            sync_type,
            override_file_access_action,
        },
    )
}

/// What a rule's table offers for each expected key.
pub struct RawRule {
    pub identifier: TomlField<String>,
    pub policy: TomlField<String>,
    pub rule_type: TomlField<String>,
    pub custom_msg: TomlField<String>,
    pub custom_url: TomlField<String>,
    pub creation_time: TomlField<CreationTime>,
    pub file_bundle_binary_count: TomlField<i64>,
    pub file_bundle_hash: TomlField<String>,
}

/// The mathematical content of a raw rule.
pub struct RawRuleModel {
    pub identifier: TomlField<Seq<char>>,
    pub policy: TomlField<Seq<char>>,
    pub rule_type: TomlField<Seq<char>>,
    pub custom_msg: TomlField<Seq<char>>,
    pub custom_url: TomlField<Seq<char>>,
    pub creation_time: TomlField<CreationTime>,
    pub file_bundle_binary_count: TomlField<i64>,
    pub file_bundle_hash: TomlField<Seq<char>>,
}

/// What a raw rule holds.
pub open spec fn raw_rule_model(raw: RawRule) -> RawRuleModel {
    RawRuleModel {
        identifier: string_field_model(raw.identifier),
        policy: string_field_model(raw.policy),
        rule_type: string_field_model(raw.rule_type),
        custom_msg: string_field_model(raw.custom_msg),
        custom_url: string_field_model(raw.custom_url),
        creation_time: raw.creation_time,
        file_bundle_binary_count: raw.file_bundle_binary_count,
        file_bundle_hash: string_field_model(raw.file_bundle_hash),
    }
}

/// What one rule's table offers for the expected keys.
pub open spec fn raw_rule_of_doc(m: Map<Seq<char>, TomlData>) -> RawRuleModel {
    RawRuleModel {
        identifier: string_field_spec(m, "identifier"@),
        policy: string_field_spec(m, "policy"@),
        rule_type: string_field_spec(m, "rule_type"@),
        custom_msg: string_field_spec(m, "custom_msg"@),
        custom_url: string_field_spec(m, "custom_url"@),
        creation_time: time_field_spec(m, "creation_time"@),
        file_bundle_binary_count: integer_field_spec(m, "file_bundle_binary_count"@),
        file_bundle_hash: string_field_spec(m, "file_bundle_hash"@),
    }
}

/// Reads one rule's table.
pub fn raw_rule_from_table(t: &toml::map::Map<String, toml::Value>) -> (r: RawRule)
    ensures
        raw_rule_model(r) == raw_rule_of_doc(table_model(*t)),
{
    RawRule {
        identifier: get_string_field(t, "identifier"),
        policy: get_string_field(t, "policy"),
        rule_type: get_string_field(t, "rule_type"),
        custom_msg: get_string_field(t, "custom_msg"),
        custom_url: get_string_field(t, "custom_url"),
        creation_time: get_time_field(t, "creation_time"),
        file_bundle_binary_count: get_integer_field(t, "file_bundle_binary_count"),
        file_bundle_hash: get_string_field(t, "file_bundle_hash"),
    }
}

/// How a raw rule resolves: `identifier`, `policy` and `rule_type` are
/// required, everything else optional; the first offending field in
/// declaration order decides the error.
pub open spec fn rule_resolution(raw: RawRuleModel) -> Result<RuleModel, FieldErrorModel> {
    let r_identifier = resolve_req_string_spec(raw.identifier, "identifier"@);
    let r_policy = resolve_policy_spec(raw.policy, "policy"@);
    let r_rule_type = resolve_rule_type_spec(raw.rule_type, "rule_type"@);
    let r_custom_msg = resolve_opt_string_spec(raw.custom_msg, "custom_msg"@);
    let r_custom_url = resolve_opt_string_spec(raw.custom_url, "custom_url"@);
    let r_creation_time = resolve_opt_time_spec(raw.creation_time, "creation_time"@);
    let r_count = resolve_opt_u32_spec(raw.file_bundle_binary_count, "file_bundle_binary_count"@);
    let r_hash = resolve_opt_string_spec(raw.file_bundle_hash, "file_bundle_hash"@);
    if r_identifier is Err {
        Err(r_identifier->Err_0)
    } else if r_policy is Err {
        Err(r_policy->Err_0)
    } else if r_rule_type is Err {
        Err(r_rule_type->Err_0)
    } else if r_custom_msg is Err {
        Err(r_custom_msg->Err_0)
    } else if r_custom_url is Err {
        Err(r_custom_url->Err_0)
    } else if r_creation_time is Err {
        Err(r_creation_time->Err_0)
    } else if r_count is Err {
        Err(r_count->Err_0)
    } else if r_hash is Err {
        Err(r_hash->Err_0)
    } else {
        Ok(
            RuleModel {
                identifier: r_identifier->Ok_0,
                policy: r_policy->Ok_0,
                rule_type: r_rule_type->Ok_0,
                custom_msg: r_custom_msg->Ok_0,
                custom_url: r_custom_url->Ok_0,
                creation_time: r_creation_time->Ok_0,
                file_bundle_binary_count: r_count->Ok_0,
                file_bundle_hash: r_hash->Ok_0,
            },
        )
    }
}

/// Resolves one raw rule.
pub fn rule_from_raw(raw: RawRule) -> (r: Result<Rule, FieldError>)
    ensures
        match r {
            Ok(rule) => rule_resolution(raw_rule_model(raw)) == Ok::<RuleModel, FieldErrorModel>(
                rule_model(rule),
            ),
            Err(e) => rule_resolution(raw_rule_model(raw)) == Err::<RuleModel, _>(fe_model(e)),
        },
{
    let RawRule {
        identifier,
        policy,
        rule_type,
        custom_msg,
        custom_url,
        creation_time,
        file_bundle_binary_count,
        file_bundle_hash,
    } = raw;
    let identifier = match resolve_req_string(identifier, "identifier") {
        Ok(v) => v,
        Err(e) => return Err(e),
    };
    let policy = match resolve_policy(policy, "policy") {
        Ok(v) => v,
        Err(e) => return Err(e),
    };
    let rule_type = match resolve_rule_type(rule_type, "rule_type") {
        Ok(v) => v,
        Err(e) => return Err(e),
    };
    let custom_msg = match resolve_opt_string(custom_msg, "custom_msg") {
        Ok(v) => v,
        Err(e) => return Err(e),
    };
    let custom_url = match resolve_opt_string(custom_url, "custom_url") {
        Ok(v) => v,
        Err(e) => return Err(e),
    };
    let creation_time = match resolve_opt_time(creation_time, "creation_time") {
        Ok(v) => v,
        Err(e) => return Err(e),
    };
    let file_bundle_binary_count = match resolve_opt_u32(
        file_bundle_binary_count,
        "file_bundle_binary_count",
    ) {
        Ok(v) => v,
        Err(e) => return Err(e),
    };
    let file_bundle_hash = match resolve_opt_string(file_bundle_hash, "file_bundle_hash") {
        Ok(v) => v,
        Err(e) => return Err(e),
    };
    Ok(
        Rule {
            identifier,
            policy,
            rule_type,
            custom_msg,
            custom_url,
            creation_time,
            file_bundle_binary_count,
            file_bundle_hash,
        },
    )
}

/// How a list of rule nodes resolves, in order: every node must be a table
/// whose rule resolves; the earliest offending node decides the error.
pub open spec fn resolve_rules_list(elems: Seq<TomlData>) -> Result<Seq<RuleModel>, FieldErrorModel>
    decreases elems.len(),
{
    if elems.len() == 0 {
        Ok(Seq::empty())
    } else {
        match resolve_rules_list(elems.drop_last()) {
            Err(e) => Err(e),
            Ok(rs) => match elems.last() {
                TomlData::Table(t) => match rule_resolution(raw_rule_of_doc(t)) {
                    Ok(r) => Ok(rs.push(r)),
                    Err(e) => Err(e),
                },
                _ => Err(FieldErrorModel::WrongType { field: "rules"@ }),
            },
        }
    }
}

/// An error among the first nodes settles the whole list.
proof fn lemma_rules_list_error_persists(elems: Seq<TomlData>, k: int)
    requires
        0 <= k <= elems.len(),
        resolve_rules_list(elems.take(k)) is Err,
    ensures
        resolve_rules_list(elems) == resolve_rules_list(elems.take(k)),
    decreases elems.len() - k,
{
    if k == elems.len() {
        assert(elems.take(k) =~= elems);
    } else {
        assert(elems.take(k + 1).drop_last() =~= elems.take(k));
        lemma_rules_list_error_persists(elems, k + 1);
    }
}

/// How a whole document's rule list resolves: no `rules` key means no
/// rules; otherwise the key must hold an array of rule tables.
pub open spec fn rules_of_doc(m: Map<Seq<char>, TomlData>) -> Result<
    Seq<RuleModel>,
    FieldErrorModel,
> {
    if !m.contains_key("rules"@) {
        Ok(Seq::empty())
    } else {
        match m["rules"@] {
            TomlData::Array(elems) => resolve_rules_list(elems),
            _ => Err(FieldErrorModel::WrongType { field: "rules"@ }),
        }
    }
}

/// The mathematical content of one parsed configuration file: the resolved
/// settings and the resolved rules, in file order.
pub struct ClientConfigModel {
    pub preflight: PreflightModel,
    pub rules: Seq<RuleModel>,
}

/// How a whole parsed document resolves: the settings section first, then
/// the rule list.
pub open spec fn client_config_resolution(m: Map<Seq<char>, TomlData>) -> Result<
    ClientConfigModel,
    FieldErrorModel,
> {
    match preflight_resolution(raw_preflight_of_doc(m)) {
        Err(e) => Err(e),
        Ok(p) => match rules_of_doc(m) {
            Err(e) => Err(e),
            Ok(rs) => Ok(ClientConfigModel { preflight: p, rules: rs }),
        },
    }
}

/// One client's configuration: the machine identifier derived from the
/// file's name, the preflight answer, and the ordered rule list. Immutable
/// once loaded.
#[derive(Clone, Debug)]
pub struct ClientConfig {
    pub machine_id: String,
    pub preflight: Preflight,
    pub rules: Vec<Rule>,
}

/// Everything [`ClientConfig::from_text`] promises: success exactly when
/// the text is a well-formed TOML document whose every field resolves, and
/// then the machine identifier is the stem and the settings and rules are
/// the document's resolution; otherwise failure, with a message that wraps
/// the exact field error (or the TOML syntax error's description), names
/// the file, and says the document could not be parsed.
pub open spec fn from_text_post(stem: Seq<char>, text: Seq<char>, r: Result<
    ClientConfig,
    String,
>) -> bool {
    match r {
        Ok(c) => {
            &&& (toml_document(text) matches Some(doc) && client_config_resolution(doc) matches Ok(
                m,
            ) && preflight_model(c.preflight) == m.preflight && rules_model(c.rules@) == m.rules)
            &&& c.machine_id@ == stem
        },
        Err(msg) => {
            &&& match toml_document(text) {
                None => exists|detail: Seq<char>|
                    msg@ == #[trigger] parse_error_message(stem, detail),
                Some(doc) => client_config_resolution(doc) matches Err(e) && msg@
                    == parse_error_message(stem, fe_message_spec(e)),
            }
            &&& contains_seq(msg@, "could not parse TOML"@)
            &&& contains_seq(msg@, stem)
        },
    }
}

impl ClientConfig {
    /// Parses one configuration file's text. The machine identifier is the
    /// given file stem, not anything in the contents. Succeeds exactly when
    /// the text parses and every field resolves; any failure — TOML syntax,
    /// a missing required field, a wrong type, a token outside its closed
    /// set — is reported as one message that names the file.
    pub fn from_text(stem: &str, text: &str) -> (r: Result<ClientConfig, String>)
        ensures
            from_text_post(stem@, text@, r),
    {
        let table = match parse_toml_table(text) {
            Ok(t) => t,
            Err(detail) => {
                let m = wrap_parse_error(stem, detail.as_str());
                proof {
                    assert(m@ == parse_error_message(stem@, detail@));
                    lemma_wrap_contains(m@, stem@, detail@);
                }
                return Err(m);
            },
        };
        let ghost doc = table_model(table);
        let raw = raw_preflight_from_table(&table);
        let preflight = match preflight_from_raw(raw) {
            Ok(p) => p,
            Err(e) => {
                let msg = e.message();
                let m = wrap_parse_error(stem, msg.as_str());
                proof {
                    lemma_wrap_contains(m@, stem@, msg@);
                }
                return Err(m);
            },
        };
        let mut rules: Vec<Rule> = Vec::new();
        match table_get(&table, "rules") {
            None => {
                proof {
                    assert(rules_model(rules@) =~= Seq::<RuleModel>::empty());
                }
            },
            Some(v) => {
                match value_as_array(v) {
                    None => {
                        let e = FieldError::WrongType { field: "rules".to_owned() };
                        let msg = e.message();
                        let m = wrap_parse_error(stem, msg.as_str());
                        proof {
                            lemma_wrap_contains(m@, stem@, msg@);
                        }
                        return Err(m);
                    },
                    Some(arr) => {
                        let ghost elems = values_model(arr@);
                        let n = arr.len();
                        let mut i: usize = 0;
                        proof {
                            assert(elems.take(0) =~= Seq::<TomlData>::empty());
                            assert(rules_model(rules@) =~= Seq::<RuleModel>::empty());
                        }
                        while i < n
                            invariant
                                i <= n,
                                n == arr@.len(),
                                elems == values_model(arr@),
                                resolve_rules_list(elems.take(i as int)) == Ok::<
                                    Seq<RuleModel>,
                                    FieldErrorModel,
                                >(rules_model(rules@)),
                                toml_document(text@) == Some(doc),
                                preflight_resolution(raw_preflight_of_doc(doc)) == Ok::<
                                    PreflightModel,
                                    FieldErrorModel,
                                >(preflight_model(preflight)),
                                doc.contains_key("rules"@),
                                doc["rules"@] == TomlData::Array(elems),
                            decreases n - i,
                        {
                            proof {
                                assert(elems[i as int] == value_model(arr@[i as int]));
                                assert(elems.take(i + 1).drop_last() =~= elems.take(i as int));
                                assert(elems.take(i + 1).last() == elems[i as int]);
                            }
                            match value_as_table(&arr[i]) {
                                None => {
                                    let e = FieldError::WrongType { field: "rules".to_owned() };
                                    let msg = e.message();
                                    let m = wrap_parse_error(stem, msg.as_str());
                                    proof {
                                        lemma_rules_list_error_persists(elems, i + 1);
                                        lemma_wrap_contains(m@, stem@, msg@);
                                    }
                                    return Err(m);
                                },
                                Some(rule_table) => {
                                    match rule_from_raw(raw_rule_from_table(rule_table)) {
                                        Ok(rule) => {
                                            rules.push(rule);
                                            proof {
                                                assert(rules_model(rules@) =~= resolve_rules_list(
                                                    elems.take(i + 1),
                                                )->Ok_0);
                                            }
                                        },
                                        Err(e) => {
                                            let msg = e.message();
                                            let m = wrap_parse_error(stem, msg.as_str());
                                            proof {
                                                lemma_rules_list_error_persists(elems, i + 1);
                                                lemma_wrap_contains(m@, stem@, msg@);
                                            }
                                            return Err(m);
                                        },
                                    }
                                },
                            }
                            i += 1;
                        }
                        proof {
                            assert(elems.take(n as int) =~= elems);
                        }
                    },
                }
            },
        }
        Ok(ClientConfig { machine_id: stem.to_owned(), preflight, rules })
    }
}

} // verus!
