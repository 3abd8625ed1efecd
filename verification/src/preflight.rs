//! Protocol types for the preflight endpoint: what a client reports about
//! itself, and the policy settings the server answers with.

use vstd::prelude::*;
use crate::text::str_eq;

verus! {

/// How the agent enforces policy.
#[derive(Clone, Copy, Debug, PartialEq, Eq, Structural)]
pub enum ClientMode {
    Lockdown,
    Monitor,
}

/// Which kind of sync the server asks the client to perform.
#[derive(Clone, Copy, Debug, PartialEq, Eq, Structural)]
pub enum SyncType {
    Clean,
    CleanAll,
    Normal,
}

/// Whether file-access policy on the client is overridden.
#[derive(Clone, Copy, Debug, PartialEq, Eq, Structural)]
pub enum OverrideFileAccessAction {
    AuditOnly,
    Disable,
    NoOverride,
}

/// The client mode a wire token names, if any: the closed set of tokens is
/// `MONITOR` and `LOCKDOWN`.
pub open spec fn client_mode_from_spec(s: Seq<char>) -> Option<ClientMode> {
    if s == "MONITOR"@ {
        Some(ClientMode::Monitor)
    } else if s == "LOCKDOWN"@ {
        Some(ClientMode::Lockdown)
    } else {
        None
    }
}

/// Parses a client-mode wire token.
pub fn client_mode_from_str(s: &str) -> (r: Option<ClientMode>)
    ensures
        r == client_mode_from_spec(s@),
{
    if str_eq(s, "MONITOR") {
        Some(ClientMode::Monitor)
    } else if str_eq(s, "LOCKDOWN") {
        Some(ClientMode::Lockdown)
    } else {
        None
    }
}

/// The sync type a wire token names, if any: the closed set of tokens is
/// `CLEAN`, `CLEAN_ALL` and `NORMAL`.
pub open spec fn sync_type_from_spec(s: Seq<char>) -> Option<SyncType> {
    if s == "CLEAN"@ {
        Some(SyncType::Clean)
    } else if s == "CLEAN_ALL"@ {
        Some(SyncType::CleanAll)
    } else if s == "NORMAL"@ {
        Some(SyncType::Normal)
    } else {
        None
    }
}

/// Parses a sync-type wire token.
pub fn sync_type_from_str(s: &str) -> (r: Option<SyncType>)
    ensures
        r == sync_type_from_spec(s@),
{
    if str_eq(s, "CLEAN") {
        Some(SyncType::Clean)
    } else if str_eq(s, "CLEAN_ALL") {
        Some(SyncType::CleanAll)
    } else if str_eq(s, "NORMAL") {
        Some(SyncType::Normal)
    } else {
        None
    }
}

/// The override action a wire token names, if any: the closed set of tokens
/// is `AUDIT_ONLY`, `DISABLE` and `NONE`.
pub open spec fn override_action_from_spec(s: Seq<char>) -> Option<OverrideFileAccessAction> {
    if s == "AUDIT_ONLY"@ {
        Some(OverrideFileAccessAction::AuditOnly)
    } else if s == "DISABLE"@ {
        Some(OverrideFileAccessAction::Disable)
    } else if s == "NONE"@ {
        Some(OverrideFileAccessAction::NoOverride)
    } else {
        None
    }
}

/// Parses an override-action wire token.
pub fn override_action_from_str(s: &str) -> (r: Option<OverrideFileAccessAction>)
    ensures
        r == override_action_from_spec(s@),
{
    if str_eq(s, "AUDIT_ONLY") {
        Some(OverrideFileAccessAction::AuditOnly)
    } else if str_eq(s, "DISABLE") {
        Some(OverrideFileAccessAction::Disable)
    } else if str_eq(s, "NONE") {
        Some(OverrideFileAccessAction::NoOverride)
    } else {
        None
    }
}

/// The sync cadence used when a configuration file names none.
pub fn full_sync_interval_default() -> (r: u32)
    ensures
        r == 600,
{
    600
}

/// The sync type used when a configuration file names none.
pub fn sync_type_default() -> (r: SyncType)
    ensures
        r == SyncType::Normal,
{
    SyncType::Normal
}

/// Copies an optional string.
pub fn clone_opt_string(v: &Option<String>) -> (r: Option<String>)
    ensures
        r == *v,
{
    match v {
        None => None,
        Some(s) => Some(s.clone()),
    }
}

/// The policy settings answered to a preflight request: sync cadence,
/// client mode, path regex allow/block lists, and related switches.
#[derive(Debug)]
pub struct Preflight {
    pub enable_bundles: bool,
    pub enable_transitive_rules: bool,
    pub batch_size: Option<u32>,
    pub full_sync_interval: u32,
    pub client_mode: ClientMode,
    pub allowed_path_regex: Option<String>,
    pub blocked_path_regex: Option<String>,
    pub block_usb_mount: bool,
    pub remount_usb_mode: Option<String>,
    pub sync_type: SyncType,
    pub override_file_access_action: OverrideFileAccessAction,
}

/// The mathematical content of a preflight answer: each text setting as
/// its character sequence, everything else as itself.
pub struct PreflightModel {
    pub enable_bundles: bool,
    pub enable_transitive_rules: bool,
    pub batch_size: Option<u32>,
    pub full_sync_interval: u32,
    pub client_mode: ClientMode,
    pub allowed_path_regex: Option<Seq<char>>,
    pub blocked_path_regex: Option<Seq<char>>,
    pub block_usb_mount: bool,
    pub remount_usb_mode: Option<Seq<char>>,
    pub sync_type: SyncType,
    pub override_file_access_action: OverrideFileAccessAction,
}

/// What a preflight answer holds.
pub open spec fn preflight_model(p: Preflight) -> PreflightModel {
    PreflightModel {
        enable_bundles: p.enable_bundles,
        enable_transitive_rules: p.enable_transitive_rules,
        batch_size: p.batch_size,
        full_sync_interval: p.full_sync_interval,
        client_mode: p.client_mode,
        allowed_path_regex: p.allowed_path_regex.deep_view(),
        blocked_path_regex: p.blocked_path_regex.deep_view(),
        block_usb_mount: p.block_usb_mount,
        remount_usb_mode: p.remount_usb_mode.deep_view(),
        sync_type: p.sync_type,
        override_file_access_action: p.override_file_access_action,
    }
}

impl Clone for Preflight {
    /// A copy holds exactly the same settings.
    fn clone(&self) -> (r: Self)
        ensures
            r == *self,
    {
        Preflight {
            enable_bundles: self.enable_bundles,
            enable_transitive_rules: self.enable_transitive_rules,
            batch_size: self.batch_size,
            full_sync_interval: self.full_sync_interval,
            client_mode: self.client_mode,
            allowed_path_regex: clone_opt_string(&self.allowed_path_regex),
            blocked_path_regex: clone_opt_string(&self.blocked_path_regex),
            block_usb_mount: self.block_usb_mount,
            remount_usb_mode: clone_opt_string(&self.remount_usb_mode),
            sync_type: self.sync_type,
            override_file_access_action: self.override_file_access_action,
        }
    }
}

/// What a client reports about itself when it opens a sync cycle.
#[derive(Clone, Debug)]
pub struct PreflightOptions {
    pub serial_num: String,
    pub hostname: String,
    pub os_version: String,
    pub os_build: String,
    pub model_identifier: Option<String>,
    pub santa_version: String,
    pub primary_user: Option<String>,
    pub binary_rule_count: Option<u32>,
    pub certificate_rule_count: Option<u32>,
    pub compiler_rule_count: Option<u32>,
    pub transitive_rule_count: Option<u32>,
    pub teamid_rule_count: Option<u32>,
    pub signingid_rule_count: Option<u32>,
    pub cdhash_rule_count: Option<u32>,
    pub client_mode: ClientMode,
    pub request_clean_sync: bool,
}

} // verus!
