//! The client configuration parser and the configuration store: parsing,
//! aggregate error reporting, the mandatory global entry, first-wins
//! duplicate resolution, and the fallback lookup.

use chimney::client_config::ClientConfig;
use chimney::config_fields::FieldError;
use chimney::handlers::{postflight, preflight, ruledownload};
use chimney::preflight::{ClientMode, OverrideFileAccessAction, SyncType};
use chimney::rule_download::{CreationTime, Policy, RuleType};
use chimney::store::{ConfigStore, ConfigError, SourceFile, file_stem_of};
use chimney::Empty;

const GLOBAL_TOML: &str = r#"
client_mode = "MONITOR"
override_file_access_action = "NONE"
"#;

fn machine_toml(rule_count: usize) -> String {
    let mut text = String::from(
        r#"
client_mode = "LOCKDOWN"
override_file_access_action = "AUDIT_ONLY"
full_sync_interval = 600
enable_bundles = true
sync_type = "CLEAN"
allowed_path_regex = "^/usr/.*"
"#,
    );
    for i in 0..rule_count {
        text.push_str(&format!(
            r#"
[[rules]]
identifier = "rule-{}"
policy = "BLOCKLIST"
rule_type = "BINARY"
"#,
            i
        ));
    }
    text
}

fn source(name: &str, text: &str) -> SourceFile {
    SourceFile { name: name.to_string(), text: text.to_string() }
}

fn good_sources() -> Vec<SourceFile> {
    vec![
        source("global", GLOBAL_TOML),
        source("machine-id-1234", &machine_toml(8)),
        source("machine-id-5678", &machine_toml(2)),
    ]
}

#[test]
fn parses_a_valid_config_file() {
    let config = ClientConfig::from_text("machine-id-1234", &machine_toml(8)).unwrap();
    assert_eq!("machine-id-1234".to_string(), config.machine_id);
    assert_eq!(600, config.preflight.full_sync_interval);
    assert_eq!(8, config.rules.len());
}

#[test]
fn gracefully_handles_a_bad_config_file() {
    let result = ClientConfig::from_text("bad", "this is [not] = valid toml =");
    assert!(result.is_err());
    let err_msg = result.unwrap_err();
    assert!(err_msg.contains("could not parse TOML"));
}

#[test]
fn parses_all_settings() {
    let config = ClientConfig::from_text("m", &machine_toml(1)).unwrap();
    assert_eq!(ClientMode::Lockdown, config.preflight.client_mode);
    assert_eq!(OverrideFileAccessAction::AuditOnly, config.preflight.override_file_access_action);
    assert_eq!(SyncType::Clean, config.preflight.sync_type);
    assert!(config.preflight.enable_bundles);
    assert!(!config.preflight.enable_transitive_rules);
    assert_eq!(Some("^/usr/.*".to_string()), config.preflight.allowed_path_regex);
    assert_eq!(None, config.preflight.blocked_path_regex);
    assert_eq!("rule-0", config.rules[0].identifier);
    assert_eq!(Policy::Blocklist, config.rules[0].policy);
    assert_eq!(RuleType::Binary, config.rules[0].rule_type);
}

#[test]
fn sync_interval_defaults_to_600() {
    let config = ClientConfig::from_text("g", GLOBAL_TOML).unwrap();
    assert_eq!(600, config.preflight.full_sync_interval);
    assert_eq!(SyncType::Normal, config.preflight.sync_type);
    assert_eq!(None, config.preflight.batch_size);
}

#[test]
fn missing_client_mode_fails() {
    let result = ClientConfig::from_text("m", "override_file_access_action = \"NONE\"\n");
    let msg = result.unwrap_err();
    assert_eq!("could not parse TOML \"m\", missing field \"client_mode\"", msg);
}

#[test]
fn unknown_client_mode_token_fails_naming_it() {
    let text = "client_mode = \"SIDEWAYS\"\noverride_file_access_action = \"NONE\"\n";
    let msg = ClientConfig::from_text("m", text).unwrap_err();
    assert!(msg.contains("SIDEWAYS"));
    assert!(msg.contains("client_mode"));
}

#[test]
fn wrong_type_field_fails() {
    let text = "client_mode = 17\noverride_file_access_action = \"NONE\"\n";
    let msg = ClientConfig::from_text("m", text).unwrap_err();
    assert!(msg.contains("could not parse TOML"));
    assert!(msg.contains("client_mode"));
}

#[test]
fn bad_rule_fails_the_file() {
    let mut text = machine_toml(0);
    text.push_str("\n[[rules]]\nidentifier = \"x\"\npolicy = \"NOT_A_POLICY\"\nrule_type = \"BINARY\"\n");
    let msg = ClientConfig::from_text("m", &text).unwrap_err();
    assert!(msg.contains("NOT_A_POLICY"));
}

#[test]
fn rule_creation_time_accepts_float_and_integer() {
    let mut text = machine_toml(0);
    text.push_str(
        "\n[[rules]]\nidentifier = \"a\"\npolicy = \"ALLOWLIST\"\nrule_type = \"BINARY\"\ncreation_time = 1700000000.25\n",
    );
    text.push_str(
        "\n[[rules]]\nidentifier = \"b\"\npolicy = \"ALLOWLIST\"\nrule_type = \"BINARY\"\ncreation_time = 5\n",
    );
    let config = ClientConfig::from_text("m", &text).unwrap();
    assert_eq!(
        Some(CreationTime::FloatBits(1700000000.25f64.to_bits())),
        config.rules[0].creation_time
    );
    assert_eq!(Some(CreationTime::Integer(5)), config.rules[1].creation_time);
}

#[test]
fn caches_config_files_from_path() {
    let store = ConfigStore::build("tests/tomls/client-tomls/good".to_string(), good_sources());
    assert!(store.is_ok());
    assert_eq!(3, store.unwrap().cache.len());
}

#[test]
fn errs_if_path_contains_bad_config_files() {
    let mut sources = good_sources();
    sources.push(source("bad", "this is [not] = valid toml ="));
    let store = ConfigStore::build("tests/tomls/client-tomls".to_string(), sources);
    assert!(store.is_err());
}

#[test]
fn errs_if_path_does_not_contain_global() {
    let sources = vec![source("machine-id-1234", &machine_toml(8))];
    let store = ConfigStore::build("tests/tomls/client-tomls/bad".to_string(), sources);
    assert!(store.is_err());
    match store.unwrap_err() {
        ConfigError::MissingGlobal { path } => {
            assert_eq!("tests/tomls/client-tomls/bad", path);
        },
        other => panic!("unexpected error: {:?}", other),
    }
}

#[test]
fn returns_machine_specific_config() {
    let store = ConfigStore::build("good".to_string(), good_sources());
    let store = store.unwrap();
    let config = store.config_for("machine-id-1234");
    assert_eq!(8, config.rules.len());
}

#[test]
fn falls_back_to_global_config() {
    let store = ConfigStore::build("good".to_string(), good_sources());
    let store = store.unwrap();
    let config = store.config_for("nonexistent-machine-id");
    assert_eq!("global", config.machine_id);
    assert_eq!(0, config.rules.len());
}

#[test]
fn unregistered_id_resolves_exactly_like_global() {
    let store = ConfigStore::build("good".to_string(), good_sources()).unwrap();
    let unknown = store.config_for("never-enrolled");
    let global = store.config_for("global");
    assert_eq!(global.machine_id, unknown.machine_id);
    assert_eq!(global.rules.len(), unknown.rules.len());
    assert_eq!(global.preflight.client_mode, unknown.preflight.client_mode);
    assert_eq!(global.preflight.full_sync_interval, unknown.preflight.full_sync_interval);
}

#[test]
fn aggregate_failure_mentions_every_failing_file() {
    let sources = vec![
        source("global", GLOBAL_TOML),
        source("first-bad", "= nonsense"),
        source("machine-id-1234", &machine_toml(8)),
        source("second-bad", "also = [broken"),
    ];
    let err = ConfigStore::build("dir".to_string(), sources).unwrap_err();
    match err {
        ConfigError::AggregateParse { message } => {
            assert!(message.contains("first-bad"));
            assert!(message.contains("second-bad"));
        },
        other => panic!("unexpected error: {:?}", other),
    }
}

#[test]
fn first_file_wins_on_duplicate_machine_id() {
    let sources = vec![
        source("global", GLOBAL_TOML),
        source("machine-id-1234", &machine_toml(8)),
        source("machine-id-1234", &machine_toml(1)),
    ];
    let store = ConfigStore::build("dir".to_string(), sources).unwrap();
    assert_eq!(2, store.cache.len());
    assert_eq!(8, store.config_for("machine-id-1234").rules.len());
}

#[test]
fn ruledownload_returns_rules_verbatim() {
    let store = ConfigStore::build("good".to_string(), good_sources()).unwrap();
    let rules = ruledownload(&store, "machine-id-1234");
    assert_eq!(8, rules.rules.len());
    assert_eq!("rule-0", rules.rules[0].identifier);
}

#[test]
fn ruledownload_for_unknown_machine_returns_global_rule_set() {
    let store = ConfigStore::build("good".to_string(), good_sources()).unwrap();
    let rules = ruledownload(&store, "machine-without-config");
    let global_rules = ruledownload(&store, "global");
    assert_eq!(global_rules.rules.len(), rules.rules.len());
    assert_eq!(0, rules.rules.len());
}

#[test]
fn preflight_answers_the_resolved_settings() {
    let store = ConfigStore::build("good".to_string(), good_sources()).unwrap();
    let answer = preflight(&store, "machine-id-1234");
    assert_eq!(ClientMode::Lockdown, answer.client_mode);
    assert_eq!(600, answer.full_sync_interval);
    let fallback = preflight(&store, "unknown");
    assert_eq!(ClientMode::Monitor, fallback.client_mode);
}

#[test]
fn postflight_answers_empty_success() {
    assert_eq!(Empty {}, postflight());
}

#[test]
fn config_error_messages_name_the_path() {
    let e = ConfigError::NotADirectory { path: "/tmp/x".to_string() };
    assert_eq!("path \"/tmp/x\" is not a directory", e.message());
    let e = ConfigError::MissingGlobal { path: "/srv/cfg".to_string() };
    assert_eq!("path \"/srv/cfg\" does not contain global.toml", e.message());
}

#[test]
fn field_error_messages_name_field_and_token() {
    let missing = FieldError::Missing { field: "client_mode".to_string() };
    assert_eq!("missing field \"client_mode\"", missing.message());
    let wrong = FieldError::WrongType { field: "rules".to_string() };
    assert_eq!("invalid value for field \"rules\"", wrong.message());
    let unknown =
        FieldError::UnknownToken { field: "policy".to_string(), token: "X".to_string() };
    assert_eq!("unknown value \"X\" for field \"policy\"", unknown.message());
}

#[test]
fn derives_machine_id_from_file_stem() {
    assert_eq!("machine-id-1234", file_stem_of("machine-id-1234.toml"));
    assert_eq!("archive.tar", file_stem_of("archive.tar.gz"));
    assert_eq!(".hidden", file_stem_of(".hidden"));
    assert_eq!("noext", file_stem_of("noext"));
    assert_eq!("trailing", file_stem_of("trailing."));
}
