//! Protocol types for the ruledownload endpoint: one allow/block directive,
//! its action, and the attribute it matches on.
//!
//! A rule's optional creation time travels on the wire as a JSON number. A
//! configuration file may spell it as a fractional or as a whole number;
//! nothing here reads it, so it is carried as the file spelled it and
//! turned back into the wire's number at the JSON boundary.

use vstd::prelude::*;
use crate::text::str_eq;

verus! {

/// The action a rule directs.
#[derive(Clone, Copy, Debug, PartialEq, Eq, Structural)]
pub enum Policy {
    Allowlist,
    AllowlistCompiler,
    Blocklist,
    Remove,
    SilentBlocklist,
}

/// The attribute a rule matches on.
#[derive(Clone, Copy, Debug, PartialEq, Eq, Structural)]
pub enum RuleType {
    Binary,
    CdHash,
    Certificate,
    SigningId,
    TeamId,
}

/// The policy a wire token names, if any: the closed set of tokens is
/// `ALLOWLIST`, `ALLOWLIST_COMPILER`, `BLOCKLIST`, `REMOVE` and
/// `SILENT_BLOCKLIST`.
pub open spec fn policy_from_spec(s: Seq<char>) -> Option<Policy> {
    if s == "ALLOWLIST"@ {
        Some(Policy::Allowlist)
    } else if s == "ALLOWLIST_COMPILER"@ {
        Some(Policy::AllowlistCompiler)
    } else if s == "BLOCKLIST"@ {
        Some(Policy::Blocklist)
    } else if s == "REMOVE"@ {
        Some(Policy::Remove)
    } else if s == "SILENT_BLOCKLIST"@ {
        Some(Policy::SilentBlocklist)
    } else {
        None
    }
}

/// Parses a policy wire token.
pub fn policy_from_str(s: &str) -> (r: Option<Policy>)
    ensures
        r == policy_from_spec(s@),
{
    if str_eq(s, "ALLOWLIST") {
        Some(Policy::Allowlist)
    } else if str_eq(s, "ALLOWLIST_COMPILER") {
        Some(Policy::AllowlistCompiler)
    } else if str_eq(s, "BLOCKLIST") {
        Some(Policy::Blocklist)
    } else if str_eq(s, "REMOVE") {
        Some(Policy::Remove)
    } else if str_eq(s, "SILENT_BLOCKLIST") {
        Some(Policy::SilentBlocklist)
    } else {
        None
    }
}

/// The rule type a wire token names, if any: the closed set of tokens is
/// `BINARY`, `CDHASH`, `CERTIFICATE`, `SIGNINGID` and `TEAMID`.
pub open spec fn rule_type_from_spec(s: Seq<char>) -> Option<RuleType> {
    if s == "BINARY"@ {
        Some(RuleType::Binary)
    } else if s == "CDHASH"@ {
        Some(RuleType::CdHash)
    } else if s == "CERTIFICATE"@ {
        Some(RuleType::Certificate)
    } else if s == "SIGNINGID"@ {
        Some(RuleType::SigningId)
    } else if s == "TEAMID"@ {
        Some(RuleType::TeamId)
    } else {
        None
    }
}

/// Parses a rule-type wire token.
pub fn rule_type_from_str(s: &str) -> (r: Option<RuleType>)
    ensures
        r == rule_type_from_spec(s@),
{
    if str_eq(s, "BINARY") {
        Some(RuleType::Binary)
    } else if str_eq(s, "CDHASH") {
        Some(RuleType::CdHash)
    } else if str_eq(s, "CERTIFICATE") {
        Some(RuleType::Certificate)
    } else if str_eq(s, "SIGNINGID") {
        Some(RuleType::SigningId)
    } else if str_eq(s, "TEAMID") {
        Some(RuleType::TeamId)
    } else {
        None
    }
}

/// A rule's creation time as the file spelled it: a fractional number,
/// carried as its bit pattern, or a whole number. Nothing here reads it;
/// the JSON boundary turns either form back into the wire's number.
#[derive(Clone, Copy, Debug, PartialEq, Eq, Structural)]
pub enum CreationTime {
    FloatBits(u64),
    Integer(i64),
}

/// A single allow/block directive with optional metadata.
#[derive(Debug)]
pub struct Rule {
    pub identifier: String,
    pub policy: Policy,
    pub rule_type: RuleType,
    pub custom_msg: Option<String>,
    pub custom_url: Option<String>,
    pub creation_time: Option<CreationTime>,
    pub file_bundle_binary_count: Option<u32>,
    pub file_bundle_hash: Option<String>,
}

/// The mathematical content of one rule: each text field as its character
/// sequence, everything else as itself.
pub struct RuleModel {
    pub identifier: Seq<char>,
    pub policy: Policy,
    pub rule_type: RuleType,
    pub custom_msg: Option<Seq<char>>,
    pub custom_url: Option<Seq<char>>,
    pub creation_time: Option<CreationTime>,
    pub file_bundle_binary_count: Option<u32>,
    pub file_bundle_hash: Option<Seq<char>>,
}

/// What one rule holds.
pub open spec fn rule_model(r: Rule) -> RuleModel {
    RuleModel {
        identifier: r.identifier@,
        policy: r.policy,
        rule_type: r.rule_type,
        custom_msg: r.custom_msg.deep_view(),
        custom_url: r.custom_url.deep_view(),
        creation_time: r.creation_time,
        file_bundle_binary_count: r.file_bundle_binary_count,
        file_bundle_hash: r.file_bundle_hash.deep_view(),
    }
}

/// What a rule list holds, in order.
pub open spec fn rules_model(s: Seq<Rule>) -> Seq<RuleModel> {
    s.map_values(|r: Rule| rule_model(r))
}

impl Clone for Rule {
    /// A copy holds exactly the same directive.
    fn clone(&self) -> (r: Self)
        ensures
            r == *self,
    {
        Rule {
            identifier: self.identifier.clone(),
            policy: self.policy,
            rule_type: self.rule_type,
            custom_msg: crate::preflight::clone_opt_string(&self.custom_msg),
            custom_url: crate::preflight::clone_opt_string(&self.custom_url),
            creation_time: self.creation_time,
            file_bundle_binary_count: self.file_bundle_binary_count,
            file_bundle_hash: crate::preflight::clone_opt_string(&self.file_bundle_hash),
        }
    }
}

/// Copies a rule list.
pub fn clone_rules(rules: &Vec<Rule>) -> (r: Vec<Rule>)
    ensures
        r@ == rules@,
{
    let mut out: Vec<Rule> = Vec::new();
    let n = rules.len();
    let mut i: usize = 0;
    while i < n
        invariant
            i <= n,
            n == rules@.len(),
            out@ == rules@.take(i as int),
        decreases n - i,
    {
        out.push(rules[i].clone());
        proof {
            assert(out@ =~= rules@.take(i + 1));
        }
        i += 1;
    }
    proof {
        assert(rules@.take(n as int) =~= rules@);
    }
    out
}

/// The full rule list answered to a ruledownload request.
#[derive(Debug)]
pub struct Rules {
    pub rules: Vec<Rule>,
}

impl Clone for Rules {
    /// A copy holds exactly the same rules.
    fn clone(&self) -> (r: Self)
        ensures
            r.rules@ == self.rules@,
    {
        Rules { rules: clone_rules(&self.rules) }
    }
}

} // verus!
