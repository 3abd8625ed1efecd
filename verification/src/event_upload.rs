//! Protocol types for the eventupload endpoint: the batch wrapper, one
//! execution-decision event, and the certificate chain attached to it.
//!
//! Timestamps travel on the wire as JSON numbers with a fractional part.
//! Nothing here reads them: they are carried as their decimal rendering,
//! produced at the JSON boundary, and spliced back out unchanged when an
//! event is projected to a log record.

use vstd::prelude::*;

verus! {

/// A batch of uploaded events; may be empty.
#[derive(Clone, Debug)]
pub struct EventUploadOptions {
    pub events: Vec<Event>,
}

/// The allow/block/bundle classification recorded for an execution event.
/// A closed enumeration; each variant has a fixed wire name.
#[derive(Clone, Copy, Debug, PartialEq, Eq, Structural)]
pub enum Decision {
    AllowBinary,
    AllowCertificate,
    AllowCdHash,
    AllowScope,
    AllowSigningId,
    AllowTeamId,
    AllowUnknown,
    BlockBinary,
    BlockCertificate,
    BlockCdHash,
    BlockScope,
    BlockSigningId,
    BlockTeamId,
    BlockUnknown,
    BundleBinary,
}

/// The wire name of each decision, exactly as the protocol spells it.
pub open spec fn decision_wire_spec(d: Decision) -> Seq<char> {
    match d {
        Decision::AllowBinary => "ALLOW_BINARY"@,
        Decision::AllowCertificate => "ALLOW_CERTIFICATE"@,
        Decision::AllowCdHash => "ALLOW_CDHASH"@,
        Decision::AllowScope => "ALLOW_SCOPE"@,
        Decision::AllowSigningId => "ALLOW_SIGNINGID"@,
        Decision::AllowTeamId => "ALLOW_TEAMID"@,
        Decision::AllowUnknown => "ALLOW_UNKNOWN"@,
        Decision::BlockBinary => "BLOCK_BINARY"@,
        Decision::BlockCertificate => "BLOCK_CERTIFICATE"@,
        Decision::BlockCdHash => "BLOCK_CDHASH"@,
        Decision::BlockScope => "BLOCK_SCOPE"@,
        Decision::BlockSigningId => "BLOCK_SIGNINGID"@,
        Decision::BlockTeamId => "BLOCK_TEAMID"@,
        Decision::BlockUnknown => "BLOCK_UNKNOWN"@,
        Decision::BundleBinary => "BUNDLE_BINARY"@,
    }
}

impl Decision {
    /// The protocol wire string for this decision, never an internal name.
    pub fn wire_name(&self) -> (r: &'static str)
        ensures
            r@ == decision_wire_spec(*self),
    {
        match self {
            Decision::AllowBinary => "ALLOW_BINARY",
            Decision::AllowCertificate => "ALLOW_CERTIFICATE",
            Decision::AllowCdHash => "ALLOW_CDHASH",
            Decision::AllowScope => "ALLOW_SCOPE",
            Decision::AllowSigningId => "ALLOW_SIGNINGID",
            Decision::AllowTeamId => "ALLOW_TEAMID",
            Decision::AllowUnknown => "ALLOW_UNKNOWN",
            Decision::BlockBinary => "BLOCK_BINARY",
            Decision::BlockCertificate => "BLOCK_CERTIFICATE",
            Decision::BlockCdHash => "BLOCK_CDHASH",
            Decision::BlockScope => "BLOCK_SCOPE",
            Decision::BlockSigningId => "BLOCK_SIGNINGID",
            Decision::BlockTeamId => "BLOCK_TEAMID",
            Decision::BlockUnknown => "BLOCK_UNKNOWN",
            Decision::BundleBinary => "BUNDLE_BINARY",
        }
    }
}

/// One certificate in the code-signing chain attached to an event; the
/// chain is position-ordered.
#[derive(Clone, Debug)]
pub struct SigningChainObject {
    pub sha256: String,
    pub cn: String,
    pub org: String,
    pub ou: String,
    pub valid_from: u32,
    pub valid_until: u32,
}

/// One uploaded execution-decision event. Field declaration order is the
/// order the event-log projector emits them in.
#[derive(Clone, Debug)]
pub struct Event {
    pub file_sha256: String,
    pub file_path: String,
    pub file_name: String,
    pub executing_user: Option<String>,
    /// Decimal rendering of the wire's fractional timestamp.
    pub execution_time: Option<String>,
    pub loggedin_users: Vec<String>,
    pub current_sessions: Vec<String>,
    pub decision: Decision,
    pub file_bundle_id: Option<String>,
    pub file_bundle_path: Option<String>,
    pub file_bundle_executable_rel_path: Option<String>,
    pub file_bundle_name: Option<String>,
    pub file_bundle_version: Option<String>,
    pub file_bundle_version_string: Option<String>,
    pub file_bundle_hash: Option<String>,
    pub file_bundle_hash_millis: Option<u32>,
    pub file_bundle_binary_count: Option<u32>,
    pub pid: Option<u32>,
    pub ppid: Option<u32>,
    pub parent_name: Option<String>,
    pub quarantine_data_url: Option<String>,
    pub quarantine_referer_url: Option<String>,
    /// Decimal rendering of the wire's fractional timestamp.
    pub quarantine_timestamp: Option<String>,
    pub quarantine_agent_bundle_id: Option<String>,
    pub signing_chain: Vec<SigningChainObject>,
    pub signing_id: Option<String>,
    pub team_id: Option<String>,
    pub cdhash: Option<String>,
}

} // verus!
