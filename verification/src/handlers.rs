//! The four protocol endpoints' decision logic, free of any transport: a
//! handler takes plain values that the HTTP layer decoded and answers the
//! values the HTTP layer sends back.

use vstd::prelude::*;
use crate::Empty;
use crate::event_upload::EventUploadOptions;
use crate::preflight::Preflight;
use crate::project::{event_log_line, event_numbers_wf, line_spec, project_spec};
use crate::rule_download::{Rules, clone_rules};
use crate::store::ConfigStore;

verus! {

/// Answers a preflight request: the resolved configuration's policy
/// settings. The request body's contents are ignored beyond a successful
/// decode and parse.
pub fn preflight(store: &ConfigStore, machine_id: &str) -> (r: Preflight)
    requires
        store.wf(),
    ensures
        r == store.config_for_spec(machine_id@).preflight,
{
    store.config_for(machine_id).preflight.clone()
}

/// Answers a ruledownload request: the resolved configuration's rule list
/// verbatim, no pagination. A machine with no configuration of its own gets
/// the `"global"` rule set.
pub fn ruledownload(store: &ConfigStore, machine_id: &str) -> (r: Rules)
    requires
        store.wf(),
    ensures
        r.rules@ == store.config_for_spec(machine_id@).rules@,
{
    Rules { rules: clone_rules(&store.config_for(machine_id).rules) }
}

/// Projects an uploaded batch into its log lines, one per event in batch
/// order; with event logging disabled, no lines at all, whatever the batch
/// size. The endpoint answers success either way.
pub fn eventupload_lines(event_log_enabled: bool, machine_id: &str, upload: &EventUploadOptions)
    -> (r: Vec<String>)
    requires
        forall|k: int|
            0 <= k < upload.events@.len() ==> event_numbers_wf(#[trigger] upload.events@[k]),
    ensures
        event_log_enabled ==> r@.len() == upload.events@.len() && (forall|k: int|
            0 <= k < upload.events@.len() ==> r@[k]@ == line_spec(
                project_spec(machine_id@, upload.events@[k]),
            )),
        !event_log_enabled ==> r@.len() == 0,
{
    let mut lines: Vec<String> = Vec::new();
    if !event_log_enabled {
        return lines;
    }
    let n = upload.events.len();
    let mut i: usize = 0;
    while i < n
        invariant
            i <= n,
            n == upload.events@.len(),
            forall|k: int|
                0 <= k < upload.events@.len() ==> event_numbers_wf(#[trigger] upload.events@[k]),
            lines@.len() == i,
            forall|k: int|
                0 <= k < i ==> lines@[k]@ == line_spec(
                    project_spec(machine_id@, upload.events@[k]),
                ),
        decreases n - i,
    {
        let line = event_log_line(machine_id, &upload.events[i]);
        lines.push(line);
        i += 1;
    }
    lines
}

/// Answers a postflight request: the body is accepted and discarded, the
/// answer always empty success — the protocol's deliberate no-op terminus.
pub fn postflight() -> (r: Empty)
    ensures
        r == (Empty {  }),
{
    Empty {  }
}

} // verus!
