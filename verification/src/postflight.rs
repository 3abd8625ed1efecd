//! Protocol type for the postflight endpoint: the end-of-sync
//! acknowledgment. All fields are optional and the server discards them.

use vstd::prelude::*;

verus! {

/// What a client reports when it closes a sync cycle.
#[derive(Clone, Copy, Debug, PartialEq, Eq, Structural)]
pub struct PostflightOptions {
    pub rules_received: Option<u32>,
    pub rules_processed: Option<u32>,
}

} // verus!
