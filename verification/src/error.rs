//! Failure codes surfaced to callers. Every guard failure aborts the whole
//! action with the specific code below and no partial effect.

use vstd::prelude::*;

verus! {

/// Why an action was refused.
#[derive(Clone, Copy, PartialEq, Eq, Structural, Debug)]
pub enum BillboardError {
    /// The action was attempted from a current state not permitted for it.
    InvalidState,
    /// The caller identity does not match the role the action requires.
    Unauthorized,
    /// The designated refund recipient is not the campaign's recorded sponsor.
    InvalidSponsor,
    /// `platform_set_live` was called with `end_ts <= start_ts`.
    InvalidTimestamps,
    /// `platform_set_expired` was called before the clock reached `end_ts`.
    CampaignNotExpired,
}

} // verus!
