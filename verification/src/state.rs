//! The campaign lifecycle state machine: the set of states, which states are
//! terminal, which admit a hard cancel, and the directed edges a campaign's
//! `state` field may follow.

use vstd::prelude::*;

verus! {

/// Lifecycle state of a campaign.
///
/// The main line runs `Deposited -> Approved -> Verifying -> Live -> Expired
/// -> Refunded`; the side terminal `CanceledHard` is reachable from any of
/// the first four states. `Refunded` and `CanceledHard` are terminal.
#[derive(Clone, Copy, PartialEq, Eq, Structural, Debug)]
pub enum CampaignState {
    Deposited,
    Approved,
    Verifying,
    Live,
    Expired,
    Refunded,
    CanceledHard,
}

impl Default for CampaignState {
    /// A freshly created campaign starts in `Deposited`.
    fn default() -> (s: Self)
        ensures
            s == CampaignState::Deposited,
    {
        CampaignState::Deposited
    }
}

/// A terminal state: no transition leaves it.
pub open spec fn is_terminal(s: CampaignState) -> bool {
    s is Refunded || s is CanceledHard
}

/// States from which the platform may hard-cancel: exactly
/// `Deposited`, `Approved`, `Verifying` and `Live`.
pub open spec fn cancelable(s: CampaignState) -> bool {
    s is Deposited || s is Approved || s is Verifying || s is Live
}

/// The directed edges of the lifecycle: every way a stored `state` field is
/// permitted to change. Any mutation outside this relation is forbidden.
pub open spec fn lifecycle_edge(from: CampaignState, to: CampaignState) -> bool {
    ||| (from is Deposited && to is Approved)
    ||| (from is Approved && to is Verifying)
    ||| (from is Verifying && to is Live)
    ||| (from is Live && to is Expired)
    ||| (from is Expired && to is Refunded)
    ||| (cancelable(from) && to is CanceledHard)
}

/// Position of a state along the lifecycle; every edge strictly increases it,
/// so no sequence of transitions can revisit an earlier state.
pub open spec fn stage(s: CampaignState) -> int {
    match s {
        CampaignState::Deposited => 0,
        CampaignState::Approved => 1,
        CampaignState::Verifying => 2,
        CampaignState::Live => 3,
        CampaignState::Expired => 4,
        CampaignState::Refunded => 5,
        CampaignState::CanceledHard => 6,
    }
}

} // verus!
