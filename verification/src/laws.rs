//! System-wide laws of the lifecycle, stated over the same spec functions
//! the action contracts use and proved once and for all.

use vstd::prelude::*;

use crate::actions::CreatorAction;
use crate::actions::CreatorClaim;
use crate::actions::CreatorReject;
use crate::actions::PlatformAction;
use crate::actions::PlatformCancelAndRefund;
use crate::actions::creator_accept_error;
use crate::actions::creator_claim_error;
use crate::actions::creator_reject_error;
use crate::actions::platform_hard_cancel_error;
use crate::actions::platform_set_expired_error;
use crate::actions::platform_set_live_error;
use crate::actions::platform_set_verifying_error;
use crate::campaign::PlatformConfig;
use crate::error::BillboardError;
use crate::state::CampaignState;
use crate::state::cancelable;
use crate::state::is_terminal;
use crate::state::lifecycle_edge;
use crate::state::stage;

verus! {

/// Terminal states are absorbing: no lifecycle edge leaves `Refunded` or
/// `CanceledHard`, so together with the edge clause every action ensures,
/// a campaign that has reached a terminal state keeps its state forever.
pub proof fn lemma_terminal_states_absorb(s: CampaignState, t: CampaignState)
    requires
        is_terminal(s),
    ensures
        !lifecycle_edge(s, t),
{
}

/// The lifecycle only moves forward: every edge strictly increases the
/// state's stage, so no sequence of transitions can lead back into an
/// earlier state.
pub proof fn lemma_edges_advance(s: CampaignState, t: CampaignState)
    requires
        lifecycle_edge(s, t),
    ensures
        stage(t) > stage(s),
{
}

/// Hard cancel applies exactly to the four states of the active group:
/// every non-terminal state except `Expired`, and no terminal one.
pub proof fn lemma_cancelable_states(s: CampaignState)
    ensures
        cancelable(s) <==> !is_terminal(s) && !(s is Expired),
{
}

/// At-most-once release: once a campaign sits in a terminal state, each of
/// the three fund-releasing actions — creator reject, platform hard cancel,
/// creator claim — is refused with `InvalidState`, even for the rightful
/// caller and recipient. Since each of those actions succeeds only by
/// leaving the campaign in a terminal state, and on any failure leaves all
/// accounts untouched, the vault's release total moves from zero to its
/// final value at most once.
pub proof fn lemma_release_at_most_once(
    rj: CreatorReject,
    hc: PlatformCancelAndRefund,
    cl: CreatorClaim,
    config: PlatformConfig,
)
    requires
        is_terminal(rj.campaign.state),
        rj.signer == rj.campaign.creator,
        rj.sponsor.key == rj.campaign.sponsor,
        is_terminal(hc.campaign.state),
        hc.platform_authority == config.platform_authority,
        hc.sponsor.key == hc.campaign.sponsor,
        is_terminal(cl.campaign.state),
        cl.creator.key == cl.campaign.creator,
    ensures
        creator_reject_error(rj) == Some(BillboardError::InvalidState),
        platform_hard_cancel_error(hc, config) == Some(BillboardError::InvalidState),
        creator_claim_error(cl) == Some(BillboardError::InvalidState),
{
}

/// The authorization guard runs first: a caller who does not hold the role
/// an action requires is refused with `Unauthorized`, whatever the
/// campaign's state — and the action contracts add that any refusal leaves
/// the campaign record and every balance exactly as they were.
pub proof fn lemma_unauthorized_caller_rejected(
    a: CreatorAction,
    rj: CreatorReject,
    p: PlatformAction,
    hc: PlatformCancelAndRefund,
    cl: CreatorClaim,
    config: PlatformConfig,
    start_ts: i64,
    end_ts: i64,
    now: i64,
)
    requires
        a.signer != a.campaign.creator,
        rj.signer != rj.campaign.creator,
        p.platform_authority != config.platform_authority,
        hc.platform_authority != config.platform_authority,
        cl.creator.key != cl.campaign.creator,
    ensures
        creator_accept_error(a) == Some(BillboardError::Unauthorized),
        creator_reject_error(rj) == Some(BillboardError::Unauthorized),
        platform_set_verifying_error(p, config) == Some(BillboardError::Unauthorized),
        platform_set_live_error(p, config, start_ts, end_ts) == Some(BillboardError::Unauthorized),
        platform_set_expired_error(p, config, now) == Some(BillboardError::Unauthorized),
        platform_hard_cancel_error(hc, config) == Some(BillboardError::Unauthorized),
        creator_claim_error(cl) == Some(BillboardError::Unauthorized),
{
}

} // verus!
