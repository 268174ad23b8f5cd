//! The action entry points: one function per caller-visible action, each
//! running the same pipeline — authorization guard, then lifecycle-state
//! guard, then (where the action releases funds) the atomic transfer, then
//! the record update — and returning the notification record of the outcome.
//! Any guard failure aborts the whole action with no partial mutation.
//!
//! Guard order follows the control flow of the design: the authorization
//! guard (caller role, then refund recipient) runs first, then the state
//! machine's current-state check, then any extra data precondition
//! (timestamps, clock). Each `*_error` spec function spells out exactly which
//! failure code an action returns on which inputs; `None` means the action
//! is owed success.

use vstd::prelude::*;

use crate::campaign::Campaign;
use crate::campaign::PlatformConfig;
use crate::campaign::Pubkey;
use crate::campaign::Wallet;
use crate::error::BillboardError;
use crate::events::CampaignAccepted;
use crate::events::CampaignClaimed;
use crate::events::CampaignCreated;
use crate::events::CampaignExpired;
use crate::events::CampaignHardCanceled;
use crate::events::CampaignLive;
use crate::events::CampaignRejected;
use crate::events::CampaignVerifying;
use crate::state::CampaignState;
use crate::state::cancelable;
use crate::state::lifecycle_edge;
use crate::vault::Vault;
use crate::vault::transfer_releasable;

verus! {

// ---------------------------------------------------------------------------
// Call contexts: the accounts each action works on.
// ---------------------------------------------------------------------------

/// Accounts for `create_campaign_and_deposit`: the funding sponsor, the slot
/// the new campaign record is written into, and the campaign's fresh vault.
#[derive(Clone, Copy, PartialEq, Eq, Structural, Debug)]
pub struct CreateCampaignAndDeposit {
    pub sponsor: Wallet,
    pub campaign: Campaign,
    pub vault: Vault,
}

/// Accounts for a creator action that touches no funds
/// (`creator_accept`): the authenticated signer and the campaign record.
#[derive(Clone, Copy, PartialEq, Eq, Structural, Debug)]
pub struct CreatorAction {
    pub signer: Pubkey,
    pub campaign: Campaign,
}

/// Accounts for `creator_reject`: the authenticated signer, the campaign
/// record, its vault, and the sponsor account the refund goes to.
#[derive(Clone, Copy, PartialEq, Eq, Structural, Debug)]
pub struct CreatorReject {
    pub signer: Pubkey,
    pub campaign: Campaign,
    pub vault: Vault,
    pub sponsor: Wallet,
}

/// Accounts for a platform action that touches no funds
/// (`platform_set_verifying`, `platform_set_live`, `platform_set_expired`):
/// the authenticated platform signer and the campaign record.
#[derive(Clone, Copy, PartialEq, Eq, Structural, Debug)]
pub struct PlatformAction {
    pub platform_authority: Pubkey,
    pub campaign: Campaign,
}

/// Accounts for `platform_hard_cancel_and_refund`: the authenticated
/// platform signer, the campaign record, its vault, and the sponsor account
/// the refund goes to.
#[derive(Clone, Copy, PartialEq, Eq, Structural, Debug)]
pub struct PlatformCancelAndRefund {
    pub platform_authority: Pubkey,
    pub campaign: Campaign,
    pub vault: Vault,
    pub sponsor: Wallet,
}

/// Accounts for `creator_claim`: the authenticated creator (who also
/// receives the payout), the campaign record, and its vault.
#[derive(Clone, Copy, PartialEq, Eq, Structural, Debug)]
pub struct CreatorClaim {
    pub creator: Wallet,
    pub campaign: Campaign,
    pub vault: Vault,
}

// ---------------------------------------------------------------------------
// Guard outcomes, one spec function per action.
// ---------------------------------------------------------------------------

/// Which failure `creator_accept` returns, or `None` when it must succeed.
pub open spec fn creator_accept_error(pre: CreatorAction) -> Option<BillboardError> {
    if pre.signer != pre.campaign.creator {
        Some(BillboardError::Unauthorized)
    } else if !(pre.campaign.state is Deposited) {
        Some(BillboardError::InvalidState)
    } else {
        None
    }
}

/// Which failure `creator_reject` returns, or `None` when it must succeed.
pub open spec fn creator_reject_error(pre: CreatorReject) -> Option<BillboardError> {
    if pre.signer != pre.campaign.creator {
        Some(BillboardError::Unauthorized)
    } else if pre.sponsor.key != pre.campaign.sponsor {
        Some(BillboardError::InvalidSponsor)
    } else if !(pre.campaign.state is Deposited) {
        Some(BillboardError::InvalidState)
    } else {
        None
    }
}

/// Which failure `platform_set_verifying` returns, or `None` on success.
pub open spec fn platform_set_verifying_error(
    pre: PlatformAction,
    config: PlatformConfig,
) -> Option<BillboardError> {
    if pre.platform_authority != config.platform_authority {
        Some(BillboardError::Unauthorized)
    } else if !(pre.campaign.state is Approved) {
        Some(BillboardError::InvalidState)
    } else {
        None
    }
}

/// Which failure `platform_set_live` returns, or `None` on success.
pub open spec fn platform_set_live_error(
    pre: PlatformAction,
    config: PlatformConfig,
    start_ts: i64,
    end_ts: i64,
) -> Option<BillboardError> {
    if pre.platform_authority != config.platform_authority {
        Some(BillboardError::Unauthorized)
    } else if !(pre.campaign.state is Verifying) {
        Some(BillboardError::InvalidState)
    } else if end_ts <= start_ts {
        Some(BillboardError::InvalidTimestamps)
    } else {
        None
    }
}

/// Which failure `platform_set_expired` returns, or `None` on success.
pub open spec fn platform_set_expired_error(
    pre: PlatformAction,
    config: PlatformConfig,
    now: i64,
) -> Option<BillboardError> {
    if pre.platform_authority != config.platform_authority {
        Some(BillboardError::Unauthorized)
    } else if !(pre.campaign.state is Live) {
        Some(BillboardError::InvalidState)
    } else if now < pre.campaign.end_ts {
        Some(BillboardError::CampaignNotExpired)
    } else {
        None
    }
}

/// Which failure `platform_hard_cancel_and_refund` returns, or `None` on
/// success.
pub open spec fn platform_hard_cancel_error(
    pre: PlatformCancelAndRefund,
    config: PlatformConfig,
) -> Option<BillboardError> {
    if pre.platform_authority != config.platform_authority {
        Some(BillboardError::Unauthorized)
    } else if pre.sponsor.key != pre.campaign.sponsor {
        Some(BillboardError::InvalidSponsor)
    } else if !cancelable(pre.campaign.state) {
        Some(BillboardError::InvalidState)
    } else {
        None
    }
}

/// Which failure `creator_claim` returns, or `None` when it must succeed.
pub open spec fn creator_claim_error(pre: CreatorClaim) -> Option<BillboardError> {
    if pre.creator.key != pre.campaign.creator {
        Some(BillboardError::Unauthorized)
    } else if !(pre.campaign.state is Expired) {
        Some(BillboardError::InvalidState)
    } else {
        None
    }
}

// ---------------------------------------------------------------------------
// Actions.
// ---------------------------------------------------------------------------

/// Create a campaign record and fund its vault with `amount` from the
/// sponsor, leaving the campaign `Deposited`. The sponsor authorizes this
/// call by being the funding signer; the vault must be the fresh one created
/// alongside the record, and the sponsor must hold the deposit. Establishes
/// fund conservation for the new campaign.
pub fn create_campaign_and_deposit(
    ctx: &mut CreateCampaignAndDeposit,
    campaign_id: u64,
    creator: Pubkey,
    amount: u64,
    duration: u64,
) -> (r: Result<CampaignCreated, BillboardError>)
    requires
        old(ctx).vault.is_fresh(),
        old(ctx).sponsor.lamports >= amount,
        old(ctx).vault.balance + amount <= u64::MAX,
    ensures
        r == Ok::<CampaignCreated, BillboardError>(CampaignCreated {
            campaign_id,
            sponsor: old(ctx).sponsor.key,
            creator,
            amount,
            duration,
        }),
        final(ctx).campaign == (Campaign {
            campaign_id,
            sponsor: old(ctx).sponsor.key,
            creator,
            amount,
            duration,
            state: CampaignState::Deposited,
            start_ts: 0i64,
            end_ts: 0i64,
        }),
        final(ctx).vault == (Vault {
            balance: (old(ctx).vault.balance + amount) as u64,
            reserve: old(ctx).vault.reserve,
            released: 0u64,
        }),
        final(ctx).sponsor == (Wallet {
            key: old(ctx).sponsor.key,
            lamports: (old(ctx).sponsor.lamports - amount) as u64,
        }),
        final(ctx).vault.conserves(amount),
        final(ctx).campaign.window_wf(),
{
    ctx.sponsor.lamports = ctx.sponsor.lamports - amount;
    ctx.vault.balance = ctx.vault.balance + amount;

    ctx.campaign.campaign_id = campaign_id;
    ctx.campaign.sponsor = ctx.sponsor.key;
    ctx.campaign.creator = creator;
    ctx.campaign.amount = amount;
    ctx.campaign.duration = duration;
    ctx.campaign.state = CampaignState::Deposited;
    ctx.campaign.start_ts = 0;
    ctx.campaign.end_ts = 0;

    Ok(CampaignCreated {
        campaign_id,
        sponsor: ctx.sponsor.key,
        creator,
        amount,
        duration,
    })
}

/// The creator accepts a `Deposited` campaign, moving it to `Approved`.
/// No funds move.
pub fn creator_accept(ctx: &mut CreatorAction) -> (r: Result<CampaignAccepted, BillboardError>)
    ensures
        match creator_accept_error(*old(ctx)) {
            Some(e) => r == Err::<CampaignAccepted, BillboardError>(e) && *final(ctx) == *old(ctx),
            None => {
                &&& r == Ok::<CampaignAccepted, BillboardError>(CampaignAccepted {
                    campaign_id: old(ctx).campaign.campaign_id,
                    creator: old(ctx).campaign.creator,
                })
                &&& *final(ctx) == (CreatorAction {
                    campaign: old(ctx).campaign.with_state(CampaignState::Approved),
                    ..*old(ctx)
                })
            },
        },
        final(ctx).campaign.state == old(ctx).campaign.state
            || lifecycle_edge(old(ctx).campaign.state, final(ctx).campaign.state),
        old(ctx).campaign.window_wf() ==> final(ctx).campaign.window_wf(),
{
    if ctx.signer != ctx.campaign.creator {
        return Err(BillboardError::Unauthorized);
    }
    if ctx.campaign.state != CampaignState::Deposited {
        return Err(BillboardError::InvalidState);
    }

    ctx.campaign.state = CampaignState::Approved;

    Ok(CampaignAccepted {
        campaign_id: ctx.campaign.campaign_id,
        creator: ctx.campaign.creator,
    })
}

/// The creator rejects a `Deposited` campaign: the whole releasable balance
/// is refunded to the recorded sponsor and the campaign ends `CanceledHard`.
/// Preserves fund conservation. The bounds required are substrate limits on
/// 64-bit balances.
pub fn creator_reject(ctx: &mut CreatorReject) -> (r: Result<CampaignRejected, BillboardError>)
    requires
        old(ctx).sponsor.lamports + old(ctx).vault.spec_releasable() <= u64::MAX,
        old(ctx).vault.released + old(ctx).vault.spec_releasable() <= u64::MAX,
    ensures
        match creator_reject_error(*old(ctx)) {
            Some(e) => r == Err::<CampaignRejected, BillboardError>(e) && *final(ctx) == *old(ctx),
            None => {
                &&& r == Ok::<CampaignRejected, BillboardError>(CampaignRejected {
                    campaign_id: old(ctx).campaign.campaign_id,
                    creator: old(ctx).campaign.creator,
                    refund_amount: old(ctx).vault.spec_releasable(),
                })
                &&& final(ctx).campaign == old(ctx).campaign.with_state(CampaignState::CanceledHard)
                &&& final(ctx).vault == (Vault {
                    balance: (old(ctx).vault.balance - old(ctx).vault.spec_releasable()) as u64,
                    reserve: old(ctx).vault.reserve,
                    released: (old(ctx).vault.released + old(ctx).vault.spec_releasable()) as u64,
                })
                &&& final(ctx).sponsor == (Wallet {
                    key: old(ctx).sponsor.key,
                    lamports: (old(ctx).sponsor.lamports + old(ctx).vault.spec_releasable()) as u64,
                })
                &&& final(ctx).signer == old(ctx).signer
                &&& final(ctx).vault.spec_releasable() == 0
            },
        },
        final(ctx).campaign.state == old(ctx).campaign.state
            || lifecycle_edge(old(ctx).campaign.state, final(ctx).campaign.state),
        old(ctx).campaign.window_wf() ==> final(ctx).campaign.window_wf(),
        old(ctx).vault.conserves(old(ctx).campaign.amount)
            ==> final(ctx).vault.conserves(final(ctx).campaign.amount),
{
    if ctx.signer != ctx.campaign.creator {
        return Err(BillboardError::Unauthorized);
    }
    if ctx.sponsor.key != ctx.campaign.sponsor {
        return Err(BillboardError::InvalidSponsor);
    }
    if ctx.campaign.state != CampaignState::Deposited {
        return Err(BillboardError::InvalidState);
    }

    let refund_amount = transfer_releasable(&mut ctx.vault, &mut ctx.sponsor);
    ctx.campaign.state = CampaignState::CanceledHard;

    Ok(CampaignRejected {
        campaign_id: ctx.campaign.campaign_id,
        creator: ctx.campaign.creator,
        refund_amount,
    })
}

/// The platform authority moves an `Approved` campaign to `Verifying`.
/// No funds move.
pub fn platform_set_verifying(
    ctx: &mut PlatformAction,
    config: &PlatformConfig,
) -> (r: Result<CampaignVerifying, BillboardError>)
    ensures
        match platform_set_verifying_error(*old(ctx), *config) {
            Some(e) => r == Err::<CampaignVerifying, BillboardError>(e) && *final(ctx) == *old(ctx),
            None => {
                &&& r == Ok::<CampaignVerifying, BillboardError>(CampaignVerifying {
                    campaign_id: old(ctx).campaign.campaign_id,
                })
                &&& *final(ctx) == (PlatformAction {
                    campaign: old(ctx).campaign.with_state(CampaignState::Verifying),
                    ..*old(ctx)
                })
            },
        },
        final(ctx).campaign.state == old(ctx).campaign.state
            || lifecycle_edge(old(ctx).campaign.state, final(ctx).campaign.state),
        old(ctx).campaign.window_wf() ==> final(ctx).campaign.window_wf(),
{
    if ctx.platform_authority != config.platform_authority {
        return Err(BillboardError::Unauthorized);
    }
    if ctx.campaign.state != CampaignState::Approved {
        return Err(BillboardError::InvalidState);
    }

    ctx.campaign.state = CampaignState::Verifying;

    Ok(CampaignVerifying { campaign_id: ctx.campaign.campaign_id })
}

/// The platform authority sets a `Verifying` campaign `Live` with its run
/// window; `end_ts` must lie strictly after `start_ts`. The window is
/// recorded exactly once, here. No funds move.
pub fn platform_set_live(
    ctx: &mut PlatformAction,
    config: &PlatformConfig,
    start_ts: i64,
    end_ts: i64,
) -> (r: Result<CampaignLive, BillboardError>)
    ensures
        match platform_set_live_error(*old(ctx), *config, start_ts, end_ts) {
            Some(e) => r == Err::<CampaignLive, BillboardError>(e) && *final(ctx) == *old(ctx),
            None => {
                &&& r == Ok::<CampaignLive, BillboardError>(CampaignLive {
                    campaign_id: old(ctx).campaign.campaign_id,
                    start_ts,
                    end_ts,
                })
                &&& *final(ctx) == (PlatformAction {
                    campaign: old(ctx).campaign.with_live_window(start_ts, end_ts),
                    ..*old(ctx)
                })
            },
        },
        final(ctx).campaign.state == old(ctx).campaign.state
            || lifecycle_edge(old(ctx).campaign.state, final(ctx).campaign.state),
        old(ctx).campaign.window_wf() ==> final(ctx).campaign.window_wf(),
{
    if ctx.platform_authority != config.platform_authority {
        return Err(BillboardError::Unauthorized);
    }
    if ctx.campaign.state != CampaignState::Verifying {
        return Err(BillboardError::InvalidState);
    }
    if end_ts <= start_ts {
        return Err(BillboardError::InvalidTimestamps);
    }

    ctx.campaign.state = CampaignState::Live;
    ctx.campaign.start_ts = start_ts;
    ctx.campaign.end_ts = end_ts;

    Ok(CampaignLive {
        campaign_id: ctx.campaign.campaign_id,
        start_ts,
        end_ts,
    })
}

/// The platform authority marks a `Live` campaign `Expired` once the clock
/// reading `now` has reached the recorded `end_ts`. No funds move.
pub fn platform_set_expired(
    ctx: &mut PlatformAction,
    config: &PlatformConfig,
    now: i64,
) -> (r: Result<CampaignExpired, BillboardError>)
    ensures
        match platform_set_expired_error(*old(ctx), *config, now) {
            Some(e) => r == Err::<CampaignExpired, BillboardError>(e) && *final(ctx) == *old(ctx),
            None => {
                &&& r == Ok::<CampaignExpired, BillboardError>(CampaignExpired {
                    campaign_id: old(ctx).campaign.campaign_id,
                })
                &&& *final(ctx) == (PlatformAction {
                    campaign: old(ctx).campaign.with_state(CampaignState::Expired),
                    ..*old(ctx)
                })
            },
        },
        final(ctx).campaign.state == old(ctx).campaign.state
            || lifecycle_edge(old(ctx).campaign.state, final(ctx).campaign.state),
        old(ctx).campaign.window_wf() ==> final(ctx).campaign.window_wf(),
{
    if ctx.platform_authority != config.platform_authority {
        return Err(BillboardError::Unauthorized);
    }
    if ctx.campaign.state != CampaignState::Live {
        return Err(BillboardError::InvalidState);
    }
    if now < ctx.campaign.end_ts {
        return Err(BillboardError::CampaignNotExpired);
    }

    ctx.campaign.state = CampaignState::Expired;

    Ok(CampaignExpired { campaign_id: ctx.campaign.campaign_id })
}

/// The platform authority irreversibly cancels a campaign from any of
/// `Deposited`, `Approved`, `Verifying` or `Live` — and from no other state —
/// refunding the whole releasable balance to the recorded sponsor and ending
/// the campaign `CanceledHard`. Preserves fund conservation. The bounds
/// required are substrate limits on 64-bit balances.
pub fn platform_hard_cancel_and_refund(
    ctx: &mut PlatformCancelAndRefund,
    config: &PlatformConfig,
) -> (r: Result<CampaignHardCanceled, BillboardError>)
    requires
        old(ctx).sponsor.lamports + old(ctx).vault.spec_releasable() <= u64::MAX,
        old(ctx).vault.released + old(ctx).vault.spec_releasable() <= u64::MAX,
    ensures
        match platform_hard_cancel_error(*old(ctx), *config) {
            Some(e) => r == Err::<CampaignHardCanceled, BillboardError>(e)
                && *final(ctx) == *old(ctx),
            None => {
                &&& r == Ok::<CampaignHardCanceled, BillboardError>(CampaignHardCanceled {
                    campaign_id: old(ctx).campaign.campaign_id,
                    refund_amount: old(ctx).vault.spec_releasable(),
                    sponsor: old(ctx).campaign.sponsor,
                })
                &&& final(ctx).campaign == old(ctx).campaign.with_state(CampaignState::CanceledHard)
                &&& final(ctx).vault == (Vault {
                    balance: (old(ctx).vault.balance - old(ctx).vault.spec_releasable()) as u64,
                    reserve: old(ctx).vault.reserve,
                    released: (old(ctx).vault.released + old(ctx).vault.spec_releasable()) as u64,
                })
                &&& final(ctx).sponsor == (Wallet {
                    key: old(ctx).sponsor.key,
                    lamports: (old(ctx).sponsor.lamports + old(ctx).vault.spec_releasable()) as u64,
                })
                &&& final(ctx).platform_authority == old(ctx).platform_authority
                &&& final(ctx).vault.spec_releasable() == 0
            },
        },
        final(ctx).campaign.state == old(ctx).campaign.state
            || lifecycle_edge(old(ctx).campaign.state, final(ctx).campaign.state),
        old(ctx).campaign.window_wf() ==> final(ctx).campaign.window_wf(),
        old(ctx).vault.conserves(old(ctx).campaign.amount)
            ==> final(ctx).vault.conserves(final(ctx).campaign.amount),
{
    if ctx.platform_authority != config.platform_authority {
        return Err(BillboardError::Unauthorized);
    }
    if ctx.sponsor.key != ctx.campaign.sponsor {
        return Err(BillboardError::InvalidSponsor);
    }
    let state_ok = ctx.campaign.state == CampaignState::Deposited
        || ctx.campaign.state == CampaignState::Approved
        || ctx.campaign.state == CampaignState::Verifying
        || ctx.campaign.state == CampaignState::Live;
    if !state_ok {
        return Err(BillboardError::InvalidState);
    }

    let refund_amount = transfer_releasable(&mut ctx.vault, &mut ctx.sponsor);
    ctx.campaign.state = CampaignState::CanceledHard;

    Ok(CampaignHardCanceled {
        campaign_id: ctx.campaign.campaign_id,
        refund_amount,
        sponsor: ctx.campaign.sponsor,
    })
}

/// The creator claims the payout of an `Expired` campaign: the whole
/// releasable balance moves to the creator and the campaign ends in its
/// claimed terminal state. Preserves fund conservation. The bounds required
/// are substrate limits on 64-bit balances.
pub fn creator_claim(ctx: &mut CreatorClaim) -> (r: Result<CampaignClaimed, BillboardError>)
    requires
        old(ctx).creator.lamports + old(ctx).vault.spec_releasable() <= u64::MAX,
        old(ctx).vault.released + old(ctx).vault.spec_releasable() <= u64::MAX,
    ensures
        match creator_claim_error(*old(ctx)) {
            Some(e) => r == Err::<CampaignClaimed, BillboardError>(e) && *final(ctx) == *old(ctx),
            None => {
                &&& r == Ok::<CampaignClaimed, BillboardError>(CampaignClaimed {
                    campaign_id: old(ctx).campaign.campaign_id,
                    creator: old(ctx).campaign.creator,
                    amount: old(ctx).vault.spec_releasable(),
                })
                &&& final(ctx).campaign == old(ctx).campaign.with_state(CampaignState::Refunded)
                &&& final(ctx).vault == (Vault {
                    balance: (old(ctx).vault.balance - old(ctx).vault.spec_releasable()) as u64,
                    reserve: old(ctx).vault.reserve,
                    released: (old(ctx).vault.released + old(ctx).vault.spec_releasable()) as u64,
                })
                &&& final(ctx).creator == (Wallet {
                    key: old(ctx).creator.key,
                    lamports: (old(ctx).creator.lamports + old(ctx).vault.spec_releasable()) as u64,
                })
                &&& final(ctx).vault.spec_releasable() == 0
            },
        },
        final(ctx).campaign.state == old(ctx).campaign.state
            || lifecycle_edge(old(ctx).campaign.state, final(ctx).campaign.state),
        old(ctx).campaign.window_wf() ==> final(ctx).campaign.window_wf(),
        old(ctx).vault.conserves(old(ctx).campaign.amount)
            ==> final(ctx).vault.conserves(final(ctx).campaign.amount),
{
    if ctx.creator.key != ctx.campaign.creator {
        return Err(BillboardError::Unauthorized);
    }
    if ctx.campaign.state != CampaignState::Expired {
        return Err(BillboardError::InvalidState);
    }

    let amount = transfer_releasable(&mut ctx.vault, &mut ctx.creator);
    ctx.campaign.state = CampaignState::Refunded;

    Ok(CampaignClaimed {
        campaign_id: ctx.campaign.campaign_id,
        creator: ctx.campaign.creator,
        amount,
    })
}

} // verus!
