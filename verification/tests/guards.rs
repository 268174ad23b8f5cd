//! Guard behavior: every failure code, and the promise that a refused
//! action leaves the record and every balance untouched.

use billboard_market::actions::{
    create_campaign_and_deposit, creator_accept, creator_claim, creator_reject,
    platform_hard_cancel_and_refund, platform_set_expired, platform_set_live,
    platform_set_verifying, CreateCampaignAndDeposit, CreatorAction, CreatorClaim, CreatorReject,
    PlatformAction, PlatformCancelAndRefund,
};
use billboard_market::campaign::{Campaign, PlatformConfig, Pubkey, Wallet};
use billboard_market::error::BillboardError;
use billboard_market::state::CampaignState;
use billboard_market::vault::Vault;

const RESERVE: u64 = 50;

fn pk(value: u64) -> Pubkey {
    Pubkey { value }
}

fn config() -> PlatformConfig {
    PlatformConfig {
        platform_authority: pk(30),
    }
}

fn blank_campaign() -> Campaign {
    Campaign {
        campaign_id: 0,
        sponsor: pk(0),
        creator: pk(0),
        amount: 0,
        duration: 0,
        state: CampaignState::Deposited,
        start_ts: 0,
        end_ts: 0,
    }
}

/// A campaign over 1000 units driven to the given state through the real
/// actions, together with its vault.
fn campaign_in(state: CampaignState) -> (Campaign, Vault) {
    let mut ctx = CreateCampaignAndDeposit {
        sponsor: Wallet {
            key: pk(10),
            lamports: 10_000,
        },
        campaign: blank_campaign(),
        vault: Vault::new(RESERVE),
    };
    create_campaign_and_deposit(&mut ctx, 1, pk(20), 1_000, 86_400).unwrap();
    let mut campaign = ctx.campaign;
    let mut vault = ctx.vault;
    if campaign.state == state {
        return (campaign, vault);
    }

    let mut a = CreatorAction {
        signer: pk(20),
        campaign,
    };
    creator_accept(&mut a).unwrap();
    campaign = a.campaign;
    if campaign.state == state {
        return (campaign, vault);
    }

    let mut p = PlatformAction {
        platform_authority: pk(30),
        campaign,
    };
    platform_set_verifying(&mut p, &config()).unwrap();
    if p.campaign.state == state {
        return (p.campaign, vault);
    }
    platform_set_live(&mut p, &config(), 100, 200).unwrap();
    if p.campaign.state == state {
        return (p.campaign, vault);
    }
    platform_set_expired(&mut p, &config(), 200).unwrap();
    campaign = p.campaign;
    if campaign.state == state {
        return (campaign, vault);
    }

    if state == CampaignState::Refunded {
        let mut c = CreatorClaim {
            creator: Wallet {
                key: pk(20),
                lamports: 0,
            },
            campaign,
            vault,
        };
        creator_claim(&mut c).unwrap();
        return (c.campaign, c.vault);
    }
    // CanceledHard: hard-cancel a freshly deposited campaign instead.
    let (deposited, v) = campaign_in(CampaignState::Deposited);
    let mut hc = PlatformCancelAndRefund {
        platform_authority: pk(30),
        campaign: deposited,
        vault: v,
        sponsor: Wallet {
            key: pk(10),
            lamports: 0,
        },
    };
    platform_hard_cancel_and_refund(&mut hc, &config()).unwrap();
    vault = hc.vault;
    (hc.campaign, vault)
}

#[test]
fn accept_by_wrong_signer_is_unauthorized_with_no_side_effect() {
    let (campaign, _) = campaign_in(CampaignState::Deposited);
    let mut ctx = CreatorAction {
        signer: pk(99),
        campaign,
    };
    let err = creator_accept(&mut ctx).unwrap_err();
    assert_eq!(err, BillboardError::Unauthorized);
    assert_eq!(ctx.campaign, campaign);
}

#[test]
fn accept_from_approved_is_invalid_state() {
    let (campaign, _) = campaign_in(CampaignState::Approved);
    let mut ctx = CreatorAction {
        signer: pk(20),
        campaign,
    };
    let err = creator_accept(&mut ctx).unwrap_err();
    assert_eq!(err, BillboardError::InvalidState);
    assert_eq!(ctx.campaign, campaign);
}

#[test]
fn reject_by_wrong_signer_is_unauthorized_with_no_side_effect() {
    let (campaign, vault) = campaign_in(CampaignState::Deposited);
    let sponsor = Wallet {
        key: pk(10),
        lamports: 77,
    };
    let mut ctx = CreatorReject {
        signer: pk(99),
        campaign,
        vault,
        sponsor,
    };
    let err = creator_reject(&mut ctx).unwrap_err();
    assert_eq!(err, BillboardError::Unauthorized);
    assert_eq!(ctx.campaign, campaign);
    assert_eq!(ctx.vault, vault);
    assert_eq!(ctx.sponsor, sponsor);
}

#[test]
fn reject_to_wrong_recipient_is_invalid_sponsor_with_no_side_effect() {
    let (campaign, vault) = campaign_in(CampaignState::Deposited);
    let intruder = Wallet {
        key: pk(66),
        lamports: 0,
    };
    let mut ctx = CreatorReject {
        signer: pk(20),
        campaign,
        vault,
        sponsor: intruder,
    };
    let err = creator_reject(&mut ctx).unwrap_err();
    assert_eq!(err, BillboardError::InvalidSponsor);
    assert_eq!(ctx.campaign, campaign);
    assert_eq!(ctx.vault, vault);
    assert_eq!(ctx.sponsor, intruder);
}

#[test]
fn reject_from_approved_is_invalid_state() {
    let (campaign, vault) = campaign_in(CampaignState::Approved);
    let mut ctx = CreatorReject {
        signer: pk(20),
        campaign,
        vault,
        sponsor: Wallet {
            key: pk(10),
            lamports: 0,
        },
    };
    let err = creator_reject(&mut ctx).unwrap_err();
    assert_eq!(err, BillboardError::InvalidState);
    assert_eq!(ctx.campaign, campaign);
    assert_eq!(ctx.vault, vault);
}

#[test]
fn platform_actions_by_wrong_authority_are_unauthorized_with_no_side_effect() {
    let (campaign, _) = campaign_in(CampaignState::Approved);
    let mut ctx = PlatformAction {
        platform_authority: pk(99),
        campaign,
    };
    assert_eq!(
        platform_set_verifying(&mut ctx, &config()).unwrap_err(),
        BillboardError::Unauthorized
    );
    assert_eq!(
        platform_set_live(&mut ctx, &config(), 100, 200).unwrap_err(),
        BillboardError::Unauthorized
    );
    assert_eq!(
        platform_set_expired(&mut ctx, &config(), 500).unwrap_err(),
        BillboardError::Unauthorized
    );
    assert_eq!(ctx.campaign, campaign);
}

#[test]
fn hard_cancel_by_wrong_authority_is_unauthorized_with_no_side_effect() {
    let (campaign, vault) = campaign_in(CampaignState::Live);
    let sponsor = Wallet {
        key: pk(10),
        lamports: 5,
    };
    let mut ctx = PlatformCancelAndRefund {
        platform_authority: pk(99),
        campaign,
        vault,
        sponsor,
    };
    let err = platform_hard_cancel_and_refund(&mut ctx, &config()).unwrap_err();
    assert_eq!(err, BillboardError::Unauthorized);
    assert_eq!(ctx.campaign, campaign);
    assert_eq!(ctx.vault, vault);
    assert_eq!(ctx.sponsor, sponsor);
}

#[test]
fn hard_cancel_to_wrong_recipient_is_invalid_sponsor() {
    let (campaign, vault) = campaign_in(CampaignState::Live);
    let mut ctx = PlatformCancelAndRefund {
        platform_authority: pk(30),
        campaign,
        vault,
        sponsor: Wallet {
            key: pk(66),
            lamports: 0,
        },
    };
    let err = platform_hard_cancel_and_refund(&mut ctx, &config()).unwrap_err();
    assert_eq!(err, BillboardError::InvalidSponsor);
    assert_eq!(ctx.campaign, campaign);
    assert_eq!(ctx.vault, vault);
}

#[test]
fn set_verifying_from_deposited_is_invalid_state() {
    let (campaign, _) = campaign_in(CampaignState::Deposited);
    let mut ctx = PlatformAction {
        platform_authority: pk(30),
        campaign,
    };
    let err = platform_set_verifying(&mut ctx, &config()).unwrap_err();
    assert_eq!(err, BillboardError::InvalidState);
    assert_eq!(ctx.campaign, campaign);
}

#[test]
fn set_live_rejects_end_not_after_start() {
    let (campaign, _) = campaign_in(CampaignState::Verifying);
    let mut ctx = PlatformAction {
        platform_authority: pk(30),
        campaign,
    };
    let err = platform_set_live(&mut ctx, &config(), 200, 200).unwrap_err();
    assert_eq!(err, BillboardError::InvalidTimestamps);
    let err = platform_set_live(&mut ctx, &config(), 200, 100).unwrap_err();
    assert_eq!(err, BillboardError::InvalidTimestamps);
    assert_eq!(ctx.campaign, campaign);
    assert_eq!(ctx.campaign.state, CampaignState::Verifying);
}

#[test]
fn set_expired_before_end_is_not_expired() {
    let (campaign, _) = campaign_in(CampaignState::Live);
    let mut ctx = PlatformAction {
        platform_authority: pk(30),
        campaign,
    };
    let err = platform_set_expired(&mut ctx, &config(), 199).unwrap_err();
    assert_eq!(err, BillboardError::CampaignNotExpired);
    assert_eq!(ctx.campaign, campaign);
    assert_eq!(ctx.campaign.state, CampaignState::Live);
}

#[test]
fn hard_cancel_succeeds_from_every_active_state() {
    for state in [
        CampaignState::Deposited,
        CampaignState::Approved,
        CampaignState::Verifying,
        CampaignState::Live,
    ] {
        let (campaign, vault) = campaign_in(state);
        let mut ctx = PlatformCancelAndRefund {
            platform_authority: pk(30),
            campaign,
            vault,
            sponsor: Wallet {
                key: pk(10),
                lamports: 100,
            },
        };
        let ev = platform_hard_cancel_and_refund(&mut ctx, &config()).unwrap();
        assert_eq!(ev.refund_amount, 1_000);
        assert_eq!(ev.sponsor, pk(10));
        assert_eq!(ctx.campaign.state, CampaignState::CanceledHard);
        assert_eq!(ctx.sponsor.lamports, 1_100);
        assert_eq!(ctx.vault.releasable(), 0);
    }
}

#[test]
fn hard_cancel_is_refused_from_every_other_state() {
    for state in [
        CampaignState::Expired,
        CampaignState::Refunded,
        CampaignState::CanceledHard,
    ] {
        let (campaign, vault) = campaign_in(state);
        let mut ctx = PlatformCancelAndRefund {
            platform_authority: pk(30),
            campaign,
            vault,
            sponsor: Wallet {
                key: pk(10),
                lamports: 100,
            },
        };
        let err = platform_hard_cancel_and_refund(&mut ctx, &config()).unwrap_err();
        assert_eq!(err, BillboardError::InvalidState);
        assert_eq!(ctx.campaign, campaign);
        assert_eq!(ctx.vault, vault);
        assert_eq!(ctx.sponsor.lamports, 100);
    }
}

#[test]
fn claim_by_wrong_creator_is_unauthorized_with_no_side_effect() {
    let (campaign, vault) = campaign_in(CampaignState::Expired);
    let mut ctx = CreatorClaim {
        creator: Wallet {
            key: pk(99),
            lamports: 0,
        },
        campaign,
        vault,
    };
    let err = creator_claim(&mut ctx).unwrap_err();
    assert_eq!(err, BillboardError::Unauthorized);
    assert_eq!(ctx.campaign, campaign);
    assert_eq!(ctx.vault, vault);
    assert_eq!(ctx.creator.lamports, 0);
}

#[test]
fn claim_from_live_is_invalid_state() {
    let (campaign, vault) = campaign_in(CampaignState::Live);
    let mut ctx = CreatorClaim {
        creator: Wallet {
            key: pk(20),
            lamports: 0,
        },
        campaign,
        vault,
    };
    let err = creator_claim(&mut ctx).unwrap_err();
    assert_eq!(err, BillboardError::InvalidState);
    assert_eq!(ctx.campaign, campaign);
    assert_eq!(ctx.vault, vault);
}
