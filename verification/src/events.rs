//! Notification records. Every successful action produces exactly one of
//! these immutable records for off-system observers; they are best-effort
//! notifications and have no bearing on whether the action committed.

use vstd::prelude::*;

use crate::campaign::Pubkey;

verus! {

/// A campaign was created and its vault funded.
#[derive(Clone, Copy, PartialEq, Eq, Structural, Debug)]
pub struct CampaignCreated {
    pub campaign_id: u64,
    pub sponsor: Pubkey,
    pub creator: Pubkey,
    pub amount: u64,
    pub duration: u64,
}

/// The creator accepted the campaign.
#[derive(Clone, Copy, PartialEq, Eq, Structural, Debug)]
pub struct CampaignAccepted {
    pub campaign_id: u64,
    pub creator: Pubkey,
}

/// The creator rejected the campaign; the sponsor was refunded in full.
#[derive(Clone, Copy, PartialEq, Eq, Structural, Debug)]
pub struct CampaignRejected {
    pub campaign_id: u64,
    pub creator: Pubkey,
    pub refund_amount: u64,
}

/// The platform moved the campaign into verification.
#[derive(Clone, Copy, PartialEq, Eq, Structural, Debug)]
pub struct CampaignVerifying {
    pub campaign_id: u64,
}

/// The platform set the campaign live with its run window.
#[derive(Clone, Copy, PartialEq, Eq, Structural, Debug)]
pub struct CampaignLive {
    pub campaign_id: u64,
    pub start_ts: i64,
    pub end_ts: i64,
}

/// The platform marked the campaign expired after its window closed.
#[derive(Clone, Copy, PartialEq, Eq, Structural, Debug)]
pub struct CampaignExpired {
    pub campaign_id: u64,
}

/// The platform hard-canceled the campaign; the sponsor was refunded in full.
#[derive(Clone, Copy, PartialEq, Eq, Structural, Debug)]
pub struct CampaignHardCanceled {
    pub campaign_id: u64,
    pub refund_amount: u64,
    pub sponsor: Pubkey,
}

/// The creator claimed the payout of an expired campaign.
#[derive(Clone, Copy, PartialEq, Eq, Structural, Debug)]
pub struct CampaignClaimed {
    pub campaign_id: u64,
    pub creator: Pubkey,
    pub amount: u64,
}

} // verus!
