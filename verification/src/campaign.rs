//! The campaign record and the plain account values the core works on:
//! identities, spendable balances, and the configured platform authority.

use vstd::prelude::*;

use crate::state::CampaignState;

verus! {

/// An account identity on the external ledger, abstracted to an opaque
/// 64-bit handle. The core only ever compares identities for equality.
#[derive(Clone, Copy, PartialEq, Eq, Structural, Debug)]
pub struct Pubkey {
    pub value: u64,
}

/// An externally owned account as the core sees it: an identity and a
/// native-currency balance in smallest units.
#[derive(Clone, Copy, PartialEq, Eq, Structural, Debug)]
pub struct Wallet {
    pub key: Pubkey,
    pub lamports: u64,
}

/// Process-wide configuration injected at startup: the single trusted
/// platform-authority identity every `platform_*` action is checked against.
#[derive(Clone, Copy, PartialEq, Eq, Structural, Debug)]
pub struct PlatformConfig {
    pub platform_authority: Pubkey,
}

/// The agreement record, one per `campaign_id`, created once and mutated in
/// place thereafter. Only `state` changes over the lifecycle; `start_ts` and
/// `end_ts` are set exactly once, when the campaign goes live, and are zero
/// before that.
#[derive(Clone, Copy, PartialEq, Eq, Structural, Debug)]
pub struct Campaign {
    pub campaign_id: u64,
    pub sponsor: Pubkey,
    pub creator: Pubkey,
    pub amount: u64,
    pub duration: u64,
    pub state: CampaignState,
    pub start_ts: i64,
    pub end_ts: i64,
}

impl Campaign {
    /// Timestamp discipline over the lifecycle: before the campaign goes
    /// live the window is all zeros, and once it is `Live` (or later
    /// `Expired`) the recorded window is a real interval. Creation
    /// establishes this and every action preserves it; the window is written
    /// exactly once, by the transition to `Live`.
    pub open spec fn window_wf(self) -> bool {
        &&& (self.state is Deposited || self.state is Approved || self.state is Verifying)
            ==> self.start_ts == 0 && self.end_ts == 0
        &&& (self.state is Live || self.state is Expired) ==> self.end_ts > self.start_ts
    }

    /// The same record with only the lifecycle state replaced.
    pub open spec fn with_state(self, s: CampaignState) -> Campaign {
        Campaign { state: s, ..self }
    }

    /// The same record with the state replaced and the live window set.
    pub open spec fn with_live_window(self, start_ts: i64, end_ts: i64) -> Campaign {
        Campaign { state: CampaignState::Live, start_ts, end_ts, ..self }
    }
}

} // verus!
