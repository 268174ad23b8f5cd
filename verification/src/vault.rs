//! The escrow vault and the fund-transfer engine.
//!
//! A vault is bound 1:1 to a campaign. It keeps a reserve floor (the minimum
//! balance the ledger substrate requires the account to retain) that is never
//! transferred out: only `balance - reserve` is ever releasable. The engine
//! moves exactly that releasable amount, in one indivisible step, to a
//! designated recipient, and records how much has ever been released.

use vstd::prelude::*;

use crate::campaign::Wallet;

verus! {

/// Escrow balance container for one campaign.
#[derive(Clone, Copy, PartialEq, Eq, Structural, Debug)]
pub struct Vault {
    /// Native-currency balance currently held, reserve floor included.
    pub balance: u64,
    /// Reserve floor: the minimum balance never released.
    pub reserve: u64,
    /// Total amount ever released from this vault.
    pub released: u64,
}

impl Vault {
    /// The amount a release would move: `balance - reserve`, saturating at
    /// zero, so a vault drained below its floor simply has nothing to give.
    pub open spec fn spec_releasable(self) -> u64 {
        if self.balance > self.reserve {
            (self.balance - self.reserve) as u64
        } else {
            0u64
        }
    }

    /// Fund conservation against the original deposit: everything still
    /// releasable plus everything ever released accounts for the deposit.
    /// Established at creation and preserved by every action; only external
    /// interference with the balance can break it.
    pub open spec fn conserves(self, deposit: u64) -> bool {
        self.spec_releasable() + self.released == deposit
    }

    /// A vault that has not yet been funded or touched: it holds exactly its
    /// reserve floor and has released nothing.
    pub open spec fn is_fresh(self) -> bool {
        self.balance == self.reserve && self.released == 0
    }

    /// A fresh vault holding only its reserve floor.
    pub fn new(reserve: u64) -> (v: Vault)
        ensures
            v == (Vault { balance: reserve, reserve, released: 0u64 }),
            v.is_fresh(),
    {
        Vault { balance: reserve, reserve, released: 0u64 }
    }

    /// The releasable amount, computed with saturating subtraction.
    pub fn releasable(&self) -> (r: u64)
        ensures
            r == self.spec_releasable(),
    {
        if self.balance > self.reserve {
            self.balance - self.reserve
        } else {
            0
        }
    }
}

/// The fund-transfer engine: compute the releasable amount and move it
/// atomically from the vault to the recipient. A zero releasable amount is a
/// successful no-op, not an error. Afterwards nothing releasable remains.
///
/// The bounds required are substrate limits: ledger balances and the running
/// release total never exceed the 64-bit currency range.
pub fn transfer_releasable(vault: &mut Vault, recipient: &mut Wallet) -> (amount: u64)
    requires
        old(recipient).lamports + old(vault).spec_releasable() <= u64::MAX,
        old(vault).released + old(vault).spec_releasable() <= u64::MAX,
    ensures
        amount == old(vault).spec_releasable(),
        final(vault).balance == old(vault).balance - amount,
        final(vault).reserve == old(vault).reserve,
        final(vault).released == old(vault).released + amount,
        final(vault).spec_releasable() == 0,
        final(recipient).key == old(recipient).key,
        final(recipient).lamports == old(recipient).lamports + amount,
{
    let amount = vault.releasable();
    if amount > 0 {
        vault.balance = vault.balance - amount;
        recipient.lamports = recipient.lamports + amount;
    }
    vault.released = vault.released + amount;
    amount
}

} // verus!
