use vstd::prelude::*;

use crate::account::{Account, Transfer};
use crate::errors::{Error, ErrorCode};
use crate::events::TreasuryDeposit;
use crate::instructions::{swarm_at, treasury_at};
use crate::pda::{derived_from, swarm_seeds, treasury_seeds, with_bump};
use crate::pubkey::Pubkey;
use crate::state::Swarm;

verus! {

/// The accounts of `deposit_treasury`.
pub struct DepositTreasury {
    /// The signer that pays.
    pub payer: Pubkey,
    /// The swarm whose treasury is funded.
    pub swarm: Account<Swarm>,
    /// The swarm's treasury.
    pub treasury: Pubkey,
}

impl DepositTreasury {
    /// The outcome of the account constraints: the swarm is at its derived
    /// address and the treasury at the address derived from the swarm with
    /// the swarm's treasury bump.
    pub open spec fn spec_try_accounts(&self) -> Result<(), Error> {
        if !derived_from(
            with_bump(
                swarm_seeds(self.swarm.data.authority@, self.swarm.data.swarm_id),
                self.swarm.data.bump,
            ),
            self.swarm.key@,
        ) {
            Err(Error::Anchor(ErrorCode::ConstraintSeeds))
        } else if !derived_from(
            with_bump(treasury_seeds(self.swarm.key@), self.swarm.data.treasury_bump),
            self.treasury@,
        ) {
            Err(Error::Anchor(ErrorCode::ConstraintSeeds))
        } else {
            Ok(())
        }
    }

    /// Checks the account constraints in the order they are declared.
    pub fn try_accounts(&self) -> (r: Result<(), Error>)
        ensures
            r == self.spec_try_accounts(),
    {
        if !swarm_at(
            &self.swarm.key,
            &self.swarm.data.authority,
            self.swarm.data.swarm_id,
            self.swarm.data.bump,
        ) {
            return Err(Error::Anchor(ErrorCode::ConstraintSeeds));
        }
        if !treasury_at(&self.treasury, &self.swarm.key, self.swarm.data.treasury_bump) {
            return Err(Error::Anchor(ErrorCode::ConstraintSeeds));
        }
        Ok(())
    }
}

/// Tops up a swarm's treasury: the payer sends `amount` lamports to the
/// treasury, and the deposit is announced once that transfer went through.
pub fn handler(ctx: &DepositTreasury, amount: u64) -> (r: (Transfer, TreasuryDeposit))
    ensures
        r.0 == (Transfer { from: ctx.payer, to: ctx.treasury, lamports: amount }),
        r.1 == (TreasuryDeposit { swarm: ctx.swarm.key, from: ctx.payer, amount }),
{
    (
        Transfer { from: ctx.payer, to: ctx.treasury, lamports: amount },
        TreasuryDeposit { swarm: ctx.swarm.key, from: ctx.payer, amount },
    )
}

} // verus!
