//! Opening of a market.

use crate::state::Helio;
use anchor_lang::prelude::Pubkey;
use vstd::prelude::*;

verus! {

/// The accounts of the opening of a market.
#[derive(Clone, Copy, Debug, PartialEq, Eq)]
pub struct InitializeHelio {
    /// Who opens the market, and pays for its record.
    pub owner: Pubkey,
    /// The market's record, to be filled in.
    pub helio: Helio,
    /// The address derived for the market from the label `exchange_authority`
    /// and the owner's address.
    pub exchange_authority: Pubkey,
    /// The token program.
    pub token_program: Pubkey,
    /// The system program.
    pub system_program: Pubkey,
}

/// The bumps found when the addresses of [`InitializeHelio`] were derived.
#[derive(Clone, Copy, Debug, PartialEq, Eq, Structural)]
pub struct InitializeHelioBumps {
    /// The bump of `exchange_authority`.
    pub exchange_authority: u8,
}

impl InitializeHelio {
    /// The market's record as the opening leaves it.
    pub open spec fn opened(
        self,
        bumps: InitializeHelioBumps,
        lp_reward_num: u64,
        lp_reward_denom: u64,
    ) -> Helio {
        Helio {
            exchange_authority: self.exchange_authority,
            owner: self.owner,
            lp_reward_num,
            lp_reward_denom,
            exchange_auth_bump: bumps.exchange_authority,
        }
    }
}

/// Opens a market whose swaps price `lp_reward_num / lp_reward_denom` of
/// their input. The denominator must not be zero.
pub fn handler(
    ctx: &mut InitializeHelio,
    bumps: InitializeHelioBumps,
    lp_reward_num: u64,
    lp_reward_denom: u64,
)
    requires
        lp_reward_denom > 0,
    ensures
        final(ctx).helio == old(ctx).opened(bumps, lp_reward_num, lp_reward_denom),
        final(ctx).helio.wf(),
        *final(ctx) == (InitializeHelio { helio: final(ctx).helio, ..*old(ctx) }),
{
    ctx.helio.exchange_authority = ctx.exchange_authority;
    ctx.helio.owner = ctx.owner;
    ctx.helio.lp_reward_num = lp_reward_num;
    ctx.helio.lp_reward_denom = lp_reward_denom;
    ctx.helio.exchange_auth_bump = bumps.exchange_authority;
}

} // verus!
