//! The requests that an operation makes of the token program.
//!
//! The library moves no tokens. Each operation returns the instructions that
//! carry it out, in the order in which they are to be sent, each with the
//! accounts it touches, the account that authorizes it and the amount.

use anchor_lang::prelude::Pubkey;
use vstd::prelude::*;

verus! {

/// The accounts of a transfer between two token accounts of one asset.
#[derive(Clone, Copy, Debug, PartialEq, Eq)]
pub struct Transfer {
    /// The account that gives.
    pub from: Pubkey,
    /// The account that receives.
    pub to: Pubkey,
    /// Who authorizes the transfer.
    pub authority: Pubkey,
}

/// The accounts of a mint of new tokens.
#[derive(Clone, Copy, Debug, PartialEq, Eq)]
pub struct MintTo {
    /// The asset minted.
    pub mint: Pubkey,
    /// The account that receives.
    pub to: Pubkey,
    /// Who authorizes the mint.
    pub authority: Pubkey,
}

/// The accounts of a burn of tokens.
#[derive(Clone, Copy, Debug, PartialEq, Eq)]
pub struct Burn {
    /// The asset burned.
    pub mint: Pubkey,
    /// The account that the tokens are taken from.
    pub from: Pubkey,
    /// Who authorizes the burn.
    pub authority: Pubkey,
}

/// What the market's authority is derived from: the label
/// `exchange_authority`, the market's owner and a bump.
#[derive(Clone, Copy, Debug, PartialEq, Eq)]
pub struct SignerSeeds {
    /// The market's owner.
    pub owner: Pubkey,
    /// The bump stored with the market.
    pub bump: u8,
}

/// One call of the token program: the program, the accounts, and the seeds
/// to sign with, if any.
#[derive(Debug, PartialEq, Eq)]
pub struct CpiContext<T> {
    /// The token program.
    pub program: Pubkey,
    /// The accounts of the call.
    pub accounts: T,
    /// Seeds of the market's authority, once the call has been signed.
    pub signer_seeds: Option<SignerSeeds>,
}

impl<T: Copy> Clone for CpiContext<T> {
    fn clone(&self) -> (copy: Self)
        ensures
            copy == *self,
    {
        *self
    }
}

impl<T: Copy> Copy for CpiContext<T> {

}

impl<T> CpiContext<T> {
    /// The same call, signed with `seeds`.
    pub fn with_signer(self, seeds: SignerSeeds) -> (signed: Self)
        ensures
            signed == (CpiContext {
                program: self.program,
                accounts: self.accounts,
                signer_seeds: Some(seeds),
            }),
    {
        CpiContext { program: self.program, accounts: self.accounts, signer_seeds: Some(seeds) }
    }
}

/// An instruction for the token program, with its amount.
#[derive(Clone, Copy, Debug, PartialEq, Eq)]
pub enum TokenInstruction {
    /// Mint `1` new tokens.
    MintTo(CpiContext<MintTo>, u64),
    /// Move `1` tokens.
    Transfer(CpiContext<Transfer>, u64),
    /// Burn `1` tokens.
    Burn(CpiContext<Burn>, u64),
}

impl TokenInstruction {
    /// The account that authorizes the instruction.
    pub open spec fn authority(self) -> Pubkey {
        match self {
            TokenInstruction::MintTo(call, _) => call.accounts.authority,
            TokenInstruction::Transfer(call, _) => call.accounts.authority,
            TokenInstruction::Burn(call, _) => call.accounts.authority,
        }
    }

    /// The token account that the instruction takes from; of a mint, the
    /// asset minted.
    pub open spec fn source(self) -> Pubkey {
        match self {
            TokenInstruction::MintTo(call, _) => call.accounts.mint,
            TokenInstruction::Transfer(call, _) => call.accounts.from,
            TokenInstruction::Burn(call, _) => call.accounts.from,
        }
    }

    /// The token account that the instruction gives to; of a burn, the asset
    /// burned.
    pub open spec fn destination(self) -> Pubkey {
        match self {
            TokenInstruction::MintTo(call, _) => call.accounts.to,
            TokenInstruction::Transfer(call, _) => call.accounts.to,
            TokenInstruction::Burn(call, _) => call.accounts.mint,
        }
    }

    /// The amount minted, moved or burned.
    pub open spec fn amount(self) -> u64 {
        match self {
            TokenInstruction::MintTo(_, amount) => amount,
            TokenInstruction::Transfer(_, amount) => amount,
            TokenInstruction::Burn(_, amount) => amount,
        }
    }
}

} // verus!
