//! The pool record, and what a pool sees of the ledger around it.

use crate::pubkey::Pubkey;
use vstd::prelude::*;

verus! {

/// The highest fee rate a pool can charge: one hundred percent.
pub const MAX_FEE_BPS: u16 = 10_000;

/// A custodial balance of one asset, as the ledger reports it.
#[derive(Clone, Copy, Debug, PartialEq, Eq)]
pub struct TokenAccount {
    /// Where the balance lives.
    pub key: Pubkey,
    /// The asset it holds.
    pub mint: Pubkey,
    /// Who may move it.
    pub owner: Pubkey,
    /// How much it holds.
    pub amount: u64,
}

/// The supply of a fungible asset, as the ledger reports it.
#[derive(Clone, Copy, Debug, PartialEq, Eq)]
pub struct Mint {
    /// Where the supply is recorded.
    pub key: Pubkey,
    /// Who may enlarge the supply, if anyone.
    pub mint_authority: Option<Pubkey>,
    /// How much is outstanding.
    pub supply: u64,
}

/// The record of a trading pair. It is written once, when the pool is
/// created, and every deposit and swap reads it.
///
/// The record fixes an order of the two assets: the vaults are listed in the
/// order of the mints.
#[derive(Clone, Copy, Debug, PartialEq, Eq)]
pub struct Pool {
    /// The first asset.
    pub token_a_mint: Pubkey,
    /// The second asset.
    pub token_b_mint: Pubkey,
    /// The pool's reserve of the first asset.
    pub token_a_vault: Pubkey,
    /// The pool's reserve of the second asset.
    pub token_b_vault: Pubkey,
    /// The supply of the pool's ownership shares.
    pub lp_mint: Pubkey,
    /// The trading fee, in basis points of the amount paid in.
    pub trade_fee_bps: u16,
    /// The nonce from which, together with the two mints, the pool's own
    /// address is derived.
    pub bump: u8,
}

/// The tag that opens every pool's signing seeds: the bytes of `pool`.
pub open spec fn pool_seed_tag() -> Seq<u8> {
    seq![112u8, 111u8, 111u8, 108u8]
}

impl Pool {
    /// A pool trades two different assets and charges at most the whole
    /// amount as its fee.
    pub open spec fn wf(&self) -> bool {
        &&& self.token_a_mint != self.token_b_mint
        &&& self.trade_fee_bps <= MAX_FEE_BPS
    }

    /// The seeds under which the pool signs: the tag, the first mint, the
    /// second mint, and the nonce.
    pub open spec fn spec_signer_seeds(&self) -> Seq<Seq<u8>> {
        seq![pool_seed_tag(), self.token_a_mint@, self.token_b_mint@, seq![self.bump]]
    }

    /// The seeds that authorise the pool to move its reserves and to mint its
    /// shares. They are a function of the two mints and the nonce alone, so a
    /// caller rebuilds them for each transfer and keeps nothing signed.
    pub fn signer_seeds(&self) -> (seeds: Vec<Vec<u8>>)
        ensures
            seeds.deep_view() == self.spec_signer_seeds(),
    {
        let mut tag: Vec<u8> = Vec::new();
        tag.push(112u8);
        tag.push(111u8);
        tag.push(111u8);
        tag.push(108u8);
        let mut nonce: Vec<u8> = Vec::new();
        nonce.push(self.bump);
        let mut seeds: Vec<Vec<u8>> = Vec::new();
        seeds.push(tag);
        seeds.push(self.token_a_mint.to_vec());
        seeds.push(self.token_b_mint.to_vec());
        seeds.push(nonce);
        assert(seeds.deep_view() =~~= self.spec_signer_seeds());
        seeds
    }
}

} // verus!
