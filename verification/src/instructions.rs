//! The three operations on a pool: creating it, depositing liquidity, and
//! swapping one asset for the other.
//!
//! Each operation is a computation on a snapshot of the accounts it
//! concerns. It first checks, in one pass, that the accounts are the ones the
//! pool is wired to, and then prices the operation. Nothing is moved here:
//! the caller carries out the transfers and the mint for the amounts returned,
//! as one atomic unit.

use crate::curve::{deposit_quote, lemma_swap_preserves_product, shares_for_deposit, swap_amount_out, swap_quote, BOOTSTRAP_SHARES};
use crate::error::PoolError;
use crate::pubkey::Pubkey;
use crate::state::{Mint, Pool, TokenAccount, MAX_FEE_BPS};
use vstd::prelude::*;

verus! {

/// The accounts of a pool creation.
#[derive(Clone, Copy, Debug, PartialEq, Eq)]
pub struct CreatePool {
    /// The address of the pool record, derived from the two mints and `bump`.
    pub pool: Pubkey,
    /// The nonce of that derivation.
    pub bump: u8,
    /// The first asset.
    pub token_a_mint: Pubkey,
    /// The second asset.
    pub token_b_mint: Pubkey,
    /// The balance that is to be the pool's reserve of the first asset.
    pub token_a_vault: TokenAccount,
    /// The balance that is to be the pool's reserve of the second asset.
    pub token_b_vault: TokenAccount,
    /// The share supply that is to be the pool's.
    pub lp_mint: Mint,
}

/// The accounts of a deposit.
#[derive(Clone, Copy, Debug, PartialEq, Eq)]
pub struct AddLiquidity {
    /// The pool deposited into.
    pub pool: Pool,
    /// The first asset, as the depositor names it.
    pub token_a_mint: Pubkey,
    /// The second asset, as the depositor names it.
    pub token_b_mint: Pubkey,
    /// The reserve of the first asset, before the deposit.
    pub token_a_vault: TokenAccount,
    /// The reserve of the second asset, before the deposit.
    pub token_b_vault: TokenAccount,
    /// The share supply, before the deposit.
    pub lp_mint: Mint,
}

/// The accounts of a swap.
#[derive(Clone, Copy, Debug, PartialEq, Eq)]
pub struct Swap {
    /// The pool traded against.
    pub pool: Pool,
    /// The first asset, as the trader names it.
    pub token_a_mint: Pubkey,
    /// The second asset, as the trader names it.
    pub token_b_mint: Pubkey,
    /// The reserve that receives the trader's payment, before the swap.
    pub vault_source: TokenAccount,
    /// The reserve that pays the trader, before the swap.
    pub vault_destination: TokenAccount,
}

impl CreatePool {
    /// Whether `vault` is owned by the pool and holds `asset`.
    pub open spec fn vault_fits(&self, vault: TokenAccount, asset: Pubkey) -> bool {
        vault.owner == self.pool && vault.mint == asset
    }

    /// Why these accounts cannot make a pool, if they cannot. The asset pair is
    /// looked at first, then the vaults, then the share supply.
    pub open spec fn refusal(&self) -> Option<PoolError> {
        if self.token_a_mint == self.token_b_mint {
            Some(PoolError::InvalidAssetPair)
        } else if !self.vault_fits(self.token_a_vault, self.token_a_mint) || !self.vault_fits(
            self.token_b_vault,
            self.token_b_mint,
        ) {
            Some(PoolError::VaultOwnershipMismatch)
        } else if self.lp_mint.mint_authority != Some(self.pool) || self.lp_mint.supply != 0 {
            Some(PoolError::MintAuthorityMismatch)
        } else {
            None
        }
    }

    /// The record of the pool that these accounts make.
    pub open spec fn record(&self, trade_fee_bps: u16) -> Pool {
        Pool {
            token_a_mint: self.token_a_mint,
            token_b_mint: self.token_b_mint,
            token_a_vault: self.token_a_vault.key,
            token_b_vault: self.token_b_vault.key,
            lp_mint: self.lp_mint.key,
            trade_fee_bps,
            bump: self.bump,
        }
    }

    /// Checks the accounts: two different assets, each vault owned by the pool
    /// and holding its asset, and a share supply that only the pool can
    /// enlarge and of which nothing is outstanding.
    pub fn validate(&self) -> (res: Result<(), PoolError>)
        ensures
            res == match self.refusal() {
                Some(e) => Err::<(), PoolError>(e),
                None => Ok::<(), PoolError>(()),
            },
    {
        if self.token_a_mint == self.token_b_mint {
            return Err(PoolError::InvalidAssetPair);
        }
        if self.token_a_vault.owner != self.pool || self.token_a_vault.mint != self.token_a_mint {
            return Err(PoolError::VaultOwnershipMismatch);
        }
        if self.token_b_vault.owner != self.pool || self.token_b_vault.mint != self.token_b_mint {
            return Err(PoolError::VaultOwnershipMismatch);
        }
        let authority_is_pool = match self.lp_mint.mint_authority {
            Some(authority) => authority == self.pool,
            None => false,
        };
        if !authority_is_pool || self.lp_mint.supply != 0 {
            return Err(PoolError::MintAuthorityMismatch);
        }
        Ok(())
    }
}

impl AddLiquidity {
    /// Why these accounts are not the pool's, if they are not. The mints are
    /// looked at first, then the vaults, then the share supply.
    pub open spec fn refusal(&self) -> Option<PoolError> {
        if self.token_a_mint != self.pool.token_a_mint || self.token_b_mint
            != self.pool.token_b_mint {
            Some(PoolError::InvalidAssetPair)
        } else if self.token_a_vault.key != self.pool.token_a_vault || self.token_b_vault.key
            != self.pool.token_b_vault {
            Some(PoolError::VaultOwnershipMismatch)
        } else if self.lp_mint.key != self.pool.lp_mint {
            Some(PoolError::MintAuthorityMismatch)
        } else {
            None
        }
    }

    /// Checks that the mints, the vaults and the share supply are the ones
    /// the pool records.
    pub fn validate(&self) -> (res: Result<(), PoolError>)
        ensures
            res == match self.refusal() {
                Some(e) => Err::<(), PoolError>(e),
                None => Ok::<(), PoolError>(()),
            },
    {
        if self.token_a_mint != self.pool.token_a_mint || self.token_b_mint
            != self.pool.token_b_mint {
            return Err(PoolError::InvalidAssetPair);
        }
        if self.token_a_vault.key != self.pool.token_a_vault || self.token_b_vault.key
            != self.pool.token_b_vault {
            return Err(PoolError::VaultOwnershipMismatch);
        }
        if self.lp_mint.key != self.pool.lp_mint {
            return Err(PoolError::MintAuthorityMismatch);
        }
        Ok(())
    }
}

impl Swap {
    /// The trader pays the first asset and is paid the second.
    pub open spec fn source_is_a(&self) -> bool {
        self.vault_source.key == self.pool.token_a_vault && self.vault_destination.key
            == self.pool.token_b_vault
    }

    /// The trader pays the second asset and is paid the first.
    pub open spec fn source_is_b(&self) -> bool {
        self.vault_source.key == self.pool.token_b_vault && self.vault_destination.key
            == self.pool.token_a_vault
    }

    /// Why these accounts are not the pool's, if they are not. The mints are
    /// looked at first, then the vaults, which must be the pool's two
    /// reserves, one each way.
    pub open spec fn refusal(&self) -> Option<PoolError> {
        if self.token_a_mint != self.pool.token_a_mint || self.token_b_mint
            != self.pool.token_b_mint {
            Some(PoolError::InvalidAssetPair)
        } else if !self.source_is_a() && !self.source_is_b() {
            Some(PoolError::VaultOwnershipMismatch)
        } else {
            None
        }
    }

    /// The reserve of the first asset before the swap.
    pub open spec fn reserve_a(&self) -> int {
        if self.source_is_a() {
            self.vault_source.amount as int
        } else {
            self.vault_destination.amount as int
        }
    }

    /// The reserve of the second asset before the swap.
    pub open spec fn reserve_b(&self) -> int {
        if self.source_is_a() {
            self.vault_destination.amount as int
        } else {
            self.vault_source.amount as int
        }
    }

    /// The reserve of the first asset once `amount_in` has been paid into the
    /// source vault, fee included, and `amount_out` paid from the other.
    pub open spec fn reserve_a_after(&self, amount_in: u64, amount_out: u64) -> int {
        if self.source_is_a() {
            self.vault_source.amount + amount_in
        } else {
            self.vault_destination.amount - amount_out
        }
    }

    /// The reserve of the second asset after the same two transfers.
    pub open spec fn reserve_b_after(&self, amount_in: u64, amount_out: u64) -> int {
        if self.source_is_a() {
            self.vault_destination.amount - amount_out
        } else {
            self.vault_source.amount + amount_in
        }
    }

    /// Checks that the mints are the pool's and that the two vaults are the
    /// pool's two reserves, one as source and the other as destination.
    pub fn validate(&self) -> (res: Result<(), PoolError>)
        ensures
            res == match self.refusal() {
                Some(e) => Err::<(), PoolError>(e),
                None => Ok::<(), PoolError>(()),
            },
    {
        if self.token_a_mint != self.pool.token_a_mint || self.token_b_mint
            != self.pool.token_b_mint {
            return Err(PoolError::InvalidAssetPair);
        }
        let a_to_b = self.vault_source.key == self.pool.token_a_vault
            && self.vault_destination.key == self.pool.token_b_vault;
        let b_to_a = self.vault_source.key == self.pool.token_b_vault
            && self.vault_destination.key == self.pool.token_a_vault;
        if !a_to_b && !b_to_a {
            return Err(PoolError::VaultOwnershipMismatch);
        }
        Ok(())
    }
}

/// The outcome of creating a pool from `ctx` at `trade_fee_bps`.
pub open spec fn create_pool_result(ctx: CreatePool, trade_fee_bps: u16) -> Result<Pool, PoolError> {
    match ctx.refusal() {
        Some(e) => Err(e),
        None => Ok(ctx.record(trade_fee_bps)),
    }
}

/// The outcome of depositing `amount_a` through `ctx`: the shares to mint.
pub open spec fn add_liquidity_result(ctx: AddLiquidity, amount_a: u64) -> Result<u64, PoolError> {
    match ctx.refusal() {
        Some(e) => Err(e),
        None => deposit_quote(ctx.lp_mint.supply, ctx.token_a_vault.amount, amount_a),
    }
}

/// The outcome of swapping `amount_in` through `ctx`: the amount to pay out.
pub open spec fn swap_result(ctx: Swap, amount_in: u64) -> Result<u64, PoolError> {
    match ctx.refusal() {
        Some(e) => Err(e),
        None => swap_quote(
            ctx.vault_source.amount,
            ctx.vault_destination.amount,
            amount_in,
            ctx.pool.trade_fee_bps,
        ),
    }
}

/// Across every swap that is priced, the product of the two reserves does not
/// fall, and neither reserve is overdrawn.
pub proof fn lemma_swap_grows_invariant(ctx: Swap, amount_in: u64)
    requires
        swap_result(ctx, amount_in) is Ok,
    ensures
        ({
            let amount_out = swap_result(ctx, amount_in)->Ok_0;
            &&& ctx.reserve_a_after(amount_in, amount_out) >= 0
            &&& ctx.reserve_b_after(amount_in, amount_out) >= 0
            &&& ctx.reserve_a_after(amount_in, amount_out) * ctx.reserve_b_after(
                amount_in,
                amount_out,
            ) >= ctx.reserve_a() * ctx.reserve_b()
        }),
{
    let r_in = ctx.vault_source.amount;
    let r_out = ctx.vault_destination.amount;
    lemma_swap_preserves_product(r_in, r_out, amount_in, ctx.pool.trade_fee_bps);
    let amount_out = swap_result(ctx, amount_in)->Ok_0;
    let x = r_in + amount_in;
    let y = r_out - amount_out;
    assert(y * x == x * y && r_out * r_in == r_in * r_out) by (nonlinear_arith);
}

/// Creates the record of a pool for the two assets of `ctx`, charging
/// `trade_fee_bps` on every swap.
///
/// Fails with `InvalidAssetPair` when the two assets are the same, with
/// `VaultOwnershipMismatch` when a vault is not owned by the pool or holds
/// another asset, and with `MintAuthorityMismatch` when the share supply is
/// not the pool's alone to enlarge or is not zero. Otherwise the record names
/// the mints, the vaults and the share supply of `ctx`, the fee and the nonce.
pub fn create_pool(ctx: &CreatePool, trade_fee_bps: u16) -> (res: Result<Pool, PoolError>)
    requires
        trade_fee_bps <= MAX_FEE_BPS,
    ensures
        res == create_pool_result(*ctx, trade_fee_bps),
        res matches Ok(pool) ==> pool.wf(),
{
    match ctx.validate() {
        Ok(()) => Ok(
            Pool {
                token_a_mint: ctx.token_a_mint,
                token_b_mint: ctx.token_b_mint,
                token_a_vault: ctx.token_a_vault.key,
                token_b_vault: ctx.token_b_vault.key,
                lp_mint: ctx.lp_mint.key,
                trade_fee_bps,
                bump: ctx.bump,
            },
        ),
        Err(e) => Err(e),
    }
}

/// Prices a deposit of `amount_a` of the first asset and `amount_b` of the
/// second, and returns the number of shares to mint to the depositor.
///
/// The reserve and the share supply are read as they stand before any
/// transfer. The first deposit into a pool, which must bring some of both
/// assets, mints [`BOOTSTRAP_SHARES`]; a later one mints
/// `floor(supply * amount_a / reserve_a)`, whatever `amount_b` is. The caller
/// then moves `amount_a` and `amount_b` from the depositor into the two vaults
/// and mints the shares under the pool's signer seeds.
pub fn add_liquidity(ctx: &AddLiquidity, amount_a: u64, amount_b: u64) -> (res: Result<
    u64,
    PoolError,
>)
    requires
        ctx.lp_mint.supply == 0 ==> amount_a > 0 && amount_b > 0,
    ensures
        res == add_liquidity_result(*ctx, amount_a),
        ctx.refusal() is None && ctx.lp_mint.supply == 0 ==> res == Ok::<u64, PoolError>(
            BOOTSTRAP_SHARES,
        ),
        ctx.refusal() is None && ctx.lp_mint.supply > 0 && ctx.lp_mint.supply * amount_a > u64::MAX
            ==> res == Err::<u64, PoolError>(PoolError::ArithmeticOverflow),
        res matches Ok(shares) ==> ctx.lp_mint.supply + shares > 0,
{
    match ctx.validate() {
        Ok(()) => shares_for_deposit(
            ctx.lp_mint.supply,
            ctx.token_a_vault.amount,
            amount_a,
            amount_b,
        ),
        Err(e) => Err(e),
    }
}

/// Prices a swap of `amount_in` paid into the source vault, and returns the
/// amount to pay the trader from the destination vault.
///
/// The reserves are read as they stand before any transfer. The fee is
/// withheld from `amount_in` before the curve is applied, and stays in the
/// source vault: the caller moves the whole `amount_in` into the source vault
/// and the returned amount out of the destination vault, under the pool's
/// signer seeds. There is no lower limit on the amount returned.
pub fn swap(ctx: &Swap, amount_in: u64) -> (res: Result<u64, PoolError>)
    ensures
        res == swap_result(*ctx, amount_in),
        ctx.refusal() is None && amount_in * ctx.pool.trade_fee_bps > u64::MAX ==> res == Err::<
            u64,
            PoolError,
        >(PoolError::ArithmeticOverflow),
        res matches Ok(amount_out) ==> {
            &&& amount_out <= ctx.vault_destination.amount
            &&& ctx.reserve_a_after(amount_in, amount_out) * ctx.reserve_b_after(
                amount_in,
                amount_out,
            ) >= ctx.reserve_a() * ctx.reserve_b()
        },
{
    match ctx.validate() {
        Ok(()) => {
            let res = swap_amount_out(
                ctx.vault_source.amount,
                ctx.vault_destination.amount,
                amount_in,
                ctx.pool.trade_fee_bps,
            );
            proof {
                if res is Ok {
                    lemma_swap_grows_invariant(*ctx, amount_in);
                }
            }
            res
        },
        Err(e) => Err(e),
    }
}

} // verus!
