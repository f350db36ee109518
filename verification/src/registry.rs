//! The pools that exist, addressed by their ordered pair of assets.

use crate::error::PoolError;
use crate::instructions::{create_pool, create_pool_result, CreatePool};
use crate::pubkey::Pubkey;
use crate::state::{Pool, MAX_FEE_BPS};
use vstd::prelude::*;

verus! {

/// The ordered pair of assets that a pool trades.
pub open spec fn pair_of(pool: Pool) -> (Pubkey, Pubkey) {
    (pool.token_a_mint, pool.token_b_mint)
}

/// The outcome of creating a pool among `pools`: the result, and the pools
/// that exist afterwards.
///
/// A pair that already has a pool is refused, whatever the fee; so are
/// accounts that cannot make a pool. Either way nothing changes. Otherwise
/// the new record is entered under its pair.
pub open spec fn create_among(
    pools: Map<(Pubkey, Pubkey), Pool>,
    ctx: CreatePool,
    trade_fee_bps: u16,
) -> (Result<Pool, PoolError>, Map<(Pubkey, Pubkey), Pool>) {
    let pair = (ctx.token_a_mint, ctx.token_b_mint);
    if pools.contains_key(pair) {
        (Err(PoolError::PoolAlreadyExists), pools)
    } else {
        match create_pool_result(ctx, trade_fee_bps) {
            Ok(pool) => (Ok(pool), pools.insert(pair, pool)),
            Err(e) => (Err(e), pools),
        }
    }
}

/// Once a pool has been created for an ordered pair of assets, every further
/// creation for that pair fails and leaves the pools as they were, at the same
/// fee or at another.
pub proof fn lemma_pair_is_unique(
    pools: Map<(Pubkey, Pubkey), Pool>,
    first: CreatePool,
    first_fee_bps: u16,
    second: CreatePool,
    second_fee_bps: u16,
)
    requires
        create_among(pools, first, first_fee_bps).0 is Ok,
        second.token_a_mint == first.token_a_mint,
        second.token_b_mint == first.token_b_mint,
    ensures
        create_among(create_among(pools, first, first_fee_bps).1, second, second_fee_bps) == (
            Err::<Pool, PoolError>(PoolError::PoolAlreadyExists),
            create_among(pools, first, first_fee_bps).1,
        ),
{
}

/// The pools that have been created. No two of them trade the same ordered
/// pair of assets.
pub struct PoolRegistry {
    pools: Vec<Pool>,
}

impl PoolRegistry {
    /// Whether some entry below `len` trades `pair`.
    spec fn holds(pools: Seq<Pool>, pair: (Pubkey, Pubkey)) -> bool {
        exists|i: int| 0 <= i < pools.len() && pair_of(#[trigger] pools[i]) == pair
    }

    /// An entry that trades `pair`.
    spec fn index_of(pools: Seq<Pool>, pair: (Pubkey, Pubkey)) -> int {
        choose|i: int| 0 <= i < pools.len() && pair_of(#[trigger] pools[i]) == pair
    }

    /// The registry as a map from ordered asset pairs to pool records.
    pub closed spec fn view(&self) -> Map<(Pubkey, Pubkey), Pool> {
        Map::new(
            |pair: (Pubkey, Pubkey)| Self::holds(self.pools@, pair),
            |pair: (Pubkey, Pubkey)| self.pools@[Self::index_of(self.pools@, pair)],
        )
    }

    /// Every record is well formed, and no pair occurs twice.
    pub closed spec fn wf(&self) -> bool {
        &&& forall|i: int| 0 <= i < self.pools@.len() ==> (#[trigger] self.pools@[i]).wf()
        &&& forall|i: int, j: int|
            0 <= i < j < self.pools@.len() ==> pair_of(#[trigger] self.pools@[i]) != pair_of(
                #[trigger] self.pools@[j],
            )
    }

    /// In a well-formed registry every pool is well formed and is entered
    /// under its own pair of assets.
    pub proof fn lemma_entries(&self)
        requires
            self.wf(),
        ensures
            forall|pair: (Pubkey, Pubkey)| #[trigger]
                self@.contains_key(pair) ==> self@[pair].wf() && pair_of(self@[pair]) == pair,
    {
    }

    /// A registry without pools.
    pub fn new() -> (registry: PoolRegistry)
        ensures
            registry.wf(),
            registry@ == Map::<(Pubkey, Pubkey), Pool>::empty(),
    {
        let registry = PoolRegistry { pools: Vec::new() };
        assert(registry@ =~= Map::<(Pubkey, Pubkey), Pool>::empty());
        registry
    }

    /// The pool that trades `token_a_mint` for `token_b_mint`, in this order,
    /// if there is one.
    pub fn find(&self, token_a_mint: &Pubkey, token_b_mint: &Pubkey) -> (found: Option<Pool>)
        requires
            self.wf(),
        ensures
            found == (if self@.contains_key((*token_a_mint, *token_b_mint)) {
                Some(self@[(*token_a_mint, *token_b_mint)])
            } else {
                None
            }),
            found matches Some(pool) ==> pool.wf() && pool.token_a_mint == *token_a_mint
                && pool.token_b_mint == *token_b_mint,
    {
        let ghost pair = (*token_a_mint, *token_b_mint);
        proof {
            self.lemma_entries();
        }
        let mut i: usize = 0;
        while i < self.pools.len()
            invariant
                i <= self.pools@.len(),
                self.wf(),
                pair == (*token_a_mint, *token_b_mint),
                forall|j: int| 0 <= j < i ==> pair_of(#[trigger] self.pools@[j]) != pair,
            decreases self.pools@.len() - i,
        {
            let pool = self.pools[i];
            if pool.token_a_mint == *token_a_mint && pool.token_b_mint == *token_b_mint {
                proof {
                    assert(pair_of(self.pools@[i as int]) == pair);
                    assert(Self::holds(self.pools@, pair));
                    let k = Self::index_of(self.pools@, pair);
                    assert(k == i);
                }
                return Some(pool);
            }
            i += 1;
        }
        assert(!Self::holds(self.pools@, pair));
        None
    }

    /// Creates a pool and enters it, unless its ordered pair of assets already
    /// has one.
    ///
    /// Fails with `PoolAlreadyExists` when the pair has a pool, at whatever
    /// fee; otherwise with the error of [`create_pool`] when the accounts
    /// cannot make a pool. A failure leaves the registry as it was.
    pub fn create_pool(&mut self, ctx: &CreatePool, trade_fee_bps: u16) -> (res: Result<
        Pool,
        PoolError,
    >)
        requires
            old(self).wf(),
            trade_fee_bps <= MAX_FEE_BPS,
        ensures
            final(self).wf(),
            (res, final(self)@) == create_among(old(self)@, *ctx, trade_fee_bps),
    {
        let ghost pair = (ctx.token_a_mint, ctx.token_b_mint);
        if self.find(&ctx.token_a_mint, &ctx.token_b_mint).is_some() {
            return Err(PoolError::PoolAlreadyExists);
        }
        match create_pool(ctx, trade_fee_bps) {
            Ok(pool) => {
                let ghost before = self.pools@;
                self.pools.push(pool);
                proof {
                    let after = self.pools@;
                    assert(after == before.push(pool));
                    assert(!Self::holds(before, pair));
                    assert(forall|i: int| 0 <= i < before.len() ==> after[i] == before[i]);
                    assert(after[before.len() as int] == pool);
                    assert forall|q: (Pubkey, Pubkey)|
                        Self::holds(after, q) <==> (q == pair || Self::holds(before, q)) by {
                        if Self::holds(after, q) {
                            let k = Self::index_of(after, q);
                            if k < before.len() {
                                assert(pair_of(before[k]) == q);
                            }
                        }
                        if Self::holds(before, q) {
                            let k = Self::index_of(before, q);
                            assert(pair_of(after[k]) == q);
                        }
                        if q == pair {
                            assert(pair_of(after[before.len() as int]) == q);
                        }
                    }
                    assert forall|q: (Pubkey, Pubkey)| Self::holds(after, q) implies after[Self::index_of(
                        after,
                        q,
                    )] == (if q == pair {
                        pool
                    } else {
                        before[Self::index_of(before, q)]
                    }) by {
                        let k = Self::index_of(after, q);
                        if q == pair {
                            if k < before.len() {
                                assert(pair_of(before[k]) == pair);
                            }
                        } else {
                            let kb = Self::index_of(before, q);
                            assert(pair_of(after[kb]) == q);
                            assert(k == kb);
                        }
                    }
                    assert(self@ =~= old(self)@.insert(pair, pool));
                }
                Ok(pool)
            },
            Err(e) => Err(e),
        }
    }
}

} // verus!
