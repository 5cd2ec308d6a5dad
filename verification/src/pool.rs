//! The persistent bonding-curve pool record.

use vstd::prelude::*;
use crate::addr::Addr;

verus! {

/// One side of the pool: a token mint, the vault holding the pool's
/// balance of that token, and the pool's recorded token count.
pub struct TokenReserve {
    pub mint: Addr,
    pub vault: Addr,
    pub tokens: u64,
}

impl TokenReserve {
    pub open spec fn wf(&self) -> bool {
        self.mint.wf() && self.vault.wf()
    }
}

/// Two reserves agree field for field.
pub open spec fn reserve_eq(a: TokenReserve, b: TokenReserve) -> bool {
    a.mint@ == b.mint@ && a.vault@ == b.vault@ && a.tokens == b.tokens
}

/// The persistent pool record, one per trading pair.
pub struct BoundPool {
    /// The non-standard asset side.
    pub meme_reserve: TokenReserve,
    /// The standard/base asset side.
    pub quote_reserve: TokenReserve,
    /// True once bonding-curve trading has ended and migration is allowed.
    pub locked: bool,
    /// True once migration has completed; a one-way latch.
    pub pool_migration: bool,
    /// The external AMM pool created by migration; meaningful only once
    /// `pool_migration` is true.
    pub migration_pool_key: Addr,
}

impl BoundPool {
    pub open spec fn wf(&self) -> bool {
        self.meme_reserve.wf() && self.quote_reserve.wf() && self.migration_pool_key.wf()
    }
}

/// Two pool records agree field for field.
pub open spec fn pool_eq(a: BoundPool, b: BoundPool) -> bool {
    reserve_eq(a.meme_reserve, b.meme_reserve) && reserve_eq(a.quote_reserve, b.quote_reserve)
        && a.locked == b.locked && a.pool_migration == b.pool_migration
        && a.migration_pool_key@ == b.migration_pool_key@
}

} // verus!
