//! The migration handler: validates the supplied accounts against the
//! pool record and the expected derivations, computes the two amounts to
//! move, applies the one-time state transition, and reports the
//! arguments for the external AMM's pool-initialization call.

use vstd::prelude::*;
use crate::addr::Addr;
use crate::addr::bytes_lt;
use crate::addr::lemma_bytes_lt_asymmetric;
use crate::err::AmmError;
use crate::pool::BoundPool;
use crate::pool::pool_eq;
use crate::pda::derive_amm_authority;
use crate::pda::derive_amm_lp_mint;
use crate::pda::derive_amm_observation;
use crate::pda::derive_amm_pool_state;
use crate::pda::derive_amm_vault;
use crate::pda::derive_pool_address;
use crate::pda::derive_pool_signer;
use crate::pda::derives_to;
use crate::pda::fee_receiver_address;
use crate::pda::spec_amm_authority_seeds;
use crate::pda::spec_amm_lp_mint_seeds;
use crate::pda::spec_amm_observation_seeds;
use crate::pda::spec_amm_pool_state_seeds;
use crate::pda::spec_amm_vault_seeds;
use crate::pda::spec_fee_receiver;
use crate::pda::spec_pool_seeds;
use crate::pda::spec_signer_seeds;

verus! {

/// The accounts handed to one migration invocation, as plain values:
/// each account's raw address, and for the token accounts whose balances
/// the handler moves, the balance as well.
pub struct MigrateToRaydium {
    /// The migration program's own address, under which the pool and its
    /// transfer authority are derived.
    pub program_id: Addr,
    /// The caller, who receives the migrated tokens and the LP tokens.
    pub signer: Addr,
    /// The external AMM program.
    pub cp_swap_program: Addr,
    /// The pool account being migrated.
    pub pool: Addr,
    /// The meme-side token mint.
    pub meme_mint: Addr,
    /// The quote-side token mint.
    pub quote_mint: Addr,
    /// The pool's meme token vault and its balance.
    pub meme_vault: Addr,
    pub meme_vault_amount: u64,
    /// The pool's quote token vault and its balance.
    pub quote_vault: Addr,
    pub quote_vault_amount: u64,
    /// The pool's transfer authority.
    pub pool_signer: Addr,
    /// The AMM configuration account.
    pub amm_config: Addr,
    /// The AMM's global vault-and-LP-mint authority.
    pub raydium_authority: Addr,
    /// The AMM pool-state account to be created.
    pub raydium_pool_state: Addr,
    /// The AMM pool's LP mint to be created.
    pub raydium_lp_mint: Addr,
    /// The caller's meme token account and its balance.
    pub creator_meme_account: Addr,
    pub creator_meme_amount: u64,
    /// The caller's quote token account and its balance.
    pub creator_quote_account: Addr,
    pub creator_quote_amount: u64,
    /// The caller's LP token account to be created.
    pub creator_lp_token: Addr,
    /// The AMM pool's vault for the first mint in canonical order.
    pub token_0_vault: Addr,
    /// The AMM pool's vault for the second mint in canonical order.
    pub token_1_vault: Addr,
    /// The fixed pool-creation fee account.
    pub create_pool_fee: Addr,
    /// The AMM pool's oracle-observation account to be created.
    pub observation_state: Addr,
}

impl MigrateToRaydium {
    /// Every account address holds exactly 32 bytes.
    pub open spec fn wf(&self) -> bool {
        self.program_id.wf() && self.signer.wf() && self.cp_swap_program.wf() && self.pool.wf()
            && self.meme_mint.wf() && self.quote_mint.wf() && self.meme_vault.wf()
            && self.quote_vault.wf() && self.pool_signer.wf() && self.amm_config.wf()
            && self.raydium_authority.wf() && self.raydium_pool_state.wf()
            && self.raydium_lp_mint.wf() && self.creator_meme_account.wf()
            && self.creator_quote_account.wf() && self.creator_lp_token.wf()
            && self.token_0_vault.wf() && self.token_1_vault.wf() && self.create_pool_fee.wf()
            && self.observation_state.wf()
    }
}

/// Two account sets name the same addresses.
pub open spec fn accounts_addrs_eq(a: MigrateToRaydium, b: MigrateToRaydium) -> bool {
    a.program_id@ == b.program_id@ && a.signer@ == b.signer@ && a.cp_swap_program@
        == b.cp_swap_program@ && a.pool@ == b.pool@ && a.meme_mint@ == b.meme_mint@
        && a.quote_mint@ == b.quote_mint@ && a.meme_vault@ == b.meme_vault@ && a.quote_vault@
        == b.quote_vault@ && a.pool_signer@ == b.pool_signer@ && a.amm_config@ == b.amm_config@
        && a.raydium_authority@ == b.raydium_authority@ && a.raydium_pool_state@
        == b.raydium_pool_state@ && a.raydium_lp_mint@ == b.raydium_lp_mint@
        && a.creator_meme_account@ == b.creator_meme_account@ && a.creator_quote_account@
        == b.creator_quote_account@ && a.creator_lp_token@ == b.creator_lp_token@
        && a.token_0_vault@ == b.token_0_vault@ && a.token_1_vault@ == b.token_1_vault@
        && a.create_pool_fee@ == b.create_pool_fee@ && a.observation_state@ == b.observation_state@
}

/// Two account sets agree on every field, balances included.
pub open spec fn accounts_eq(a: MigrateToRaydium, b: MigrateToRaydium) -> bool {
    accounts_addrs_eq(a, b) && a.meme_vault_amount == b.meme_vault_amount && a.quote_vault_amount
        == b.quote_vault_amount && a.creator_meme_amount == b.creator_meme_amount
        && a.creator_quote_amount == b.creator_quote_amount
}

/// The mint with the smaller raw address: passed first to the AMM.
pub open spec fn spec_token_0(meme_mint: Seq<u8>, quote_mint: Seq<u8>) -> Seq<u8> {
    if bytes_lt(quote_mint, meme_mint) {
        quote_mint
    } else {
        meme_mint
    }
}

/// The mint with the larger raw address: passed second to the AMM.
pub open spec fn spec_token_1(meme_mint: Seq<u8>, quote_mint: Seq<u8>) -> Seq<u8> {
    if bytes_lt(quote_mint, meme_mint) {
        meme_mint
    } else {
        quote_mint
    }
}

/// The first precondition an invocation violates, or `None` when every
/// precondition holds.  The checks run in the order the handler applies
/// them: the pool's own derivation and authorization first, then the
/// pool-recorded accounts, then the AMM-derived accounts, then the
/// transfers' own requirements.
pub open spec fn spec_migration_error(pool: BoundPool, a: MigrateToRaydium) -> Option<AmmError> {
    if !derives_to(spec_pool_seeds(a.meme_mint@, a.quote_mint@), a.program_id@, a.pool@) {
        Some(AmmError::InvalidAccountInput)
    } else if !pool.locked {
        Some(AmmError::PoolIsLocked)
    } else if pool.pool_migration {
        Some(AmmError::AlreadyMigrated)
    } else if a.meme_mint@ != pool.meme_reserve.mint@ {
        Some(AmmError::InvalidAccountInput)
    } else if a.meme_vault@ != pool.meme_reserve.vault@ {
        Some(AmmError::InvalidAccountInput)
    } else if !derives_to(spec_signer_seeds(a.pool@), a.program_id@, a.pool_signer@) {
        Some(AmmError::InvalidAccountInput)
    } else if !derives_to(spec_amm_authority_seeds(), a.cp_swap_program@, a.raydium_authority@) {
        Some(AmmError::InvalidAccountInput)
    } else if !derives_to(
        spec_amm_pool_state_seeds(
            a.amm_config@,
            spec_token_0(a.meme_mint@, a.quote_mint@),
            spec_token_1(a.meme_mint@, a.quote_mint@),
        ),
        a.cp_swap_program@,
        a.raydium_pool_state@,
    ) {
        Some(AmmError::InvalidAccountInput)
    } else if !derives_to(
        spec_amm_lp_mint_seeds(a.raydium_pool_state@),
        a.cp_swap_program@,
        a.raydium_lp_mint@,
    ) {
        Some(AmmError::InvalidAccountInput)
    } else if !derives_to(
        spec_amm_vault_seeds(a.raydium_pool_state@, spec_token_0(a.meme_mint@, a.quote_mint@)),
        a.cp_swap_program@,
        a.token_0_vault@,
    ) {
        Some(AmmError::InvalidAccountInput)
    } else if !derives_to(
        spec_amm_vault_seeds(a.raydium_pool_state@, spec_token_1(a.meme_mint@, a.quote_mint@)),
        a.cp_swap_program@,
        a.token_1_vault@,
    ) {
        Some(AmmError::InvalidAccountInput)
    } else if !derives_to(
        spec_amm_observation_seeds(a.raydium_pool_state@),
        a.cp_swap_program@,
        a.observation_state@,
    ) {
        Some(AmmError::InvalidAccountInput)
    } else if a.create_pool_fee@ != spec_fee_receiver() {
        Some(AmmError::InvalidAccountInput)
    } else if pool.meme_reserve.tokens > a.meme_vault_amount || pool.quote_reserve.tokens
        > a.quote_vault_amount {
        Some(AmmError::InsufficientFunds)
    } else if a.creator_meme_amount + pool.meme_reserve.tokens > u64::MAX
        || a.creator_quote_amount + pool.quote_reserve.tokens > u64::MAX {
        Some(AmmError::TransferFailed)
    } else {
        None
    }
}

/// Checks every migration precondition without touching any state, and
/// reports the first violated one exactly as the handler would.
pub fn check_migration(pool: &BoundPool, accounts: &MigrateToRaydium) -> (r: Result<(), AmmError>)
    requires
        pool.wf(),
        accounts.wf(),
    ensures
        r == (match spec_migration_error(*pool, *accounts) {
            Some(e) => Err::<(), AmmError>(e),
            None => Ok::<(), AmmError>(()),
        }),
{
    match derive_pool_address(&accounts.program_id, &accounts.meme_mint, &accounts.quote_mint) {
        Some(p) => {
            if !(p == accounts.pool) {
                return Err(AmmError::InvalidAccountInput);
            }
        },
        None => {
            return Err(AmmError::InvalidAccountInput);
        },
    }
    if !pool.locked {
        return Err(AmmError::PoolIsLocked);
    }
    if pool.pool_migration {
        return Err(AmmError::AlreadyMigrated);
    }
    if !(accounts.meme_mint == pool.meme_reserve.mint) {
        return Err(AmmError::InvalidAccountInput);
    }
    if !(accounts.meme_vault == pool.meme_reserve.vault) {
        return Err(AmmError::InvalidAccountInput);
    }
    match derive_pool_signer(&accounts.program_id, &accounts.pool) {
        Some(p) => {
            if !(p == accounts.pool_signer) {
                return Err(AmmError::InvalidAccountInput);
            }
        },
        None => {
            return Err(AmmError::InvalidAccountInput);
        },
    }
    match derive_amm_authority(&accounts.cp_swap_program) {
        Some(p) => {
            if !(p == accounts.raydium_authority) {
                return Err(AmmError::InvalidAccountInput);
            }
        },
        None => {
            return Err(AmmError::InvalidAccountInput);
        },
    }
    let quote_first = accounts.quote_mint.lt(&accounts.meme_mint);
    let token_0_mint = if quote_first {
        &accounts.quote_mint
    } else {
        &accounts.meme_mint
    };
    let token_1_mint = if quote_first {
        &accounts.meme_mint
    } else {
        &accounts.quote_mint
    };
    match derive_amm_pool_state(
        &accounts.cp_swap_program,
        &accounts.amm_config,
        token_0_mint,
        token_1_mint,
    ) {
        Some(p) => {
            if !(p == accounts.raydium_pool_state) {
                return Err(AmmError::InvalidAccountInput);
            }
        },
        None => {
            return Err(AmmError::InvalidAccountInput);
        },
    }
    match derive_amm_lp_mint(&accounts.cp_swap_program, &accounts.raydium_pool_state) {
        Some(p) => {
            if !(p == accounts.raydium_lp_mint) {
                return Err(AmmError::InvalidAccountInput);
            }
        },
        None => {
            return Err(AmmError::InvalidAccountInput);
        },
    }
    match derive_amm_vault(&accounts.cp_swap_program, &accounts.raydium_pool_state, token_0_mint) {
        Some(p) => {
            if !(p == accounts.token_0_vault) {
                return Err(AmmError::InvalidAccountInput);
            }
        },
        None => {
            return Err(AmmError::InvalidAccountInput);
        },
    }
    match derive_amm_vault(&accounts.cp_swap_program, &accounts.raydium_pool_state, token_1_mint) {
        Some(p) => {
            if !(p == accounts.token_1_vault) {
                return Err(AmmError::InvalidAccountInput);
            }
        },
        None => {
            return Err(AmmError::InvalidAccountInput);
        },
    }
    match derive_amm_observation(&accounts.cp_swap_program, &accounts.raydium_pool_state) {
        Some(p) => {
            if !(p == accounts.observation_state) {
                return Err(AmmError::InvalidAccountInput);
            }
        },
        None => {
            return Err(AmmError::InvalidAccountInput);
        },
    }
    let fee = fee_receiver_address();
    if !(accounts.create_pool_fee == fee) {
        return Err(AmmError::InvalidAccountInput);
    }
    if pool.meme_reserve.tokens > accounts.meme_vault_amount || pool.quote_reserve.tokens
        > accounts.quote_vault_amount {
        return Err(AmmError::InsufficientFunds);
    }
    if accounts.creator_meme_amount > u64::MAX - pool.meme_reserve.tokens
        || accounts.creator_quote_amount > u64::MAX - pool.quote_reserve.tokens {
        return Err(AmmError::TransferFailed);
    }
    Ok(())
}

/// The amounts to migrate: the full current balances recorded for both
/// reserves.
pub fn calculate_migration_amounts(pool: &BoundPool) -> (r: Result<(u64, u64), AmmError>)
    ensures
        r == Ok::<(u64, u64), AmmError>((pool.meme_reserve.tokens, pool.quote_reserve.tokens)),
{
    Ok((pool.meme_reserve.tokens, pool.quote_reserve.tokens))
}

/// The arguments the handler passes to the external AMM's
/// pool-initialization entry point, with the mints, amounts, and
/// destination accounts in canonical (smaller-address-first) order.
#[derive(Debug)]
pub struct InitializeArgs {
    pub token_0_mint: Addr,
    pub token_1_mint: Addr,
    pub init_amount_0: u64,
    pub init_amount_1: u64,
    pub creator_token_0: Addr,
    pub creator_token_1: Addr,
    pub open_time: u64,
}

/// The migration handler, as the state transition it performs when the
/// host applies it: on success the two vault balances drop by the
/// migrated amounts, the caller's accounts gain them, the pool records
/// the residue, latches `pool_migration`, and stores the new AMM pool's
/// address; the returned arguments drive the external initialization
/// call.  On any violated precondition it fails with that precondition's
/// error and changes nothing.
pub fn handle(pool: &mut BoundPool, accounts: &mut MigrateToRaydium, open_time: u64) -> (r: Result<
    InitializeArgs,
    AmmError,
>)
    requires
        old(pool).wf(),
        old(accounts).wf(),
    ensures
        // The first violated precondition decides the outcome.
        (match spec_migration_error(*old(pool), *old(accounts)) {
            Some(e) => r matches Err(e2) && e2 == e,
            None => r is Ok,
        }),
        // Any failure happens before any transfer: nothing changes.
        r is Err ==> pool_eq(*final(pool), *old(pool)) && accounts_eq(
            *final(accounts),
            *old(accounts),
        ),
        // A pool that is not locked is refused with the authorization
        // error (given its own derivation holds, which is checked first).
        (derives_to(
            spec_pool_seeds(old(accounts).meme_mint@, old(accounts).quote_mint@),
            old(accounts).program_id@,
            old(accounts).pool@,
        ) && !old(pool).locked) ==> (r matches Err(e) && e == AmmError::PoolIsLocked),
        // A meme mint or meme vault that differs from the pool's recorded
        // one is refused as invalid input (once the checks before it
        // pass).
        (derives_to(
            spec_pool_seeds(old(accounts).meme_mint@, old(accounts).quote_mint@),
            old(accounts).program_id@,
            old(accounts).pool@,
        ) && old(pool).locked && !old(pool).pool_migration && (old(accounts).meme_mint@ != old(
            pool,
        ).meme_reserve.mint@ || old(accounts).meme_vault@ != old(pool).meme_reserve.vault@)) ==> (r
            matches Err(e) && e == AmmError::InvalidAccountInput),
        // An invocation in which any externally-derived account misses its
        // derivation fails (and, by the clause above on failures, before
        // any balance changes).
        (!derives_to(
            spec_signer_seeds(old(accounts).pool@),
            old(accounts).program_id@,
            old(accounts).pool_signer@,
        ) || !derives_to(
            spec_amm_authority_seeds(),
            old(accounts).cp_swap_program@,
            old(accounts).raydium_authority@,
        ) || !derives_to(
            spec_amm_pool_state_seeds(
                old(accounts).amm_config@,
                spec_token_0(old(accounts).meme_mint@, old(accounts).quote_mint@),
                spec_token_1(old(accounts).meme_mint@, old(accounts).quote_mint@),
            ),
            old(accounts).cp_swap_program@,
            old(accounts).raydium_pool_state@,
        ) || !derives_to(
            spec_amm_lp_mint_seeds(old(accounts).raydium_pool_state@),
            old(accounts).cp_swap_program@,
            old(accounts).raydium_lp_mint@,
        ) || !derives_to(
            spec_amm_vault_seeds(
                old(accounts).raydium_pool_state@,
                spec_token_0(old(accounts).meme_mint@, old(accounts).quote_mint@),
            ),
            old(accounts).cp_swap_program@,
            old(accounts).token_0_vault@,
        ) || !derives_to(
            spec_amm_vault_seeds(
                old(accounts).raydium_pool_state@,
                spec_token_1(old(accounts).meme_mint@, old(accounts).quote_mint@),
            ),
            old(accounts).cp_swap_program@,
            old(accounts).token_1_vault@,
        ) || !derives_to(
            spec_amm_observation_seeds(old(accounts).raydium_pool_state@),
            old(accounts).cp_swap_program@,
            old(accounts).observation_state@,
        )) ==> r is Err,
        // On success, both vaults lose exactly the migrated amounts and
        // the caller's accounts gain them.
        r is Ok ==> {
            &&& final(accounts).meme_vault_amount == old(accounts).meme_vault_amount - old(
                pool,
            ).meme_reserve.tokens
            &&& final(accounts).quote_vault_amount == old(accounts).quote_vault_amount - old(
                pool,
            ).quote_reserve.tokens
            &&& final(accounts).creator_meme_amount == old(accounts).creator_meme_amount + old(
                pool,
            ).meme_reserve.tokens
            &&& final(accounts).creator_quote_amount == old(accounts).creator_quote_amount + old(
                pool,
            ).quote_reserve.tokens
            &&& accounts_addrs_eq(*final(accounts), *old(accounts))
        },
        // On success, the pool records the vault residue, latches the
        // migration flag, and stores the new AMM pool's address.
        r is Ok ==> {
            &&& final(pool).meme_reserve.tokens == old(accounts).meme_vault_amount - old(
                pool,
            ).meme_reserve.tokens
            &&& final(pool).quote_reserve.tokens == old(accounts).quote_vault_amount - old(
                pool,
            ).quote_reserve.tokens
            &&& final(pool).meme_reserve.mint@ == old(pool).meme_reserve.mint@
            &&& final(pool).meme_reserve.vault@ == old(pool).meme_reserve.vault@
            &&& final(pool).quote_reserve.mint@ == old(pool).quote_reserve.mint@
            &&& final(pool).quote_reserve.vault@ == old(pool).quote_reserve.vault@
            &&& final(pool).locked == old(pool).locked
            &&& final(pool).pool_migration == true
            &&& final(pool).migration_pool_key@ == old(accounts).raydium_pool_state@
        },
        // The mint with the smaller raw address is always token_0, and
        // each amount and destination account follows its mint.
        r matches Ok(args) ==> {
            &&& args.token_0_mint@ == spec_token_0(
                old(accounts).meme_mint@,
                old(accounts).quote_mint@,
            )
            &&& args.token_1_mint@ == spec_token_1(
                old(accounts).meme_mint@,
                old(accounts).quote_mint@,
            )
            &&& !bytes_lt(args.token_1_mint@, args.token_0_mint@)
            &&& args.init_amount_0 == (if bytes_lt(
                old(accounts).quote_mint@,
                old(accounts).meme_mint@,
            ) {
                old(pool).quote_reserve.tokens
            } else {
                old(pool).meme_reserve.tokens
            })
            &&& args.init_amount_1 == (if bytes_lt(
                old(accounts).quote_mint@,
                old(accounts).meme_mint@,
            ) {
                old(pool).meme_reserve.tokens
            } else {
                old(pool).quote_reserve.tokens
            })
            &&& args.creator_token_0@ == (if bytes_lt(
                old(accounts).quote_mint@,
                old(accounts).meme_mint@,
            ) {
                old(accounts).creator_quote_account@
            } else {
                old(accounts).creator_meme_account@
            })
            &&& args.creator_token_1@ == (if bytes_lt(
                old(accounts).quote_mint@,
                old(accounts).meme_mint@,
            ) {
                old(accounts).creator_meme_account@
            } else {
                old(accounts).creator_quote_account@
            })
            &&& args.open_time == open_time
        },
{
    match check_migration(pool, accounts) {
        Err(e) => {
            return Err(e);
        },
        Ok(()) => {},
    }
    let (meme_amount, quote_amount) = match calculate_migration_amounts(pool) {
        Ok(t) => t,
        Err(_) => vstd::pervasive::unreached(),
    };
    accounts.meme_vault_amount = accounts.meme_vault_amount - meme_amount;
    accounts.creator_meme_amount = accounts.creator_meme_amount + meme_amount;
    accounts.quote_vault_amount = accounts.quote_vault_amount - quote_amount;
    accounts.creator_quote_amount = accounts.creator_quote_amount + quote_amount;
    pool.meme_reserve.tokens = accounts.meme_vault_amount;
    pool.quote_reserve.tokens = accounts.quote_vault_amount;
    pool.pool_migration = true;
    pool.migration_pool_key = accounts.raydium_pool_state.dup();
    let quote_first = accounts.quote_mint.lt(&accounts.meme_mint);
    proof {
        lemma_bytes_lt_asymmetric(accounts.quote_mint@, accounts.meme_mint@);
    }
    if quote_first {
        Ok(
            InitializeArgs {
                token_0_mint: accounts.quote_mint.dup(),
                token_1_mint: accounts.meme_mint.dup(),
                init_amount_0: quote_amount,
                init_amount_1: meme_amount,
                creator_token_0: accounts.creator_quote_account.dup(),
                creator_token_1: accounts.creator_meme_account.dup(),
                open_time,
            },
        )
    } else {
        Ok(
            InitializeArgs {
                token_0_mint: accounts.meme_mint.dup(),
                token_1_mint: accounts.quote_mint.dup(),
                init_amount_0: meme_amount,
                init_amount_1: quote_amount,
                creator_token_0: accounts.creator_meme_account.dup(),
                creator_token_1: accounts.creator_quote_account.dup(),
                open_time,
            },
        )
    }
}

} // verus!
