//! Derived account addresses.
//!
//! An operation on the pool is authorized not by a live signature but by
//! proving that an account's address equals a deterministic derivation
//! from a namespace tag and a parent identifier.  The derivation itself
//! is the host runtime's (a hash of the seeds and the deriving program's
//! address); it is named here and computed through a trusted call.

use vstd::prelude::*;
use crate::addr::Addr;
use crate::addr::ADDR_LEN;

verus! {

/// What `Pubkey::try_find_program_address` returns for the given seed
/// list and deriving program: the derived address and its bump byte, or
/// nothing when no bump yields a valid address.  The result depends on
/// the seeds and the program address alone.
pub uninterp spec fn derived_address(seeds: Seq<Seq<u8>>, program: Seq<u8>) -> Option<
    (Seq<u8>, u8),
>;

/// The derivation for `seeds` under `program` succeeds and yields `addr`.
pub open spec fn derives_to(seeds: Seq<Seq<u8>>, program: Seq<u8>, addr: Seq<u8>) -> bool {
    match derived_address(seeds, program) {
        Some(d) => d.0 == addr,
        None => false,
    }
}

/// Relies on `solana_pubkey::Pubkey::try_find_program_address`: off
/// chain it computes the derived address and bump from the seeds and the
/// program id alone, returns `None` when the seed list is over the limit
/// or no bump yields a valid address, and a derived address is 32 bytes.
#[verifier::external_body]
fn find_program_address(seeds: &Vec<Vec<u8>>, program: &Addr) -> (r: Option<(Addr, u8)>)
    requires
        program.wf(),
    ensures
        ({
            let d = derived_address(seeds@.map_values(|s: Vec<u8>| s@), program@);
            match r {
                Some(p) => (d matches Some(q) && p.0@ == q.0 && p.1 == q.1 && p.0.wf()),
                None => d is None,
            }
        }),
{
    let seed_refs: Vec<&[u8]> = seeds.iter().map(|s| s.as_slice()).collect();
    let mut arr = [0u8; 32];
    arr.copy_from_slice(program.as_bytes().as_slice());
    let pid = solana_pubkey::Pubkey::new_from_array(arr);
    solana_pubkey::Pubkey::try_find_program_address(&seed_refs, &pid).map(
        |p: (solana_pubkey::Pubkey, u8)| (Addr::new(p.0.to_bytes().to_vec()).unwrap(), p.1),
    )
}

/// The namespace tag under which a pool account is derived from its two
/// mints: the bytes of "bound_pool".
pub open spec fn spec_pool_prefix() -> Seq<u8> {
    seq![98u8, 111, 117, 110, 100, 95, 112, 111, 111, 108]
}

/// The namespace tag under which a pool's transfer authority is derived
/// from the pool address: the bytes of "signer".
pub open spec fn spec_signer_prefix() -> Seq<u8> {
    seq![115u8, 105, 103, 110, 101, 114]
}

/// The AMM's authority namespace tag: the bytes of
/// "vault_and_lp_mint_auth_seed".
pub open spec fn spec_amm_auth_seed() -> Seq<u8> {
    seq![
        118u8, 97, 117, 108, 116, 95, 97, 110, 100, 95, 108, 112, 95, 109, 105, 110, 116, 95, 97,
        117, 116, 104, 95, 115, 101, 101, 100,
    ]
}

/// The AMM's pool-state namespace tag: the bytes of "pool".
pub open spec fn spec_amm_pool_seed() -> Seq<u8> {
    seq![112u8, 111, 111, 108]
}

/// The AMM's LP-mint namespace tag: the bytes of "pool_lp_mint".
pub open spec fn spec_amm_lp_mint_seed() -> Seq<u8> {
    seq![112u8, 111, 111, 108, 95, 108, 112, 95, 109, 105, 110, 116]
}

/// The AMM's vault namespace tag: the bytes of "pool_vault".
pub open spec fn spec_amm_vault_seed() -> Seq<u8> {
    seq![112u8, 111, 111, 108, 95, 118, 97, 117, 108, 116]
}

/// The AMM's oracle-observation namespace tag: the bytes of
/// "observation".
pub open spec fn spec_amm_observation_seed() -> Seq<u8> {
    seq![111u8, 98, 115, 101, 114, 118, 97, 116, 105, 111, 110]
}

/// The fixed account that receives the AMM's pool-creation fee: the
/// AMM's published fee receiver, whose base58 form is
/// DNXgeM9EiiaAbaWvwjHj9fQQLAX5ZsfHyvmYUNRAdNC8.
pub open spec fn spec_fee_receiver() -> Seq<u8> {
    seq![
        183u8, 208, 34, 82, 84, 172, 7, 227, 178, 189, 63, 134, 193, 240, 241, 16, 63, 192, 112,
        140, 193, 90, 239, 20, 7, 58, 166, 69, 63, 85, 234, 105,
    ]
}

/// The AMM's authority namespace tag as bytes.
fn amm_auth_seed() -> (r: Vec<u8>)
    ensures
        r@ == spec_amm_auth_seed(),
{
    let mut v: Vec<u8> = Vec::new();
    v.push(118);
    v.push(97);
    v.push(117);
    v.push(108);
    v.push(116);
    v.push(95);
    v.push(97);
    v.push(110);
    v.push(100);
    v.push(95);
    v.push(108);
    v.push(112);
    v.push(95);
    v.push(109);
    v.push(105);
    v.push(110);
    v.push(116);
    v.push(95);
    v.push(97);
    v.push(117);
    v.push(116);
    v.push(104);
    v.push(95);
    v.push(115);
    v.push(101);
    v.push(101);
    v.push(100);
    proof {
        assert(v@ =~= spec_amm_auth_seed());
    }
    v
}

/// The AMM's pool-state namespace tag as bytes.
fn amm_pool_seed() -> (r: Vec<u8>)
    ensures
        r@ == spec_amm_pool_seed(),
{
    let mut v: Vec<u8> = Vec::new();
    v.push(112);
    v.push(111);
    v.push(111);
    v.push(108);
    proof {
        assert(v@ =~= spec_amm_pool_seed());
    }
    v
}

/// The AMM's LP-mint namespace tag as bytes.
fn amm_lp_mint_seed() -> (r: Vec<u8>)
    ensures
        r@ == spec_amm_lp_mint_seed(),
{
    let mut v: Vec<u8> = amm_pool_seed();
    v.push(95);
    v.push(108);
    v.push(112);
    v.push(95);
    v.push(109);
    v.push(105);
    v.push(110);
    v.push(116);
    proof {
        assert(v@ =~= spec_amm_lp_mint_seed());
    }
    v
}

/// The AMM's vault namespace tag as bytes.
fn amm_vault_seed() -> (r: Vec<u8>)
    ensures
        r@ == spec_amm_vault_seed(),
{
    let mut v: Vec<u8> = amm_pool_seed();
    v.push(95);
    v.push(118);
    v.push(97);
    v.push(117);
    v.push(108);
    v.push(116);
    proof {
        assert(v@ =~= spec_amm_vault_seed());
    }
    v
}

/// The AMM's oracle-observation namespace tag as bytes.
fn amm_observation_seed() -> (r: Vec<u8>)
    ensures
        r@ == spec_amm_observation_seed(),
{
    let mut v: Vec<u8> = Vec::new();
    v.push(111);
    v.push(98);
    v.push(115);
    v.push(101);
    v.push(114);
    v.push(118);
    v.push(97);
    v.push(116);
    v.push(105);
    v.push(111);
    v.push(110);
    proof {
        assert(v@ =~= spec_amm_observation_seed());
    }
    v
}

/// The fixed pool-creation fee account as bytes.
fn fee_receiver_bytes() -> (r: Vec<u8>)
    ensures
        r@ == spec_fee_receiver(),
{
    let mut v: Vec<u8> = Vec::new();
    v.push(183);
    v.push(208);
    v.push(34);
    v.push(82);
    v.push(84);
    v.push(172);
    v.push(7);
    v.push(227);
    v.push(178);
    v.push(189);
    v.push(63);
    v.push(134);
    v.push(193);
    v.push(240);
    v.push(241);
    v.push(16);
    v.push(63);
    v.push(192);
    v.push(112);
    v.push(140);
    v.push(193);
    v.push(90);
    v.push(239);
    v.push(20);
    v.push(7);
    v.push(58);
    v.push(166);
    v.push(69);
    v.push(63);
    v.push(85);
    v.push(234);
    v.push(105);
    proof {
        assert(v@ =~= spec_fee_receiver());
    }
    v
}

/// The pool's own namespace tag as bytes.
fn pool_prefix() -> (r: Vec<u8>)
    ensures
        r@ == spec_pool_prefix(),
{
    let mut v: Vec<u8> = Vec::new();
    v.push(98);
    v.push(111);
    v.push(117);
    v.push(110);
    v.push(100);
    v.push(95);
    v.push(112);
    v.push(111);
    v.push(111);
    v.push(108);
    proof {
        assert(v@ =~= spec_pool_prefix());
    }
    v
}

/// The transfer-authority namespace tag as bytes.
fn signer_prefix() -> (r: Vec<u8>)
    ensures
        r@ == spec_signer_prefix(),
{
    let mut v: Vec<u8> = Vec::new();
    v.push(115);
    v.push(105);
    v.push(103);
    v.push(110);
    v.push(101);
    v.push(114);
    proof {
        assert(v@ =~= spec_signer_prefix());
    }
    v
}

/// The fixed pool-creation fee account as an address.
pub fn fee_receiver_address() -> (r: Addr)
    ensures
        r@ == spec_fee_receiver(),
        r.wf(),
{
    let bytes = fee_receiver_bytes();
    assert(bytes@.len() == ADDR_LEN);
    match Addr::new(bytes) {
        Some(a) => a,
        None => vstd::pervasive::unreached(),
    }
}

/// The seed list from which the pool account is derived.
pub open spec fn spec_pool_seeds(meme_mint: Seq<u8>, quote_mint: Seq<u8>) -> Seq<Seq<u8>> {
    seq![spec_pool_prefix(), meme_mint, quote_mint]
}

/// The seed list from which the pool's transfer authority is derived.
pub open spec fn spec_signer_seeds(pool: Seq<u8>) -> Seq<Seq<u8>> {
    seq![spec_signer_prefix(), pool]
}

/// The seed list from which the AMM's global authority is derived.
pub open spec fn spec_amm_authority_seeds() -> Seq<Seq<u8>> {
    seq![spec_amm_auth_seed()]
}

/// The seed list from which the AMM's pool-state account is derived.
pub open spec fn spec_amm_pool_state_seeds(
    amm_config: Seq<u8>,
    token_0_mint: Seq<u8>,
    token_1_mint: Seq<u8>,
) -> Seq<Seq<u8>> {
    seq![spec_amm_pool_seed(), amm_config, token_0_mint, token_1_mint]
}

/// The seed list from which the AMM pool's LP mint is derived.
pub open spec fn spec_amm_lp_mint_seeds(pool_state: Seq<u8>) -> Seq<Seq<u8>> {
    seq![spec_amm_lp_mint_seed(), pool_state]
}

/// The seed list from which an AMM pool vault is derived.
pub open spec fn spec_amm_vault_seeds(pool_state: Seq<u8>, mint: Seq<u8>) -> Seq<Seq<u8>> {
    seq![spec_amm_vault_seed(), pool_state, mint]
}

/// The seed list from which the AMM pool's observation account is
/// derived.
pub open spec fn spec_amm_observation_seeds(pool_state: Seq<u8>) -> Seq<Seq<u8>> {
    seq![spec_amm_observation_seed(), pool_state]
}

/// How an `Option<Addr>` result relates to the derivation it came from.
pub open spec fn derivation_result(r: Option<Addr>, seeds: Seq<Seq<u8>>, program: Seq<u8>) -> bool {
    match r {
        Some(a) => (derived_address(seeds, program) matches Some(d) && a@ == d.0 && a.wf()),
        None => derived_address(seeds, program) is None,
    }
}

/// The canonical pool account for a pair of mints under the migration
/// program itself.
pub fn derive_pool_address(program_id: &Addr, meme_mint: &Addr, quote_mint: &Addr) -> (r: Option<
    Addr,
>)
    requires
        program_id.wf(),
    ensures
        derivation_result(r, spec_pool_seeds(meme_mint@, quote_mint@), program_id@),
{
    let mut seeds: Vec<Vec<u8>> = Vec::new();
    seeds.push(pool_prefix());
    seeds.push(meme_mint.to_vec());
    seeds.push(quote_mint.to_vec());
    proof {
        assert(seeds@.map_values(|s: Vec<u8>| s@) =~= spec_pool_seeds(meme_mint@, quote_mint@));
    }
    match find_program_address(&seeds, program_id) {
        Some(p) => Some(p.0),
        None => None,
    }
}

/// The pool's transfer authority under the migration program itself.
pub fn derive_pool_signer(program_id: &Addr, pool: &Addr) -> (r: Option<Addr>)
    requires
        program_id.wf(),
    ensures
        derivation_result(r, spec_signer_seeds(pool@), program_id@),
{
    let mut seeds: Vec<Vec<u8>> = Vec::new();
    seeds.push(signer_prefix());
    seeds.push(pool.to_vec());
    proof {
        assert(seeds@.map_values(|s: Vec<u8>| s@) =~= spec_signer_seeds(pool@));
    }
    match find_program_address(&seeds, program_id) {
        Some(p) => Some(p.0),
        None => None,
    }
}

/// The AMM's global vault-and-LP-mint authority under the AMM program.
pub fn derive_amm_authority(amm_program: &Addr) -> (r: Option<Addr>)
    requires
        amm_program.wf(),
    ensures
        derivation_result(r, spec_amm_authority_seeds(), amm_program@),
{
    let mut seeds: Vec<Vec<u8>> = Vec::new();
    seeds.push(amm_auth_seed());
    proof {
        assert(seeds@.map_values(|s: Vec<u8>| s@) =~= spec_amm_authority_seeds());
    }
    match find_program_address(&seeds, amm_program) {
        Some(p) => Some(p.0),
        None => None,
    }
}

/// The AMM's pool-state account for a config and an ordered mint pair.
pub fn derive_amm_pool_state(
    amm_program: &Addr,
    amm_config: &Addr,
    token_0_mint: &Addr,
    token_1_mint: &Addr,
) -> (r: Option<Addr>)
    requires
        amm_program.wf(),
    ensures
        derivation_result(
            r,
            spec_amm_pool_state_seeds(amm_config@, token_0_mint@, token_1_mint@),
            amm_program@,
        ),
{
    let mut seeds: Vec<Vec<u8>> = Vec::new();
    seeds.push(amm_pool_seed());
    seeds.push(amm_config.to_vec());
    seeds.push(token_0_mint.to_vec());
    seeds.push(token_1_mint.to_vec());
    proof {
        assert(seeds@.map_values(|s: Vec<u8>| s@) =~= spec_amm_pool_state_seeds(
            amm_config@,
            token_0_mint@,
            token_1_mint@,
        ));
    }
    match find_program_address(&seeds, amm_program) {
        Some(p) => Some(p.0),
        None => None,
    }
}

/// The AMM pool's LP mint.
pub fn derive_amm_lp_mint(amm_program: &Addr, pool_state: &Addr) -> (r: Option<Addr>)
    requires
        amm_program.wf(),
    ensures
        derivation_result(r, spec_amm_lp_mint_seeds(pool_state@), amm_program@),
{
    let mut seeds: Vec<Vec<u8>> = Vec::new();
    seeds.push(amm_lp_mint_seed());
    seeds.push(pool_state.to_vec());
    proof {
        assert(seeds@.map_values(|s: Vec<u8>| s@) =~= spec_amm_lp_mint_seeds(pool_state@));
    }
    match find_program_address(&seeds, amm_program) {
        Some(p) => Some(p.0),
        None => None,
    }
}

/// The AMM pool's vault for one of its mints.
pub fn derive_amm_vault(amm_program: &Addr, pool_state: &Addr, mint: &Addr) -> (r: Option<Addr>)
    requires
        amm_program.wf(),
    ensures
        derivation_result(r, spec_amm_vault_seeds(pool_state@, mint@), amm_program@),
{
    let mut seeds: Vec<Vec<u8>> = Vec::new();
    seeds.push(amm_vault_seed());
    seeds.push(pool_state.to_vec());
    seeds.push(mint.to_vec());
    proof {
        assert(seeds@.map_values(|s: Vec<u8>| s@) =~= spec_amm_vault_seeds(pool_state@, mint@));
    }
    match find_program_address(&seeds, amm_program) {
        Some(p) => Some(p.0),
        None => None,
    }
}

/// The AMM pool's oracle-observation account.
pub fn derive_amm_observation(amm_program: &Addr, pool_state: &Addr) -> (r: Option<Addr>)
    requires
        amm_program.wf(),
    ensures
        derivation_result(r, spec_amm_observation_seeds(pool_state@), amm_program@),
{
    let mut seeds: Vec<Vec<u8>> = Vec::new();
    seeds.push(amm_observation_seed());
    seeds.push(pool_state.to_vec());
    proof {
        assert(seeds@.map_values(|s: Vec<u8>| s@) =~= spec_amm_observation_seeds(pool_state@));
    }
    match find_program_address(&seeds, amm_program) {
        Some(p) => Some(p.0),
        None => None,
    }
}

} // verus!
