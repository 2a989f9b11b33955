use vstd::prelude::*;
use vstd::string::{StrSliceExecFns, StringSliceAdditionalSpecFns};

use anchor_lang::prelude::Pubkey;

use crate::error::ErrorCode;
use crate::key::Key;
use crate::ledger::Signer;

verus! {

pub const UNDERLYING_SEED: &'static str = "underlying";

pub const STATE_SEED: &'static str = "state";

pub const MINT_AUTH_SEED: &'static str = "mint-auth";

pub const VAULT_AUTH_SEED: &'static str = "vault-auth";

pub const VAULT_SEED: &'static str = "vault";

pub const OPTION_ACCOUNT_SEED: &'static str = "option-account";

pub const OPTION_MINT_SEED: &'static str = "option-mint";

/// The address that a program derives from `seeds`, or `None` where the
/// seeds derive none (too many or too long, or the hash lies on the curve).
pub uninterp spec fn program_address(seeds: Seq<Seq<u8>>, program_id: Seq<u8>) -> Option<Seq<u8>>;

/// Relies on `Pubkey::create_program_address` (solana-program, re-exported by
/// anchor-lang): the program-derived address of `seeds` under `program_id`.
/// It fails on more than 16 seeds or on a seed longer than 32 bytes.
#[verifier::external_body]
fn create_program_address(seeds: &Vec<Vec<u8>>, program_id: &Key) -> (r: Option<Key>)
    ensures
        program_address(seeds@.map_values(|s: Vec<u8>| s@), program_id.bytes@) == (match r {
            Some(k) => Some(k.bytes@),
            None => None::<Seq<u8>>,
        }),
        seeds@.len() > 16 || (exists|i: int| 0 <= i < seeds@.len() && seeds@[i]@.len() > 32)
            ==> r is None,
{
    let slices: Vec<&[u8]> = seeds.iter().map(|s| s.as_slice()).collect();
    let program = Pubkey::new_from_array(program_id.bytes);
    match Pubkey::create_program_address(&slices, &program) {
        Ok(address) => Some(Key { bytes: address.to_bytes() }),
        Err(_) => None,
    }
}

/// The little-endian bytes of `n`.
pub open spec fn le_bytes(n: u64) -> Seq<u8> {
    Seq::new(8, |i: int| ((n as nat / pow256(i as nat)) % 256) as u8)
}

pub open spec fn pow256(n: nat) -> nat
    decreases n,
{
    if n == 0 {
        1
    } else {
        256 * pow256((n - 1) as nat)
    }
}

/// The eight little-endian bytes of `n`.
pub fn u64_le_bytes(n: u64) -> (r: Vec<u8>)
    ensures
        r@ == le_bytes(n),
{
    let mut out: Vec<u8> = Vec::new();
    let mut rest: u64 = n;
    let mut i: usize = 0;
    assert(pow256(0) == 1);
    while i < 8
        invariant
            i <= 8,
            out@.len() == i,
            rest as nat == n as nat / pow256(i as nat),
            forall|j: int| 0 <= j < i ==> out@[j] == ((n as nat / pow256(j as nat)) % 256) as u8,
        decreases 8 - i,
    {
        proof {
            lemma_div_step(n as nat, i as nat);
        }
        out.push((rest % 256) as u8);
        rest = rest / 256;
        i = i + 1;
    }
    assert(out@ =~= le_bytes(n));
    out
}

proof fn lemma_div_step(n: nat, i: nat)
    ensures
        n / pow256(i) / 256 == n / pow256(i + 1),
{
    lemma_pow256_positive(i);
    assert(pow256(i + 1) == 256 * pow256(i));
    let p = pow256(i);
    assert(n / p / 256 == n / (p * 256)) by {
        vstd::arithmetic::div_mod::lemma_div_denominator(n as int, p as int, 256);
    }
    assert(p * 256 == 256 * p) by (nonlinear_arith);
}

proof fn lemma_pow256_positive(n: nat)
    ensures
        pow256(n) >= 1,
    decreases n,
{
    if n > 0 {
        lemma_pow256_positive((n - 1) as nat);
    }
}

fn key_seed(k: &Key) -> (r: Vec<u8>)
    ensures
        r@ == k.bytes@,
{
    let mut out: Vec<u8> = Vec::new();
    let mut i: usize = 0;
    while i < 32
        invariant
            i <= 32,
            out@ =~= k.bytes@.subrange(0, i as int),
        decreases 32 - i,
    {
        out.push(k.bytes[i]);
        i = i + 1;
    }
    assert(out@ =~= k.bytes@);
    out
}

fn nonce_seed(nonce: u8) -> (r: Vec<u8>)
    ensures
        r@ == seq![nonce],
{
    let mut out: Vec<u8> = Vec::new();
    out.push(nonce);
    assert(out@ =~= seq![nonce]);
    out
}

/// The seeds of the global configuration record.
pub open spec fn state_seeds(nonce: u8) -> Seq<Seq<u8>> {
    seq![STATE_SEED.spec_bytes(), seq![nonce]]
}

/// The seeds of the key-less authority that mints and burns claims.
pub open spec fn mint_authority_seeds(nonce: u8) -> Seq<Seq<u8>> {
    seq![MINT_AUTH_SEED.spec_bytes(), seq![nonce]]
}

/// The seeds of the key-less authority that holds every vault.
pub open spec fn vault_authority_seeds(nonce: u8) -> Seq<Seq<u8>> {
    seq![VAULT_AUTH_SEED.spec_bytes(), seq![nonce]]
}

/// The seeds of a backing asset's record, keyed by its mint.
pub open spec fn underlying_seeds(mint: Key, nonce: u8) -> Seq<Seq<u8>> {
    seq![UNDERLYING_SEED.spec_bytes(), mint.bytes@, seq![nonce]]
}

/// The seeds of a series record, keyed by its underlying record and index.
pub open spec fn option_account_seeds(underlying: Key, index: u64, nonce: u8) -> Seq<Seq<u8>> {
    seq![OPTION_ACCOUNT_SEED.spec_bytes(), underlying.bytes@, le_bytes(index), seq![nonce]]
}

/// The seeds of a series' vault, keyed by the series record.
pub open spec fn vault_seeds(option_account: Key, nonce: u8) -> Seq<Seq<u8>> {
    seq![VAULT_SEED.spec_bytes(), option_account.bytes@, seq![nonce]]
}

/// The seeds of a series' claim mint, keyed by the series record.
pub open spec fn option_mint_seeds(option_account: Key, nonce: u8) -> Seq<Seq<u8>> {
    seq![OPTION_MINT_SEED.spec_bytes(), option_account.bytes@, seq![nonce]]
}

/// The seeds of a holder's claim account, keyed by claim mint and holder.
pub open spec fn claim_account_seeds(option_mint: Key, holder: Key, nonce: u8) -> Seq<Seq<u8>> {
    seq![option_mint.bytes@, holder.bytes@, seq![nonce]]
}

/// The seeds a key-less authority signs with (`None` for the caller, who
/// signs with a key).
pub open spec fn signer_seeds(signer: Signer) -> Option<Seq<Seq<u8>>> {
    match signer {
        Signer::Caller => None,
        Signer::MintAuthority { nonce } => Some(mint_authority_seeds(nonce)),
        Signer::VaultAuthority { nonce } => Some(vault_authority_seeds(nonce)),
    }
}

/// The address that `seeds` derive under `program_id`.
pub open spec fn derived(seeds: Seq<Seq<u8>>, program_id: Key) -> Option<Seq<u8>> {
    program_address(seeds, program_id.bytes@)
}

fn label_then_nonce(label: &str, nonce: u8) -> (r: Vec<Vec<u8>>)
    ensures
        r@.map_values(|s: Vec<u8>| s@) == seq![label.spec_bytes(), seq![nonce]],
{
    let mut seeds: Vec<Vec<u8>> = Vec::new();
    seeds.push(label.as_bytes_vec());
    seeds.push(nonce_seed(nonce));
    assert(seeds@.map_values(|s: Vec<u8>| s@) =~= seq![label.spec_bytes(), seq![nonce]]);
    seeds
}

fn label_key_nonce(label: &str, key: &Key, nonce: u8) -> (r: Vec<Vec<u8>>)
    ensures
        r@.map_values(|s: Vec<u8>| s@) == seq![label.spec_bytes(), key.bytes@, seq![nonce]],
{
    let mut seeds: Vec<Vec<u8>> = Vec::new();
    seeds.push(label.as_bytes_vec());
    seeds.push(key_seed(key));
    seeds.push(nonce_seed(nonce));
    assert(seeds@.map_values(|s: Vec<u8>| s@) =~= seq![label.spec_bytes(), key.bytes@, seq![nonce]]);
    seeds
}

/// The seeds that a ledger operation is signed with.
pub fn authority_seeds(signer: Signer) -> (r: Option<Vec<Vec<u8>>>)
    ensures
        match r {
            Some(seeds) => signer_seeds(signer) == Some(seeds@.map_values(|s: Vec<u8>| s@)),
            None => signer_seeds(signer) is None,
        },
{
    match signer {
        Signer::Caller => None,
        Signer::MintAuthority { nonce } => Some(label_then_nonce(MINT_AUTH_SEED, nonce)),
        Signer::VaultAuthority { nonce } => Some(label_then_nonce(VAULT_AUTH_SEED, nonce)),
    }
}

fn address_of(seeds: &Vec<Vec<u8>>, program_id: &Key) -> (r: Option<Key>)
    ensures
        derived(seeds@.map_values(|s: Vec<u8>| s@), *program_id) == (match r {
            Some(k) => Some(k.bytes@),
            None => None::<Seq<u8>>,
        }),
{
    create_program_address(seeds, program_id)
}

/// The address of the global configuration record.
pub fn state_address(program_id: &Key, nonce: u8) -> (r: Option<Key>)
    ensures
        derived(state_seeds(nonce), *program_id) == (match r {
            Some(k) => Some(k.bytes@),
            None => None::<Seq<u8>>,
        }),
{
    address_of(&label_then_nonce(STATE_SEED, nonce), program_id)
}

/// The address of the key-less mint authority.
pub fn mint_authority_address(program_id: &Key, nonce: u8) -> (r: Option<Key>)
    ensures
        derived(mint_authority_seeds(nonce), *program_id) == (match r {
            Some(k) => Some(k.bytes@),
            None => None::<Seq<u8>>,
        }),
{
    address_of(&label_then_nonce(MINT_AUTH_SEED, nonce), program_id)
}

/// The address of the key-less vault authority.
pub fn vault_authority_address(program_id: &Key, nonce: u8) -> (r: Option<Key>)
    ensures
        derived(vault_authority_seeds(nonce), *program_id) == (match r {
            Some(k) => Some(k.bytes@),
            None => None::<Seq<u8>>,
        }),
{
    address_of(&label_then_nonce(VAULT_AUTH_SEED, nonce), program_id)
}

/// The address of the record of the backing asset with mint `mint`.
pub fn underlying_address(program_id: &Key, mint: &Key, nonce: u8) -> (r: Option<Key>)
    ensures
        derived(underlying_seeds(*mint, nonce), *program_id) == (match r {
            Some(k) => Some(k.bytes@),
            None => None::<Seq<u8>>,
        }),
{
    address_of(&label_key_nonce(UNDERLYING_SEED, mint, nonce), program_id)
}

/// The address of the series with index `index` on the underlying record
/// `underlying`.
pub fn option_account_address(program_id: &Key, underlying: &Key, index: u64, nonce: u8) -> (r:
    Option<Key>)
    ensures
        derived(option_account_seeds(*underlying, index, nonce), *program_id) == (match r {
            Some(k) => Some(k.bytes@),
            None => None::<Seq<u8>>,
        }),
{
    let mut seeds: Vec<Vec<u8>> = Vec::new();
    seeds.push(OPTION_ACCOUNT_SEED.as_bytes_vec());
    seeds.push(key_seed(underlying));
    seeds.push(u64_le_bytes(index));
    seeds.push(nonce_seed(nonce));
    assert(seeds@.map_values(|s: Vec<u8>| s@) =~= option_account_seeds(*underlying, index, nonce));
    address_of(&seeds, program_id)
}

/// The address of the vault of the series at `option_account`.
pub fn vault_address(program_id: &Key, option_account: &Key, nonce: u8) -> (r: Option<Key>)
    ensures
        derived(vault_seeds(*option_account, nonce), *program_id) == (match r {
            Some(k) => Some(k.bytes@),
            None => None::<Seq<u8>>,
        }),
{
    address_of(&label_key_nonce(VAULT_SEED, option_account, nonce), program_id)
}

/// The address of the claim mint of the series at `option_account`.
pub fn option_mint_address(program_id: &Key, option_account: &Key, nonce: u8) -> (r: Option<Key>)
    ensures
        derived(option_mint_seeds(*option_account, nonce), *program_id) == (match r {
            Some(k) => Some(k.bytes@),
            None => None::<Seq<u8>>,
        }),
{
    address_of(&label_key_nonce(OPTION_MINT_SEED, option_account, nonce), program_id)
}

/// The address of `holder`'s account of the claim mint `option_mint`.
pub fn claim_account_address(program_id: &Key, option_mint: &Key, holder: &Key, nonce: u8) -> (r:
    Option<Key>)
    ensures
        derived(claim_account_seeds(*option_mint, *holder, nonce), *program_id) == (match r {
            Some(k) => Some(k.bytes@),
            None => None::<Seq<u8>>,
        }),
{
    let mut seeds: Vec<Vec<u8>> = Vec::new();
    seeds.push(key_seed(option_mint));
    seeds.push(key_seed(holder));
    seeds.push(nonce_seed(nonce));
    assert(seeds@.map_values(|s: Vec<u8>| s@) =~= claim_account_seeds(*option_mint, *holder, nonce));
    address_of(&seeds, program_id)
}

/// Accepts `actual` only where it is the address that was derived for it.
pub fn check_address(actual: &Key, derived_address: Option<Key>) -> (r: Result<(), ErrorCode>)
    ensures
        r == (if derived_address == Some(*actual) {
            Ok(())
        } else {
            Err(ErrorCode::InvalidSeeds)
        }),
{
    match derived_address {
        Some(k) => if k.same_as(actual) {
            Ok(())
        } else {
            Err(ErrorCode::InvalidSeeds)
        },
        None => Err(ErrorCode::InvalidSeeds),
    }
}

} // verus!
