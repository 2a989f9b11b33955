use vstd::prelude::*;

use crate::key::Key;

verus! {

/// Accounts of a mint-to: `amount` new tokens of `mint` credited to `to`.
#[derive(Clone, Copy, Debug)]
pub struct MintTo {
    pub mint: Key,
    pub to: Key,
    pub authority: Key,
}

/// Accounts of a transfer of tokens from `from` to `to`.
#[derive(Clone, Copy, Debug)]
pub struct Transfer {
    pub from: Key,
    pub to: Key,
    pub authority: Key,
}

/// Accounts of a burn: tokens of `mint` destroyed out of the account `to`.
#[derive(Clone, Copy, Debug)]
pub struct Burn {
    pub mint: Key,
    pub to: Key,
    pub authority: Key,
}

/// Accounts of closing the (empty) token account `account`, its storage
/// deposit going to `destination`.
#[derive(Clone, Copy, Debug)]
pub struct CloseAccount {
    pub account: Key,
    pub destination: Key,
    pub authority: Key,
}

/// Deletion of the program-owned record `record`, its storage deposit going
/// to `destination`. Nothing may operate on a deleted record.
#[derive(Clone, Copy, Debug)]
pub struct CloseRecord {
    pub record: Key,
    pub destination: Key,
}

/// Who authorises a ledger operation: the end user who signed the request,
/// or one of the two key-less authorities, by its derivation nonce.
#[derive(Clone, Copy, Debug, PartialEq, Eq, Structural)]
pub enum Signer {
    Caller,
    MintAuthority { nonce: u8 },
    VaultAuthority { nonce: u8 },
}

/// One call into the token ledger. An operation returns the calls it needs,
/// in order; they are to be applied all together or not at all.
#[allow(inconsistent_fields)]
#[derive(Clone, Copy, Debug)]
pub enum LedgerOp {
    MintTo { accounts: MintTo, amount: u64, signer: Signer },
    Transfer { accounts: Transfer, amount: u64, signer: Signer },
    Burn { accounts: Burn, amount: u64, signer: Signer },
    CloseAccount { accounts: CloseAccount, signer: Signer },
}

/// How one ledger operation changes the balance of the token account `account`.
pub open spec fn balance_delta(op: LedgerOp, account: Key) -> int {
    match op {
        LedgerOp::MintTo { accounts, amount, .. } => if accounts.to == account {
            amount as int
        } else {
            0
        },
        LedgerOp::Transfer { accounts, amount, .. } => (if accounts.to == account {
            amount as int
        } else {
            0
        }) - (if accounts.from == account {
            amount as int
        } else {
            0
        }),
        LedgerOp::Burn { accounts, amount, .. } => if accounts.to == account {
            -(amount as int)
        } else {
            0
        },
        LedgerOp::CloseAccount { .. } => 0,
    }
}

/// The balance of `account` after `ops`, starting from `start`.
pub open spec fn balance_after(ops: Seq<LedgerOp>, account: Key, start: int) -> int
    decreases ops.len(),
{
    if ops.len() == 0 {
        start
    } else {
        balance_after(ops.drop_last(), account, start) + balance_delta(ops.last(), account)
    }
}

/// How one ledger operation changes the supply of the mint `mint`.
pub open spec fn supply_delta(op: LedgerOp, mint: Key) -> int {
    match op {
        LedgerOp::MintTo { accounts, amount, .. } => if accounts.mint == mint {
            amount as int
        } else {
            0
        },
        LedgerOp::Burn { accounts, amount, .. } => if accounts.mint == mint {
            -(amount as int)
        } else {
            0
        },
        _ => 0,
    }
}

/// The supply of `mint` after `ops`, starting from `start`.
pub open spec fn supply_after(ops: Seq<LedgerOp>, mint: Key, start: int) -> int
    decreases ops.len(),
{
    if ops.len() == 0 {
        start
    } else {
        supply_after(ops.drop_last(), mint, start) + supply_delta(ops.last(), mint)
    }
}

/// Applying two runs of operations one after the other.
pub proof fn lemma_balance_after_append(a: Seq<LedgerOp>, b: Seq<LedgerOp>, account: Key, start: int)
    ensures
        balance_after(a + b, account, start) == balance_after(b, account, balance_after(a, account, start)),
    decreases b.len(),
{
    if b.len() == 0 {
        assert(a + b =~= a);
    } else {
        assert((a + b).drop_last() =~= a + b.drop_last());
        lemma_balance_after_append(a, b.drop_last(), account, start);
    }
}

/// Applying two runs of operations one after the other.
pub proof fn lemma_supply_after_append(a: Seq<LedgerOp>, b: Seq<LedgerOp>, mint: Key, start: int)
    ensures
        supply_after(a + b, mint, start) == supply_after(b, mint, supply_after(a, mint, start)),
    decreases b.len(),
{
    if b.len() == 0 {
        assert(a + b =~= a);
    } else {
        assert((a + b).drop_last() =~= a + b.drop_last());
        lemma_supply_after_append(a, b.drop_last(), mint, start);
    }
}

} // verus!
