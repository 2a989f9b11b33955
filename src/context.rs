use vstd::prelude::*;

use crate::accounts::{Mint, OptionAccount, PriceFeed, State, TokenAccount, Underlying};
use crate::error::ErrorCode;
use crate::key::Key;
use crate::ledger::{Burn, CloseAccount, CloseRecord, MintTo, Transfer};

verus! {

/// Accounts for creating the global configuration.
#[derive(Clone, Copy, Debug)]
pub struct InitializeState {
    pub admin: Key,
    pub mint_authority: Key,
    pub vault_authority: Key,
}

/// Accounts for registering a backing asset.
#[derive(Clone, Copy, Debug)]
pub struct InitializeUnderlying {
    pub state: State,
    pub mint: Key,
    pub oracle: Key,
    pub admin: Key,
}

/// Accounts for creating a series: the creator's funding account, and the
/// fresh vault, claim mint and claim account of the new series.
#[derive(Clone, Copy, Debug)]
pub struct InitializeOption {
    pub state: State,
    pub underlying: Underlying,
    pub vault: Key,
    pub vault_authority: Key,
    pub underlying_mint: Mint,
    pub underlying_token_account: TokenAccount,
    pub creator: Key,
    pub option_account: Key,
    pub mint_authority: Key,
    pub option_mint: Key,
    pub user_option_token_account: Key,
}

/// Accounts for fixing the settlement price of a series.
#[derive(Clone, Copy, Debug)]
pub struct SetSettlementPrice {
    pub state: State,
    pub underlying: Underlying,
    pub underlying_mint: Mint,
    pub option_account: OptionAccount,
    pub oracle: PriceFeed,
    pub option_mint: Mint,
    pub vault: TokenAccount,
}

/// Accounts for an administrator's override of a settlement price.
#[derive(Clone, Copy, Debug)]
pub struct SetSettlementPriceOverride {
    pub state: State,
    pub option_account: OptionAccount,
    pub admin: Key,
}

/// Accounts for redeeming claims before expiry: the holder who signs, the
/// holder's claim account and the holder's account of the underlying asset.
#[derive(Clone, Copy, Debug)]
pub struct BurnOption {
    pub state: State,
    pub underlying: Underlying,
    pub vault: TokenAccount,
    pub underlying_mint: Mint,
    pub underlying_token_account: TokenAccount,
    pub holder: Key,
    pub option_account: OptionAccount,
    pub mint_authority: Key,
    pub option_mint: Key,
    pub user_option_token_account: TokenAccount,
    pub vault_authority: Key,
}

/// Accounts for closing a series after expiry: `series` is the address of
/// the series record `option_account`.
#[derive(Clone, Copy, Debug)]
pub struct CloseOptionAccount {
    pub state: State,
    pub series: Key,
    pub underlying: Underlying,
    pub vault: TokenAccount,
    pub underlying_mint: Mint,
    pub underlying_token_account: TokenAccount,
    pub creator: Key,
    pub option_account: OptionAccount,
    pub mint_authority: Key,
    pub option_mint: Key,
    pub user_option_token_account: TokenAccount,
    pub vault_authority: Key,
}

impl SetSettlementPriceOverride {
    /// Only the administrator may override a settlement price.
    pub fn check_admin(&self) -> (r: Result<(), ErrorCode>)
        ensures
            r == (if self.admin == self.state.admin {
                Ok(())
            } else {
                Err(ErrorCode::OnlyAdminCanOverrideSettlementPrice)
            }),
    {
        if self.admin.same_as(&self.state.admin) {
            Ok(())
        } else {
            Err(ErrorCode::OnlyAdminCanOverrideSettlementPrice)
        }
    }
}

impl InitializeOption {
    /// Claims are minted into the creator's claim account by the mint authority.
    pub fn into_mint_to_context(&self) -> (r: MintTo)
        ensures
            r == (MintTo {
                mint: self.option_mint,
                to: self.user_option_token_account,
                authority: self.mint_authority,
            }),
    {
        MintTo {
            mint: self.option_mint,
            to: self.user_option_token_account,
            authority: self.mint_authority,
        }
    }

    /// Collateral moves from the creator's funding account into the vault.
    pub fn into_transfer_context(&self) -> (r: Transfer)
        ensures
            r == (Transfer {
                from: self.underlying_token_account.key,
                to: self.vault,
                authority: self.creator,
            }),
    {
        Transfer { from: self.underlying_token_account.key, to: self.vault, authority: self.creator }
    }
}

impl BurnOption {
    /// Claims are burned out of the holder's claim account, on the holder's authority.
    pub fn into_burn_context(&self) -> (r: Burn)
        ensures
            r == (Burn {
                mint: self.option_mint,
                to: self.user_option_token_account.key,
                authority: self.holder,
            }),
    {
        Burn { mint: self.option_mint, to: self.user_option_token_account.key, authority: self.holder }
    }

    /// Collateral moves from the vault back to the holder, on the vault authority.
    pub fn into_transfer_context(&self) -> (r: Transfer)
        ensures
            r == (Transfer {
                from: self.vault.key,
                to: self.underlying_token_account.key,
                authority: self.vault_authority,
            }),
    {
        Transfer {
            from: self.vault.key,
            to: self.underlying_token_account.key,
            authority: self.vault_authority,
        }
    }
}

impl CloseOptionAccount {
    /// The series record is deleted; its deposit goes to the creator.
    pub fn into_close_record_context(&self) -> (r: CloseRecord)
        ensures
            r == (CloseRecord { record: self.series, destination: self.creator }),
    {
        CloseRecord { record: self.series, destination: self.creator }
    }

    /// What is left in the vault goes to the creator, on the vault authority.
    pub fn into_transfer_context(&self) -> (r: Transfer)
        ensures
            r == (Transfer {
                from: self.vault.key,
                to: self.underlying_token_account.key,
                authority: self.vault_authority,
            }),
    {
        Transfer {
            from: self.vault.key,
            to: self.underlying_token_account.key,
            authority: self.vault_authority,
        }
    }

    /// The emptied vault is closed; its deposit goes to the creator.
    pub fn into_close_vault_context(&self) -> (r: CloseAccount)
        ensures
            r == (CloseAccount {
                account: self.vault.key,
                destination: self.creator,
                authority: self.vault_authority,
            }),
    {
        CloseAccount { account: self.vault.key, destination: self.creator, authority: self.vault_authority }
    }

    /// The creator's emptied claim account is closed by the creator.
    pub fn into_close_user_token_account(&self) -> (r: CloseAccount)
        ensures
            r == (CloseAccount {
                account: self.user_option_token_account.key,
                destination: self.creator,
                authority: self.creator,
            }),
    {
        CloseAccount {
            account: self.user_option_token_account.key,
            destination: self.creator,
            authority: self.creator,
        }
    }

    /// The creator's remaining claims are burned by the creator.
    pub fn into_burn_context(&self) -> (r: Burn)
        ensures
            r == (Burn {
                mint: self.option_mint,
                to: self.user_option_token_account.key,
                authority: self.creator,
            }),
    {
        Burn { mint: self.option_mint, to: self.user_option_token_account.key, authority: self.creator }
    }
}

} // verus!
