use vstd::prelude::*;

use crate::accounts::{
    InitializeOptionArgs, InitializeStateArgs, InitializeUnderlyingArgs, OptionAccount, State,
    Underlying,
};
use crate::context::{
    BurnOption, CloseOptionAccount, InitializeOption, InitializeState, InitializeUnderlying,
    SetSettlementPrice,
};
use crate::error::ErrorCode;
use crate::ledger::{Burn, CloseAccount, CloseRecord, LedgerOp, MintTo, Signer, Transfer};
use crate::math::{
    decimals_supported, get_oracle_price, get_token_amount_per_option, lemma_lot_size_fits,
    lemma_normalized_fits, lot_size, normalizable, normalized_price, payout_computable,
    remaining_collateral_after_payout, total_profit,
};

verus! {

// ---------------------------------------------------------------------------
// Configuration and backing assets
// ---------------------------------------------------------------------------

/// Creates the global configuration, with the signer as administrator.
pub fn initialize_state(ctx: &InitializeState, args: &InitializeStateArgs) -> (r: State)
    ensures
        r == (State {
            state_nonce: args.state_nonce,
            mint_auth_nonce: args.mint_auth_nonce,
            vault_auth_nonce: args.vault_auth_nonce,
            admin: ctx.admin,
            settlement_price_threshold_seconds: args.settlement_price_threshold_seconds,
        }),
{
    State {
        state_nonce: args.state_nonce,
        mint_auth_nonce: args.mint_auth_nonce,
        vault_auth_nonce: args.vault_auth_nonce,
        admin: ctx.admin,
        settlement_price_threshold_seconds: args.settlement_price_threshold_seconds,
    }
}

/// Registers a backing asset and its oracle; only the administrator may.
/// Its series counter starts at zero.
pub fn initialize_underlying(ctx: &InitializeUnderlying, args: &InitializeUnderlyingArgs) -> (r:
    Result<Underlying, ErrorCode>)
    ensures
        r == (if ctx.admin == ctx.state.admin {
            Ok(
                Underlying {
                    underlying_nonce: args.underlying_nonce,
                    mint: ctx.mint,
                    oracle: ctx.oracle,
                    count: 0,
                },
            )
        } else {
            Err(ErrorCode::UnauthorizedAdmin)
        }),
{
    if !ctx.state.admin.same_as(&ctx.admin) {
        return Err(ErrorCode::UnauthorizedAdmin);
    }
    Ok(Underlying { underlying_nonce: args.underlying_nonce, mint: ctx.mint, oracle: ctx.oracle, count: 0 })
}

// ---------------------------------------------------------------------------
// Series creation
// ---------------------------------------------------------------------------

/// Why a series cannot be created, checked in this order; `None` when it can.
pub open spec fn initialize_option_error(
    ctx: InitializeOption,
    args: InitializeOptionArgs,
    now: i64,
) -> Option<ErrorCode> {
    let funding = ctx.underlying_token_account;
    let decimals = ctx.underlying_mint.decimals;
    if funding.mint != ctx.underlying_mint.key {
        Some(ErrorCode::TokenAccountMintMismatch)
    } else if funding.owner != ctx.creator {
        Some(ErrorCode::InvalidTokenAccountOwner)
    } else if funding.amount < args.collateral_amount {
        Some(ErrorCode::InsufficientFunds)
    } else if args.expiry as int <= now as int {
        Some(ErrorCode::OptionExpirationMustBeInTheFuture)
    } else if args.strike == 0 {
        Some(ErrorCode::InvalidStrike)
    } else if ctx.underlying.count == u64::MAX {
        Some(ErrorCode::ArithmeticOverflow)
    } else if !decimals_supported(decimals) || lot_size(decimals) == 0 {
        Some(ErrorCode::UnsupportedMintDecimals)
    } else if (args.collateral_amount as nat) % lot_size(decimals) != 0 {
        Some(ErrorCode::CollateralNotMultipleOfLotSize)
    } else {
        None
    }
}

/// The record of a newly created series: the underlying's current counter is
/// its index, and its settlement price is unset.
pub open spec fn new_option_account(ctx: InitializeOption, args: InitializeOptionArgs) -> OptionAccount {
    OptionAccount {
        option_account_nonce: args.option_account_nonce,
        option_mint_nonce: args.option_mint_nonce,
        creator_option_token_account_nonce: args.token_account_nonce,
        vault_nonce: args.vault_nonce,
        underlying_count: ctx.underlying.count,
        option_mint: ctx.option_mint,
        underlying_mint: ctx.underlying_mint.key,
        creator: ctx.creator,
        strike: args.strike,
        expiry: args.expiry,
        settlement_price: 0,
        mint_supply_at_settlement: 0,
        profit_per_option: 0,
        remaining_collateral: 0,
    }
}

/// Claim tokens issued for the collateral of a new series: one per lot.
pub open spec fn minted_claims(ctx: InitializeOption, args: InitializeOptionArgs) -> nat {
    (args.collateral_amount as nat) / lot_size(ctx.underlying_mint.decimals)
}

/// The ledger calls of a series creation: mint one claim per lot of
/// collateral to the creator, then move the collateral into the vault.
pub open spec fn issue_ops(ctx: InitializeOption, args: InitializeOptionArgs) -> Seq<LedgerOp> {
    seq![
        LedgerOp::MintTo {
            accounts: MintTo {
                mint: ctx.option_mint,
                to: ctx.user_option_token_account,
                authority: ctx.mint_authority,
            },
            amount: minted_claims(ctx, args) as u64,
            signer: Signer::MintAuthority { nonce: ctx.state.mint_auth_nonce },
        },
        LedgerOp::Transfer {
            accounts: Transfer {
                from: ctx.underlying_token_account.key,
                to: ctx.vault,
                authority: ctx.creator,
            },
            amount: args.collateral_amount,
            signer: Signer::Caller,
        },
    ]
}

/// Creates a series at time `now`: returns its record and the ledger calls
/// that issue its claims and escrow its collateral, and advances the
/// underlying's series counter. On failure nothing changes.
pub fn initialize_option(ctx: &mut InitializeOption, args: &InitializeOptionArgs, now: i64) -> (r:
    Result<(OptionAccount, Vec<LedgerOp>), ErrorCode>)
    ensures
        r is Ok <==> initialize_option_error(*old(ctx), *args, now) is None,
        match r {
            Ok((account, ops)) => {
                &&& account == new_option_account(*old(ctx), *args)
                &&& ops@ == issue_ops(*old(ctx), *args)
                &&& final(ctx).underlying.count == old(ctx).underlying.count + 1
                &&& *final(ctx) == (InitializeOption {
                    underlying: (Underlying { count: final(ctx).underlying.count, ..old(ctx).underlying }),
                    ..*old(ctx)
                })
            },
            Err(e) => {
                &&& initialize_option_error(*old(ctx), *args, now) == Some(e)
                &&& *final(ctx) == *old(ctx)
            },
        },
{
    let funding = ctx.underlying_token_account;
    if !funding.mint.same_as(&ctx.underlying_mint.key) {
        return Err(ErrorCode::TokenAccountMintMismatch);
    }
    if !funding.owner.same_as(&ctx.creator) {
        return Err(ErrorCode::InvalidTokenAccountOwner);
    }
    if funding.amount < args.collateral_amount {
        return Err(ErrorCode::InsufficientFunds);
    }
    if (now as i128) >= (args.expiry as i128) {
        return Err(ErrorCode::OptionExpirationMustBeInTheFuture);
    }
    if args.strike == 0 {
        return Err(ErrorCode::InvalidStrike);
    }
    let next_count = match ctx.underlying.count.checked_add(1) {
        None => {
            return Err(ErrorCode::ArithmeticOverflow);
        },
        Some(c) => c,
    };
    let lot = match get_token_amount_per_option(&ctx.underlying_mint) {
        Err(e) => {
            return Err(e);
        },
        Ok(l) => l,
    };
    proof {
        lemma_lot_size_fits(ctx.underlying_mint.decimals);
    }
    if lot == 0 {
        return Err(ErrorCode::UnsupportedMintDecimals);
    }
    if args.collateral_amount % lot != 0 {
        return Err(ErrorCode::CollateralNotMultipleOfLotSize);
    }
    let mint_amount = args.collateral_amount / lot;
    let account = OptionAccount {
        option_account_nonce: args.option_account_nonce,
        option_mint_nonce: args.option_mint_nonce,
        creator_option_token_account_nonce: args.token_account_nonce,
        vault_nonce: args.vault_nonce,
        underlying_count: ctx.underlying.count,
        option_mint: ctx.option_mint,
        underlying_mint: ctx.underlying_mint.key,
        creator: ctx.creator,
        strike: args.strike,
        expiry: args.expiry,
        settlement_price: 0,
        mint_supply_at_settlement: 0,
        profit_per_option: 0,
        remaining_collateral: 0,
    };
    let mut ops: Vec<LedgerOp> = Vec::new();
    ops.push(
        LedgerOp::MintTo {
            accounts: ctx.into_mint_to_context(),
            amount: mint_amount,
            signer: Signer::MintAuthority { nonce: ctx.state.mint_auth_nonce },
        },
    );
    ops.push(
        LedgerOp::Transfer {
            accounts: ctx.into_transfer_context(),
            amount: args.collateral_amount,
            signer: Signer::Caller,
        },
    );
    ctx.underlying.count = next_count;
    proof {
        assert(ops@ =~= issue_ops(*old(ctx), *args));
    }
    Ok((account, ops))
}

// ---------------------------------------------------------------------------
// Settlement-price fixing
// ---------------------------------------------------------------------------

/// Why the oracle reading cannot settle the series: it is unusable, it
/// normalises to zero (which would read as "unset"), or the payout cannot be
/// set aside. `None` when it can.
pub open spec fn pricing_error(ctx: SetSettlementPrice) -> Option<ErrorCode> {
    let oracle = ctx.oracle;
    let strike = ctx.option_account.strike;
    let decimals = ctx.underlying_mint.decimals;
    if oracle.price < 0 || oracle.expo > 0 {
        Some(ErrorCode::InvalidOraclePrice)
    } else if !normalizable(oracle.price, oracle.expo) || normalized_price(oracle.price, oracle.expo)
        > u64::MAX {
        Some(ErrorCode::ArithmeticOverflow)
    } else if normalized_price(oracle.price, oracle.expo) == 0 {
        Some(ErrorCode::InvalidOraclePrice)
    } else if normalized_price(oracle.price, oracle.expo) <= strike {
        None
    } else if !decimals_supported(decimals) {
        Some(ErrorCode::UnsupportedMintDecimals)
    } else if !payout_computable(
        lot_size(decimals),
        normalized_price(oracle.price, oracle.expo),
        strike as nat,
        ctx.option_mint.supply as nat,
    ) {
        Some(ErrorCode::ArithmeticOverflow)
    } else if total_profit(
        lot_size(decimals),
        normalized_price(oracle.price, oracle.expo),
        strike as nat,
        ctx.option_mint.supply as nat,
    ) > ctx.vault.amount {
        Some(ErrorCode::PayoutExceedsVault)
    } else {
        None
    }
}

/// Why the settlement price cannot be fixed once the window is open: it is
/// already fixed, the oracle or claim mint is not the series' own, or the
/// reading cannot settle it. `None` when it can.
pub open spec fn fixing_error(ctx: SetSettlementPrice) -> Option<ErrorCode> {
    if ctx.option_account.settlement_price != 0 {
        Some(ErrorCode::SettlementPriceAlreadySet)
    } else if ctx.oracle.key != ctx.underlying.oracle {
        Some(ErrorCode::InvalidOracle)
    } else if ctx.option_mint.key != ctx.option_account.option_mint {
        Some(ErrorCode::InvalidOracle)
    } else {
        pricing_error(ctx)
    }
}

/// Why the settlement price cannot be fixed at time `now`, checked in this
/// order; `None` when it can. The window is `[expiry - w, expiry + w]`.
pub open spec fn settlement_error(ctx: SetSettlementPrice, now: i64) -> Option<ErrorCode> {
    let expiry = ctx.option_account.expiry;
    let window = ctx.state.settlement_price_threshold_seconds;
    if (now as int) < expiry - window {
        Some(ErrorCode::BeforeSetSettlementPriceTime)
    } else if (now as int) > expiry + window {
        Some(ErrorCode::AfterSetSettlementPriceTime)
    } else {
        fixing_error(ctx)
    }
}

/// The series record once the settlement price is fixed: the normalised
/// oracle price is stored; in the money, so is the collateral left to the
/// creator after the claim holders' profit is set aside.
pub open spec fn settled_account(ctx: SetSettlementPrice) -> OptionAccount {
    let price = normalized_price(ctx.oracle.price, ctx.oracle.expo);
    let strike = ctx.option_account.strike;
    if price <= strike {
        OptionAccount { settlement_price: price as u64, ..ctx.option_account }
    } else {
        OptionAccount {
            settlement_price: price as u64,
            remaining_collateral: (ctx.vault.amount - total_profit(
                lot_size(ctx.underlying_mint.decimals),
                price,
                strike as nat,
                ctx.option_mint.supply as nat,
            )) as u64,
            ..ctx.option_account
        }
    }
}

/// Fixes the settlement price of a series at time `now` from one oracle
/// reading. Only the series record changes, and only on success; a fixed
/// price is never zero, so it is fixed once.
pub fn set_settlement_price(ctx: &mut SetSettlementPrice, now: i64) -> (r: Result<(), ErrorCode>)
    ensures
        r is Ok <==> settlement_error(*old(ctx), now) is None,
        r is Ok ==> final(ctx).option_account.settlement_price != 0,
        r is Ok && final(ctx).option_account.settlement_price > old(ctx).option_account.strike
            ==> final(ctx).option_account.remaining_collateral <= old(ctx).vault.amount,
        match r {
            Ok(_) => *final(ctx) == (SetSettlementPrice {
                option_account: settled_account(*old(ctx)),
                ..*old(ctx)
            }),
            Err(e) => {
                &&& settlement_error(*old(ctx), now) == Some(e)
                &&& *final(ctx) == *old(ctx)
            },
        },
{
    let expiry = ctx.option_account.expiry as i128;
    let window = ctx.state.settlement_price_threshold_seconds as i128;
    if (now as i128) < expiry - window {
        return Err(ErrorCode::BeforeSetSettlementPriceTime);
    }
    if (now as i128) > expiry + window {
        return Err(ErrorCode::AfterSetSettlementPriceTime);
    }
    if ctx.option_account.settlement_price != 0 {
        return Err(ErrorCode::SettlementPriceAlreadySet);
    }
    if !ctx.oracle.key.same_as(&ctx.underlying.oracle) {
        return Err(ErrorCode::InvalidOracle);
    }
    if !ctx.option_mint.key.same_as(&ctx.option_account.option_mint) {
        return Err(ErrorCode::InvalidOracle);
    }
    let normalized = match get_oracle_price(&ctx.oracle) {
        Err(e) => {
            return Err(e);
        },
        Ok(p) => p,
    };
    proof {
        lemma_normalized_fits(ctx.oracle.price, ctx.oracle.expo);
    }
    if normalized > u64::MAX as u128 {
        return Err(ErrorCode::ArithmeticOverflow);
    }
    if normalized == 0 {
        return Err(ErrorCode::InvalidOraclePrice);
    }
    let oracle_price = normalized as u64;
    let strike = ctx.option_account.strike;
    if oracle_price <= strike {
        // Out of the money: the whole vault stays with the creator.
        ctx.option_account.settlement_price = oracle_price;
        return Ok(());
    }
    let lot = match get_token_amount_per_option(&ctx.underlying_mint) {
        Err(e) => {
            return Err(e);
        },
        Ok(l) => l,
    };
    proof {
        lemma_lot_size_fits(ctx.underlying_mint.decimals);
    }
    let remaining = match remaining_collateral_after_payout(
        lot,
        oracle_price,
        strike,
        ctx.option_mint.supply,
        ctx.vault.amount,
    ) {
        Err(e) => {
            return Err(e);
        },
        Ok(rest) => rest,
    };
    ctx.option_account.settlement_price = oracle_price;
    ctx.option_account.remaining_collateral = remaining;
    Ok(())
}

// ---------------------------------------------------------------------------
// Early redemption
// ---------------------------------------------------------------------------

/// Units of the underlying asset that redeeming `amount` claims releases.
pub open spec fn redeemed_collateral(ctx: BurnOption, amount: u64) -> nat {
    (amount as nat) * lot_size(ctx.underlying_mint.decimals)
}

/// Why the holder cannot redeem `amount` claims at time `now`, checked in
/// this order; `None` when they can. Any holder of the series' claims may
/// redeem them, into their own account of the underlying asset.
pub open spec fn burn_error(ctx: BurnOption, amount: u64, now: i64) -> Option<ErrorCode> {
    let receiving = ctx.underlying_token_account;
    let claims = ctx.user_option_token_account;
    if now as int > ctx.option_account.expiry as int {
        Some(ErrorCode::CannotBurnOptionsAfterExpiry)
    } else if ctx.option_account.settlement_price != 0 {
        Some(ErrorCode::CannotBurnOptionsAfterSettlementPriceIsSet)
    } else if receiving.mint != ctx.underlying_mint.key || claims.mint != ctx.option_mint {
        Some(ErrorCode::TokenAccountMintMismatch)
    } else if receiving.owner != ctx.holder || claims.owner != ctx.holder {
        Some(ErrorCode::InvalidTokenAccountOwner)
    } else if claims.amount < amount {
        Some(ErrorCode::InsufficientOptionsToBurn)
    } else if !decimals_supported(ctx.underlying_mint.decimals) {
        Some(ErrorCode::UnsupportedMintDecimals)
    } else if redeemed_collateral(ctx, amount) > u64::MAX {
        Some(ErrorCode::ArithmeticOverflow)
    } else if redeemed_collateral(ctx, amount) > ctx.vault.amount {
        Some(ErrorCode::InsufficientFunds)
    } else {
        None
    }
}

/// The ledger calls of a redemption: burn the claims on the holder's
/// authority, then release their lots from the vault on the vault authority.
pub open spec fn burn_ops(ctx: BurnOption, amount: u64) -> Seq<LedgerOp> {
    seq![
        LedgerOp::Burn {
            accounts: Burn {
                mint: ctx.option_mint,
                to: ctx.user_option_token_account.key,
                authority: ctx.holder,
            },
            amount: amount,
            signer: Signer::Caller,
        },
        LedgerOp::Transfer {
            accounts: Transfer {
                from: ctx.vault.key,
                to: ctx.underlying_token_account.key,
                authority: ctx.vault_authority,
            },
            amount: redeemed_collateral(ctx, amount) as u64,
            signer: Signer::VaultAuthority { nonce: ctx.state.vault_auth_nonce },
        },
    ]
}

/// Redeems `amount` of the holder's claims at time `now`, before expiry and
/// settlement, for one lot of collateral each: returns the ledger calls to make.
pub fn burn_option(ctx: &BurnOption, amount: u64, now: i64) -> (r: Result<Vec<LedgerOp>, ErrorCode>)
    ensures
        r is Ok <==> burn_error(*ctx, amount, now) is None,
        match r {
            Ok(ops) => ops@ == burn_ops(*ctx, amount),
            Err(e) => burn_error(*ctx, amount, now) == Some(e),
        },
{
    if (now as i128) > (ctx.option_account.expiry as i128) {
        return Err(ErrorCode::CannotBurnOptionsAfterExpiry);
    }
    if ctx.option_account.settlement_price != 0 {
        return Err(ErrorCode::CannotBurnOptionsAfterSettlementPriceIsSet);
    }
    let receiving = ctx.underlying_token_account;
    let claims = ctx.user_option_token_account;
    if !receiving.mint.same_as(&ctx.underlying_mint.key) || !claims.mint.same_as(&ctx.option_mint) {
        return Err(ErrorCode::TokenAccountMintMismatch);
    }
    if !receiving.owner.same_as(&ctx.holder) || !claims.owner.same_as(&ctx.holder) {
        return Err(ErrorCode::InvalidTokenAccountOwner);
    }
    if claims.amount < amount {
        return Err(ErrorCode::InsufficientOptionsToBurn);
    }
    let lot = match get_token_amount_per_option(&ctx.underlying_mint) {
        Err(e) => {
            return Err(e);
        },
        Ok(l) => l,
    };
    proof {
        lemma_lot_size_fits(ctx.underlying_mint.decimals);
    }
    let underlying_amount = match amount.checked_mul(lot) {
        None => {
            return Err(ErrorCode::ArithmeticOverflow);
        },
        Some(u) => u,
    };
    if ctx.vault.amount < underlying_amount {
        return Err(ErrorCode::InsufficientFunds);
    }
    let mut ops: Vec<LedgerOp> = Vec::new();
    ops.push(LedgerOp::Burn { accounts: ctx.into_burn_context(), amount, signer: Signer::Caller });
    ops.push(
        LedgerOp::Transfer {
            accounts: ctx.into_transfer_context(),
            amount: underlying_amount,
            signer: Signer::VaultAuthority { nonce: ctx.state.vault_auth_nonce },
        },
    );
    proof {
        assert(ops@ =~= burn_ops(*ctx, amount));
    }
    Ok(ops)
}

// ---------------------------------------------------------------------------
// Close-out
// ---------------------------------------------------------------------------

/// Why the series cannot be closed at time `now`, checked in this order;
/// `None` when it can.
pub open spec fn close_error(ctx: CloseOptionAccount, now: i64) -> Option<ErrorCode> {
    let receiving = ctx.underlying_token_account;
    if ctx.creator != ctx.option_account.creator {
        Some(ErrorCode::OnlyCreatorCanCloseOptionAccount)
    } else if (now as int) < ctx.option_account.expiry as int {
        Some(ErrorCode::NotPastOptionCloseTime)
    } else if receiving.mint != ctx.underlying_mint.key {
        Some(ErrorCode::TokenAccountMintMismatch)
    } else if receiving.owner != ctx.creator {
        Some(ErrorCode::InvalidTokenAccountOwner)
    } else {
        None
    }
}

/// The ledger calls of a close-out: empty the vault into the creator's
/// account and close it, then burn the creator's remaining claims and close
/// the creator's claim account.
pub open spec fn close_ops(ctx: CloseOptionAccount) -> Seq<LedgerOp> {
    let vault_signer = Signer::VaultAuthority { nonce: ctx.state.vault_auth_nonce };
    seq![
        LedgerOp::Transfer {
            accounts: Transfer {
                from: ctx.vault.key,
                to: ctx.underlying_token_account.key,
                authority: ctx.vault_authority,
            },
            amount: ctx.vault.amount,
            signer: vault_signer,
        },
        LedgerOp::CloseAccount {
            accounts: CloseAccount {
                account: ctx.vault.key,
                destination: ctx.creator,
                authority: ctx.vault_authority,
            },
            signer: vault_signer,
        },
        LedgerOp::Burn {
            accounts: Burn {
                mint: ctx.option_mint,
                to: ctx.user_option_token_account.key,
                authority: ctx.creator,
            },
            amount: ctx.user_option_token_account.amount,
            signer: Signer::Caller,
        },
        LedgerOp::CloseAccount {
            accounts: CloseAccount {
                account: ctx.user_option_token_account.key,
                destination: ctx.creator,
                authority: ctx.creator,
            },
            signer: Signer::Caller,
        },
    ]
}

/// Closes a series at or after expiry, on its creator's request: returns the
/// ledger calls to make, and the deletion of the series record, after which
/// the series is gone and nothing can operate on it.
pub fn close_option_account(ctx: &CloseOptionAccount, now: i64) -> (r: Result<
    (Vec<LedgerOp>, CloseRecord),
    ErrorCode,
>)
    ensures
        r is Ok <==> close_error(*ctx, now) is None,
        match r {
            Ok((ops, deletion)) => {
                &&& ops@ == close_ops(*ctx)
                &&& deletion == (CloseRecord { record: ctx.series, destination: ctx.creator })
            },
            Err(e) => close_error(*ctx, now) == Some(e),
        },
{
    if !ctx.creator.same_as(&ctx.option_account.creator) {
        return Err(ErrorCode::OnlyCreatorCanCloseOptionAccount);
    }
    if (now as i128) < (ctx.option_account.expiry as i128) {
        return Err(ErrorCode::NotPastOptionCloseTime);
    }
    let receiving = ctx.underlying_token_account;
    if !receiving.mint.same_as(&ctx.underlying_mint.key) {
        return Err(ErrorCode::TokenAccountMintMismatch);
    }
    if !receiving.owner.same_as(&ctx.creator) {
        return Err(ErrorCode::InvalidTokenAccountOwner);
    }
    let vault_signer = Signer::VaultAuthority { nonce: ctx.state.vault_auth_nonce };
    let mut ops: Vec<LedgerOp> = Vec::new();
    ops.push(
        LedgerOp::Transfer {
            accounts: ctx.into_transfer_context(),
            amount: ctx.vault.amount,
            signer: vault_signer,
        },
    );
    ops.push(LedgerOp::CloseAccount { accounts: ctx.into_close_vault_context(), signer: vault_signer });
    ops.push(
        LedgerOp::Burn {
            accounts: ctx.into_burn_context(),
            amount: ctx.user_option_token_account.amount,
            signer: Signer::Caller,
        },
    );
    ops.push(
        LedgerOp::CloseAccount { accounts: ctx.into_close_user_token_account(), signer: Signer::Caller },
    );
    proof {
        assert(ops@ =~= close_ops(*ctx));
    }
    Ok((ops, ctx.into_close_record_context()))
}

} // verus!
