use vstd::prelude::*;

use crate::accounts::InitializeOptionArgs;
use crate::context::{BurnOption, CloseOptionAccount, InitializeOption, SetSettlementPrice};
use crate::error::ErrorCode;
use crate::key::Key;
use crate::ledger::{
    balance_after, balance_delta, lemma_balance_after_append, lemma_supply_after_append, supply_after,
    supply_delta, LedgerOp,
};
use crate::math::{decimals_supported, lemma_normalized_fits, lot_size, normalized_price};
use crate::otc::{
    burn_error, burn_ops, close_error, close_ops, initialize_option_error, issue_ops, minted_claims,
    fixing_error, redeemed_collateral, settled_account, settlement_error,
};

verus! {

/// A redemption request: its accounts, the number of claims, and the time.
pub type Redemption = (BurnOption, u64, i64);

/// Collateral released by a run of redemptions.
pub open spec fn redeemed_total(steps: Seq<Redemption>) -> int
    decreases steps.len(),
{
    if steps.len() == 0 {
        0
    } else {
        redeemed_total(steps.drop_last()) + redeemed_collateral(steps.last().0, steps.last().1)
    }
}

/// The ledger calls of a run of redemptions, one after the other.
pub open spec fn redemption_ops(steps: Seq<Redemption>) -> Seq<LedgerOp>
    decreases steps.len(),
{
    if steps.len() == 0 {
        seq![]
    } else {
        redemption_ops(steps.drop_last()) + burn_ops(steps.last().0, steps.last().1)
    }
}

/// Each redemption in `steps` was accepted against the vault `vault`, which
/// held what the deposit less the earlier redemptions left in it, and neither
/// of the redeemer's accounts is that vault.
pub open spec fn redemptions_accepted(deposit: int, vault: Key, steps: Seq<Redemption>) -> bool
    decreases steps.len(),
{
    if steps.len() == 0 {
        true
    } else {
        let (ctx, amount, now) = steps.last();
        &&& redemptions_accepted(deposit, vault, steps.drop_last())
        &&& ctx.vault.key == vault
        &&& ctx.underlying_token_account.key != vault
        &&& ctx.user_option_token_account.key != vault
        &&& ctx.vault.amount == deposit - redeemed_total(steps.drop_last())
        &&& burn_error(ctx, amount, now) is None
    }
}

proof fn lemma_balance_after_two(a: LedgerOp, b: LedgerOp, account: Key, start: int)
    ensures
        balance_after(seq![a, b], account, start) == start + balance_delta(a, account)
            + balance_delta(b, account),
{
    assert(seq![a, b].drop_last() =~= seq![a]);
    assert(seq![a].drop_last() =~= Seq::<LedgerOp>::empty());
    reveal_with_fuel(balance_after, 3);
}

proof fn lemma_balance_after_four(a: LedgerOp, b: LedgerOp, c: LedgerOp, d: LedgerOp, account: Key, start: int)
    ensures
        balance_after(seq![a, b, c, d], account, start) == start + balance_delta(a, account)
            + balance_delta(b, account) + balance_delta(c, account)
            + balance_delta(d, account),
{
    assert(seq![a, b, c, d].drop_last() =~= seq![a, b, c]);
    assert(seq![a, b, c].drop_last() =~= seq![a, b]);
    lemma_balance_after_two(a, b, account, start);
    reveal_with_fuel(balance_after, 3);
}

/// Claims burned by a run of redemptions.
pub open spec fn burned_total(steps: Seq<Redemption>) -> int
    decreases steps.len(),
{
    if steps.len() == 0 {
        0
    } else {
        burned_total(steps.drop_last()) + steps.last().1
    }
}

proof fn lemma_supply_after_two(a: LedgerOp, b: LedgerOp, mint: Key, start: int)
    ensures
        supply_after(seq![a, b], mint, start) == start + supply_delta(a, mint) + supply_delta(b, mint),
{
    assert(seq![a, b].drop_last() =~= seq![a]);
    assert(seq![a].drop_last() =~= Seq::<LedgerOp>::empty());
    reveal_with_fuel(supply_after, 3);
}

/// Every redemption in `steps` burns claims of `mint` at lot size `lot`.
pub open spec fn redemptions_of(mint: Key, lot: nat, steps: Seq<Redemption>) -> bool {
    forall|i: int|
        0 <= i < steps.len() ==> {
            &&& (#[trigger] steps[i]).0.option_mint == mint
            &&& lot_size(steps[i].0.underlying_mint.decimals) == lot
        }
}

proof fn lemma_redeemed_claims(supply: int, mint: Key, lot: nat, steps: Seq<Redemption>)
    requires
        redemptions_of(mint, lot, steps),
    ensures
        supply_after(redemption_ops(steps), mint, supply) == supply - burned_total(steps),
        redeemed_total(steps) == burned_total(steps) * lot,
    decreases steps.len(),
{
    if steps.len() > 0 {
        let prefix = steps.drop_last();
        let (ctx, amount, now) = steps.last();
        assert(redemptions_of(mint, lot, prefix)) by {
            assert forall|i: int| 0 <= i < prefix.len() implies {
                &&& (#[trigger] prefix[i]).0.option_mint == mint
                &&& lot_size(prefix[i].0.underlying_mint.decimals) == lot
            } by {
                assert(prefix[i] == steps[i]);
            }
        }
        assert(steps[steps.len() - 1] == steps.last());
        lemma_redeemed_claims(supply, mint, lot, prefix);
        lemma_supply_after_append(redemption_ops(prefix), burn_ops(ctx, amount), mint, supply);
        let ops = burn_ops(ctx, amount);
        lemma_supply_after_two(ops[0], ops[1], mint, supply - burned_total(prefix));
        assert(ops =~= seq![ops[0], ops[1]]);
        assert(burned_total(steps) * lot == burned_total(prefix) * lot + amount * lot) by (nonlinear_arith)
            requires
                burned_total(steps) == burned_total(prefix) + amount,
        ;
    } else {
        assert(supply_after(seq![], mint, supply) == supply);
    }
}

proof fn lemma_redemptions(deposit: int, vault: Key, steps: Seq<Redemption>)
    requires
        redemptions_accepted(deposit, vault, steps),
        deposit >= 0,
    ensures
        balance_after(redemption_ops(steps), vault, deposit) == deposit - redeemed_total(steps),
        deposit - redeemed_total(steps) >= 0,
    decreases steps.len(),
{
    if steps.len() > 0 {
        let prefix = steps.drop_last();
        let (ctx, amount, now) = steps.last();
        lemma_redemptions(deposit, vault, prefix);
        lemma_balance_after_append(redemption_ops(prefix), burn_ops(ctx, amount), vault, deposit);
        let ops = burn_ops(ctx, amount);
        lemma_balance_after_two(ops[0], ops[1], vault, deposit - redeemed_total(prefix));
        assert(ops =~= seq![ops[0], ops[1]]);
    } else {
        assert(balance_after(seq![], vault, deposit) == deposit);
    }
}

/// Collateral conservation. A new series escrows its collateral in a fresh
/// vault; after any run of accepted redemptions the vault holds exactly that
/// collateral less what the redemptions released, never less than zero, and
/// exactly one lot for each claim still outstanding; and a close-out pays out
/// exactly that remainder, leaving the vault empty.
pub proof fn lemma_collateral_conservation(
    issue: InitializeOption,
    args: InitializeOptionArgs,
    now: i64,
    steps: Seq<Redemption>,
    close: CloseOptionAccount,
    close_now: i64,
)
    requires
        initialize_option_error(issue, args, now) is None,
        issue.underlying_token_account.key != issue.vault,
        issue.user_option_token_account != issue.vault,
        redemptions_accepted(args.collateral_amount as int, issue.vault, steps),
        redemptions_of(issue.option_mint, lot_size(issue.underlying_mint.decimals), steps),
    ensures
        balance_after(issue_ops(issue, args) + redemption_ops(steps), issue.vault, 0)
            == args.collateral_amount - redeemed_total(steps),
        args.collateral_amount - redeemed_total(steps) >= 0,
        supply_after(issue_ops(issue, args) + redemption_ops(steps), issue.option_mint, 0)
            * lot_size(issue.underlying_mint.decimals) == args.collateral_amount - redeemed_total(steps),
        ({
            &&& close.vault.key == issue.vault
            &&& close.underlying_token_account.key != issue.vault
            &&& close.user_option_token_account.key != issue.vault
            &&& close.vault.amount == args.collateral_amount - redeemed_total(steps)
            &&& close_error(close, close_now) is None
        }) ==> balance_after(
            issue_ops(issue, args) + redemption_ops(steps) + close_ops(close),
            issue.vault,
            0,
        ) == 0,
{
    let issued = issue_ops(issue, args);
    lemma_balance_after_two(issued[0], issued[1], issue.vault, 0);
    assert(issued =~= seq![issued[0], issued[1]]);
    lemma_balance_after_append(issued, redemption_ops(steps), issue.vault, 0);
    lemma_redemptions(args.collateral_amount as int, issue.vault, steps);
    let before_close = issued + redemption_ops(steps);
    lemma_balance_after_append(before_close, close_ops(close), issue.vault, 0);
    let closing = close_ops(close);
    lemma_balance_after_four(closing[0], closing[1], closing[2], closing[3], issue.vault,
        args.collateral_amount - redeemed_total(steps));
    assert(closing =~= seq![closing[0], closing[1], closing[2], closing[3]]);
    let lot = lot_size(issue.underlying_mint.decimals);
    lemma_supply_after_two(issued[0], issued[1], issue.option_mint, 0);
    lemma_supply_after_append(issued, redemption_ops(steps), issue.option_mint, 0);
    lemma_redeemed_claims(minted_claims(issue, args) as int, issue.option_mint, lot, steps);
    lemma_whole_lots(issue, args, now);
    let minted = minted_claims(issue, args) as int;
    assert((minted - burned_total(steps)) * lot == minted * lot - burned_total(steps) * lot)
        by (nonlinear_arith);
}

proof fn lemma_whole_lots(issue: InitializeOption, args: InitializeOptionArgs, now: i64)
    requires
        initialize_option_error(issue, args, now) is None,
    ensures
        minted_claims(issue, args) * lot_size(issue.underlying_mint.decimals) == args.collateral_amount,
        minted_claims(issue, args) <= args.collateral_amount,
{
    let lot = lot_size(issue.underlying_mint.decimals);
    let c = args.collateral_amount as nat;
    assert(c % lot == 0);
    assert((c / lot) * lot == c) by {
        vstd::arithmetic::div_mod::lemma_fundamental_div_mod(c as int, lot as int);
    }
    assert(c / lot <= c) by {
        vstd::arithmetic::div_mod::lemma_div_is_ordered_by_denominator(c as int, 1, lot as int);
    }
}

/// Lot-size round trip. Collateral accepted for a new series is a whole
/// number of lots; redeeming every claim minted for it, at the same lot size,
/// releases exactly that collateral.
pub proof fn lemma_lot_round_trip(
    issue: InitializeOption,
    args: InitializeOptionArgs,
    now: i64,
    burn: BurnOption,
)
    requires
        initialize_option_error(issue, args, now) is None,
        burn.underlying_mint.decimals == issue.underlying_mint.decimals,
    ensures
        minted_claims(issue, args) * lot_size(issue.underlying_mint.decimals) == args.collateral_amount,
        redeemed_collateral(burn, minted_claims(issue, args) as u64) == args.collateral_amount,
{
    lemma_whole_lots(issue, args, now);
}

/// Settlement fix-once. Once a settlement price has been fixed, any later
/// attempt on the series within the window fails with
/// `SettlementPriceAlreadySet`, whatever the accounts and the oracle read by
/// then; the stored price is the first reading, and it is not zero.
pub proof fn lemma_settlement_fixed_once(ctx: SetSettlementPrice, now: i64, later: SetSettlementPrice, again: i64)
    requires
        settlement_error(ctx, now) is None,
        later.option_account == settled_account(ctx),
        later.option_account.expiry - later.state.settlement_price_threshold_seconds <= again,
        again <= later.option_account.expiry + later.state.settlement_price_threshold_seconds,
    ensures
        settled_account(ctx).settlement_price == normalized_price(ctx.oracle.price, ctx.oracle.expo),
        settled_account(ctx).settlement_price != 0,
        settlement_error(later, again) == Some(ErrorCode::SettlementPriceAlreadySet),
{
    lemma_normalized_fits(ctx.oracle.price, ctx.oracle.expo);
}

/// Window enforcement. With a settlement window of half-width `w` around
/// expiry `e`, fixing at `e - w - 1` fails as too early and at `e + w + 1` as
/// too late, whatever else holds; at `e` the window is no obstacle, and the
/// price is fixed unless the series, its accounts or the reading rule it out.
pub proof fn lemma_settlement_window(ctx: SetSettlementPrice)
    requires
        ctx.option_account.expiry + ctx.state.settlement_price_threshold_seconds < i64::MAX,
    ensures
        settlement_error(
            ctx,
            (ctx.option_account.expiry - ctx.state.settlement_price_threshold_seconds - 1) as i64,
        ) == Some(ErrorCode::BeforeSetSettlementPriceTime),
        settlement_error(
            ctx,
            (ctx.option_account.expiry + ctx.state.settlement_price_threshold_seconds + 1) as i64,
        ) == Some(ErrorCode::AfterSetSettlementPriceTime),
        settlement_error(ctx, ctx.option_account.expiry as i64) == fixing_error(ctx),
{
}

/// Divisibility enforcement. A series whose collateral is not a whole number
/// of lots is never created (and so nothing is minted or transferred).
pub proof fn lemma_divisibility_enforced(ctx: InitializeOption, args: InitializeOptionArgs, now: i64)
    requires
        decimals_supported(ctx.underlying_mint.decimals),
        lot_size(ctx.underlying_mint.decimals) > 0,
        (args.collateral_amount as nat) % lot_size(ctx.underlying_mint.decimals) != 0,
    ensures
        initialize_option_error(ctx, args, now) is Some,
{
}

/// Late redemption. Claims cannot be redeemed after expiry, whoever asks and
/// whatever the accounts hold.
pub proof fn lemma_late_burn_rejected(ctx: BurnOption, amount: u64, now: i64)
    requires
        now > ctx.option_account.expiry,
    ensures
        burn_error(ctx, amount, now) == Some(ErrorCode::CannotBurnOptionsAfterExpiry),
{
}

/// Creator-only close-out. Anyone but the series' creator is refused, at any
/// time and whatever the accounts hold.
pub proof fn lemma_close_is_creator_only(ctx: CloseOptionAccount, now: i64)
    requires
        ctx.creator != ctx.option_account.creator,
    ensures
        close_error(ctx, now) == Some(ErrorCode::OnlyCreatorCanCloseOptionAccount),
{
}

/// Effects of creating a series, over distinct accounts: the creator's
/// funding account pays the collateral into the fresh vault, and one claim per
/// lot is minted into the creator's claim account.
pub proof fn lemma_issue_effects(
    ctx: InitializeOption,
    args: InitializeOptionArgs,
    now: i64,
    funding: int,
    claims: int,
    supply: int,
)
    requires
        initialize_option_error(ctx, args, now) is None,
        ctx.underlying_token_account.key != ctx.vault,
        ctx.user_option_token_account != ctx.vault,
        ctx.user_option_token_account != ctx.underlying_token_account.key,
    ensures
        balance_after(issue_ops(ctx, args), ctx.vault, 0) == args.collateral_amount,
        balance_after(issue_ops(ctx, args), ctx.underlying_token_account.key, funding) == funding
            - args.collateral_amount,
        balance_after(issue_ops(ctx, args), ctx.user_option_token_account, claims) == claims
            + minted_claims(ctx, args),
        supply_after(issue_ops(ctx, args), ctx.option_mint, supply) == supply + minted_claims(ctx, args),
        minted_claims(ctx, args) * lot_size(ctx.underlying_mint.decimals) == args.collateral_amount,
{
    let ops = issue_ops(ctx, args);
    assert(ops =~= seq![ops[0], ops[1]]);
    lemma_whole_lots(ctx, args, now);
    lemma_balance_after_two(ops[0], ops[1], ctx.vault, 0);
    lemma_balance_after_two(ops[0], ops[1], ctx.underlying_token_account.key, funding);
    lemma_balance_after_two(ops[0], ops[1], ctx.user_option_token_account, claims);
    lemma_supply_after_two(ops[0], ops[1], ctx.option_mint, supply);
}

/// Effects of a redemption, over distinct accounts: the holder's claims and
/// the claim supply drop by `amount`, and `amount` lots move from the vault to
/// the holder's account of the underlying asset.
pub proof fn lemma_burn_effects(ctx: BurnOption, amount: u64, now: i64, supply: int)
    requires
        burn_error(ctx, amount, now) is None,
        ctx.vault.key != ctx.underlying_token_account.key,
        ctx.vault.key != ctx.user_option_token_account.key,
        ctx.underlying_token_account.key != ctx.user_option_token_account.key,
    ensures
        balance_after(burn_ops(ctx, amount), ctx.vault.key, ctx.vault.amount as int) == ctx.vault.amount
            - redeemed_collateral(ctx, amount) >= 0,
        balance_after(
            burn_ops(ctx, amount),
            ctx.underlying_token_account.key,
            ctx.underlying_token_account.amount as int,
        ) == ctx.underlying_token_account.amount + redeemed_collateral(ctx, amount),
        balance_after(
            burn_ops(ctx, amount),
            ctx.user_option_token_account.key,
            ctx.user_option_token_account.amount as int,
        ) == ctx.user_option_token_account.amount - amount >= 0,
        supply_after(burn_ops(ctx, amount), ctx.option_mint, supply) == supply - amount,
{
    let ops = burn_ops(ctx, amount);
    assert(ops =~= seq![ops[0], ops[1]]);
    lemma_balance_after_two(ops[0], ops[1], ctx.vault.key, ctx.vault.amount as int);
    lemma_balance_after_two(ops[0], ops[1], ctx.underlying_token_account.key, ctx.underlying_token_account.amount as int);
    lemma_balance_after_two(ops[0], ops[1], ctx.user_option_token_account.key, ctx.user_option_token_account.amount as int);
    lemma_supply_after_two(ops[0], ops[1], ctx.option_mint, supply);
}

} // verus!
