//! What holds of every rebalance.
use crate::asset::{retirement_allocation, split, supported_year, Parts, WHOLE_IN_NINTHS};
use crate::calc::plan::{
    account_plan, brokerage_holdings, brokerage_plan, divided, entrant, fill, filled_account,
    high_to_low_risk_order, low_to_high_risk_order, or_idle, retirement_plan, takes_part, trades,
    reported, with_cash, Funding, Pool, RetirementPlan,
};
use crate::error::RebalanceError;
use crate::fixed::{least, rounded_down};
use crate::holdings::account::AccountPlan;
use crate::holdings::share_values::{
    heaviest, lemma_heaviest_is_a_fund, lemma_passed_over, share_of, shares_by_formula,
    target_values,
};
use crate::holdings::symbol::Fund;
use crate::holdings::symbol::StockSymbol;
use crate::holdings::values::Values;
use vstd::prelude::*;

verus! {

/// Whether an order names tradable funds only, and none of them twice.
pub open spec fn distinct_funds(order: Seq<StockSymbol>) -> bool {
    &&& forall|i: int| 0 <= i < order.len() ==> (#[trigger] order[i]).is_tradable()
    &&& forall|i: int, j: int| 0 <= i < j < order.len() ==> order[i] != order[j]
}

/// Whether a vector holds nothing yet of the funds of an order.
pub open spec fn untouched(filled: Values, order: Seq<StockSymbol>) -> bool {
    forall|i: int| 0 <= i < order.len() ==> filled.get(#[trigger] order[i]) == 0
}

/// Filling moves value from the budget into the account and loses none: what
/// the account has got and what is left of the budget add up to what there was.
pub proof fn lemma_fill_keeps_value(
    shared: Values,
    order: Seq<StockSymbol>,
    budget: int,
    filled: Values,
)
    requires
        distinct_funds(order),
        untouched(filled, order),
    ensures
        fill(shared, order, budget, filled).0.total() + fill(shared, order, budget, filled).1
            == filled.total() + budget,
        fill(shared, order, budget, filled).0.outside_stock == filled.outside_stock,
        fill(shared, order, budget, filled).0.outside_bond == filled.outside_bond,
    decreases order.len(),
{
    if order.len() > 0 {
        let value = least(shared.get(order[0]), budget);
        let next = filled.set(order[0], value);
        assert(order[0].is_tradable());
        assert(filled.get(order[0]) == 0);
        assert(next.total() == filled.total() + value);
        if budget - value > 0 {
            let tail = order.drop_first();
            assert forall|i: int| 0 <= i < tail.len() implies (#[trigger] tail[i]).is_tradable()
                && next.get(tail[i]) == 0 by {
                assert(tail[i] == order[i + 1]);
                assert(order[i + 1].is_tradable());
                assert(order[0] != order[i + 1]);
                assert(filled.get(order[i + 1]) == 0);
            }
            assert forall|i: int, j: int| 0 <= i < j < tail.len() implies tail[i] != tail[j] by {
                assert(tail[i] == order[i + 1]);
                assert(tail[j] == order[j + 1]);
            }
            lemma_fill_keeps_value(shared, tail, budget - value, next);
        }
    }
}

/// Both risk orders name each of the nine funds once.
pub proof fn lemma_risk_orders_are_distinct()
    ensures
        distinct_funds(high_to_low_risk_order()),
        distinct_funds(low_to_high_risk_order()),
        low_to_high_risk_order() == high_to_low_risk_order().reverse(),
{
    let down = high_to_low_risk_order();
    let up = low_to_high_risk_order();
    assert(down.len() == 9 && up.len() == 9);
    assert(down[0] is VWO && down[1] is VXUS && down[2] is VB && down[3] is VO && down[4] is VV
        && down[5] is BNDX && down[6] is BND && down[7] is VTC && down[8] is VTIP);
    assert(up[8] is VWO && up[7] is VXUS && up[6] is VB && up[5] is VO && up[4] is VV
        && up[3] is BNDX && up[2] is BND && up[1] is VTC && up[0] is VTIP);
    assert(up =~= down.reverse());
}

/// An account that has been filled without an error has a target that adds up
/// to exactly what the account holds, and so lies within one percent of it.
pub proof fn lemma_filled_account_is_whole(
    shared: Values,
    order: Seq<StockSymbol>,
    account: Option<Values>,
    quotes: Values,
    leftover: RebalanceError,
    mismatch: RebalanceError,
)
    requires
        distinct_funds(order),
        filled_account(shared, order, account, quotes, leftover, mismatch) is Ok,
    ensures
        match filled_account(shared, order, account, quotes, leftover, mismatch) {
            Ok(Some(plan)) => account == Some(plan.current) && plan.target.total()
                == plan.current.total() && plan.target.outside_stock == 0
                && plan.target.outside_bond == 0 && plan.sale_purchases_needed == trades(
                plan.current,
                plan.target,
                quotes,
            ),
            Ok(None) => account is None,
            Err(_) => false,
        },
{
    if let Some(current) = account {
        lemma_fill_keeps_value(shared, order, current.total(), Values::zero());
    }
}

/// The division of a common target loses nothing.
///
/// Where it succeeds, every account that takes part has a plan, and the common
/// target is reported where a retirement account takes part. The target of the
/// Roth IRA and that of the brokerage account each add up to exactly what the
/// account holds. Where the traditional IRA takes part, the targets of the three
/// accounts add up to the common target, fund for fund and in total.
pub proof fn lemma_division_keeps_target(
    shared: Values,
    roth: Option<Values>,
    traditional: Option<Values>,
    brokerage: Option<Values>,
    quotes: Values,
)
    requires
        divided(shared, roth, traditional, brokerage, quotes) is Ok,
    ensures
        ({
            let plan = divided(shared, roth, traditional, brokerage, quotes)->Ok_0;
            &&& plan.target == reported(shared, roth is Some, traditional is Some)
            &&& plan.roth_ira is Some <==> roth is Some
            &&& plan.brokerage is Some <==> brokerage is Some
            &&& plan.traditional_ira is Some <==> traditional is Some
            &&& plan.roth_ira matches Some(account) ==> account.target.total()
                == account.current.total()
            &&& plan.brokerage matches Some(account) ==> account.target.total()
                == account.current.total()
            &&& plan.traditional_ira is Some ==> or_idle(plan.roth_ira).target.plus(
                or_idle(plan.brokerage).target,
            ).plus(or_idle(plan.traditional_ira).target) == shared
            &&& plan.traditional_ira is Some ==> or_idle(plan.roth_ira).target.total() + or_idle(
                plan.brokerage,
            ).target.total() + or_idle(plan.traditional_ira).target.total() == shared.total()
        }),
{
    lemma_risk_orders_are_distinct();
    lemma_filled_account_is_whole(
        shared,
        high_to_low_risk_order(),
        roth,
        quotes,
        RebalanceError::RothLeftover,
        RebalanceError::RothMismatch,
    );
    lemma_filled_account_is_whole(
        shared,
        low_to_high_risk_order(),
        brokerage,
        quotes,
        RebalanceError::BrokerageLeftover,
        RebalanceError::BrokerageMismatch,
    );
}

/// What the accounts of a plan are to hold together, counting nothing for an
/// account that takes no part.
pub open spec fn handed_out(plan: RetirementPlan) -> int {
    or_idle(plan.roth_ira).target.total() + or_idle(plan.brokerage).target.total() + or_idle(
        plan.traditional_ira,
    ).target.total()
}

/// What the accounts of a plan hold together, counting nothing for an account
/// that takes no part.
pub open spec fn held_together(plan: RetirementPlan) -> int {
    or_idle(plan.roth_ira).current.total() + or_idle(plan.brokerage).current.total() + or_idle(
        plan.traditional_ira,
    ).current.total()
}

/// Every rebalance of the retirement accounts that succeeds neither makes a
/// dollar nor loses one.
///
/// An account has a plan exactly where it takes part, and the common target is
/// reported exactly where the Roth IRA or the traditional IRA does. The target
/// of the Roth IRA and that of the brokerage account each add up to what the
/// account holds. What the accounts are to hold together is what they hold
/// together, and is what the common target adds up to, to the millionth.
pub proof fn lemma_retirement_plan_keeps_target(
    now: int,
    retirement_year: int,
    roth: Funding,
    traditional: Funding,
    use_brokerage_retirement: bool,
    brokerage: Funding,
    quotes: Values,
)
    requires
        retirement_plan(
            now,
            retirement_year,
            roth,
            traditional,
            use_brokerage_retirement,
            brokerage,
            quotes,
        ) is Ok,
    ensures
        ({
            let plan = retirement_plan(
                now,
                retirement_year,
                roth,
                traditional,
                use_brokerage_retirement,
                brokerage,
                quotes,
            )->Ok_0;
            &&& plan.roth_ira is Some <==> takes_part(roth.holdings)
            &&& plan.traditional_ira is Some <==> takes_part(traditional.holdings)
            &&& plan.brokerage is Some <==> use_brokerage_retirement && takes_part(
                brokerage.holdings,
            )
            &&& plan.target is Some <==> takes_part(roth.holdings) || takes_part(
                traditional.holdings,
            )
            &&& plan.roth_ira matches Some(account) ==> account.target.total()
                == account.current.total()
            &&& plan.brokerage matches Some(account) ==> account.target.total()
                == account.current.total()
            &&& handed_out(plan) == held_together(plan)
            &&& plan.target matches Some(shared) ==> handed_out(plan) == shared.total()
        }),
{
    let with_roth = takes_part(roth.holdings);
    let with_traditional = takes_part(traditional.holdings);
    let with_brokerage = use_brokerage_retirement && takes_part(brokerage.holdings);
    if with_roth || with_traditional || with_brokerage {
        let pool = Pool::empty().with(with_roth, roth).with(with_traditional, traditional).with(
            with_brokerage,
            brokerage,
        );
        let mix = retirement_allocation(retirement_year, now)->Ok_0;
        let shared = pool.target(split(mix));
        lemma_division_keeps_target(
            shared,
            entrant(with_roth, roth),
            entrant(with_traditional, traditional),
            entrant(with_brokerage, brokerage),
            quotes,
        );
        lemma_targets_add_up(
            split(mix),
            pool.value,
            pool.us_stock,
            pool.us_bond,
            pool.int_stock,
            pool.int_bond,
        );
        lemma_risk_orders_are_distinct();
        lemma_filled_account_is_whole(
            shared,
            high_to_low_risk_order(),
            entrant(with_roth, roth),
            quotes,
            RebalanceError::RothLeftover,
            RebalanceError::RothMismatch,
        );
        lemma_filled_account_is_whole(
            shared,
            low_to_high_risk_order(),
            entrant(with_brokerage, brokerage),
            quotes,
            RebalanceError::BrokerageLeftover,
            RebalanceError::BrokerageMismatch,
        );
    }
}

/// An account that holds its target has nothing to trade.
pub proof fn lemma_on_target_trades_nothing(current: Values, quotes: Values)
    requires
        quotes.no_zero(),
    ensures
        trades(current, current, quotes) == Values::zero(),
        account_plan(current, current, quotes) == Some(
            AccountPlan { current, target: current, sale_purchases_needed: Values::zero() },
        ),
{
    Values::lemma_zero_over(quotes);
    assert(current.minus(current) == Values::zero());
}

/// A brokerage account that is rebalanced on its own and already holds its
/// target has nothing to trade.
pub proof fn lemma_balanced_brokerage_trades_nothing(
    percent_stock: int,
    brokerage: Funding,
    quotes: Values,
)
    requires
        quotes.no_zero(),
        brokerage_plan(percent_stock, brokerage, quotes) matches Some(plan) && plan.current
            == plan.target,
    ensures
        brokerage_plan(percent_stock, brokerage, quotes)->0.sale_purchases_needed
            == Values::zero(),
{
    lemma_on_target_trades_nothing(brokerage_holdings(brokerage), quotes);
}

/// A part of a total, rounded up, is not less than the part.
proof fn lemma_share_covers(total: int, part: int)
    ensures
        WHOLE_IN_NINTHS * share_of(total, part) >= total * part,
{
    let x = total * part;
    let q = (-x) / 90_000;
    assert(-x == 90_000 * q + (-x) % 90_000 && 0 <= (-x) % 90_000 < 90_000) by (nonlinear_arith)
        requires
            q == (-x) / 90_000,
    ;
}

/// A part of a total, rounded up, exceeds the part by less than a millionth.
proof fn lemma_share_is_close(total: int, part: int)
    ensures
        WHOLE_IN_NINTHS * share_of(total, part) < total * part + WHOLE_IN_NINTHS,
{
    let x = total * part;
    let q = (-x) / 90_000;
    assert(-x == 90_000 * q + (-x) % 90_000 && 0 <= (-x) % 90_000 < 90_000) by (nonlinear_arith)
        requires
            q == (-x) / 90_000,
    ;
}

/// Rounding is small: what the formula gives the nine funds together is not
/// less than what the accounts hold, and exceeds it by twelve millionths at
/// most. Each part is rounded up, and what is taken off for the holdings outside
/// is rounded down.
pub proof fn lemma_rounding_is_small(
    parts: Parts,
    total_vanguard_value: int,
    other_us_stock_value: int,
    other_us_bond_value: int,
    other_int_stock_value: int,
    other_int_bond_value: int,
)
    requires
        parts.sum() == WHOLE_IN_NINTHS,
    ensures
        total_vanguard_value <= shares_by_formula(
            parts,
            total_vanguard_value,
            other_us_stock_value,
            other_us_bond_value,
            other_int_stock_value,
            other_int_bond_value,
        ).total() <= total_vanguard_value + 12,
{
    let total = total_vanguard_value + other_us_stock_value + other_us_bond_value
        + other_int_bond_value + other_int_stock_value;
    lemma_share_is_close(total, parts.us_stock_large);
    lemma_share_is_close(total, parts.us_stock_mid);
    lemma_share_is_close(total, parts.us_stock_small);
    lemma_share_is_close(total, parts.us_tot_bond);
    lemma_share_is_close(total, parts.us_corp_bond);
    lemma_share_is_close(total, parts.int_tot_stock);
    lemma_share_is_close(total, parts.int_emerging_stock);
    lemma_share_is_close(total, parts.int_bond);
    lemma_share_is_close(total, parts.inflation_protected);
    lemma_share_covers(total, parts.us_stock_large);
    lemma_share_covers(total, parts.us_stock_mid);
    lemma_share_covers(total, parts.us_stock_small);
    lemma_share_covers(total, parts.us_tot_bond);
    lemma_share_covers(total, parts.us_corp_bond);
    lemma_share_covers(total, parts.int_tot_stock);
    lemma_share_covers(total, parts.int_emerging_stock);
    lemma_share_covers(total, parts.int_bond);
    lemma_share_covers(total, parts.inflation_protected);
    let shares = share_of(total, parts.us_stock_large) + share_of(total, parts.us_stock_mid)
        + share_of(total, parts.us_stock_small) + share_of(total, parts.us_tot_bond) + share_of(
        total,
        parts.us_corp_bond,
    ) + share_of(total, parts.int_tot_stock) + share_of(total, parts.int_emerging_stock)
        + share_of(total, parts.int_bond) + share_of(total, parts.inflation_protected);
    assert(total * parts.us_stock_large + total * parts.us_stock_mid + total
        * parts.us_stock_small + total * parts.us_tot_bond + total * parts.us_corp_bond + total
        * parts.int_tot_stock + total * parts.int_emerging_stock + total * parts.int_bond + total
        * parts.inflation_protected == total * 90_000) by (nonlinear_arith)
        requires
            parts.us_stock_large + parts.us_stock_mid + parts.us_stock_small + parts.us_tot_bond
                + parts.us_corp_bond + parts.int_tot_stock + parts.int_emerging_stock
                + parts.int_bond + parts.inflation_protected == 90_000,
    ;
    assert(90_000 * shares < 90_000 * total + 9 * 90_000);
    assert(total <= shares < total + 9);
    assert(other_us_stock_value - 2 <= 3 * rounded_down(other_us_stock_value, 3)
        <= other_us_stock_value);
    assert(other_us_bond_value - 1 <= 2 * rounded_down(other_us_bond_value, 2)
        <= other_us_bond_value);
    assert(other_int_stock_value - 1 <= rounded_down(other_int_stock_value * 2, 3) + rounded_down(
        other_int_stock_value,
        3,
    ) <= other_int_stock_value);
}

/// The targets of the nine funds add up to exactly what the accounts hold,
/// whatever is rounded. No cash and no unsupported fund is aimed for, and what
/// is held outside the accounts is noted as it is.
pub proof fn lemma_targets_add_up(
    parts: Parts,
    total_vanguard_value: int,
    other_us_stock_value: int,
    other_us_bond_value: int,
    other_int_stock_value: int,
    other_int_bond_value: int,
)
    ensures
        ({
            let target = target_values(
                parts,
                total_vanguard_value,
                other_us_stock_value,
                other_us_bond_value,
                other_int_stock_value,
                other_int_bond_value,
            );
            &&& target.total() == total_vanguard_value
            &&& target.vmfxx == 0
            &&& target.other == 0
            &&& target.outside_stock == other_us_stock_value + other_int_stock_value
            &&& target.outside_bond == other_us_bond_value + other_int_bond_value
        }),
{
    let formula = shares_by_formula(
        parts,
        total_vanguard_value,
        other_us_stock_value,
        other_us_bond_value,
        other_int_stock_value,
        other_int_bond_value,
    );
    let fund = heaviest(parts);
    reveal(target_values);
    lemma_heaviest_is_a_fund(parts);
    lemma_passed_over(formula, fund, total_vanguard_value - (formula.total() - formula.at(fund)));
}

/// Every target is what the formula gives the fund, but for the fund with the
/// largest part, which makes up for rounding: its target falls short of what
/// the formula gives it by twelve millionths at most.
pub proof fn lemma_targets_follow_the_formula(
    parts: Parts,
    total_vanguard_value: int,
    other_us_stock_value: int,
    other_us_bond_value: int,
    other_int_stock_value: int,
    other_int_bond_value: int,
    fund: Fund,
)
    requires
        parts.sum() == WHOLE_IN_NINTHS,
    ensures
        ({
            let formula = shares_by_formula(
                parts,
                total_vanguard_value,
                other_us_stock_value,
                other_us_bond_value,
                other_int_stock_value,
                other_int_bond_value,
            );
            let target = target_values(
                parts,
                total_vanguard_value,
                other_us_stock_value,
                other_us_bond_value,
                other_int_stock_value,
                other_int_bond_value,
            );
            &&& fund != heaviest(parts) ==> target.at(fund) == formula.at(fund)
            &&& formula.at(fund) - 12 <= target.at(fund) <= formula.at(fund)
        }),
{
    let formula = shares_by_formula(
        parts,
        total_vanguard_value,
        other_us_stock_value,
        other_us_bond_value,
        other_int_stock_value,
        other_int_bond_value,
    );
    lemma_rounding_is_small(
        parts,
        total_vanguard_value,
        other_us_stock_value,
        other_us_bond_value,
        other_int_stock_value,
        other_int_bond_value,
    );
    reveal(target_values);
    lemma_heaviest_is_a_fund(parts);
}

/// What a common target holds of the funds of an order, together.
pub open spec fn claimed(shared: Values, order: Seq<StockSymbol>) -> int
    decreases order.len(),
{
    if order.len() == 0 {
        0
    } else {
        shared.get(order[0]) + claimed(shared, order.drop_first())
    }
}

/// A budget that is not more than what the common target holds of the funds to
/// come is used up: every part of it finds a fund.
pub proof fn lemma_filling_uses_the_budget_up(
    shared: Values,
    order: Seq<StockSymbol>,
    budget: int,
    filled: Values,
)
    requires
        0 <= budget <= claimed(shared, order),
    ensures
        fill(shared, order, budget, filled).1 == 0,
    decreases order.len(),
{
    if order.len() > 0 {
        let value = least(shared.get(order[0]), budget);
        if budget - value > 0 {
            lemma_filling_uses_the_budget_up(
                shared,
                order.drop_first(),
                budget - value,
                filled.set(order[0], value),
            );
        }
    }
}

/// Each risk order claims the nine funds: all of a target but its cash and its
/// unsupported funds.
pub proof fn lemma_risk_orders_claim_the_nine_funds(shared: Values)
    ensures
        claimed(shared, high_to_low_risk_order()) == shared.total() - shared.vmfxx - shared.other,
        claimed(shared, low_to_high_risk_order()) == shared.total() - shared.vmfxx - shared.other,
{
    lemma_claimed_of_nine(shared, high_to_low_risk_order());
    lemma_claimed_of_nine(shared, low_to_high_risk_order());
    let down = high_to_low_risk_order();
    let up = low_to_high_risk_order();
    assert(down[0] is VWO && down[1] is VXUS && down[2] is VB && down[3] is VO && down[4] is VV
        && down[5] is BNDX && down[6] is BND && down[7] is VTC && down[8] is VTIP);
    assert(up[8] is VWO && up[7] is VXUS && up[6] is VB && up[5] is VO && up[4] is VV
        && up[3] is BNDX && up[2] is BND && up[1] is VTC && up[0] is VTIP);
}

/// What is claimed by an order of nine funds is the sum of the nine.
proof fn lemma_claimed_of_nine(shared: Values, order: Seq<StockSymbol>)
    requires
        order.len() == 9,
    ensures
        claimed(shared, order) == shared.get(order[0]) + shared.get(order[1]) + shared.get(
            order[2],
        ) + shared.get(order[3]) + shared.get(order[4]) + shared.get(order[5]) + shared.get(
            order[6],
        ) + shared.get(order[7]) + shared.get(order[8]),
{
    let o1 = order.drop_first();
    let o2 = o1.drop_first();
    let o3 = o2.drop_first();
    let o4 = o3.drop_first();
    let o5 = o4.drop_first();
    let o6 = o5.drop_first();
    let o7 = o6.drop_first();
    let o8 = o7.drop_first();
    let o9 = o8.drop_first();
    assert(o9.len() == 0);
    assert(claimed(shared, o9) == 0);
    assert(claimed(shared, o8) == shared.get(o8[0]) + claimed(shared, o9));
    assert(claimed(shared, o7) == shared.get(o7[0]) + claimed(shared, o8));
    assert(claimed(shared, o6) == shared.get(o6[0]) + claimed(shared, o7));
    assert(claimed(shared, o5) == shared.get(o5[0]) + claimed(shared, o6));
    assert(claimed(shared, o4) == shared.get(o4[0]) + claimed(shared, o5));
    assert(claimed(shared, o3) == shared.get(o3[0]) + claimed(shared, o4));
    assert(claimed(shared, o2) == shared.get(o2[0]) + claimed(shared, o3));
    assert(claimed(shared, o1) == shared.get(o1[0]) + claimed(shared, o2));
    assert(claimed(shared, order) == shared.get(order[0]) + claimed(shared, o1));
}

/// An account in credit is filled without an error from a common target that
/// holds at least as much as the account, where the trades can be stored.
///
/// The account holds more than nothing, and the common target, which holds no
/// cash and no unsupported fund, holds at least as much. Then every part of what
/// the account holds finds a fund, and the target of the account matches what it
/// holds. All that can keep the account from a plan is an amount that cannot be
/// stored.
pub proof fn lemma_account_in_credit_is_filled(
    shared: Values,
    current: Values,
    quotes: Values,
    leftover: RebalanceError,
    mismatch: RebalanceError,
)
    requires
        0 < current.total() <= shared.total(),
        shared.vmfxx == 0,
        shared.other == 0,
    ensures
        filled_account(shared, high_to_low_risk_order(), Some(current), quotes, leftover, mismatch)
            is Ok || filled_account(
            shared,
            high_to_low_risk_order(),
            Some(current),
            quotes,
            leftover,
            mismatch,
        ) == Err::<Option<AccountPlan>, RebalanceError>(RebalanceError::OutOfRange),
        filled_account(shared, low_to_high_risk_order(), Some(current), quotes, leftover, mismatch)
            is Ok || filled_account(
            shared,
            low_to_high_risk_order(),
            Some(current),
            quotes,
            leftover,
            mismatch,
        ) == Err::<Option<AccountPlan>, RebalanceError>(RebalanceError::OutOfRange),
{
    lemma_risk_orders_are_distinct();
    lemma_risk_orders_claim_the_nine_funds(shared);
    lemma_filling_uses_the_budget_up(
        shared,
        high_to_low_risk_order(),
        current.total(),
        Values::zero(),
    );
    lemma_filling_uses_the_budget_up(
        shared,
        low_to_high_risk_order(),
        current.total(),
        Values::zero(),
    );
    lemma_fill_keeps_value(shared, high_to_low_risk_order(), current.total(), Values::zero());
    lemma_fill_keeps_value(shared, low_to_high_risk_order(), current.total(), Values::zero());
}

/// Whether an account does not take part, or is in credit once the added cash
/// is in.
pub open spec fn out_or_in_credit(joins: bool, account: Funding) -> bool {
    joins ==> with_cash(account.holdings, account.cash_add).total() > 0
}

/// A rebalance of the retirement accounts succeeds wherever the retirement year
/// is supported, every account that takes part is in credit, and every amount
/// can be stored.
///
/// No value is left without a fund and no target misses what its account holds:
/// the only error that remains is an amount that cannot be stored.
pub proof fn lemma_accounts_in_credit_are_rebalanced(
    now: int,
    retirement_year: int,
    roth: Funding,
    traditional: Funding,
    use_brokerage_retirement: bool,
    brokerage: Funding,
    quotes: Values,
)
    requires
        supported_year(retirement_year),
        out_or_in_credit(takes_part(roth.holdings), roth),
        out_or_in_credit(takes_part(traditional.holdings), traditional),
        out_or_in_credit(use_brokerage_retirement && takes_part(brokerage.holdings), brokerage),
    ensures
        retirement_plan(
            now,
            retirement_year,
            roth,
            traditional,
            use_brokerage_retirement,
            brokerage,
            quotes,
        ) is Ok || retirement_plan(
            now,
            retirement_year,
            roth,
            traditional,
            use_brokerage_retirement,
            brokerage,
            quotes,
        ) == Err::<RetirementPlan, RebalanceError>(RebalanceError::OutOfRange),
{
    let with_roth = takes_part(roth.holdings);
    let with_traditional = takes_part(traditional.holdings);
    let with_brokerage = use_brokerage_retirement && takes_part(brokerage.holdings);
    let pool = Pool::empty().with(with_roth, roth).with(with_traditional, traditional).with(
        with_brokerage,
        brokerage,
    );
    let mix = retirement_allocation(retirement_year, now)->Ok_0;
    let shared = pool.target(split(mix));
    lemma_targets_add_up(
        split(mix),
        pool.value,
        pool.us_stock,
        pool.us_bond,
        pool.int_stock,
        pool.int_bond,
    );
    if with_roth {
        lemma_account_in_credit_is_filled(
            shared,
            with_cash(roth.holdings, roth.cash_add),
            quotes,
            RebalanceError::RothLeftover,
            RebalanceError::RothMismatch,
        );
    }
    if with_brokerage {
        lemma_account_in_credit_is_filled(
            shared,
            with_cash(brokerage.holdings, brokerage.cash_add),
            quotes,
            RebalanceError::BrokerageLeftover,
            RebalanceError::BrokerageMismatch,
        );
    }
}

} // verus!
