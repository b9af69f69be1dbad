//! What a rebalance is to give, as a mathematical function of what goes into it.
use crate::asset::{retirement_allocation, split, Mix, Parts, WHOLE};
use crate::error::RebalanceError;
use crate::fixed::{fits, least};
use crate::holdings::account::{AccountPlan, RebalancePlan};
use crate::holdings::share_values::target_values;
use crate::holdings::symbol::StockSymbol;
use crate::holdings::values::Values;
use vstd::prelude::*;

verus! {

/// The nine funds from the riskiest to the safest.
pub open spec fn high_to_low_risk_order() -> Seq<StockSymbol> {
    seq![
        StockSymbol::VWO,
        StockSymbol::VXUS,
        StockSymbol::VB,
        StockSymbol::VO,
        StockSymbol::VV,
        StockSymbol::BNDX,
        StockSymbol::BND,
        StockSymbol::VTC,
        StockSymbol::VTIP,
    ]
}

/// The nine funds from the safest to the riskiest.
pub open spec fn low_to_high_risk_order() -> Seq<StockSymbol> {
    seq![
        StockSymbol::VTIP,
        StockSymbol::VTC,
        StockSymbol::BND,
        StockSymbol::BNDX,
        StockSymbol::VV,
        StockSymbol::VO,
        StockSymbol::VB,
        StockSymbol::VXUS,
        StockSymbol::VWO,
    ]
}

/// An account as it enters a rebalance: what it holds, the cash that is added to
/// it or taken out, and what is held outside it of four classes of assets.
pub struct Funding {
    pub holdings: Values,
    pub cash_add: int,
    pub us_stock_add: int,
    pub us_bond_add: int,
    pub int_stock_add: int,
    pub int_bond_add: int,
}

/// Whether an account takes part in a rebalance: it does when it holds anything.
pub open spec fn takes_part(holdings: Values) -> bool {
    holdings.total() != 0
}

/// The holdings of an account with the added cash.
pub open spec fn with_cash(holdings: Values, cash_add: int) -> Values {
    Values { vmfxx: holdings.vmfxx + cash_add, ..holdings }
}

/// Whether the cash of an account and its total can be stored once the added
/// cash is in.
pub open spec fn storable(holdings: Values, cash_add: int) -> bool {
    fits(holdings.vmfxx + cash_add) && fits(with_cash(holdings, cash_add).total())
}

/// What the accounts that are rebalanced together hold, and what is held outside
/// them.
pub struct Pool {
    pub value: int,
    pub us_stock: int,
    pub us_bond: int,
    pub int_stock: int,
    pub int_bond: int,
}

impl Pool {
    /// The pool of no account.
    pub open spec fn empty() -> Pool {
        Pool { value: 0, us_stock: 0, us_bond: 0, int_stock: 0, int_bond: 0 }
    }

    /// The pool with one more account, if that account takes part.
    pub open spec fn with(self, joins: bool, account: Funding) -> Pool {
        if joins {
            Pool {
                value: self.value + with_cash(account.holdings, account.cash_add).total(),
                us_stock: self.us_stock + account.us_stock_add,
                us_bond: self.us_bond + account.us_bond_add,
                int_stock: self.int_stock + account.int_stock_add,
                int_bond: self.int_bond + account.int_bond_add,
            }
        } else {
            self
        }
    }

    /// Whether the five sums can be stored.
    pub open spec fn fits(self) -> bool {
        &&& fits(self.value)
        &&& fits(self.us_stock)
        &&& fits(self.us_bond)
        &&& fits(self.int_stock)
        &&& fits(self.int_bond)
    }

    /// The common target of the pool for the given fund percentages.
    pub open spec fn target(self, parts: Parts) -> Values {
        target_values(
            parts,
            self.value,
            self.us_stock,
            self.us_bond,
            self.int_stock,
            self.int_bond,
        )
    }
}

/// Fills an account from a common target, fund by fund in the given order.
///
/// Each fund in turn is given its whole common target, or what is left of the
/// budget if that is less; this comes off the budget. The filling ends after the
/// fund that uses the budget up, or after the last fund. The result is the
/// target of the account and the part of the budget that found no fund.
pub open spec fn fill(shared: Values, order: Seq<StockSymbol>, budget: int, filled: Values) -> (
    Values,
    int,
)
    decreases order.len(),
{
    if order.len() == 0 {
        (filled, budget)
    } else {
        let value = least(shared.get(order[0]), budget);
        let next = filled.set(order[0], value);
        if budget - value <= 0 {
            (next, budget - value)
        } else {
            fill(shared, order.drop_first(), budget - value, next)
        }
    }
}

/// Whether a target is within one percent of what the account holds, both ends
/// excluded.
pub open spec fn within_one_percent(target: int, held: int) -> bool {
    100 * target > 99 * held && 100 * target < 101 * held
}

/// The shares to trade of each fund: the difference between the target and the
/// holdings, over the prices.
pub open spec fn trades(current: Values, target: Values, quotes: Values) -> Values {
    target.minus(current).over(quotes)
}

/// The plan of an account from its holdings and its target, where the
/// differences and the trades can be stored.
pub open spec fn account_plan(current: Values, target: Values, quotes: Values) -> Option<
    AccountPlan,
> {
    if target.minus(current).fits() && trades(current, target, quotes).fits() {
        Some(AccountPlan { current, target, sale_purchases_needed: trades(current, target, quotes) })
    } else {
        None
    }
}

/// The plan of an account that is filled from the common target in the given
/// order, if the account takes part.
///
/// It is an error if part of what the account holds finds no fund, and if the
/// target of the account is not within one percent of what the account holds.
pub open spec fn filled_account(
    shared: Values,
    order: Seq<StockSymbol>,
    account: Option<Values>,
    quotes: Values,
    leftover: RebalanceError,
    mismatch: RebalanceError,
) -> Result<Option<AccountPlan>, RebalanceError> {
    match account {
        None => Ok(None),
        Some(current) => {
            let (target, rest) = fill(shared, order, current.total(), Values::zero());
            if rest != 0 {
                Err(leftover)
            } else if !within_one_percent(target.total(), current.total()) {
                Err(mismatch)
            } else {
                match account_plan(current, target, quotes) {
                    Some(plan) => Ok(Some(plan)),
                    None => Err(RebalanceError::OutOfRange),
                }
            }
        },
    }
}

/// What remains of a target once an account has taken its part.
pub open spec fn remainder(target: Values, account: Option<AccountPlan>) -> Values {
    match account {
        Some(plan) => target.minus(plan.target),
        None => target,
    }
}

/// What a rebalance of the retirement accounts gives: a plan for each account
/// that takes part, and the common target if a retirement account does.
pub struct RetirementPlan {
    pub traditional_ira: Option<AccountPlan>,
    pub roth_ira: Option<AccountPlan>,
    pub brokerage: Option<AccountPlan>,
    pub target: Option<Values>,
}

/// The common target as a rebalance reports it: it is reported where a
/// retirement account takes part, the Roth IRA or the traditional IRA. A
/// brokerage account that is managed like the retirement accounts, but without
/// any of them, has its plan and no common target beside it.
pub open spec fn reported(shared: Values, with_roth: bool, with_traditional: bool) -> Option<
    Values,
> {
    if with_roth || with_traditional {
        Some(shared)
    } else {
        None
    }
}

/// The plans of all accounts once the Roth IRA and the brokerage account have
/// been filled: the traditional IRA, if it takes part, gets what the two have
/// left of the common target.
pub open spec fn shared_out(
    shared: Values,
    rest: Values,
    roth_ira: Option<AccountPlan>,
    brokerage: Option<AccountPlan>,
    traditional: Option<Values>,
    quotes: Values,
) -> Result<RetirementPlan, RebalanceError> {
    match traditional {
        None => Ok(
            RetirementPlan {
                traditional_ira: None,
                roth_ira,
                brokerage,
                target: reported(shared, roth_ira is Some, false),
            },
        ),
        Some(current) => match account_plan(current, rest, quotes) {
            None => Err(RebalanceError::OutOfRange),
            Some(plan) => Ok(
                RetirementPlan {
                    traditional_ira: Some(plan),
                    roth_ira,
                    brokerage,
                    target: reported(shared, roth_ira is Some, true),
                },
            ),
        },
    }
}

/// The plans of all accounts once the Roth IRA has been filled: the brokerage
/// account is filled from the safest fund up, from the whole common target.
pub open spec fn divided_after_roth(
    shared: Values,
    roth_ira: Option<AccountPlan>,
    traditional: Option<Values>,
    brokerage: Option<Values>,
    quotes: Values,
) -> Result<RetirementPlan, RebalanceError> {
    if !remainder(shared, roth_ira).fits() {
        Err(RebalanceError::OutOfRange)
    } else {
        match filled_account(
            shared,
            low_to_high_risk_order(),
            brokerage,
            quotes,
            RebalanceError::BrokerageLeftover,
            RebalanceError::BrokerageMismatch,
        ) {
            Err(error) => Err(error),
            Ok(brokerage_account) => if !remainder(
                remainder(shared, roth_ira),
                brokerage_account,
            ).fits() {
                Err(RebalanceError::OutOfRange)
            } else {
                shared_out(
                    shared,
                    remainder(remainder(shared, roth_ira), brokerage_account),
                    roth_ira,
                    brokerage_account,
                    traditional,
                    quotes,
                )
            },
        }
    }
}

/// Divides a common target among the accounts that take part.
///
/// The Roth IRA is filled from the riskiest fund down, the brokerage account
/// from the safest fund up, both from the whole common target. The traditional
/// IRA gets what the two leave of each fund.
pub open spec fn divided(
    shared: Values,
    roth: Option<Values>,
    traditional: Option<Values>,
    brokerage: Option<Values>,
    quotes: Values,
) -> Result<RetirementPlan, RebalanceError> {
    match filled_account(
        shared,
        high_to_low_risk_order(),
        roth,
        quotes,
        RebalanceError::RothLeftover,
        RebalanceError::RothMismatch,
    ) {
        Err(error) => Err(error),
        Ok(roth_ira) => divided_after_roth(shared, roth_ira, traditional, brokerage, quotes),
    }
}

/// The holdings with which an account enters the division, if it takes part.
pub open spec fn entrant(joins: bool, account: Funding) -> Option<Values> {
    if joins {
        Some(with_cash(account.holdings, account.cash_add))
    } else {
        None
    }
}

/// The rebalance of the retirement accounts in the year `now`, for someone who
/// retires in `retirement_year`.
///
/// An account takes part if it holds anything; the brokerage account only if it
/// is also managed with the retirement accounts. The added cash is put into each
/// account that takes part; what they then hold, together with what is held
/// outside them, is allocated along the glide path, and the common target is
/// divided among them. With no account taking part there is nothing to plan.
pub open spec fn retirement_plan(
    now: int,
    retirement_year: int,
    roth: Funding,
    traditional: Funding,
    use_brokerage_retirement: bool,
    brokerage: Funding,
    quotes: Values,
) -> Result<RetirementPlan, RebalanceError> {
    let with_roth = takes_part(roth.holdings);
    let with_traditional = takes_part(traditional.holdings);
    let with_brokerage = use_brokerage_retirement && takes_part(brokerage.holdings);
    let pool = Pool::empty().with(with_roth, roth).with(with_traditional, traditional).with(
        with_brokerage,
        brokerage,
    );
    match retirement_allocation(retirement_year, now) {
        Err(error) => Err(error),
        Ok(mix) => if (with_roth && !storable(roth.holdings, roth.cash_add)) || (with_traditional
            && !storable(traditional.holdings, traditional.cash_add)) || (with_brokerage
            && !storable(brokerage.holdings, brokerage.cash_add)) {
            Err(RebalanceError::OutOfRange)
        } else if !(with_roth || with_traditional || with_brokerage) {
            Ok(RetirementPlan { traditional_ira: None, roth_ira: None, brokerage: None, target: None })
        } else if !pool.fits() || !pool.target(split(mix)).fits() {
            Err(RebalanceError::OutOfRange)
        } else {
            divided(
                pool.target(split(mix)),
                entrant(with_roth, roth),
                entrant(with_traditional, traditional),
                entrant(with_brokerage, brokerage),
                quotes,
            )
        },
    }
}

/// The brokerage account as it enters a rebalance on its own: with the added
/// cash, and with what is held outside it noted as outside stocks and bonds.
pub open spec fn brokerage_holdings(brokerage: Funding) -> Values {
    Values {
        vmfxx: brokerage.holdings.vmfxx + brokerage.cash_add,
        outside_stock: brokerage.us_stock_add + brokerage.int_stock_add,
        outside_bond: brokerage.us_bond_add + brokerage.int_bond_add,
        ..brokerage.holdings
    }
}

/// The target of the brokerage account on its own: `percent_stock` of stocks, in
/// basis points, the rest bonds.
pub open spec fn brokerage_target(percent_stock: int, brokerage: Funding) -> Values {
    target_values(
        split(Mix { stock: percent_stock, bond: WHOLE - percent_stock, inflation_protected: 0 }),
        brokerage_holdings(brokerage).total(),
        brokerage.us_stock_add,
        brokerage.us_bond_add,
        brokerage.int_stock_add,
        brokerage.int_bond_add,
    )
}

/// The rebalance of the brokerage account on its own, where every amount of it
/// can be stored.
pub open spec fn brokerage_plan(percent_stock: int, brokerage: Funding, quotes: Values) -> Option<
    AccountPlan,
> {
    if i32::MIN <= WHOLE - percent_stock <= i32::MAX && brokerage_holdings(brokerage).fits()
        && fits(brokerage_holdings(brokerage).total()) && brokerage_target(
        percent_stock,
        brokerage,
    ).fits() {
        account_plan(
            brokerage_holdings(brokerage),
            brokerage_target(percent_stock, brokerage),
            quotes,
        )
    } else {
        None
    }
}

/// The plan of an account, or the plan of an account that takes no part.
pub open spec fn or_idle(account: Option<AccountPlan>) -> AccountPlan {
    match account {
        Some(plan) => plan,
        None => AccountPlan::idle(),
    }
}

/// The rebalance of all accounts in the year `now`.
///
/// The retirement accounts are rebalanced first. The brokerage account has the
/// plan it got with them, if it was managed with them and took part. Else, if it
/// holds anything, it is rebalanced on its own toward `percent_stock`. An account
/// that holds nothing has a plan of zeros.
pub open spec fn rebalance_plan(
    now: int,
    percent_stock: int,
    retirement_year: int,
    roth: Funding,
    traditional: Funding,
    use_brokerage_retirement: bool,
    brokerage: Funding,
    quotes: Values,
) -> Result<RebalancePlan, RebalanceError> {
    match retirement_plan(
        now,
        retirement_year,
        roth,
        traditional,
        use_brokerage_retirement,
        brokerage,
        quotes,
    ) {
        Err(error) => Err(error),
        Ok(retirement) => {
            let own = if retirement.brokerage is None && takes_part(brokerage.holdings) {
                brokerage_plan(percent_stock, brokerage, quotes)
            } else {
                Some(or_idle(retirement.brokerage))
            };
            match own {
                None => Err(RebalanceError::OutOfRange),
                Some(brokerage_account) => Ok(
                    RebalancePlan {
                        brokerage: brokerage_account,
                        traditional_ira: or_idle(retirement.traditional_ira),
                        roth_ira: or_idle(retirement.roth_ira),
                        retirement_target: retirement.target,
                    },
                ),
            }
        },
    }
}

} // verus!
