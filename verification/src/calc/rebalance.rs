//! The rebalance as it is computed.
use crate::asset::{supported_year, Allocations, SubAllocations, WHOLE};
use crate::calc::plan::{
    account_plan, brokerage_plan, divided, divided_after_roth, fill, filled_account,
    high_to_low_risk_order, low_to_high_risk_order, rebalance_plan, remainder, retirement_plan,
    shared_out, storable, takes_part, with_cash, Funding, Pool, RetirementPlan,
};
use crate::calc::laws::lemma_retirement_plan_keeps_target;
use crate::calendar::this_year;
use crate::error::RebalanceError;
use crate::fixed::{checked_sum, narrow};
use crate::holdings::account::{
    AccountHoldings, AccountPlan, HoldingType, RebalancePlan, VanguardRebalance,
};
use crate::holdings::share_values::ShareValues;
use crate::holdings::symbol::StockSymbol;
use crate::holdings::values::Values;
use vstd::prelude::*;

verus! {

/// The nine funds from the riskiest to the safest.
pub fn high_to_low_risk() -> (r: [StockSymbol; 9])
    ensures
        r@ == high_to_low_risk_order(),
{
    [
        StockSymbol::VWO,
        StockSymbol::VXUS,
        StockSymbol::VB,
        StockSymbol::VO,
        StockSymbol::VV,
        StockSymbol::BNDX,
        StockSymbol::BND,
        StockSymbol::VTC,
        StockSymbol::VTIP,
    ]
}

/// The nine funds from the safest to the riskiest.
pub fn low_to_high_risk() -> (r: [StockSymbol; 9])
    ensures
        r@ == low_to_high_risk_order(),
{
    [
        StockSymbol::VTIP,
        StockSymbol::VTC,
        StockSymbol::BND,
        StockSymbol::BNDX,
        StockSymbol::VV,
        StockSymbol::VO,
        StockSymbol::VB,
        StockSymbol::VXUS,
        StockSymbol::VWO,
    ]
}

/// Whether an account as it was computed is the given plan, or no account where
/// there is no plan.
pub open spec fn is_account(r: Option<AccountHoldings>, plan: Option<AccountPlan>) -> bool {
    match plan {
        Some(p) => r matches Some(account) && account@ == p,
        None => r is None,
    }
}

/// Whether a vector as it was computed holds the given values, or no vector
/// where there are none.
pub open spec fn is_values(r: Option<ShareValues>, values: Option<Values>) -> bool {
    match values {
        Some(v) => r matches Some(vector) && vector@ == v,
        None => r is None,
    }
}

/// The plan of an account from its holdings and its target: the shares to trade
/// are the difference over the prices. `None` where an amount cannot be stored.
pub fn settle(current: ShareValues, target: ShareValues, quotes: ShareValues) -> (r: Option<
    AccountHoldings,
>)
    requires
        quotes@.no_zero(),
    ensures
        is_account(r, account_plan(current@, target@, quotes@)),
{
    let difference = target.sub(current)?;
    let purchase = difference.div(quotes)?;
    Some(AccountHoldings::new(current, target, purchase))
}

/// Fills an account with the budget `budget` from the common target, fund by
/// fund in the given order. Returns the target of the account and the part of
/// the budget that found no fund.
pub fn fill_account(shared: ShareValues, order: &[StockSymbol; 9], budget: i64) -> (r: (
    ShareValues,
    i128,
))
    requires
        forall|i: int| 0 <= i < 9 ==> !(#[trigger] order@[i] is Empty),
    ensures
        (r.0@, r.1 as int) == fill(shared@, order@, budget as int, Values::zero()),
{
    let mut filled = ShareValues::new();
    let mut rest: i128 = budget as i128;
    let mut done = false;
    let mut i: usize = 0;
    assert(order@.subrange(0, 9) =~= order@);
    while i < 9 && !done
        invariant
            0 <= i <= 9,
            forall|k: int| 0 <= k < 9 ==> !(#[trigger] order@[k] is Empty),
            i64::MIN <= rest <= (i + 1) * 0x8000_0000_0000_0000,
            done ==> fill(shared@, order@, budget as int, Values::zero()) == (filled@, rest as int),
            !done ==> fill(shared@, order@, budget as int, Values::zero()) == fill(
                shared@,
                order@.subrange(i as int, 9),
                rest as int,
                filled@,
            ),
        decreases 9 - i,
    {
        let ghost before = filled@;
        let ghost budget_before = rest as int;
        let symbol = order[i].duplicate();
        let wanted: i64 = shared.stock_value(order[i].duplicate());
        let value: i64 = if wanted as i128 <= rest {
            wanted
        } else {
            rest as i64
        };
        rest = rest - value as i128;
        filled.add_stock_value(symbol, value);
        proof {
            let tail = order@.subrange(i as int, 9);
            assert(tail.len() > 0);
            assert(tail[0] == order@[i as int]);
            assert(tail.drop_first() =~= order@.subrange(i as int + 1, 9));
        }
        i = i + 1;
        if rest <= 0 {
            done = true;
        }
    }
    proof {
        if !done {
            assert(order@.subrange(9, 9).len() == 0);
        }
    }
    (filled, rest)
}

/// The account with the given holdings and additions, as a rebalance sees it.
pub open spec fn funding(
    holdings: ShareValues,
    cash_add: i64,
    us_stock_add: i64,
    us_bond_add: i64,
    int_stock_add: i64,
    int_bond_add: i64,
) -> Funding {
    Funding {
        holdings: holdings@,
        cash_add: cash_add as int,
        us_stock_add: us_stock_add as int,
        us_bond_add: us_bond_add as int,
        int_stock_add: int_stock_add as int,
        int_bond_add: int_bond_add as int,
    }
}

/// The holdings of an account with the added cash, and their total, if the
/// account takes part.
fn enter(holdings: ShareValues, cash_add: i64) -> (r: Result<
    Option<(ShareValues, i64)>,
    RebalanceError,
>)
    ensures
        match r {
            Ok(None) => !takes_part(holdings@),
            Ok(Some((funded, total))) => takes_part(holdings@) && storable(
                holdings@,
                cash_add as int,
            ) && funded@ == with_cash(holdings@, cash_add as int) && total == funded@.total(),
            Err(error) => error == RebalanceError::OutOfRange && takes_part(holdings@)
                && !storable(holdings@, cash_add as int),
        },
{
    if holdings.total_value() == 0 {
        return Ok(None);
    }
    let mut funded = holdings;
    let cash: i64 = match checked_sum(holdings.stock_value(StockSymbol::VMFXX), cash_add) {
        Some(cash) => cash,
        None => {
            return Err(RebalanceError::OutOfRange);
        },
    };
    funded.add_stock_value(StockSymbol::VMFXX, cash);
    match narrow(funded.total_value()) {
        Some(total) => Ok(Some((funded, total))),
        None => Err(RebalanceError::OutOfRange),
    }
}

/// The holdings of an account that enters the division.
pub open spec fn holdings_of(account: Option<(ShareValues, i64)>) -> Option<Values> {
    match account {
        Some((current, _)) => Some(current@),
        None => None,
    }
}

/// Fills an account from the common target and settles its trades, if the
/// account takes part.
fn fill_and_settle(
    shared: ShareValues,
    order: &[StockSymbol; 9],
    account: Option<(ShareValues, i64)>,
    quotes: ShareValues,
    leftover: RebalanceError,
    mismatch: RebalanceError,
) -> (r: Result<Option<AccountHoldings>, RebalanceError>)
    requires
        quotes@.no_zero(),
        forall|i: int| 0 <= i < 9 ==> !(#[trigger] order@[i] is Empty),
        account matches Some((current, total)) ==> total == current@.total(),
    ensures
        match filled_account(shared@, order@, holdings_of(account), quotes@, leftover, mismatch) {
            Ok(plan) => r matches Ok(filled) && is_account(filled, plan),
            Err(error) => r == Err::<Option<AccountHoldings>, RebalanceError>(error),
        },
{
    match account {
        None => Ok(None),
        Some((current, total)) => {
            let (target, rest) = fill_account(shared, order, total);
            if rest != 0 {
                return Err(leftover);
            }
            let aimed: i128 = target.total_value();
            let held: i128 = total as i128;
            if !(100 * aimed > 99 * held && 100 * aimed < 101 * held) {
                return Err(mismatch);
            }
            match settle(current, target, quotes) {
                Some(filled) => Ok(Some(filled)),
                None => Err(RebalanceError::OutOfRange),
            }
        },
    }
}

/// What is left of a target once an account has taken its part. `None` where an
/// amount of it cannot be stored.
fn leave(target: ShareValues, account: Option<AccountHoldings>) -> (r: Option<ShareValues>)
    ensures
        r is Some <==> remainder(target@, plan_of(account)).fits(),
        r matches Some(rest) ==> rest@ == remainder(target@, plan_of(account)),
{
    match account {
        Some(filled) => target.sub(filled.target),
        None => {
            proof {
                target.lemma_view(target);
            }
            Some(target)
        },
    }
}

/// Whether what was computed for the retirement accounts is the given outcome:
/// the same plans in the order traditional IRA, Roth IRA, brokerage account and
/// common target, or the same error.
pub open spec fn is_retirement(
    r: Result<
        (
            Option<AccountHoldings>,
            Option<AccountHoldings>,
            Option<AccountHoldings>,
            Option<ShareValues>,
        ),
        RebalanceError,
    >,
    outcome: Result<RetirementPlan, RebalanceError>,
) -> bool {
    match outcome {
        Ok(plan) => r matches Ok(accounts) && is_account(accounts.0, plan.traditional_ira)
            && is_account(accounts.1, plan.roth_ira) && is_account(accounts.2, plan.brokerage)
            && is_values(accounts.3, plan.target),
        Err(error) => r matches Err(e) && e == error,
    }
}

/// The account as a plan, if there is one.
pub open spec fn plan_of(account: Option<AccountHoldings>) -> Option<AccountPlan> {
    match account {
        Some(filled) => Some(filled@),
        None => None,
    }
}

/// Gives the traditional IRA, if it takes part, what the Roth IRA and the
/// brokerage account have left of the common target.
fn share_out(
    shared: ShareValues,
    rest: ShareValues,
    roth_account: Option<AccountHoldings>,
    brokerage_account: Option<AccountHoldings>,
    traditional: Option<(ShareValues, i64)>,
    stock_quotes: ShareValues,
) -> (r: Result<
    (Option<AccountHoldings>, Option<AccountHoldings>, Option<AccountHoldings>, Option<ShareValues>),
    RebalanceError,
>)
    requires
        stock_quotes@.no_zero(),
    ensures
        is_retirement(
            r,
            shared_out(
                shared@,
                rest@,
                plan_of(roth_account),
                plan_of(brokerage_account),
                holdings_of(traditional),
                stock_quotes@,
            ),
        ),
{
    let traditional_account = match traditional {
        Some((current, _)) => match settle(current, rest, stock_quotes) {
            Some(account) => Some(account),
            None => {
                return Err(RebalanceError::OutOfRange);
            },
        },
        None => None,
    };
    let target = if roth_account.is_some() || traditional_account.is_some() {
        Some(shared)
    } else {
        None
    };
    Ok((traditional_account, roth_account, brokerage_account, target))
}

/// Fills the brokerage account from the safest fund up, once the Roth IRA has
/// been filled, and gives the traditional IRA what the two leave.
fn divide_after_roth(
    shared: ShareValues,
    roth_account: Option<AccountHoldings>,
    traditional: Option<(ShareValues, i64)>,
    brokerage: Option<(ShareValues, i64)>,
    stock_quotes: ShareValues,
) -> (r: Result<
    (Option<AccountHoldings>, Option<AccountHoldings>, Option<AccountHoldings>, Option<ShareValues>),
    RebalanceError,
>)
    requires
        stock_quotes@.no_zero(),
        brokerage matches Some((current, total)) ==> total == current@.total(),
    ensures
        is_retirement(
            r,
            divided_after_roth(
                shared@,
                plan_of(roth_account),
                holdings_of(traditional),
                holdings_of(brokerage),
                stock_quotes@,
            ),
        ),
{
    let after_roth = match leave(shared, roth_account) {
        Some(rest) => rest,
        None => {
            return Err(RebalanceError::OutOfRange);
        },
    };
    let low_risk_first = low_to_high_risk();
    let brokerage_account = fill_and_settle(
        shared,
        &low_risk_first,
        brokerage,
        stock_quotes,
        RebalanceError::BrokerageLeftover,
        RebalanceError::BrokerageMismatch,
    )?;
    let rest = match leave(after_roth, brokerage_account) {
        Some(rest) => rest,
        None => {
            return Err(RebalanceError::OutOfRange);
        },
    };
    share_out(shared, rest, roth_account, brokerage_account, traditional, stock_quotes)
}

/// Divides a common target among the accounts that take part: the Roth IRA is
/// filled from the riskiest fund down, the brokerage account from the safest
/// fund up, and the traditional IRA gets what the two leave of each fund.
fn divide(
    shared: ShareValues,
    roth: Option<(ShareValues, i64)>,
    traditional: Option<(ShareValues, i64)>,
    brokerage: Option<(ShareValues, i64)>,
    stock_quotes: ShareValues,
) -> (r: Result<
    (Option<AccountHoldings>, Option<AccountHoldings>, Option<AccountHoldings>, Option<ShareValues>),
    RebalanceError,
>)
    requires
        stock_quotes@.no_zero(),
        roth matches Some((current, total)) ==> total == current@.total(),
        brokerage matches Some((current, total)) ==> total == current@.total(),
    ensures
        is_retirement(
            r,
            divided(
                shared@,
                holdings_of(roth),
                holdings_of(traditional),
                holdings_of(brokerage),
                stock_quotes@,
            ),
        ),
{
    let high_risk_first = high_to_low_risk();
    let roth_account = fill_and_settle(
        shared,
        &high_risk_first,
        roth,
        stock_quotes,
        RebalanceError::RothLeftover,
        RebalanceError::RothMismatch,
    )?;
    divide_after_roth(shared, roth_account, traditional, brokerage, stock_quotes)
}

/// Rebalances the retirement accounts together in the year `now`: the Roth IRA,
/// the traditional IRA, and the brokerage account where it is managed with
/// them. Returns the plans of the traditional IRA, of the Roth IRA and of the
/// brokerage account, each for an account that takes part, and the common
/// target where a retirement account takes part.
pub fn retirement_calc(
    now: i32,
    retirement_year: i32,
    roth_holdings: ShareValues,
    roth_us_stock_add: i64,
    roth_us_bond_add: i64,
    roth_int_stock_add: i64,
    roth_int_bond_add: i64,
    roth_cash_add: i64,
    traditional_holdings: ShareValues,
    traditional_us_stock_add: i64,
    traditional_us_bond_add: i64,
    traditional_int_stock_add: i64,
    traditional_int_bond_add: i64,
    traditional_cash_add: i64,
    use_brokerage_retirement: bool,
    brokerage_holdings: ShareValues,
    brokerage_us_stock_add: i64,
    brokerage_us_bond_add: i64,
    brokerage_int_stock_add: i64,
    brokerage_int_bond_add: i64,
    brokerage_cash_add: i64,
    stock_quotes: ShareValues,
) -> (r: Result<
    (Option<AccountHoldings>, Option<AccountHoldings>, Option<AccountHoldings>, Option<ShareValues>),
    RebalanceError,
>)
    requires
        stock_quotes@.no_zero(),
    ensures
        is_retirement(
            r,
            retirement_plan(
                now as int,
                retirement_year as int,
                funding(
                    roth_holdings,
                    roth_cash_add,
                    roth_us_stock_add,
                    roth_us_bond_add,
                    roth_int_stock_add,
                    roth_int_bond_add,
                ),
                funding(
                    traditional_holdings,
                    traditional_cash_add,
                    traditional_us_stock_add,
                    traditional_us_bond_add,
                    traditional_int_stock_add,
                    traditional_int_bond_add,
                ),
                use_brokerage_retirement,
                funding(
                    brokerage_holdings,
                    brokerage_cash_add,
                    brokerage_us_stock_add,
                    brokerage_us_bond_add,
                    brokerage_int_stock_add,
                    brokerage_int_bond_add,
                ),
                stock_quotes@,
            ),
        ),
        r matches Ok(accounts) ==> {
            &&& accounts.0 is Some <==> takes_part(traditional_holdings@)
            &&& accounts.1 is Some <==> takes_part(roth_holdings@)
            &&& accounts.2 is Some <==> use_brokerage_retirement && takes_part(
                brokerage_holdings@,
            )
            &&& accounts.3 is Some <==> takes_part(roth_holdings@) || takes_part(
                traditional_holdings@,
            )
        },
{
    proof {
        let roth_funding = funding(
            roth_holdings,
            roth_cash_add,
            roth_us_stock_add,
            roth_us_bond_add,
            roth_int_stock_add,
            roth_int_bond_add,
        );
        let traditional_funding = funding(
            traditional_holdings,
            traditional_cash_add,
            traditional_us_stock_add,
            traditional_us_bond_add,
            traditional_int_stock_add,
            traditional_int_bond_add,
        );
        let brokerage_funding = funding(
            brokerage_holdings,
            brokerage_cash_add,
            brokerage_us_stock_add,
            brokerage_us_bond_add,
            brokerage_int_stock_add,
            brokerage_int_bond_add,
        );
        if retirement_plan(
            now as int,
            retirement_year as int,
            roth_funding,
            traditional_funding,
            use_brokerage_retirement,
            brokerage_funding,
            stock_quotes@,
        ) is Ok {
            lemma_retirement_plan_keeps_target(
                now as int,
                retirement_year as int,
                roth_funding,
                traditional_funding,
                use_brokerage_retirement,
                brokerage_funding,
                stock_quotes@,
            );
        }
    }
    let allocations = Allocations::retirement_in(retirement_year, now)?;
    let sub_allocations = SubAllocations::new_custom(allocations)?;
    let roth = enter(roth_holdings, roth_cash_add)?;
    let traditional = enter(traditional_holdings, traditional_cash_add)?;
    let brokerage = if use_brokerage_retirement {
        enter(brokerage_holdings, brokerage_cash_add)?
    } else {
        None
    };
    if roth.is_none() && traditional.is_none() && brokerage.is_none() {
        return Ok((None, None, None, None));
    }
    let ghost roth_funding = funding(
        roth_holdings,
        roth_cash_add,
        roth_us_stock_add,
        roth_us_bond_add,
        roth_int_stock_add,
        roth_int_bond_add,
    );
    let ghost traditional_funding = funding(
        traditional_holdings,
        traditional_cash_add,
        traditional_us_stock_add,
        traditional_us_bond_add,
        traditional_int_stock_add,
        traditional_int_bond_add,
    );
    let ghost brokerage_funding = funding(
        brokerage_holdings,
        brokerage_cash_add,
        brokerage_us_stock_add,
        brokerage_us_bond_add,
        brokerage_int_stock_add,
        brokerage_int_bond_add,
    );
    let pool = Sums::new();
    let pool = pool.join(
        Ghost(roth_funding),
        roth,
        roth_us_stock_add,
        roth_us_bond_add,
        roth_int_stock_add,
        roth_int_bond_add,
    );
    let pool = pool.join(
        Ghost(traditional_funding),
        traditional,
        traditional_us_stock_add,
        traditional_us_bond_add,
        traditional_int_stock_add,
        traditional_int_bond_add,
    );
    let pool = pool.join(
        Ghost(brokerage_funding),
        brokerage,
        brokerage_us_stock_add,
        brokerage_us_bond_add,
        brokerage_int_stock_add,
        brokerage_int_bond_add,
    );
    let shared = match pool.target(sub_allocations) {
        Some(shared) => shared,
        None => {
            return Err(RebalanceError::OutOfRange);
        },
    };
    divide(shared, roth, traditional, brokerage, stock_quotes)
}

/// The sums of a pool as they are computed: exactly, in a wider type than the
/// amounts.
struct Sums {
    accounts: u8,
    value: i128,
    us_stock: i128,
    us_bond: i128,
    int_stock: i128,
    int_bond: i128,
}

impl View for Sums {
    type V = Pool;

    closed spec fn view(&self) -> Pool {
        Pool {
            value: self.value as int,
            us_stock: self.us_stock as int,
            us_bond: self.us_bond as int,
            int_stock: self.int_stock as int,
            int_bond: self.int_bond as int,
        }
    }
}

impl Sums {
    /// Every sum is one of at most `accounts` amounts.
    closed spec fn bounded(&self) -> bool {
        let limit = self.accounts * 0x8000_0000_0000_0000;
        &&& -limit <= self.value <= limit
        &&& -limit <= self.us_stock <= limit
        &&& -limit <= self.us_bond <= limit
        &&& -limit <= self.int_stock <= limit
        &&& -limit <= self.int_bond <= limit
    }

    /// The pool of no account.
    fn new() -> (r: Sums)
        ensures
            r@ == Pool::empty(),
            r.bounded(),
            r.accounts == 0,
    {
        Sums { accounts: 0, value: 0, us_stock: 0, us_bond: 0, int_stock: 0, int_bond: 0 }
    }

    /// The pool with one more account, if that account takes part.
    fn join(
        self,
        Ghost(joining): Ghost<Funding>,
        account: Option<(ShareValues, i64)>,
        us_stock_add: i64,
        us_bond_add: i64,
        int_stock_add: i64,
        int_bond_add: i64,
    ) -> (r: Sums)
        requires
            self.bounded(),
            self.accounts < 3,
            account matches Some((_, total)) ==> total == with_cash(
                joining.holdings,
                joining.cash_add,
            ).total(),
            joining.us_stock_add == us_stock_add,
            joining.us_bond_add == us_bond_add,
            joining.int_stock_add == int_stock_add,
            joining.int_bond_add == int_bond_add,
        ensures
            r@ == self@.with(account is Some, joining),
            r.bounded(),
            r.accounts == self.accounts + 1,
    {
        match account {
            Some((_, total)) => Sums {
                accounts: self.accounts + 1,
                value: self.value + total as i128,
                us_stock: self.us_stock + us_stock_add as i128,
                us_bond: self.us_bond + us_bond_add as i128,
                int_stock: self.int_stock + int_stock_add as i128,
                int_bond: self.int_bond + int_bond_add as i128,
            },
            None => Sums { accounts: self.accounts + 1, ..self },
        }
    }

    /// The common target of the pool, where the sums of the pool and the target
    /// can be stored.
    fn target(self, sub_allocations: SubAllocations) -> (r: Option<ShareValues>)
        ensures
            r is Some <==> self@.fits() && self@.target(sub_allocations@).fits(),
            r matches Some(shared) ==> shared@ == self@.target(sub_allocations@),
    {
        ShareValues::new_target(
            sub_allocations,
            narrow(self.value)?,
            narrow(self.us_stock)?,
            narrow(self.us_bond)?,
            narrow(self.int_stock)?,
            narrow(self.int_bond)?,
        )
    }
}

/// Whether what was computed for all accounts is the given outcome: the same
/// plan, or the same error.
pub open spec fn is_rebalance(
    r: Result<VanguardRebalance, RebalanceError>,
    outcome: Result<RebalancePlan, RebalanceError>,
) -> bool {
    match outcome {
        Ok(plan) => r matches Ok(rebalance) && rebalance@ == plan,
        Err(error) => r matches Err(e) && e == error,
    }
}

/// Rebalances the brokerage account on its own toward `percent_stock` of stocks,
/// in basis points, and the rest bonds.
///
/// The added cash is put into the account, and what is held outside it is noted
/// as outside stocks and bonds. The target is sized to what the account then
/// holds and what is held outside it. `OutOfRange` is returned where an amount
/// cannot be stored.
pub fn brokerage_calc(
    quotes: ShareValues,
    brokerage: ShareValues,
    percent_stock: i32,
    brokerage_cash_add: i64,
    brokerage_us_stock_add: i64,
    brokerage_int_stock_add: i64,
    brokerage_us_bond_add: i64,
    brokerage_int_bond_add: i64,
) -> (r: Result<AccountHoldings, RebalanceError>)
    requires
        quotes@.no_zero(),
    ensures
        match brokerage_plan(
            percent_stock as int,
            funding(
                brokerage,
                brokerage_cash_add,
                brokerage_us_stock_add,
                brokerage_us_bond_add,
                brokerage_int_stock_add,
                brokerage_int_bond_add,
            ),
            quotes@,
        ) {
            Some(plan) => r matches Ok(account) && account@ == plan,
            None => r matches Err(e) && e == RebalanceError::OutOfRange,
        },
{
    proof {
        brokerage.lemma_view(brokerage);
    }
    let bond: i64 = WHOLE as i64 - percent_stock as i64;
    if bond > 0x7fff_ffff {
        return Err(RebalanceError::OutOfRange);
    }
    let percent_bond: i32 = bond as i32;
    let mut current = brokerage;
    let cash: i64 = match checked_sum(brokerage.stock_value(StockSymbol::VMFXX), brokerage_cash_add) {
        Some(cash) => cash,
        None => {
            return Err(RebalanceError::OutOfRange);
        },
    };
    let outside_stock: i64 = match checked_sum(brokerage_us_stock_add, brokerage_int_stock_add) {
        Some(sum) => sum,
        None => {
            return Err(RebalanceError::OutOfRange);
        },
    };
    let outside_bond: i64 = match checked_sum(brokerage_us_bond_add, brokerage_int_bond_add) {
        Some(sum) => sum,
        None => {
            return Err(RebalanceError::OutOfRange);
        },
    };
    current.add_stock_value(StockSymbol::VMFXX, cash);
    current.add_outside_stock_value(outside_stock);
    current.add_outside_bond_value(outside_bond);
    let asset_allocations = Allocations::custom(percent_stock, percent_bond, 0)?;
    let sub_allocations = SubAllocations::new_custom(asset_allocations)?;
    let total: i64 = match narrow(current.total_value()) {
        Some(total) => total,
        None => {
            return Err(RebalanceError::OutOfRange);
        },
    };
    let target_holdings = match ShareValues::new_target(
        sub_allocations,
        total,
        brokerage_us_stock_add,
        brokerage_us_bond_add,
        brokerage_int_stock_add,
        brokerage_int_bond_add,
    ) {
        Some(target) => target,
        None => {
            return Err(RebalanceError::OutOfRange);
        },
    };
    match settle(current, target_holdings, quotes) {
        Some(account) => Ok(account),
        None => Err(RebalanceError::OutOfRange),
    }
}

/// Computes, in the year `now`, what to buy and sell in each account.
///
/// Percentages are in basis points, amounts in millionths. Each account comes
/// with the cash that is added to it or taken out, and with the US stocks, US
/// bonds, international stocks and international bonds that are held outside it.
/// The retirement accounts are rebalanced together toward the glide path of
/// `retirement_year`; with `use_brokerage_retirement` the brokerage account is
/// rebalanced with them, else on its own toward `percent_stock`.
pub fn to_buy_in(
    now: i32,
    percent_stock: i32,
    brokerage_cash_add: i64,
    brokerage_us_stock_add: i64,
    brokerage_int_stock_add: i64,
    brokerage_us_bond_add: i64,
    brokerage_int_bond_add: i64,
    retirement_year: i32,
    roth_holdings: ShareValues,
    roth_us_stock_add: i64,
    roth_us_bond_add: i64,
    roth_int_stock_add: i64,
    roth_int_bond_add: i64,
    roth_cash_add: i64,
    traditional_holdings: ShareValues,
    traditional_us_stock_add: i64,
    traditional_us_bond_add: i64,
    traditional_int_stock_add: i64,
    traditional_int_bond_add: i64,
    traditional_cash_add: i64,
    use_brokerage_retirement: bool,
    brokerage_holdings: ShareValues,
    stock_quotes: ShareValues,
) -> (r: Result<VanguardRebalance, RebalanceError>)
    requires
        stock_quotes@.no_zero(),
    ensures
        is_rebalance(
            r,
            rebalance_plan(
                now as int,
                percent_stock as int,
                retirement_year as int,
                funding(
                    roth_holdings,
                    roth_cash_add,
                    roth_us_stock_add,
                    roth_us_bond_add,
                    roth_int_stock_add,
                    roth_int_bond_add,
                ),
                funding(
                    traditional_holdings,
                    traditional_cash_add,
                    traditional_us_stock_add,
                    traditional_us_bond_add,
                    traditional_int_stock_add,
                    traditional_int_bond_add,
                ),
                use_brokerage_retirement,
                funding(
                    brokerage_holdings,
                    brokerage_cash_add,
                    brokerage_us_stock_add,
                    brokerage_us_bond_add,
                    brokerage_int_stock_add,
                    brokerage_int_bond_add,
                ),
                stock_quotes@,
            ),
        ),
{
    let mut rebalance = VanguardRebalance::new();
    let (
        traditional_ira_account_option,
        roth_ira_account_option,
        brokerage_account_option,
        target_overall_retirement_option,
    ) = retirement_calc(
        now,
        retirement_year,
        roth_holdings,
        roth_us_stock_add,
        roth_us_bond_add,
        roth_int_stock_add,
        roth_int_bond_add,
        roth_cash_add,
        traditional_holdings,
        traditional_us_stock_add,
        traditional_us_bond_add,
        traditional_int_stock_add,
        traditional_int_bond_add,
        traditional_cash_add,
        use_brokerage_retirement,
        brokerage_holdings,
        brokerage_us_stock_add,
        brokerage_us_bond_add,
        brokerage_int_stock_add,
        brokerage_int_bond_add,
        brokerage_cash_add,
        stock_quotes,
    )?;
    if let Some(traditional_account) = traditional_ira_account_option {
        rebalance.add_account_holdings(traditional_account, HoldingType::TraditionalIra)
    }
    if let Some(roth_account) = roth_ira_account_option {
        rebalance.add_account_holdings(roth_account, HoldingType::RothIra)
    }
    if let Some(brokerage_account) = brokerage_account_option {
        rebalance.add_account_holdings(brokerage_account, HoldingType::Brokerage)
    } else if brokerage_holdings.total_value() != 0 {
        rebalance.add_account_holdings(
            brokerage_calc(
                stock_quotes,
                brokerage_holdings,
                percent_stock,
                brokerage_cash_add,
                brokerage_us_stock_add,
                brokerage_int_stock_add,
                brokerage_us_bond_add,
                brokerage_int_bond_add,
            )?,
            HoldingType::Brokerage,
        )
    }
    if let Some(target_overall_retirement) = target_overall_retirement_option {
        rebalance.add_retirement_target(target_overall_retirement);
    }
    Ok(rebalance)
}

/// Computes what to buy and sell in each account, in the current year of the
/// local calendar. See [`to_buy_in`], which does the work once the year is
/// known.
pub fn to_buy(
    percent_stock: i32,
    brokerage_cash_add: i64,
    brokerage_us_stock_add: i64,
    brokerage_int_stock_add: i64,
    brokerage_us_bond_add: i64,
    brokerage_int_bond_add: i64,
    retirement_year: i32,
    roth_holdings: ShareValues,
    roth_us_stock_add: i64,
    roth_us_bond_add: i64,
    roth_int_stock_add: i64,
    roth_int_bond_add: i64,
    roth_cash_add: i64,
    traditional_holdings: ShareValues,
    traditional_us_stock_add: i64,
    traditional_us_bond_add: i64,
    traditional_int_stock_add: i64,
    traditional_int_bond_add: i64,
    traditional_cash_add: i64,
    use_brokerage_retirement: bool,
    brokerage_holdings: ShareValues,
    stock_quotes: ShareValues,
) -> (r: Result<VanguardRebalance, RebalanceError>)
    requires
        stock_quotes@.no_zero(),
    ensures
        !supported_year(retirement_year as int) ==> r == Err::<VanguardRebalance, RebalanceError>(
            RebalanceError::RetirementYear,
        ),
        exists|now: i32|
            is_rebalance(
                r,
                #[trigger] rebalance_plan(
                    now as int,
                    percent_stock as int,
                    retirement_year as int,
                    funding(
                        roth_holdings,
                        roth_cash_add,
                        roth_us_stock_add,
                        roth_us_bond_add,
                        roth_int_stock_add,
                        roth_int_bond_add,
                    ),
                    funding(
                        traditional_holdings,
                        traditional_cash_add,
                        traditional_us_stock_add,
                        traditional_us_bond_add,
                        traditional_int_stock_add,
                        traditional_int_bond_add,
                    ),
                    use_brokerage_retirement,
                    funding(
                        brokerage_holdings,
                        brokerage_cash_add,
                        brokerage_us_stock_add,
                        brokerage_us_bond_add,
                        brokerage_int_stock_add,
                        brokerage_int_bond_add,
                    ),
                    stock_quotes@,
                ),
            ),
{
    let now: i32 = this_year();
    to_buy_in(
        now,
        percent_stock,
        brokerage_cash_add,
        brokerage_us_stock_add,
        brokerage_int_stock_add,
        brokerage_us_bond_add,
        brokerage_int_bond_add,
        retirement_year,
        roth_holdings,
        roth_us_stock_add,
        roth_us_bond_add,
        roth_int_stock_add,
        roth_int_bond_add,
        roth_cash_add,
        traditional_holdings,
        traditional_us_stock_add,
        traditional_us_bond_add,
        traditional_int_stock_add,
        traditional_int_bond_add,
        traditional_cash_add,
        use_brokerage_retirement,
        brokerage_holdings,
        stock_quotes,
    )
}

} // verus!
