use chrono::Datelike;
use vapore::calc::{
    brokerage_calc, fill_account, high_to_low_risk, low_to_high_risk, retirement_calc, settle,
    to_buy, to_buy_in,
};
use vapore::error::RebalanceError;
use vapore::holdings::{
    AccountHoldings, HoldingType, ShareValues, StockSymbol, VanguardRebalance,
};

const USD: i64 = 1_000_000;

fn holding(amounts: &[(StockSymbol, i64)]) -> ShareValues {
    let mut values = ShareValues::new();
    for (symbol, amount) in amounts {
        values.add_stock_value(symbol.duplicate(), *amount);
    }
    values
}

fn quotes(prices: &[(StockSymbol, i64)]) -> ShareValues {
    let mut values = ShareValues::new_quote();
    for (symbol, price) in prices {
        values.add_stock_value(symbol.duplicate(), *price);
    }
    values
}

fn nine(values: &ShareValues) -> i128 {
    StockSymbol::list().iter().map(|symbol| values.stock_value(symbol.duplicate()) as i128).sum()
}

#[test]
fn risk_orders_mirror_each_other() {
    let down = high_to_low_risk();
    let mut up = low_to_high_risk();
    up.reverse();
    assert_eq!(down, up);
    assert_eq!(down[0], StockSymbol::VWO);
    assert_eq!(down[1], StockSymbol::VXUS);
    assert_eq!(down[2], StockSymbol::VB);
    assert_eq!(down[3], StockSymbol::VO);
    assert_eq!(down[4], StockSymbol::VV);
    assert_eq!(down[5], StockSymbol::BNDX);
    assert_eq!(down[6], StockSymbol::BND);
    assert_eq!(down[7], StockSymbol::VTC);
    assert_eq!(down[8], StockSymbol::VTIP);
}

#[test]
fn account_on_target_has_nothing_to_trade() {
    let current = holding(&[(StockSymbol::BND, 1_000 * USD)]);
    let target = holding(&[(StockSymbol::BND, 1_000 * USD)]);
    let prices = quotes(&[(StockSymbol::BND, 100 * USD)]);
    let account = settle(current, target, prices).unwrap();
    assert_eq!(account.sale_purchases_needed.stock_value(StockSymbol::BND), 0);
    assert_eq!(account.sale_purchases_needed, ShareValues::new());
    assert_eq!(account.current, current);
    assert_eq!(account.target, target);
}

#[test]
fn trades_are_differences_over_prices() {
    let current = holding(&[(StockSymbol::BND, 1_000 * USD), (StockSymbol::VV, 500 * USD)]);
    let target = holding(&[(StockSymbol::BND, 400 * USD), (StockSymbol::VV, 1_100 * USD)]);
    let prices = quotes(&[(StockSymbol::BND, 80 * USD), (StockSymbol::VV, 240 * USD)]);
    let account = settle(current, target, prices).unwrap();
    assert_eq!(account.sale_purchases_needed.stock_value(StockSymbol::BND), -7_500_000);
    assert_eq!(account.sale_purchases_needed.stock_value(StockSymbol::VV), 2_500_000);
    assert_eq!(account.sale_purchases_needed.stock_value(StockSymbol::VO), 0);
}

#[test]
fn trades_that_cannot_be_stored_are_refused() {
    let current = holding(&[(StockSymbol::BND, i64::MIN)]);
    let target = holding(&[(StockSymbol::BND, 1)]);
    assert!(settle(current, target, ShareValues::new_quote()).is_none());
    let current = holding(&[(StockSymbol::BND, 0)]);
    let target = holding(&[(StockSymbol::BND, i64::MAX)]);
    let cheap = quotes(&[(StockSymbol::BND, 1)]);
    assert!(settle(current, target, cheap).is_none());
}

#[test]
fn filling_takes_the_riskiest_funds_first() {
    let shared = holding(&[
        (StockSymbol::VWO, 3_000 * USD),
        (StockSymbol::VXUS, 6_000 * USD),
        (StockSymbol::VB, 6_000 * USD),
        (StockSymbol::VO, 6_000 * USD),
        (StockSymbol::VV, 6_000 * USD),
        (StockSymbol::BND, 4_000 * USD),
    ]);
    let (target, rest) = fill_account(shared, &high_to_low_risk(), 10_000 * USD);
    assert_eq!(rest, 0);
    assert_eq!(
        target,
        holding(&[
            (StockSymbol::VWO, 3_000 * USD),
            (StockSymbol::VXUS, 6_000 * USD),
            (StockSymbol::VB, 1_000 * USD),
        ])
    );
    let (target, rest) = fill_account(shared, &low_to_high_risk(), 10_000 * USD);
    assert_eq!(rest, 0);
    assert_eq!(
        target,
        holding(&[(StockSymbol::BND, 4_000 * USD), (StockSymbol::VV, 6_000 * USD)])
    );
}

#[test]
fn filling_leaves_what_finds_no_fund() {
    let shared = holding(&[(StockSymbol::VWO, 3_000 * USD), (StockSymbol::VTIP, 1_000 * USD)]);
    let (target, rest) = fill_account(shared, &high_to_low_risk(), 10_000 * USD);
    assert_eq!(rest, 6_000 * USD as i128);
    assert_eq!(target, shared);
    // a budget of nothing is used up by the first fund
    let (target, rest) = fill_account(shared, &high_to_low_risk(), 0);
    assert_eq!(rest, 0);
    assert_eq!(target, ShareValues::new());
}

#[test]
fn brokerage_on_its_own() {
    let brokerage = holding(&[(StockSymbol::VV, 6_000 * USD), (StockSymbol::BND, 4_000 * USD)]);
    let prices = quotes(&[(StockSymbol::VV, 200 * USD), (StockSymbol::BND, 80 * USD)]);
    let account = brokerage_calc(prices, brokerage, 6_000, 0, 0, 0, 0, 0).unwrap();
    assert_eq!(account.current, brokerage);
    // the large cap fund makes up for the five millionths that rounding has added
    assert_eq!(account.target.stock_value(StockSymbol::VV), 1_333_333_329);
    assert_eq!(account.target.stock_value(StockSymbol::VO), 1_333_333_334);
    assert_eq!(account.target.total_value(), account.current.total_value());
    assert_eq!(account.target.stock_value(StockSymbol::VWO), 666_666_667);
    assert_eq!(account.target.stock_value(StockSymbol::BND), 1_333_333_334);
    assert_eq!(account.target.stock_value(StockSymbol::BNDX), 1_333_333_334);
    assert_eq!(account.target.stock_value(StockSymbol::VTIP), 0);
    // (1333.333329 - 6000) / 200 and (1333.333334 - 4000) / 80, toward zero
    assert_eq!(account.sale_purchases_needed.stock_value(StockSymbol::VV), -23_333_333);
    assert_eq!(account.sale_purchases_needed.stock_value(StockSymbol::BND), -33_333_333);
    // funds without a price are traded in dollars
    assert_eq!(account.sale_purchases_needed.stock_value(StockSymbol::VO), 1_333_333_334);
}

#[test]
fn brokerage_on_target_has_nothing_to_trade() {
    // all in bonds: a third in each of the three bond funds
    let brokerage = holding(&[
        (StockSymbol::BND, 1_000 * USD),
        (StockSymbol::VTC, 1_000 * USD),
        (StockSymbol::BNDX, 1_000 * USD),
    ]);
    let prices = quotes(&[(StockSymbol::BND, 72_500_000), (StockSymbol::VTC, 77 * USD)]);
    let account = brokerage_calc(prices, brokerage, 0, 0, 0, 0, 0, 0).unwrap();
    assert_eq!(account.current, account.target);
    assert_eq!(account.sale_purchases_needed, ShareValues::new());
    // with a thousand dollars of stocks outside, a quarter is to be in stocks: two
    // ninths of it in each US fund, less a third of the 600 dollars held outside
    let account = brokerage_calc(prices, brokerage, 2_500, 0, 600 * USD, 400 * USD, 0, 0).unwrap();
    assert_eq!(account.target.stock_value(StockSymbol::VV), 222_222_223 - 200 * USD);
    assert_eq!(account.target.stock_value(StockSymbol::BND), 1_000 * USD);
    assert_ne!(account.current, account.target);
    assert_ne!(account.sale_purchases_needed, ShareValues::new());
}

#[test]
fn brokerage_with_cash_and_outside_holdings() {
    let brokerage = holding(&[(StockSymbol::VV, 6_000 * USD), (StockSymbol::VMFXX, 500 * USD)]);
    let account = brokerage_calc(
        ShareValues::new_quote(),
        brokerage,
        10_000,
        2_500 * USD,
        600 * USD,
        300 * USD,
        0,
        0,
    )
    .unwrap();
    assert_eq!(account.current.stock_value(StockSymbol::VMFXX), 3_000 * USD);
    assert_eq!(account.current.outside_stock_value(), 900 * USD);
    assert_eq!(account.current.outside_bond_value(), 0);
    // 9000 inside and 900 outside, all in stocks: 2200 for each US fund, less 200
    assert_eq!(account.target.stock_value(StockSymbol::VV), 2_000 * USD);
    assert_eq!(account.target.stock_value(StockSymbol::VO), 2_000 * USD);
    assert_eq!(account.target.stock_value(StockSymbol::VB), 2_000 * USD);
    // total international 2200 less 200, emerging markets 1100 less 100
    assert_eq!(account.target.stock_value(StockSymbol::VXUS), 2_000 * USD);
    assert_eq!(account.target.stock_value(StockSymbol::VWO), 1_000 * USD);
    assert_eq!(account.target.stock_value(StockSymbol::BND), 0);
    assert_eq!(account.target.stock_value(StockSymbol::VMFXX), 0);
    assert_eq!(account.target.outside_stock_value(), 900 * USD);
    assert_eq!(account.sale_purchases_needed.stock_value(StockSymbol::VV), -4_000 * USD);
    assert_eq!(account.sale_purchases_needed.stock_value(StockSymbol::VMFXX), -3_000 * USD);
    assert_eq!(account.sale_purchases_needed.outside_stock_value(), 0);
}

#[test]
fn brokerage_that_cannot_be_stored_is_refused() {
    let brokerage = holding(&[(StockSymbol::VMFXX, i64::MAX)]);
    assert!(matches!(
        brokerage_calc(ShareValues::new_quote(), brokerage, 6_000, 1, 0, 0, 0, 0),
        Err(RebalanceError::OutOfRange)
    ));
    let brokerage = holding(&[(StockSymbol::VV, USD)]);
    assert!(matches!(
        brokerage_calc(ShareValues::new_quote(), brokerage, i32::MIN, 0, 0, 0, 0, 0),
        Err(RebalanceError::OutOfRange)
    ));
    assert!(matches!(
        brokerage_calc(ShareValues::new_quote(), brokerage, 6_000, 0, i64::MAX, i64::MAX, 0, 0),
        Err(RebalanceError::OutOfRange)
    ));
}

#[test]
fn roth_takes_risk_and_traditional_the_rest() {
    let roth = holding(&[(StockSymbol::VV, 10_000 * USD)]);
    let traditional = holding(&[(StockSymbol::BND, 30_000 * USD)]);
    let prices = quotes(&[(StockSymbol::VV, 250 * USD), (StockSymbol::VB, 200 * USD)]);
    let (traditional_account, roth_account, brokerage_account, target) = retirement_calc(
        2025,
        2035,
        roth,
        0,
        0,
        0,
        0,
        0,
        traditional,
        0,
        0,
        0,
        0,
        0,
        false,
        holding(&[(StockSymbol::VV, 5_000 * USD)]),
        0,
        0,
        0,
        0,
        0,
        prices,
    )
    .unwrap();
    assert!(brokerage_account.is_none());
    // ten years before retirement: 67.5% stocks, 32.5% bonds, of 40000
    let target = target.unwrap();
    for symbol in [StockSymbol::VO, StockSymbol::VB, StockSymbol::VXUS] {
        assert_eq!(target.stock_value(symbol), 6_000 * USD);
    }
    // the large cap fund makes up for the rounding of the three bond funds
    assert_eq!(target.stock_value(StockSymbol::VV), 6_000 * USD - 2);
    assert_eq!(target.total_value(), 40_000 * USD as i128);
    assert_eq!(target.stock_value(StockSymbol::VWO), 3_000 * USD);
    for symbol in [StockSymbol::BND, StockSymbol::VTC, StockSymbol::BNDX] {
        assert_eq!(target.stock_value(symbol), 4_333_333_334);
    }
    assert_eq!(target.stock_value(StockSymbol::VTIP), 0);
    let roth_account = roth_account.unwrap();
    assert_eq!(roth_account.current, roth);
    assert_eq!(
        roth_account.target,
        holding(&[
            (StockSymbol::VWO, 3_000 * USD),
            (StockSymbol::VXUS, 6_000 * USD),
            (StockSymbol::VB, 1_000 * USD),
        ])
    );
    assert_eq!(roth_account.sale_purchases_needed.stock_value(StockSymbol::VV), -40 * USD);
    assert_eq!(roth_account.sale_purchases_needed.stock_value(StockSymbol::VB), 5 * USD);
    assert_eq!(roth_account.sale_purchases_needed.stock_value(StockSymbol::VWO), 3_000 * USD);
    let traditional_account = traditional_account.unwrap();
    assert_eq!(traditional_account.current, traditional);
    assert_eq!(
        traditional_account.target,
        holding(&[
            (StockSymbol::VV, 6_000 * USD - 2),
            (StockSymbol::VO, 6_000 * USD),
            (StockSymbol::VB, 5_000 * USD),
            (StockSymbol::BND, 4_333_333_334),
            (StockSymbol::VTC, 4_333_333_334),
            (StockSymbol::BNDX, 4_333_333_334),
        ])
    );
    // 5999.999998 dollars at 250 dollars a share, toward zero
    assert_eq!(
        traditional_account.sale_purchases_needed.stock_value(StockSymbol::VV),
        24 * USD - 1
    );
    assert_eq!(traditional_account.target.total_value(), traditional.total_value());
    assert_eq!(
        traditional_account.sale_purchases_needed.stock_value(StockSymbol::BND),
        4_333_333_334 - 30_000 * USD
    );
    // nothing is lost: the two targets add up to the common target
    assert_eq!(roth_account.target.add(traditional_account.target), Some(target));
    assert_eq!(roth_account.target.total_value(), roth.total_value());
}

#[test]
fn three_accounts_share_one_target() {
    let roth = holding(&[(StockSymbol::VTIP, 12_000 * USD), (StockSymbol::VMFXX, 1_000 * USD)]);
    let traditional = holding(&[(StockSymbol::VO, 50_000 * USD)]);
    let brokerage = holding(&[(StockSymbol::VWO, 20_000 * USD)]);
    let (traditional_account, roth_account, brokerage_account, target) = retirement_calc(
        2025,
        2025,
        roth,
        1_000 * USD,
        0,
        0,
        0,
        -3_000 * USD,
        traditional,
        0,
        2_000 * USD,
        0,
        0,
        0,
        true,
        brokerage,
        0,
        0,
        3_000 * USD,
        0,
        5_000 * USD,
        ShareValues::new_quote(),
    )
    .unwrap();
    let target = target.unwrap();
    let roth_account = roth_account.unwrap();
    let traditional_account = traditional_account.unwrap();
    let brokerage_account = brokerage_account.unwrap();
    // the cash is in before the accounts are filled
    assert_eq!(roth_account.current.stock_value(StockSymbol::VMFXX), -2_000 * USD);
    assert_eq!(roth_account.current.total_value(), 10_000 * USD as i128);
    assert_eq!(brokerage_account.current.stock_value(StockSymbol::VMFXX), 5_000 * USD);
    // 85000 inside and 6000 outside at 46% stocks, 45% bonds, 9% inflation protected
    assert_eq!(target.outside_stock_value(), 4_000 * USD);
    assert_eq!(target.outside_bond_value(), 2_000 * USD);
    assert_eq!(target.stock_value(StockSymbol::VTIP), 8_190 * USD);
    assert_eq!(target.stock_value(StockSymbol::VWO), 4_651_111_112 - 1_000 * USD);
    assert_eq!(target.stock_value(StockSymbol::VXUS), 9_302_222_223 - 2_000 * USD);
    assert_eq!(target.stock_value(StockSymbol::VV), 9_302_222_223 - 333_333_333);
    assert_eq!(target.stock_value(StockSymbol::BND), 13_650 * USD - 1_000 * USD);
    assert_eq!(target.stock_value(StockSymbol::BNDX), 13_650 * USD);
    // each filled account gets exactly what it holds
    assert_eq!(roth_account.target.total_value(), 10_000 * USD as i128);
    assert_eq!(brokerage_account.target.total_value(), 25_000 * USD as i128);
    assert_eq!(roth_account.target.stock_value(StockSymbol::VWO), 3_651_111_112);
    assert_eq!(roth_account.target.stock_value(StockSymbol::VXUS), 10_000 * USD - 3_651_111_112);
    assert_eq!(roth_account.target.stock_value(StockSymbol::VB), 0);
    assert_eq!(brokerage_account.target.stock_value(StockSymbol::VTIP), 8_190 * USD);
    // the corporate bond fund has the largest part and makes up for the rounding
    assert_eq!(target.stock_value(StockSymbol::VTC), 12_650 * USD - 5);
    assert_eq!(target.total_value(), 85_000 * USD as i128);
    assert_eq!(brokerage_account.target.stock_value(StockSymbol::VTC), 12_650 * USD - 5);
    assert_eq!(brokerage_account.target.stock_value(StockSymbol::BND), 4_160 * USD + 5);
    assert_eq!(brokerage_account.target.stock_value(StockSymbol::BNDX), 0);
    // the three targets add up to the common target, fund for fund
    let together = roth_account
        .target
        .add(brokerage_account.target)
        .unwrap()
        .add(traditional_account.target)
        .unwrap();
    for symbol in StockSymbol::list() {
        assert_eq!(together.stock_value(symbol.duplicate()), target.stock_value(symbol));
    }
    assert_eq!(
        nine(&roth_account.target) + nine(&brokerage_account.target) + nine(&traditional_account.target),
        nine(&target)
    );
}

#[test]
fn roth_alone_is_filled_to_the_last_millionth() {
    let roth = holding(&[(StockSymbol::VV, 10_000 * USD + 1)]);
    let (traditional_account, roth_account, brokerage_account, target) = retirement_calc(
        2025,
        2040,
        roth,
        0,
        0,
        0,
        0,
        0,
        ShareValues::new(),
        0,
        0,
        0,
        0,
        0,
        false,
        ShareValues::new(),
        0,
        0,
        0,
        0,
        0,
        ShareValues::new_quote(),
    )
    .unwrap();
    assert!(traditional_account.is_none());
    assert!(brokerage_account.is_none());
    let roth_account = roth_account.unwrap();
    assert_eq!(roth_account.target.total_value(), roth.total_value());
    assert!(target.unwrap().total_value() >= roth.total_value());
}

#[test]
fn smallest_account_has_a_target_of_its_size() {
    let roth = holding(&[(StockSymbol::VV, 1)]);
    let (_, roth_account, _, target) = retirement_calc(
        2025,
        2040,
        roth,
        0,
        0,
        0,
        0,
        0,
        ShareValues::new(),
        0,
        0,
        0,
        0,
        0,
        false,
        ShareValues::new(),
        0,
        0,
        0,
        0,
        0,
        ShareValues::new_quote(),
    )
    .unwrap();
    assert_eq!(target.unwrap().total_value(), 1);
    assert_eq!(roth_account.unwrap().target.total_value(), 1);
}

#[test]
fn no_retirement_account_no_plan() {
    let outcome = retirement_calc(
        2025,
        2040,
        ShareValues::new(),
        5,
        5,
        5,
        5,
        5,
        ShareValues::new(),
        5,
        5,
        5,
        5,
        5,
        false,
        holding(&[(StockSymbol::VV, USD)]),
        0,
        0,
        0,
        0,
        0,
        ShareValues::new_quote(),
    );
    assert_eq!(outcome, Ok((None, None, None, None)));
}

fn rebalance(
    now: i32,
    retirement_year: i32,
    roth: ShareValues,
    roth_cash_add: i64,
    traditional: ShareValues,
    use_brokerage_retirement: bool,
    brokerage: ShareValues,
) -> Result<VanguardRebalance, RebalanceError> {
    to_buy_in(
        now,
        6_000,
        0,
        0,
        0,
        0,
        0,
        retirement_year,
        roth,
        0,
        0,
        0,
        0,
        roth_cash_add,
        traditional,
        0,
        0,
        0,
        0,
        0,
        use_brokerage_retirement,
        brokerage,
        ShareValues::new_quote(),
    )
}

#[test]
fn retirement_year_is_checked_first() {
    let brokerage = holding(&[(StockSymbol::VV, USD)]);
    assert!(matches!(
        rebalance(2025, 1999, ShareValues::new(), 0, ShareValues::new(), false, brokerage),
        Err(RebalanceError::RetirementYear)
    ));
    assert!(matches!(
        rebalance(2025, 3000, ShareValues::new(), 0, ShareValues::new(), false, brokerage),
        Err(RebalanceError::RetirementYear)
    ));
}

#[test]
fn leftover_is_an_error() {
    // an account that owes cash leaves the others with more than the common target
    let rich = holding(&[(StockSymbol::VV, 10_000 * USD)]);
    let owing = holding(&[(StockSymbol::VMFXX, -4_000 * USD)]);
    assert!(matches!(
        rebalance(2025, 2040, rich, 0, owing, false, ShareValues::new()),
        Err(RebalanceError::RothLeftover)
    ));
    assert!(matches!(
        rebalance(2025, 2040, ShareValues::new(), 0, owing, true, rich),
        Err(RebalanceError::BrokerageLeftover)
    ));
    // with both, each finds its funds, and the traditional IRA takes on what is owed
    let outcome = rebalance(2025, 2040, rich, 0, owing, true, rich).unwrap();
    assert_eq!(outcome.roth_ira.target.total_value(), 10_000 * USD as i128);
    assert_eq!(outcome.brokerage.target.total_value(), 10_000 * USD as i128);
    assert!(outcome.traditional_ira.target.total_value() < 0);
}

#[test]
fn account_emptied_by_its_cash_is_a_mismatch() {
    let roth = holding(&[(StockSymbol::VV, 10_000 * USD)]);
    let traditional = holding(&[(StockSymbol::BND, 10_000 * USD)]);
    assert!(matches!(
        rebalance(2025, 2040, roth, -10_000 * USD, traditional, false, ShareValues::new()),
        Err(RebalanceError::RothMismatch)
    ));
    assert!(matches!(
        rebalance(2025, 2040, roth, -20_000 * USD, traditional, false, ShareValues::new()),
        Err(RebalanceError::RothMismatch)
    ));
    let outcome = to_buy_in(
        2025,
        6_000,
        -10_000 * USD,
        0,
        0,
        0,
        0,
        2040,
        ShareValues::new(),
        0,
        0,
        0,
        0,
        0,
        traditional,
        0,
        0,
        0,
        0,
        0,
        true,
        roth,
        ShareValues::new_quote(),
    );
    assert!(matches!(outcome, Err(RebalanceError::BrokerageMismatch)));
}

#[test]
fn amounts_that_cannot_be_stored_are_an_error() {
    let roth = holding(&[(StockSymbol::VV, i64::MAX)]);
    let traditional = holding(&[(StockSymbol::BND, i64::MAX)]);
    assert!(matches!(
        rebalance(2025, 2040, roth, 0, traditional, false, ShareValues::new()),
        Err(RebalanceError::OutOfRange)
    ));
    assert!(matches!(
        rebalance(2025, 2040, roth, 1, ShareValues::new(), false, ShareValues::new()),
        Err(RebalanceError::OutOfRange)
    ));
}

#[test]
fn accounts_that_hold_nothing_have_plans_of_zeros() {
    let outcome = rebalance(
        2025,
        2040,
        ShareValues::new(),
        1_000 * USD,
        ShareValues::new(),
        true,
        ShareValues::new(),
    )
    .unwrap();
    assert_eq!(outcome, VanguardRebalance::new());
    assert_eq!(outcome.retirement_target(), None);
    assert_eq!(outcome.brokerage, AccountHoldings::default());
}

#[test]
fn brokerage_is_rebalanced_on_its_own_or_with_the_others() {
    let roth = holding(&[(StockSymbol::VV, 10_000 * USD)]);
    let traditional = holding(&[(StockSymbol::BND, 30_000 * USD)]);
    let brokerage = holding(&[(StockSymbol::VV, 6_000 * USD), (StockSymbol::BND, 4_000 * USD)]);
    let apart = rebalance(2025, 2035, roth, 0, traditional, false, brokerage).unwrap();
    let own = brokerage_calc(ShareValues::new_quote(), brokerage, 6_000, 0, 0, 0, 0, 0).unwrap();
    assert_eq!(apart.brokerage, own);
    assert_eq!(apart.retirement_target().unwrap().stock_value(StockSymbol::VWO), 3_000 * USD);
    assert_eq!(apart.roth_ira.target.stock_value(StockSymbol::VXUS), 6_000 * USD);
    assert_eq!(apart.traditional_ira.target.stock_value(StockSymbol::VB), 5_000 * USD);
    let together = rebalance(2025, 2035, roth, 0, traditional, true, brokerage).unwrap();
    // 50000 at 67.5% stocks: emerging markets 3750, the safest funds go to the brokerage
    assert_eq!(together.retirement_target().unwrap().stock_value(StockSymbol::VWO), 3_750 * USD);
    assert_eq!(together.brokerage.target.stock_value(StockSymbol::VTC), 5_416_666_667);
    assert_eq!(
        together.brokerage.target.stock_value(StockSymbol::BND),
        10_000 * USD - 5_416_666_667
    );
    assert_eq!(together.brokerage.target.total_value(), 10_000 * USD as i128);
    // only the brokerage account, managed with the retirement accounts
    let alone = rebalance(2025, 2035, ShareValues::new(), 0, ShareValues::new(), true, brokerage)
        .unwrap();
    assert_eq!(alone.brokerage.target.total_value(), 10_000 * USD as i128);
    assert_eq!(alone.roth_ira, AccountHoldings::default());
    assert_eq!(alone.traditional_ira, AccountHoldings::default());
    // without a retirement account no common target is reported
    assert_eq!(alone.retirement_target(), None);
    assert!(together.retirement_target().is_some());
    assert!(apart.retirement_target().is_some());
}

#[test]
fn common_target_is_reported_with_a_retirement_account_only() {
    let some = holding(&[(StockSymbol::BND, 9_000 * USD)]);
    let none = ShareValues::new();
    for (roth, traditional, together, brokerage) in [
        (none, none, true, some),
        (none, none, false, some),
        (some, none, true, some),
        (none, some, true, some),
        (some, some, false, none),
        (some, none, false, some),
        (none, none, true, none),
    ] {
        let (traditional_account, roth_account, brokerage_account, target) = retirement_calc(
            2026,
            2056,
            roth,
            0,
            0,
            0,
            0,
            0,
            traditional,
            0,
            0,
            0,
            0,
            0,
            together,
            brokerage,
            0,
            0,
            0,
            0,
            0,
            ShareValues::new_quote(),
        )
        .unwrap();
        assert_eq!(roth_account.is_some(), roth.total_value() != 0);
        assert_eq!(traditional_account.is_some(), traditional.total_value() != 0);
        assert_eq!(brokerage_account.is_some(), together && brokerage.total_value() != 0);
        assert_eq!(target.is_some(), roth_account.is_some() || traditional_account.is_some());
    }
}

#[test]
fn to_buy_uses_the_current_year() {
    let now = chrono::Local::now().year();
    let roth = holding(&[(StockSymbol::VV, 10_000 * USD)]);
    let traditional = holding(&[(StockSymbol::BND, 30_000 * USD)]);
    for retirement_year in [now - 10, now, now + 10, now + 40] {
        let by_clock = to_buy(
            6_000,
            0,
            0,
            0,
            0,
            0,
            retirement_year,
            roth,
            0,
            0,
            0,
            0,
            0,
            traditional,
            0,
            0,
            0,
            0,
            0,
            false,
            ShareValues::new(),
            ShareValues::new_quote(),
        );
        let by_hand =
            rebalance(now, retirement_year, roth, 0, traditional, false, ShareValues::new());
        assert_eq!(by_clock, by_hand);
    }
}

#[test]
fn rebalance_keeps_what_is_added() {
    let mut rebalance = VanguardRebalance::new();
    let account = AccountHoldings::new(
        holding(&[(StockSymbol::VV, 1)]),
        holding(&[(StockSymbol::VV, 2)]),
        holding(&[(StockSymbol::VV, 3)]),
    );
    rebalance.add_account_holdings(account, HoldingType::RothIra);
    assert_eq!(rebalance.roth_ira, account);
    assert_eq!(rebalance.brokerage, AccountHoldings::default());
    rebalance.add_account_holdings(account, HoldingType::Brokerage);
    rebalance.add_account_holdings(account, HoldingType::TraditionalIra);
    assert_eq!(rebalance.brokerage, account);
    assert_eq!(rebalance.traditional_ira, account);
    assert_eq!(rebalance.retirement_target(), None);
    rebalance.add_retirement_target(account.target);
    assert_eq!(rebalance.retirement_target(), Some(account.target));
    assert_eq!(VanguardRebalance::default(), VanguardRebalance::new());
}
