use vapore::asset::{Allocations, SubAllocations};
use vapore::fixed::SCALE;
use vapore::holdings::{AddType, ShareValues, StockInfo, StockSymbol};

const USD: i64 = 1_000_000;

fn filled(value: i64) -> ShareValues {
    let mut values = ShareValues::new();
    for symbol in StockSymbol::list() {
        values.add_stock_value(symbol, value);
    }
    values.add_stock_value(StockSymbol::VMFXX, value);
    values.add_stock_value(StockSymbol::Other(String::new()), value);
    values.add_outside_bond_value(value);
    values.add_outside_stock_value(value);
    values
}

#[test]
fn new_values_are_zero() {
    let values = ShareValues::new();
    for symbol in StockSymbol::list() {
        assert_eq!(values.stock_value(symbol), 0);
    }
    assert_eq!(values.stock_value(StockSymbol::VMFXX), 0);
    assert_eq!(values.stock_value(StockSymbol::Other("X".to_string())), 0);
    assert_eq!(values.outside_bond_value(), 0);
    assert_eq!(values.outside_stock_value(), 0);
    assert_eq!(values.total_value(), 0);
    assert_eq!(values, ShareValues::default());
    assert_eq!(values, filled(0));
}

#[test]
fn new_quotes_are_one_dollar() {
    let quotes = ShareValues::new_quote();
    assert_eq!(SCALE, 1_000_000);
    assert_eq!(quotes, filled(SCALE));
    assert!(quotes.no_zero());
    assert!(!ShareValues::new().no_zero());
    let mut one_zero = quotes;
    one_zero.add_outside_bond_value(0);
    assert!(!one_zero.no_zero());
}

#[test]
fn values_are_kept_by_symbol() {
    let mut values = ShareValues::new();
    values.add_stock_value(StockSymbol::BND, 5_000 * USD);
    assert_eq!(values.stock_value(StockSymbol::BND), 5_000 * USD);
    assert_eq!(values.stock_value(StockSymbol::BNDX), 0);
    values.add_stock_value(StockSymbol::Other("AAPL".to_string()), 7 * USD);
    assert_eq!(values.stock_value(StockSymbol::Other("MSFT".to_string())), 7 * USD);
    values.add_stock_value(StockSymbol::BND, 1);
    assert_eq!(values.stock_value(StockSymbol::BND), 1);
}

#[test]
fn total_leaves_out_what_is_held_outside() {
    let mut values = ShareValues::new();
    values.add_stock_value(StockSymbol::BND, 5_000 * USD);
    values.add_stock_value(StockSymbol::BNDX, 2_000 * USD);
    values.add_stock_value(StockSymbol::VB, 4_000 * USD);
    assert_eq!(values.total_value(), 11_000 * USD as i128);
    values.add_stock_value(StockSymbol::VMFXX, 100 * USD);
    values.add_stock_value(StockSymbol::Other(String::new()), 10 * USD);
    values.add_outside_bond_value(1_000 * USD);
    values.add_outside_stock_value(3_000 * USD);
    assert_eq!(values.total_value(), 11_110 * USD as i128);
    assert_eq!(values.outside_bond_value(), 1_000 * USD);
    assert_eq!(values.outside_stock_value(), 3_000 * USD);
}

#[test]
fn total_is_exact_at_the_largest_amounts() {
    let values = filled(i64::MAX);
    assert_eq!(values.total_value(), 11 * i64::MAX as i128);
    let values = filled(i64::MIN);
    assert_eq!(values.total_value(), 11 * i64::MIN as i128);
}

#[test]
fn subtract_takes_off_one_slot() {
    let mut values = filled(10 * USD);
    values.subtract_stock_value(StockSymbol::VV, 3 * USD);
    assert_eq!(values.stock_value(StockSymbol::VV), 7 * USD);
    assert_eq!(values.stock_value(StockSymbol::VO), 10 * USD);
    values.subtract_stock_value(StockSymbol::Other("Z".to_string()), -USD);
    assert_eq!(values.stock_value(StockSymbol::Other(String::new())), 11 * USD);
}

#[test]
fn value_added_ignores_the_other_slot() {
    let quotes = ShareValues::new_quote();
    assert!(!quotes.value_added(SCALE));
    assert!(quotes.value_added(0));
    let mut changed = quotes;
    changed.add_stock_value(StockSymbol::Other(String::new()), 5);
    assert!(!changed.value_added(SCALE));
    changed.add_outside_stock_value(5);
    assert!(changed.value_added(SCALE));
    let mut one = ShareValues::new();
    assert!(!one.value_added(0));
    one.add_stock_value(StockSymbol::VTIP, 1);
    assert!(one.value_added(0));
}

#[test]
fn sum_and_difference_are_slot_by_slot() {
    let mut a = filled(10);
    a.add_stock_value(StockSymbol::VV, 7);
    let mut b = filled(3);
    b.add_outside_bond_value(-4);
    let sum = a.add(b).unwrap();
    assert_eq!(sum.stock_value(StockSymbol::VV), 10);
    assert_eq!(sum.stock_value(StockSymbol::VO), 13);
    assert_eq!(sum.outside_bond_value(), 6);
    let difference = a.sub(b).unwrap();
    assert_eq!(difference.stock_value(StockSymbol::VV), 4);
    assert_eq!(difference.outside_bond_value(), 14);
}

#[test]
fn adding_then_subtracting_gives_the_vector_back() {
    let mut a = filled(123_456_789);
    a.add_stock_value(StockSymbol::VWO, -5);
    let mut b = filled(-987_654_321);
    b.add_stock_value(StockSymbol::VTC, i64::MAX / 2);
    assert_eq!(a.add(b).unwrap().sub(b).unwrap(), a);
    assert_eq!(b.add(a).unwrap().sub(a).unwrap(), b);
}

#[test]
fn sums_that_cannot_be_stored_are_refused() {
    let a = filled(i64::MAX);
    let b = filled(1);
    assert_eq!(a.add(b), None);
    assert_eq!(filled(i64::MIN).sub(b), None);
    assert!(a.add(filled(0)).is_some());
    let mut one_slot = ShareValues::new();
    one_slot.add_outside_stock_value(i64::MAX);
    assert_eq!(one_slot.add(b), None);
}

#[test]
fn products_are_in_millionths() {
    let shares = filled(2_500_000); // 2.5 shares
    let quotes = filled(40 * USD + 100_000); // $40.10
    let values = shares.mul(quotes).unwrap();
    assert_eq!(values, filled(100_250_000)); // $100.25
    // a millionth of a millionth is rounded to nothing
    assert_eq!(filled(1).mul(filled(1)).unwrap(), filled(0));
    assert_eq!(filled(-1_999_999).mul(filled(1)).unwrap(), filled(-1));
    assert_eq!(filled(i64::MAX).mul(filled(2 * USD)), None);
}

#[test]
fn quotients_are_in_millionths() {
    let values = filled(100_250_000);
    let quotes = filled(40 * USD + 100_000);
    assert_eq!(values.div(quotes).unwrap(), filled(2_500_000));
    // rounded toward zero, whatever the signs
    assert_eq!(filled(10 * USD).div(filled(3 * USD)).unwrap(), filled(3_333_333));
    assert_eq!(filled(-10 * USD).div(filled(3 * USD)).unwrap(), filled(-3_333_333));
    assert_eq!(filled(10 * USD).div(filled(-3 * USD)).unwrap(), filled(-3_333_333));
    assert_eq!(filled(-10 * USD).div(filled(-3 * USD)).unwrap(), filled(3_333_333));
    // dividing by a quote of one dollar gives the value back
    assert_eq!(values.div(ShareValues::new_quote()).unwrap(), values);
    assert_eq!(filled(i64::MAX).div(filled(1)), None);
}

#[test]
fn multiplying_then_dividing_gives_the_vector_back() {
    let a = filled(12_345_678);
    let b = filled(250 * USD);
    assert_eq!(a.mul(b).unwrap().div(b).unwrap(), a);
    let c = filled(-3 * USD);
    assert_eq!(a.mul(c).unwrap().div(c).unwrap(), a);
    // where a product is rounded, something is lost
    let tiny = filled(1);
    assert_ne!(tiny.mul(tiny).unwrap().div(tiny).unwrap(), tiny);
}

#[test]
fn percentages_of_what_is_invested() {
    let mut values = ShareValues::new();
    values.add_stock_value(StockSymbol::VV, 3_000 * USD);
    values.add_stock_value(StockSymbol::VXUS, 2_000 * USD);
    values.add_stock_value(StockSymbol::BND, 3_000 * USD);
    values.add_stock_value(StockSymbol::VTIP, 1_000 * USD);
    values.add_stock_value(StockSymbol::VMFXX, 500 * USD);
    values.add_stock_value(StockSymbol::Other(String::new()), 700 * USD);
    values.add_outside_stock_value(1_000 * USD);
    // invested: 9000 inside and 1000 outside; stocks 6000, bonds 3000
    assert_eq!(values.percent_stock_bond_infl(), Some((6_000, 3_000, 1_000)));
    values.add_outside_bond_value(2_000 * USD);
    // 12000 invested: 50%, 41.66%, 8.33%
    assert_eq!(values.percent_stock_bond_infl(), Some((5_000, 4_166, 833)));
    assert_eq!(ShareValues::new().percent_stock_bond_infl(), None);
    let mut cash_only = ShareValues::new();
    cash_only.add_stock_value(StockSymbol::VMFXX, USD);
    assert_eq!(cash_only.percent_stock_bond_infl(), None);
}

#[test]
fn missing_quotes_are_those_at_one_dollar() {
    let mut quotes = ShareValues::new_quote();
    assert_eq!(quotes.missing_quotes(), StockSymbol::list().to_vec());
    quotes.add_stock_value(StockSymbol::VV, 200 * USD);
    quotes.add_stock_value(StockSymbol::BND, 75 * USD);
    quotes.add_stock_value(StockSymbol::VMFXX, 2 * USD);
    assert_eq!(
        quotes.missing_quotes(),
        vec![
            StockSymbol::VO,
            StockSymbol::VB,
            StockSymbol::VTC,
            StockSymbol::VXUS,
            StockSymbol::VWO,
            StockSymbol::BNDX,
            StockSymbol::VTIP,
        ]
    );
    assert_eq!(filled(2 * USD).missing_quotes(), Vec::<StockSymbol>::new());
}

fn position(symbol: StockSymbol) -> StockInfo {
    let mut stock_info = StockInfo::new();
    stock_info.add_account(123_456_789);
    stock_info.add_symbol(symbol);
    stock_info.add_share_price(234_500_000);
    stock_info.add_shares(10 * USD);
    stock_info.add_total_value(2_345 * USD);
    stock_info
}

#[test]
fn stock_info_is_finished_when_all_is_set() {
    let mut stock_info = StockInfo::new();
    assert!(!stock_info.finished());
    assert_eq!(stock_info.symbol, StockSymbol::Empty);
    stock_info.add_account(123_456_789);
    assert_eq!(stock_info.account_number, 123_456_789);
    stock_info.add_symbol(StockSymbol::BND);
    assert_eq!(stock_info.symbol, StockSymbol::BND);
    stock_info.add_share_price(234_500_000);
    assert_eq!(stock_info.share_price, 234_500_000);
    stock_info.add_total_value(5_000 * USD);
    assert_eq!(stock_info.total_value, 5_000 * USD);
    assert!(!stock_info.finished());
    stock_info.add_shares(10 * USD);
    assert_eq!(stock_info.shares, 10 * USD);
    assert!(stock_info.finished());
    assert!(!StockInfo::default().finished());
    assert!(stock_info.duplicate().finished());
}

#[test]
fn positions_go_into_vectors() {
    let mut quotes = ShareValues::new_quote();
    quotes.add_stockinfo_value(position(StockSymbol::BND), AddType::StockPrice);
    assert_eq!(quotes.stock_value(StockSymbol::BND), 234_500_000);
    let mut values = ShareValues::new();
    values.add_stockinfo_value(position(StockSymbol::BND), AddType::HoldingValue);
    assert_eq!(values.stock_value(StockSymbol::BND), 2_345 * USD);
    let mut shares = ShareValues::new();
    shares.add_stockinfo_value(position(StockSymbol::VMFXX), AddType::HoldingShares);
    assert_eq!(shares.stock_value(StockSymbol::VMFXX), 10 * USD);
}

#[test]
fn unsupported_positions_are_added_up() {
    let other = StockSymbol::Other("AAPL".to_string());
    let mut values = ShareValues::new();
    values.add_stockinfo_value(position(other.duplicate()), AddType::HoldingValue);
    values.add_stockinfo_value(position(StockSymbol::Other("MSFT".to_string())), AddType::HoldingValue);
    assert_eq!(values.stock_value(other.duplicate()), 4_690 * USD);
    let mut quotes = ShareValues::new();
    quotes.add_stockinfo_value(position(other.duplicate()), AddType::StockPrice);
    assert_eq!(quotes.stock_value(other.duplicate()), SCALE);
    let mut shares = ShareValues::new();
    shares.add_stockinfo_value(position(other.duplicate()), AddType::HoldingShares);
    assert_eq!(shares.stock_value(other), SCALE);
}

#[test]
fn target_of_ten_thousand_dollars() {
    let sub_allocations = SubAllocations::new().unwrap();
    let target = ShareValues::new_target(sub_allocations, 10_000 * USD, 0, 0, 0, 0).unwrap();
    // 60% stocks: 13.33% each for the US funds and total international, rounded up;
    // the first of the funds with the largest part makes up for the rounding
    assert_eq!(target.stock_value(StockSymbol::VV), 1_333_333_329);
    assert_eq!(target.stock_value(StockSymbol::VO), 1_333_333_334);
    assert_eq!(target.stock_value(StockSymbol::VB), 1_333_333_334);
    assert_eq!(target.stock_value(StockSymbol::VXUS), 1_333_333_334);
    assert_eq!(target.stock_value(StockSymbol::VWO), 666_666_667);
    assert_eq!(target.stock_value(StockSymbol::BND), 1_333_333_334);
    assert_eq!(target.stock_value(StockSymbol::VTC), 1_333_333_334);
    assert_eq!(target.stock_value(StockSymbol::BNDX), 1_333_333_334);
    assert_eq!(target.stock_value(StockSymbol::VTIP), 0);
    assert_eq!(target.stock_value(StockSymbol::VMFXX), 0);
    assert_eq!(target.stock_value(StockSymbol::Other(String::new())), 0);
    assert_eq!(target.total_value(), 10_000 * USD as i128);
}

#[test]
fn target_takes_off_what_is_held_outside() {
    let allocations = Allocations::custom(6_000, 3_000, 1_000).unwrap();
    let sub_allocations = SubAllocations::new_custom(allocations).unwrap();
    // 9000 inside, and outside: 300 US stock, 200 US bond, 400 intl stock, 100 intl bond
    let target = ShareValues::new_target(
        sub_allocations,
        9_000 * USD,
        300 * USD,
        200 * USD,
        400 * USD,
        100 * USD,
    )
    .unwrap();
    // total 10000: US funds 1333.333334 less 100; the large cap fund makes up for
    // the four millionths that rounding has added to the others
    assert_eq!(target.stock_value(StockSymbol::VV), 1_233_333_330);
    assert_eq!(target.stock_value(StockSymbol::VO), 1_233_333_334);
    assert_eq!(target.stock_value(StockSymbol::VB), 1_233_333_334);
    // total international 1333.333334 less two thirds of 400, rounded down
    assert_eq!(target.stock_value(StockSymbol::VXUS), 1_333_333_334 - 266_666_666);
    // emerging markets 666.666667 less one third of 400, rounded down
    assert_eq!(target.stock_value(StockSymbol::VWO), 666_666_667 - 133_333_333);
    // bonds 30%: 1000 each; US bond funds less 100 each, international less 100
    assert_eq!(target.stock_value(StockSymbol::BND), 900 * USD);
    assert_eq!(target.stock_value(StockSymbol::VTC), 900 * USD);
    assert_eq!(target.stock_value(StockSymbol::BNDX), 900 * USD);
    assert_eq!(target.stock_value(StockSymbol::VTIP), 1_000 * USD);
    assert_eq!(target.outside_stock_value(), 700 * USD);
    assert_eq!(target.outside_bond_value(), 300 * USD);
    assert_eq!(target.total_value(), 9_000 * USD as i128);
}

#[test]
fn targets_add_up_to_what_the_accounts_hold() {
    for (stock, bond, inflation) in [(6_000, 4_000, 0), (0, 10_000, 0), (3_333, 3_333, 3_334)] {
        for inside in [0, 1, 7, 1_000_003, 123_456_789_012, -5_000_001] {
            for outside in [0, 1, 2, 1_000_000_007] {
                let allocations = Allocations::custom(stock, bond, inflation).unwrap();
                let target = ShareValues::new_target(
                    SubAllocations::new_custom(allocations).unwrap(),
                    inside,
                    outside,
                    2 * outside,
                    3 * outside,
                    5 * outside,
                )
                .unwrap();
                assert_eq!(target.total_value(), inside as i128);
                assert_eq!(target.stock_value(StockSymbol::VMFXX), 0);
            }
        }
    }
    // all in bonds: a bond fund makes up for the rounding, and no stock fund has a target
    let allocations = Allocations::custom(0, 10_000, 0).unwrap();
    let sub_allocations = SubAllocations::new_custom(allocations).unwrap();
    let target = ShareValues::new_target(sub_allocations, 10 * USD, 0, 0, 0, 0).unwrap();
    assert_eq!(target.stock_value(StockSymbol::VTC), 3_333_332);
    assert_eq!(target.stock_value(StockSymbol::BND), 3_333_334);
    assert_eq!(target.stock_value(StockSymbol::BNDX), 3_333_334);
    assert_eq!(target.stock_value(StockSymbol::VV), 0);
}

#[test]
fn target_that_cannot_be_stored_is_refused() {
    let sub_allocations = SubAllocations::new().unwrap();
    // the stocks held outside add up to more than can be stored
    assert!(ShareValues::new_target(sub_allocations, 0, i64::MAX, 0, i64::MAX, 0).is_none());
    let huge = SubAllocations {
        us_stock_large: i64::MAX,
        us_stock_mid: 0,
        us_stock_small: 0,
        us_tot_bond: 0,
        us_corp_bond: 0,
        int_tot_stock: 0,
        int_emerging_stock: 0,
        int_bond: 0,
        inflation_protected: 0,
    };
    assert!(ShareValues::new_target(huge, i64::MAX, i64::MAX, i64::MAX, i64::MAX, i64::MAX).is_none());
    let huge_but_nothing_to_share = SubAllocations {
        us_stock_large: i64::MAX,
        us_stock_mid: 0,
        us_stock_small: 0,
        us_tot_bond: 0,
        us_corp_bond: 0,
        int_tot_stock: 0,
        int_emerging_stock: 0,
        int_bond: 0,
        inflation_protected: 0,
    };
    assert_eq!(
        ShareValues::new_target(huge_but_nothing_to_share, 0, 0, 0, 0, 0),
        Some(ShareValues::new())
    );
}
