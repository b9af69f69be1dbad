use chrono::Datelike;
use vapore::asset::{Allocations, SubAllocations};
use vapore::error::RebalanceError;

#[test]
fn glide_path_ten_years_before_retirement() {
    let allocations = Allocations::retirement_in(2035, 2025).unwrap();
    assert_eq!(allocations.total_stock(), 6_750);
    assert_eq!(allocations.total_bond(), 3_250);
    assert_eq!(allocations.total_inflation_protected(), 0);
}

#[test]
fn glide_path_in_the_year_of_retirement() {
    let allocations = Allocations::retirement_in(2025, 2025).unwrap();
    assert_eq!(allocations.total_stock(), 4_600);
    assert_eq!(allocations.total_inflation_protected(), 900);
    assert_eq!(allocations.total_bond(), 4_500);
}

#[test]
fn glide_path_long_before_retirement() {
    let allocations = Allocations::retirement_in(2060, 2025).unwrap();
    assert_eq!(allocations.total_stock(), 9_000);
    assert_eq!(allocations.total_bond(), 1_000);
    assert_eq!(allocations.total_inflation_protected(), 0);
    let at_thirty = Allocations::retirement_in(2055, 2025).unwrap();
    assert_eq!(at_thirty.total_stock(), 9_000);
}

#[test]
fn glide_path_long_after_retirement() {
    let allocations = Allocations::retirement_in(2010, 2025).unwrap();
    assert_eq!(allocations.total_stock(), 2_900);
    assert_eq!(allocations.total_bond(), 5_300);
    assert_eq!(allocations.total_inflation_protected(), 1_800);
}

#[test]
fn glide_path_at_the_ends_of_its_pieces() {
    // 29 years before: 90 - 1.5 * (25 - 29) = 96
    let early = Allocations::retirement_in(2054, 2025).unwrap();
    assert_eq!(early.total_stock(), 9_600);
    assert_eq!(early.total_bond(), 400);
    // 5 years before: 90 - 1.5 * 20 = 60
    let five_before = Allocations::retirement_in(2030, 2025).unwrap();
    assert_eq!(five_before.total_stock(), 6_000);
    assert_eq!(five_before.total_bond(), 4_000);
    // 4 years before: 60 - 2.8, and 1.8 inflation protected
    let four_before = Allocations::retirement_in(2029, 2025).unwrap();
    assert_eq!(four_before.total_stock(), 5_720);
    assert_eq!(four_before.total_inflation_protected(), 180);
    assert_eq!(four_before.total_bond(), 4_100);
    // 5 years after: 60 - 28 = 32, 18 inflation protected
    let five_after = Allocations::retirement_in(2020, 2025).unwrap();
    assert_eq!(five_after.total_stock(), 3_200);
    assert_eq!(five_after.total_inflation_protected(), 1_800);
    assert_eq!(five_after.total_bond(), 5_000);
    // 6 years after: the allocation of retirement
    let six_after = Allocations::retirement_in(2019, 2025).unwrap();
    assert_eq!(six_after.total_stock(), 2_900);
}

#[test]
fn retirement_year_must_be_supported() {
    assert!(matches!(Allocations::retirement_in(1999, 2025), Err(RebalanceError::RetirementYear)));
    assert!(matches!(Allocations::retirement_in(3000, 2025), Err(RebalanceError::RetirementYear)));
    assert!(Allocations::retirement_in(2000, 2025).is_ok());
    assert!(Allocations::retirement_in(2999, 2025).is_ok());
    assert!(matches!(Allocations::retirement(1999), Err(RebalanceError::RetirementYear)));
}

#[test]
fn retirement_uses_the_current_year() {
    let now = chrono::Local::now().year();
    for year in [2000, 2030, 2040, 2060, 2999] {
        let by_clock = Allocations::retirement(year).unwrap();
        let by_hand = Allocations::retirement_in(year, now).unwrap();
        assert_eq!(by_clock.total_stock(), by_hand.total_stock());
        assert_eq!(by_clock.total_bond(), by_hand.total_bond());
        assert_eq!(by_clock.total_inflation_protected(), by_hand.total_inflation_protected());
    }
    // the glide path depends on the year: it cannot be the same 40 years apart
    let far = Allocations::retirement_in(now + 40, now).unwrap();
    let near = Allocations::retirement_in(now, now).unwrap();
    assert_ne!(far.total_stock(), near.total_stock());
}

#[test]
fn custom_allocation_must_add_up() {
    let allocations = Allocations::custom(6_000, 3_000, 1_000).unwrap();
    assert_eq!(allocations.total_stock(), 6_000);
    assert_eq!(allocations.total_bond(), 3_000);
    assert_eq!(allocations.total_inflation_protected(), 1_000);
    assert!(matches!(Allocations::custom(6_000, 3_999, 0), Err(RebalanceError::AllocationSum)));
    assert!(matches!(Allocations::custom(6_000, 4_001, 0), Err(RebalanceError::AllocationSum)));
    assert!(matches!(
        Allocations::custom(i32::MAX, i32::MAX, i32::MAX),
        Err(RebalanceError::AllocationSum)
    ));
    // a share may be negative as long as the three add up
    assert!(Allocations::custom(12_000, -2_000, 0).is_ok());
}

#[test]
fn every_allocation_adds_up() {
    for year in 2000..3000 {
        for now in [1990, 2024, 2025, 2026, 2100, 3100] {
            let allocations = Allocations::retirement_in(year, now).unwrap();
            assert_eq!(
                allocations.total_stock()
                    + allocations.total_bond()
                    + allocations.total_inflation_protected(),
                10_000
            );
        }
    }
}

#[test]
fn default_allocation_is_sixty_forty() {
    let allocations = Allocations::new();
    assert_eq!(allocations.total_stock(), 6_000);
    assert_eq!(allocations.total_bond(), 4_000);
    assert_eq!(allocations.total_inflation_protected(), 0);
    let by_default = Allocations::default();
    assert_eq!(by_default.total_stock(), 6_000);
}

fn sum(parts: &SubAllocations) -> i64 {
    parts.us_stock_large
        + parts.us_stock_mid
        + parts.us_stock_small
        + parts.us_tot_bond
        + parts.us_corp_bond
        + parts.int_tot_stock
        + parts.int_emerging_stock
        + parts.int_bond
        + parts.inflation_protected
}

#[test]
fn default_sub_allocations_add_up() {
    let parts = SubAllocations::new().unwrap();
    assert_eq!(sum(&parts), 90_000);
    // 60% stocks: two ninths each for the US funds and total international
    assert_eq!(parts.us_stock_large, 12_000);
    assert_eq!(parts.us_stock_mid, 12_000);
    assert_eq!(parts.us_stock_small, 12_000);
    assert_eq!(parts.int_tot_stock, 12_000);
    assert_eq!(parts.int_emerging_stock, 6_000);
    // 40% bonds: a third each
    assert_eq!(parts.us_tot_bond, 12_000);
    assert_eq!(parts.us_corp_bond, 12_000);
    assert_eq!(parts.int_bond, 12_000);
    assert_eq!(parts.inflation_protected, 0);
}

#[test]
fn glide_path_sub_allocations_add_up() {
    for year in 2000..3000 {
        let allocations = Allocations::retirement_in(year, 2025).unwrap();
        let parts = SubAllocations::new_custom(allocations).unwrap();
        assert_eq!(sum(&parts), 90_000);
    }
}

#[test]
fn sub_allocations_of_the_year_of_retirement() {
    let allocations = Allocations::retirement_in(2025, 2025).unwrap();
    let parts = SubAllocations::new_custom(allocations).unwrap();
    assert_eq!(parts.us_stock_large, 9_200);
    assert_eq!(parts.int_emerging_stock, 4_600);
    assert_eq!(parts.us_tot_bond, 13_500);
    assert_eq!(parts.int_bond, 13_500);
    assert_eq!(parts.inflation_protected, 8_100);
}
