//! Target allocations: how much of a portfolio belongs in stocks, in bonds and in
//! inflation protected securities, and how that divides over the nine funds.
//!
//! Percentages are counted in basis points: `10_000` is the whole portfolio. The
//! shares of the nine funds are thirds and ninths of those, and are counted in
//! ninths of a basis point, so that they are exact too: `90_000` is the whole
//! portfolio.
use crate::calendar::this_year;
use crate::error::RebalanceError;
use vstd::prelude::*;

verus! {

/// The whole portfolio in basis points.
pub const WHOLE: i32 = 10_000;

/// The whole portfolio in ninths of a basis point.
pub const WHOLE_IN_NINTHS: i64 = 90_000;

/// Stock, bond and inflation protected shares of a portfolio, in basis points.
pub struct Mix {
    pub stock: int,
    pub bond: int,
    pub inflation_protected: int,
}

impl Mix {
    /// The three shares together.
    pub open spec fn sum(self) -> int {
        self.stock + self.bond + self.inflation_protected
    }
}

/// The allocation for a number of years until retirement, which is negative
/// after it.
///
/// Thirty years or more before retirement, 90% is in stocks and 10% in bonds.
/// From 5 to less than 30 years before it, the stock share is 90% at 25 years and
/// 1.5% less for each year that retirement is nearer than that, or more for each
/// year that it is farther; the bonds take the rest. Less than 5 years before
/// retirement and up to 5 years after it, the stock share is 60% less 2.8% for
/// each year that retirement is nearer than 5 years, the inflation protected
/// share is 1.8% for each of these years, and the bonds take the rest. More than 5
/// years after retirement, the allocation stays at 29% stocks, 53% bonds and 18%
/// inflation protected securities.
pub open spec fn glide_path(years_to_retirement: int) -> Mix {
    if 5 <= years_to_retirement < 30 {
        let stock = 9_000 - 150 * (25 - years_to_retirement);
        Mix { stock, bond: 10_000 - stock, inflation_protected: 0 }
    } else if -5 <= years_to_retirement < 5 {
        let stock = 6_000 + 280 * (years_to_retirement - 5);
        let inflation_protected = -180 * (years_to_retirement - 5);
        Mix { stock, bond: 10_000 - stock - inflation_protected, inflation_protected }
    } else if years_to_retirement < -5 {
        Mix { stock: 2_900, bond: 5_300, inflation_protected: 1_800 }
    } else {
        Mix { stock: 9_000, bond: 1_000, inflation_protected: 0 }
    }
}

/// Whether a retirement year is one for which an allocation is computed.
pub open spec fn supported_year(year: int) -> bool {
    2000 <= year < 3000
}

/// What [`Allocations::retirement`] returns when the current year is `now`.
pub open spec fn retirement_allocation(year: int, now: int) -> Result<Mix, RebalanceError> {
    if supported_year(year) {
        Ok(glide_path(year - now))
    } else {
        Err(RebalanceError::RetirementYear)
    }
}

/// The stock, bond and inflation protected percentages of a portfolio, in basis
/// points. They add up to 100%: no allocation exists of which they do not.
#[derive(Clone, Copy, Debug)]
pub struct Allocations {
    total_stock: i32,
    total_bond: i32,
    total_inflation_protected: i32,
}

impl View for Allocations {
    type V = Mix;

    closed spec fn view(&self) -> Mix {
        Mix {
            stock: self.total_stock as int,
            bond: self.total_bond as int,
            inflation_protected: self.total_inflation_protected as int,
        }
    }
}

impl Allocations {
    #[verifier::type_invariant]
    spec fn adds_up(&self) -> bool {
        self.total_stock + self.total_bond + self.total_inflation_protected == WHOLE
    }

    /// The allocation of 60% stocks and 40% bonds.
    pub fn new() -> (r: Allocations)
        ensures
            r@ == (Mix { stock: 6_000, bond: 4_000, inflation_protected: 0 }),
            r@.sum() == WHOLE,
    {
        Allocations { total_stock: 6_000, total_bond: 4_000, total_inflation_protected: 0 }
    }

    /// The allocation on the glide path for someone who retires in `year`, seen
    /// from the current year of the local calendar.
    pub fn retirement(year: i32) -> (r: Result<Allocations, RebalanceError>)
        ensures
            exists|now: i32|
                match #[trigger] retirement_allocation(year as int, now as int) {
                    Ok(mix) => r matches Ok(allocations) && allocations@ == mix,
                    Err(error) => r == Err::<Allocations, RebalanceError>(error),
                },
            !supported_year(year as int) ==> r == Err::<Allocations, RebalanceError>(
                RebalanceError::RetirementYear,
            ),
            supported_year(year as int) ==> r is Ok,
            r matches Ok(allocations) ==> allocations@.sum() == WHOLE,
    {
        let now: i32 = this_year();
        let r = Allocations::retirement_in(year, now);
        assert(match retirement_allocation(year as int, now as int) {
            Ok(mix) => r matches Ok(allocations) && allocations@ == mix,
            Err(error) => r == Err::<Allocations, RebalanceError>(error),
        });
        r
    }

    /// The allocation on the glide path for someone who retires in `year`, seen
    /// from the year `now`.
    pub fn retirement_in(year: i32, now: i32) -> (r: Result<Allocations, RebalanceError>)
        ensures
            match retirement_allocation(year as int, now as int) {
                Ok(mix) => r matches Ok(allocations) && allocations@ == mix,
                Err(error) => r == Err::<Allocations, RebalanceError>(error),
            },
            r matches Ok(allocations) ==> allocations@.sum() == WHOLE,
    {
        if year < 2000 || year >= 3000 {
            return Err(RebalanceError::RetirementYear);
        }
        let years_to_retirement: i64 = year as i64 - now as i64;
        let mut total_stock: i64 = 9_000;
        let mut total_bond: i64 = 1_000;
        let mut total_inflation_protected: i64 = 0;
        if 5 <= years_to_retirement && years_to_retirement < 30 {
            total_stock = 9_000 - 150 * (25 - years_to_retirement);
            total_bond = 10_000 - total_stock;
        } else if -5 <= years_to_retirement && years_to_retirement < 5 {
            total_stock = 6_000 + 280 * (years_to_retirement - 5);
            total_inflation_protected = -180 * (years_to_retirement - 5);
            total_bond = 10_000 - total_stock - total_inflation_protected;
        } else if years_to_retirement < -5 {
            total_stock = 2_900;
            total_bond = 5_300;
            total_inflation_protected = 1_800;
        }
        Ok(
            Allocations {
                total_stock: total_stock as i32,
                total_bond: total_bond as i32,
                total_inflation_protected: total_inflation_protected as i32,
            },
        )
    }

    /// The allocation with the given percentages, which must add up to 100%.
    pub fn custom(total_stock: i32, total_bond: i32, total_inflation_protected: i32) -> (r: Result<
        Allocations,
        RebalanceError,
    >)
        ensures
            total_stock + total_bond + total_inflation_protected == WHOLE ==> (r matches Ok(
                allocations,
            ) && allocations@ == (Mix {
                stock: total_stock as int,
                bond: total_bond as int,
                inflation_protected: total_inflation_protected as int,
            })),
            total_stock + total_bond + total_inflation_protected != WHOLE ==> r == Err::<
                Allocations,
                RebalanceError,
            >(RebalanceError::AllocationSum),
            r matches Ok(allocations) ==> allocations@.sum() == WHOLE,
    {
        if total_stock as i64 + total_bond as i64 + total_inflation_protected as i64
            != WHOLE as i64 {
            return Err(RebalanceError::AllocationSum);
        }
        Ok(Allocations { total_stock, total_bond, total_inflation_protected })
    }

    /// The stock percentage, in basis points.
    pub fn total_stock(&self) -> (r: i32)
        ensures
            r == self@.stock,
            self@.sum() == WHOLE,
    {
        proof {
            use_type_invariant(self);
        }
        self.total_stock
    }

    /// The bond percentage, in basis points.
    pub fn total_bond(&self) -> (r: i32)
        ensures
            r == self@.bond,
            self@.sum() == WHOLE,
    {
        proof {
            use_type_invariant(self);
        }
        self.total_bond
    }

    /// The inflation protected percentage, in basis points.
    pub fn total_inflation_protected(&self) -> (r: i32)
        ensures
            r == self@.inflation_protected,
            self@.sum() == WHOLE,
    {
        proof {
            use_type_invariant(self);
        }
        self.total_inflation_protected
    }
}

impl Default for Allocations {
    fn default() -> (r: Allocations)
        ensures
            r@ == (Mix { stock: 6_000, bond: 4_000, inflation_protected: 0 }),
    {
        Allocations::new()
    }
}

/// The shares of the nine funds in a portfolio, in ninths of a basis point.
pub struct Parts {
    pub us_stock_large: int,
    pub us_stock_mid: int,
    pub us_stock_small: int,
    pub us_tot_bond: int,
    pub us_corp_bond: int,
    pub int_tot_stock: int,
    pub int_emerging_stock: int,
    pub int_bond: int,
    pub inflation_protected: int,
}

impl Parts {
    /// The nine shares together.
    pub open spec fn sum(self) -> int {
        self.us_stock_large + self.us_stock_mid + self.us_stock_small + self.us_tot_bond
            + self.us_corp_bond + self.int_tot_stock + self.int_emerging_stock + self.int_bond
            + self.inflation_protected
    }
}

/// How an allocation divides over the nine funds.
///
/// Two thirds of the stocks are US stocks, in equal parts large, mid and small
/// cap. The other third is international, of which two thirds go to the total
/// international fund and one third to emerging markets. Two thirds of the bonds
/// are US bonds, half total bond and half corporate bond; the other third is
/// international bonds. The inflation protected share is one fund.
pub open spec fn split(mix: Mix) -> Parts {
    Parts {
        us_stock_large: 2 * mix.stock,
        us_stock_mid: 2 * mix.stock,
        us_stock_small: 2 * mix.stock,
        us_tot_bond: 3 * mix.bond,
        us_corp_bond: 3 * mix.bond,
        int_tot_stock: 2 * mix.stock,
        int_emerging_stock: mix.stock,
        int_bond: 3 * mix.bond,
        inflation_protected: 9 * mix.inflation_protected,
    }
}

/// The shares of the nine funds always add up to the shares of the allocation
/// they divide.
pub proof fn lemma_split_keeps_sum(mix: Mix)
    ensures
        split(mix).sum() == 9 * mix.sum(),
{
}

/// On the glide path of every supported retirement year, seen from any year, the
/// percentages of the nine funds add up to 100%.
pub proof fn lemma_glide_path_split_adds_up(year: int, now: int)
    requires
        supported_year(year),
    ensures
        retirement_allocation(year, now) is Ok,
        glide_path(year - now).sum() == WHOLE,
        split(glide_path(year - now)).sum() == WHOLE_IN_NINTHS,
{
}

/// The percentage of the portfolio that belongs in each of the nine funds, in
/// ninths of a basis point.
#[derive(Clone, Copy, Debug)]
pub struct SubAllocations {
    pub us_stock_large: i64,
    pub us_stock_mid: i64,
    pub us_stock_small: i64,
    pub us_tot_bond: i64,
    pub us_corp_bond: i64,
    pub int_tot_stock: i64,
    pub int_emerging_stock: i64,
    pub int_bond: i64,
    pub inflation_protected: i64,
}

impl View for SubAllocations {
    type V = Parts;

    open spec fn view(&self) -> Parts {
        Parts {
            us_stock_large: self.us_stock_large as int,
            us_stock_mid: self.us_stock_mid as int,
            us_stock_small: self.us_stock_small as int,
            us_tot_bond: self.us_tot_bond as int,
            us_corp_bond: self.us_corp_bond as int,
            int_tot_stock: self.int_tot_stock as int,
            int_emerging_stock: self.int_emerging_stock as int,
            int_bond: self.int_bond as int,
            inflation_protected: self.inflation_protected as int,
        }
    }
}

impl SubAllocations {
    /// The fund percentages of the allocation of 60% stocks and 40% bonds.
    pub fn new() -> (r: Result<SubAllocations, RebalanceError>)
        ensures
            r matches Ok(parts) && parts@ == split(
                Mix { stock: 6_000, bond: 4_000, inflation_protected: 0 },
            ),
    {
        let allocations = Allocations::new();
        Self::new_custom(allocations)
    }

    /// The fund percentages of an allocation. The nine are checked to add up to
    /// 100% within a tenth of a percent; as thirds and ninths are exact here,
    /// they always do.
    pub fn new_custom(allocations: Allocations) -> (r: Result<SubAllocations, RebalanceError>)
        ensures
            r matches Ok(parts) && parts@ == split(allocations@),
    {
        proof {
            use_type_invariant(&allocations);
        }
        let stock: i64 = allocations.total_stock() as i64;
        let bond: i64 = allocations.total_bond() as i64;
        let us_stock_large: i64 = 2 * stock;
        let us_stock_mid: i64 = 2 * stock;
        let us_stock_small: i64 = 2 * stock;
        let us_tot_bond: i64 = 3 * bond;
        let us_corp_bond: i64 = 3 * bond;
        let int_tot_stock: i64 = 2 * stock;
        let int_emerging_stock: i64 = stock;
        let int_bond: i64 = 3 * bond;
        let inflation_protected: i64 = 9 * (allocations.total_inflation_protected() as i64);
        let sum: i64 = us_stock_large + us_stock_mid + us_stock_small + us_tot_bond
            + us_corp_bond + int_tot_stock + int_emerging_stock + int_bond + inflation_protected;
        if sum < 89_910 || sum >= 90_090 {
            return Err(RebalanceError::SubAllocationSum);
        }
        Ok(
            SubAllocations {
                us_stock_large,
                us_stock_mid,
                us_stock_small,
                us_tot_bond,
                us_corp_bond,
                int_tot_stock,
                int_emerging_stock,
                int_bond,
                inflation_protected,
            },
        )
    }
}

} // verus!
