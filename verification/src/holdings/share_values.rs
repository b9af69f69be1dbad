//! The value vector: one amount for each supported fund.
use crate::asset::{Parts, SubAllocations, WHOLE_IN_NINTHS};
use crate::fixed::{
    checked_difference, checked_product, checked_ratio, checked_share, checked_sum, fits, narrow,
    quotient, rounded_down, rounded_up, wide_quotient, wide_rounded_down, SCALE,
};
use crate::holdings::stock_info::{AddType, StockInfo};
use crate::holdings::symbol::{Fund, StockSymbol};
use crate::holdings::values::Values;
use vstd::prelude::*;

verus! {

/// One amount for each of the nine funds, for cash (`VMFXX`) and for the
/// unsupported funds together, and two more for the bonds and the stocks that are
/// held outside the accounts. The amounts are in millionths and may stand for
/// dollar values, share counts or prices.
#[derive(Clone, Copy, PartialEq, Eq, Debug, Structural)]
pub struct ShareValues {
    vxus: i64,
    bndx: i64,
    bnd: i64,
    vwo: i64,
    vo: i64,
    vb: i64,
    vtc: i64,
    vv: i64,
    vtip: i64,
    vmfxx: i64,
    other: i64,
    outside_bond: i64,
    outside_stock: i64,
}

impl View for ShareValues {
    type V = Values;

    closed spec fn view(&self) -> Values {
        Values {
            vxus: self.vxus as int,
            bndx: self.bndx as int,
            bnd: self.bnd as int,
            vwo: self.vwo as int,
            vo: self.vo as int,
            vb: self.vb as int,
            vtc: self.vtc as int,
            vv: self.vv as int,
            vtip: self.vtip as int,
            vmfxx: self.vmfxx as int,
            other: self.other as int,
            outside_bond: self.outside_bond as int,
            outside_stock: self.outside_stock as int,
        }
    }
}

/// The part of `total` that belongs in a fund with the share `part`, rounded up
/// to the next millionth. Rounded up, the nine parts never fall short of the
/// total.
pub open spec fn share_of(total: int, part: int) -> int {
    rounded_up(total * part, WHOLE_IN_NINTHS as int)
}

/// What the formula gives each fund before rounding is made up for.
///
/// The total to allocate is what the accounts hold and what is held outside
/// them. Each fund gets its part of that total, less what is already held
/// outside the accounts in its class: US stocks held outside count in equal
/// thirds toward the large, mid and small cap funds, international stocks count
/// two thirds toward the total international fund and one third toward emerging
/// markets, US bonds count in halves toward the total bond and the corporate bond
/// funds, and international bonds count toward the international bond fund. What
/// is taken off is rounded down. No cash and no unsupported fund is aimed for.
pub open spec fn shares_by_formula(
    parts: Parts,
    total_vanguard_value: int,
    other_us_stock_value: int,
    other_us_bond_value: int,
    other_int_stock_value: int,
    other_int_bond_value: int,
) -> Values {
    let total = total_vanguard_value + other_us_stock_value + other_us_bond_value
        + other_int_bond_value + other_int_stock_value;
    Values {
        vxus: share_of(total, parts.int_tot_stock) - rounded_down(other_int_stock_value * 2, 3),
        bndx: share_of(total, parts.int_bond) - other_int_bond_value,
        bnd: share_of(total, parts.us_tot_bond) - rounded_down(other_us_bond_value, 2),
        vwo: share_of(total, parts.int_emerging_stock) - rounded_down(other_int_stock_value, 3),
        vo: share_of(total, parts.us_stock_mid) - rounded_down(other_us_stock_value, 3),
        vb: share_of(total, parts.us_stock_small) - rounded_down(other_us_stock_value, 3),
        vtc: share_of(total, parts.us_corp_bond) - rounded_down(other_us_bond_value, 2),
        vv: share_of(total, parts.us_stock_large) - rounded_down(other_us_stock_value, 3),
        vtip: share_of(total, parts.inflation_protected),
        vmfxx: 0,
        other: 0,
        outside_bond: other_int_bond_value + other_us_bond_value,
        outside_stock: other_us_stock_value + other_int_stock_value,
    }
}

/// The heavier of two funds: the second only where its part is larger.
pub open spec fn heavier(best: (Fund, int), fund: Fund, part: int) -> (Fund, int) {
    if part > best.1 {
        (fund, part)
    } else {
        best
    }
}

/// The fund with the largest part of the portfolio; among funds with the same
/// part, the first in the order in which the funds are displayed.
pub open spec fn heaviest(parts: Parts) -> Fund {
    let best = (Fund::VV, parts.us_stock_large);
    let best = heavier(best, Fund::VO, parts.us_stock_mid);
    let best = heavier(best, Fund::VB, parts.us_stock_small);
    let best = heavier(best, Fund::VTC, parts.us_corp_bond);
    let best = heavier(best, Fund::BND, parts.us_tot_bond);
    let best = heavier(best, Fund::VXUS, parts.int_tot_stock);
    let best = heavier(best, Fund::VWO, parts.int_emerging_stock);
    let best = heavier(best, Fund::BNDX, parts.int_bond);
    let best = heavier(best, Fund::VTIP, parts.inflation_protected);
    best.0
}

/// The values that the accounts should hold of each fund.
///
/// Every fund but one has what the formula gives it: see [`shares_by_formula`].
/// The fund with the largest part has what is then left of what the accounts
/// hold, so that the nine targets add up to exactly that value: rounding
/// neither adds a millionth to what is handed out nor loses one.
#[verifier::opaque]
pub open spec fn target_values(
    parts: Parts,
    total_vanguard_value: int,
    other_us_stock_value: int,
    other_us_bond_value: int,
    other_int_stock_value: int,
    other_int_bond_value: int,
) -> Values {
    let formula = shares_by_formula(
        parts,
        total_vanguard_value,
        other_us_stock_value,
        other_us_bond_value,
        other_int_stock_value,
        other_int_bond_value,
    );
    let fund = heaviest(parts);
    formula.with(fund, total_vanguard_value - (formula.total() - formula.at(fund)))
}

/// A vector with nothing kept for one fund.
pub open spec fn passed_over(values: Values, fund: Fund) -> Values {
    values.with(fund, 0)
}

/// What is kept for a fund can be replaced in two steps: first by nothing, then
/// by what is to be kept. The total changes by what the fund gains.
pub proof fn lemma_passed_over(values: Values, fund: Fund, amount: int)
    requires
        !(fund is Empty) && !(fund is Other) && !(fund is VMFXX),
    ensures
        values.with(fund, amount) == passed_over(values, fund).with(fund, amount),
        passed_over(values, fund).total() == values.total() - values.at(fund),
        values.with(fund, amount).fits() <==> passed_over(values, fund).fits() && fits(amount),
        values.with(fund, amount).total() == values.total() - values.at(fund) + amount,
{
    match fund {
        Fund::VXUS => {},
        Fund::BNDX => {},
        Fund::VTIP => {},
        Fund::BND => {},
        Fund::VWO => {},
        Fund::VO => {},
        Fund::VB => {},
        Fund::VTC => {},
        Fund::VV => {},
        _ => {},
    }
}

/// The fund with the largest part is one of the nine funds.
pub proof fn lemma_heaviest_is_a_fund(parts: Parts)
    ensures
        !(heaviest(parts) is Empty) && !(heaviest(parts) is Other) && !(heaviest(parts) is VMFXX),
{
}

/// The target that the formula gives one fund: its part of the total, less what
/// is held outside. The fund that is to make up for rounding is passed over with
/// zero.
fn fund_target(skip: bool, total: i128, part: i64, outside: i128) -> (r: Option<i64>)
    requires
        -0x2_0000_0000_0000_0000 <= outside <= 0x2_0000_0000_0000_0000,
    ensures
        r == if skip {
            Some(0i64)
        } else if fits(share_of(total as int, part as int) - outside) {
            Some((share_of(total as int, part as int) - outside) as i64)
        } else {
            None::<i64>
        },
{
    if skip {
        return Some(0);
    }
    let share: i128 = checked_share(total, part, WHOLE_IN_NINTHS)?;
    if share < -0x1_0000_0000_0000_0000_0000_0000i128 || share
        > 0x1_0000_0000_0000_0000_0000_0000i128 {
        return None;
    }
    narrow(share - outside)
}

/// The fund with the largest part: see [`heaviest`].
fn heaviest_fund(sub_allocations: &SubAllocations) -> (r: Fund)
    ensures
        r == heaviest(sub_allocations@),
{
    let mut fund = Fund::VV;
    let mut part: i64 = sub_allocations.us_stock_large;
    if sub_allocations.us_stock_mid > part {
        fund = Fund::VO;
        part = sub_allocations.us_stock_mid;
    }
    if sub_allocations.us_stock_small > part {
        fund = Fund::VB;
        part = sub_allocations.us_stock_small;
    }
    if sub_allocations.us_corp_bond > part {
        fund = Fund::VTC;
        part = sub_allocations.us_corp_bond;
    }
    if sub_allocations.us_tot_bond > part {
        fund = Fund::BND;
        part = sub_allocations.us_tot_bond;
    }
    if sub_allocations.int_tot_stock > part {
        fund = Fund::VXUS;
        part = sub_allocations.int_tot_stock;
    }
    if sub_allocations.int_emerging_stock > part {
        fund = Fund::VWO;
        part = sub_allocations.int_emerging_stock;
    }
    if sub_allocations.int_bond > part {
        fund = Fund::BNDX;
        part = sub_allocations.int_bond;
    }
    if sub_allocations.inflation_protected > part {
        fund = Fund::VTIP;
    }
    fund
}

/// The amount of a position that goes into a vector.
pub open spec fn amount_of(stock_info: StockInfo, add_type: AddType) -> int {
    match add_type {
        AddType::StockPrice => stock_info.share_price as int,
        AddType::HoldingValue => stock_info.total_value as int,
        AddType::HoldingShares => stock_info.shares as int,
    }
}

/// A vector with an amount of a fund put into it.
///
/// The amount of a supported fund, and of cash, replaces what the vector held of
/// it. The values of the unsupported funds are added up in the slot that they
/// share; their prices and their share counts mean nothing together, and that
/// slot is set to one.
pub open spec fn placed(values: Values, fund: Fund, amount: int, add_type: AddType) -> Values {
    if fund is Other {
        match add_type {
            AddType::HoldingValue => Values { other: values.other + amount, ..values },
            _ => Values { other: SCALE as int, ..values },
        }
    } else {
        values.with(fund, amount)
    }
}

/// A vector with a position put into it: see [`placed`].
pub open spec fn with_position(values: Values, stock_info: StockInfo, add_type: AddType) -> Values {
    placed(values, stock_info.symbol.fund(), amount_of(stock_info, add_type), add_type)
}

/// The part of a whole in basis points, rounded toward zero.
pub open spec fn percent_of(part: int, whole: int) -> int
    recommends
        whole != 0,
{
    quotient(part * 10_000, whole)
}

/// The first `count` of the given symbols that have no price yet: their price is
/// still one dollar.
pub open spec fn unpriced(quotes: Values, symbols: Seq<StockSymbol>, count: nat) -> Seq<
    StockSymbol,
>
    decreases count,
{
    if count == 0 {
        Seq::empty()
    } else if quotes.get(symbols[count - 1]) == SCALE {
        unpriced(quotes, symbols, (count - 1) as nat).push(symbols[count - 1])
    } else {
        unpriced(quotes, symbols, (count - 1) as nat)
    }
}

impl ShareValues {
    /// What a vector holds can be stored, and two vectors that hold the same are
    /// the same vector.
    pub proof fn lemma_view(self, other: ShareValues)
        ensures
            self@.fits(),
            self@ == other@ ==> self == other,
    {
    }

    /// Where the sum of two vectors can be stored, taking the second off the
    /// sum can be stored too, and gives the first back.
    pub proof fn lemma_add_then_sub(self, other: ShareValues)
        ensures
            self@.plus(other@).minus(other@).fits(),
            self@.plus(other@).minus(other@) == self@,
    {
    }

    /// Where a vector is multiplied by one without a zero and no product is
    /// rounded, dividing the product by the second can be stored, and gives the
    /// first back.
    pub proof fn lemma_mul_then_div(self, other: ShareValues)
        requires
            other@.no_zero(),
            self@.times_exactly(other@),
        ensures
            self@.times(other@).over(other@).fits(),
            self@.times(other@).over(other@) == self@,
    {
        self@.lemma_times_then_over(other@);
    }

    /// The vector of zeros.
    pub fn new() -> (r: ShareValues)
        ensures
            r@ == Values::zero(),
    {
        ShareValues {
            vxus: 0,
            bndx: 0,
            bnd: 0,
            vwo: 0,
            vo: 0,
            vb: 0,
            vtc: 0,
            vv: 0,
            vtip: 0,
            vmfxx: 0,
            other: 0,
            outside_bond: 0,
            outside_stock: 0,
        }
    }

    /// The vector of prices before any price is known: one dollar in every slot.
    /// A price that stays at one dollar is a price that was never set, and to
    /// divide a value by it gives the value back.
    pub fn new_quote() -> (r: ShareValues)
        ensures
            r@ == Values::filled(SCALE as int),
            r@.no_zero(),
    {
        ShareValues {
            vxus: SCALE,
            bndx: SCALE,
            bnd: SCALE,
            vwo: SCALE,
            vo: SCALE,
            vb: SCALE,
            vtc: SCALE,
            vv: SCALE,
            vtip: SCALE,
            vmfxx: SCALE,
            other: SCALE,
            outside_bond: SCALE,
            outside_stock: SCALE,
        }
    }

    /// The values that the accounts should hold of each fund, for the fund
    /// percentages `sub_allocations`, the value `total_vanguard_value` that the
    /// accounts hold, and the US stocks, US bonds, international stocks and
    /// international bonds held outside them. `None` where a target cannot be
    /// stored.
    pub fn new_target(
        sub_allocations: SubAllocations,
        total_vanguard_value: i64,
        other_us_stock_value: i64,
        other_us_bond_value: i64,
        other_int_stock_value: i64,
        other_int_bond_value: i64,
    ) -> (r: Option<ShareValues>)
        ensures
            r is Some <==> target_values(
                sub_allocations@,
                total_vanguard_value as int,
                other_us_stock_value as int,
                other_us_bond_value as int,
                other_int_stock_value as int,
                other_int_bond_value as int,
            ).fits(),
            r matches Some(target) ==> target@ == target_values(
                sub_allocations@,
                total_vanguard_value as int,
                other_us_stock_value as int,
                other_us_bond_value as int,
                other_int_stock_value as int,
                other_int_bond_value as int,
            ),
    {
        let heavy = heaviest_fund(&sub_allocations);
        let ghost formula = shares_by_formula(
            sub_allocations@,
            total_vanguard_value as int,
            other_us_stock_value as int,
            other_us_bond_value as int,
            other_int_stock_value as int,
            other_int_bond_value as int,
        );
        proof {
            reveal(target_values);
            lemma_heaviest_is_a_fund(sub_allocations@);
            lemma_passed_over(
                formula,
                heavy,
                total_vanguard_value - (formula.total() - formula.at(heavy)),
            );
        }
        let mut target = ShareValues::formula_targets(
            heavy,
            sub_allocations,
            total_vanguard_value,
            other_us_stock_value,
            other_us_bond_value,
            other_int_stock_value,
            other_int_bond_value,
        )?;
        let rest: i64 = narrow(total_vanguard_value as i128 - target.total_value())?;
        target.put(heavy, rest);
        Some(target)
    }

    /// What the formula gives every fund but `heavy`, which is passed over with
    /// zero. `None` where any of it cannot be stored.
    fn formula_targets(
        heavy: Fund,
        sub_allocations: SubAllocations,
        total_vanguard_value: i64,
        other_us_stock_value: i64,
        other_us_bond_value: i64,
        other_int_stock_value: i64,
        other_int_bond_value: i64,
    ) -> (r: Option<ShareValues>)
        requires
            !(heavy is Empty) && !(heavy is Other) && !(heavy is VMFXX),
        ensures
            r is Some <==> passed_over(
                shares_by_formula(
                    sub_allocations@,
                    total_vanguard_value as int,
                    other_us_stock_value as int,
                    other_us_bond_value as int,
                    other_int_stock_value as int,
                    other_int_bond_value as int,
                ),
                heavy,
            ).fits(),
            r matches Some(target) ==> target@ == passed_over(
                shares_by_formula(
                    sub_allocations@,
                    total_vanguard_value as int,
                    other_us_stock_value as int,
                    other_us_bond_value as int,
                    other_int_stock_value as int,
                    other_int_bond_value as int,
                ),
                heavy,
            ),
    {
        let total: i128 = total_vanguard_value as i128 + other_us_stock_value as i128
            + other_us_bond_value as i128 + other_int_bond_value as i128
            + other_int_stock_value as i128;
        let us_stock_third: i128 = wide_rounded_down(other_us_stock_value as i128, 3);
        let us_bond_half: i128 = wide_rounded_down(other_us_bond_value as i128, 2);
        let int_stock_third: i128 = wide_rounded_down(other_int_stock_value as i128, 3);
        let int_stock_two_thirds: i128 = wide_rounded_down(
            2 * (other_int_stock_value as i128),
            3,
        );
        let vxus: i64 = fund_target(
            heavy == Fund::VXUS,
            total,
            sub_allocations.int_tot_stock,
            int_stock_two_thirds,
        )?;
        let bndx: i64 = fund_target(
            heavy == Fund::BNDX,
            total,
            sub_allocations.int_bond,
            other_int_bond_value as i128,
        )?;
        let bnd: i64 = fund_target(
            heavy == Fund::BND,
            total,
            sub_allocations.us_tot_bond,
            us_bond_half,
        )?;
        let vwo: i64 = fund_target(
            heavy == Fund::VWO,
            total,
            sub_allocations.int_emerging_stock,
            int_stock_third,
        )?;
        let vo: i64 = fund_target(
            heavy == Fund::VO,
            total,
            sub_allocations.us_stock_mid,
            us_stock_third,
        )?;
        let vb: i64 = fund_target(
            heavy == Fund::VB,
            total,
            sub_allocations.us_stock_small,
            us_stock_third,
        )?;
        let vtc: i64 = fund_target(
            heavy == Fund::VTC,
            total,
            sub_allocations.us_corp_bond,
            us_bond_half,
        )?;
        let vv: i64 = fund_target(
            heavy == Fund::VV,
            total,
            sub_allocations.us_stock_large,
            us_stock_third,
        )?;
        let vtip: i64 = fund_target(
            heavy == Fund::VTIP,
            total,
            sub_allocations.inflation_protected,
            0,
        )?;
        let outside_bond: i64 = checked_sum(other_int_bond_value, other_us_bond_value)?;
        let outside_stock: i64 = checked_sum(other_us_stock_value, other_int_stock_value)?;
        Some(
            ShareValues {
                vxus,
                bndx,
                bnd,
                vwo,
                vo,
                vb,
                vtc,
                vv,
                vtip,
                vmfxx: 0,
                other: 0,
                outside_bond,
                outside_stock,
            },
        )
    }

    /// Replaces the amount kept for a fund.
    fn put(&mut self, fund: Fund, value: i64)
        ensures
            final(self)@ == old(self)@.with(fund, value as int),
    {
        match fund {
            Fund::VXUS => self.vxus = value,
            Fund::BNDX => self.bndx = value,
            Fund::VTIP => self.vtip = value,
            Fund::BND => self.bnd = value,
            Fund::VWO => self.vwo = value,
            Fund::VO => self.vo = value,
            Fund::VB => self.vb = value,
            Fund::VTC => self.vtc = value,
            Fund::VV => self.vv = value,
            Fund::VMFXX => self.vmfxx = value,
            Fund::Empty => {},
            Fund::Other => self.other = value,
        }
    }

    /// Whether any slot but the one of the unsupported funds differs from
    /// `default_value`.
    pub fn value_added(&self, default_value: i64) -> (r: bool)
        ensures
            r == (self@ != Values { other: self@.other, ..Values::filled(default_value as int) }),
    {
        self.vxus != default_value || self.bndx != default_value || self.vtip != default_value
            || self.bnd != default_value || self.vwo != default_value || self.vo
            != default_value || self.vb != default_value || self.vtc != default_value || self.vv
            != default_value || self.vmfxx != default_value || self.outside_bond
            != default_value || self.outside_stock != default_value
    }

    /// Whether no slot is zero, so that another vector can be divided by this
    /// one.
    pub fn no_zero(&self) -> (r: bool)
        ensures
            r == self@.no_zero(),
    {
        self.vxus != 0 && self.bndx != 0 && self.vtip != 0 && self.bnd != 0 && self.vwo != 0
            && self.vo != 0 && self.vb != 0 && self.vtc != 0 && self.vv != 0 && self.vmfxx != 0
            && self.other != 0 && self.outside_bond != 0 && self.outside_stock != 0
    }

    /// The funds that a rebalance trades and that have no price yet, in the
    /// order in which the funds are displayed. These are the prices to ask for.
    pub fn missing_quotes(&self) -> (r: Vec<StockSymbol>)
        ensures
            r@ == unpriced(self@, StockSymbol::listed(), 9),
    {
        let symbols = StockSymbol::list();
        let mut missing: Vec<StockSymbol> = Vec::new();
        let mut i: usize = 0;
        while i < 9
            invariant
                i <= 9,
                symbols@ == StockSymbol::listed(),
                missing@ == unpriced(self@, StockSymbol::listed(), i as nat),
            decreases 9 - i,
        {
            assert(symbols@[i as int].is_tradable());
            if self.stock_value(symbols[i].duplicate()) == SCALE {
                missing.push(symbols[i].duplicate());
            }
            i = i + 1;
        }
        missing
    }

    /// The stocks, the bonds and the inflation protected securities as parts of
    /// everything that is invested, in basis points and rounded toward zero.
    /// What is held outside the accounts counts; cash and the unsupported funds
    /// do not. `None` where nothing is invested, and where a part cannot be
    /// stored.
    pub fn percent_stock_bond_infl(&self) -> (r: Option<(i64, i64, i64)>)
        ensures
            match r {
                Some((stock, bond, inflation_protected)) => {
                    &&& self@.invested() != 0
                    &&& stock == percent_of(self@.stocks(), self@.invested())
                    &&& bond == percent_of(self@.bonds(), self@.invested())
                    &&& inflation_protected == percent_of(self@.vtip, self@.invested())
                },
                None => self@.invested() == 0 || !fits(
                    percent_of(self@.stocks(), self@.invested()),
                ) || !fits(percent_of(self@.bonds(), self@.invested())) || !fits(
                    percent_of(self@.vtip, self@.invested()),
                ),
            },
    {
        let total_bond: i128 = self.bndx as i128 + self.bnd as i128 + self.vtc as i128
            + self.outside_bond as i128;
        let total_stock: i128 = self.vwo as i128 + self.vo as i128 + self.vb as i128
            + self.vv as i128 + self.vxus as i128 + self.outside_stock as i128;
        let total: i128 = self.total_value() - self.vmfxx as i128 - self.other as i128
            + self.outside_bond as i128 + self.outside_stock as i128;
        if total == 0 {
            return None;
        }
        let stock: i64 = narrow(wide_quotient(total_stock * 10_000, total))?;
        let bond: i64 = narrow(wide_quotient(total_bond * 10_000, total))?;
        let inflation_protected: i64 = narrow(wide_quotient(self.vtip as i128 * 10_000, total))?;
        Some((stock, bond, inflation_protected))
    }

    /// Puts a position into the vector: its price, its value or its share count,
    /// as `add_type` says.
    pub fn add_stockinfo_value(&mut self, stock_info: StockInfo, add_type: AddType)
        requires
            !(stock_info.symbol is Empty),
            fits(with_position(old(self)@, stock_info, add_type).other),
        ensures
            final(self)@ == with_position(old(self)@, stock_info, add_type),
    {
        let value: i64 = match add_type {
            AddType::StockPrice => stock_info.share_price,
            AddType::HoldingValue => stock_info.total_value,
            AddType::HoldingShares => stock_info.shares,
        };
        match stock_info.symbol {
            StockSymbol::VXUS => self.vxus = value,
            StockSymbol::BNDX => self.bndx = value,
            StockSymbol::VTIP => self.vtip = value,
            StockSymbol::BND => self.bnd = value,
            StockSymbol::VWO => self.vwo = value,
            StockSymbol::VO => self.vo = value,
            StockSymbol::VB => self.vb = value,
            StockSymbol::VTC => self.vtc = value,
            StockSymbol::VV => self.vv = value,
            StockSymbol::VMFXX => self.vmfxx = value,
            StockSymbol::Empty => {},
            StockSymbol::Other(_) => match add_type {
                AddType::HoldingValue => self.other = self.other + value,
                AddType::StockPrice => self.other = SCALE,
                AddType::HoldingShares => self.other = SCALE,
            },
        }
    }

    /// Replaces the amount of a symbol. Every unsupported symbol writes the slot
    /// that they share.
    pub fn add_stock_value(&mut self, stock_symbol: StockSymbol, value: i64)
        requires
            !(stock_symbol is Empty),
        ensures
            final(self)@ == old(self)@.set(stock_symbol, value as int),
    {
        match stock_symbol {
            StockSymbol::VXUS => self.vxus = value,
            StockSymbol::BNDX => self.bndx = value,
            StockSymbol::VTIP => self.vtip = value,
            StockSymbol::BND => self.bnd = value,
            StockSymbol::VWO => self.vwo = value,
            StockSymbol::VO => self.vo = value,
            StockSymbol::VB => self.vb = value,
            StockSymbol::VTC => self.vtc = value,
            StockSymbol::VV => self.vv = value,
            StockSymbol::VMFXX => self.vmfxx = value,
            StockSymbol::Empty => {},
            StockSymbol::Other(_) => self.other = value,
        }
    }

    /// Replaces the value of the stocks held outside the accounts. It enters the
    /// stock and bond percentages only.
    pub fn add_outside_stock_value(&mut self, stock_value: i64)
        ensures
            final(self)@ == (Values { outside_stock: stock_value as int, ..old(self)@ }),
    {
        self.outside_stock = stock_value
    }

    /// The value of the stocks held outside the accounts.
    pub fn outside_stock_value(&self) -> (r: i64)
        ensures
            r == self@.outside_stock,
    {
        self.outside_stock
    }

    /// Replaces the value of the bonds held outside the accounts. It enters the
    /// stock and bond percentages only.
    pub fn add_outside_bond_value(&mut self, bond_value: i64)
        ensures
            final(self)@ == (Values { outside_bond: bond_value as int, ..old(self)@ }),
    {
        self.outside_bond = bond_value
    }

    /// The value of the bonds held outside the accounts.
    pub fn outside_bond_value(&self) -> (r: i64)
        ensures
            r == self@.outside_bond,
    {
        self.outside_bond
    }

    /// Takes `value` off the amount of a symbol.
    pub fn subtract_stock_value(&mut self, stock_symbol: StockSymbol, value: i64)
        requires
            !(stock_symbol is Empty),
            fits(old(self)@.get(stock_symbol) - value),
        ensures
            final(self)@ == old(self)@.set(stock_symbol, old(self)@.get(stock_symbol) - value),
    {
        match stock_symbol {
            StockSymbol::VXUS => self.vxus = self.vxus - value,
            StockSymbol::BNDX => self.bndx = self.bndx - value,
            StockSymbol::VTIP => self.vtip = self.vtip - value,
            StockSymbol::BND => self.bnd = self.bnd - value,
            StockSymbol::VWO => self.vwo = self.vwo - value,
            StockSymbol::VO => self.vo = self.vo - value,
            StockSymbol::VB => self.vb = self.vb - value,
            StockSymbol::VTC => self.vtc = self.vtc - value,
            StockSymbol::VV => self.vv = self.vv - value,
            StockSymbol::VMFXX => self.vmfxx = self.vmfxx - value,
            StockSymbol::Empty => {},
            StockSymbol::Other(_) => self.other = self.other - value,
        }
    }

    /// The amount of a symbol. Every unsupported symbol reads the slot that they
    /// share.
    pub fn stock_value(&self, stock_symbol: StockSymbol) -> (r: i64)
        requires
            !(stock_symbol is Empty),
        ensures
            r == self@.get(stock_symbol),
    {
        match stock_symbol {
            StockSymbol::VXUS => self.vxus,
            StockSymbol::BNDX => self.bndx,
            StockSymbol::VTIP => self.vtip,
            StockSymbol::BND => self.bnd,
            StockSymbol::VWO => self.vwo,
            StockSymbol::VO => self.vo,
            StockSymbol::VB => self.vb,
            StockSymbol::VTC => self.vtc,
            StockSymbol::VV => self.vv,
            StockSymbol::VMFXX => self.vmfxx,
            StockSymbol::Empty => 0,
            StockSymbol::Other(_) => self.other,
        }
    }

    /// The sum of the nine funds, cash and the unsupported funds, without what is
    /// held outside the accounts. The sum is exact: it is returned in a wider
    /// type than the amounts.
    pub fn total_value(&self) -> (r: i128)
        ensures
            r == self@.total(),
            -0x6_0000_0000_0000_0000 <= r <= 0x6_0000_0000_0000_0000,
    {
        self.vxus as i128 + self.bndx as i128 + self.bnd as i128 + self.vwo as i128
            + self.vo as i128 + self.vb as i128 + self.vtc as i128 + self.vv as i128
            + self.vmfxx as i128 + self.vtip as i128 + self.other as i128
    }

    /// The slot by slot sum, when every slot of it can be stored.
    pub fn add(self, other: ShareValues) -> (r: Option<ShareValues>)
        ensures
            r is Some <==> self@.plus(other@).fits(),
            r matches Some(sum) ==> sum@ == self@.plus(other@),
    {
        Some(
            ShareValues {
                vxus: checked_sum(self.vxus, other.vxus)?,
                bndx: checked_sum(self.bndx, other.bndx)?,
                bnd: checked_sum(self.bnd, other.bnd)?,
                vwo: checked_sum(self.vwo, other.vwo)?,
                vo: checked_sum(self.vo, other.vo)?,
                vb: checked_sum(self.vb, other.vb)?,
                vtc: checked_sum(self.vtc, other.vtc)?,
                vv: checked_sum(self.vv, other.vv)?,
                vtip: checked_sum(self.vtip, other.vtip)?,
                vmfxx: checked_sum(self.vmfxx, other.vmfxx)?,
                other: checked_sum(self.other, other.other)?,
                outside_bond: checked_sum(self.outside_bond, other.outside_bond)?,
                outside_stock: checked_sum(self.outside_stock, other.outside_stock)?,
            },
        )
    }

    /// The slot by slot difference, when every slot of it can be stored.
    pub fn sub(self, other: ShareValues) -> (r: Option<ShareValues>)
        ensures
            r is Some <==> self@.minus(other@).fits(),
            r matches Some(difference) ==> difference@ == self@.minus(other@),
    {
        Some(
            ShareValues {
                vxus: checked_difference(self.vxus, other.vxus)?,
                bndx: checked_difference(self.bndx, other.bndx)?,
                bnd: checked_difference(self.bnd, other.bnd)?,
                vwo: checked_difference(self.vwo, other.vwo)?,
                vo: checked_difference(self.vo, other.vo)?,
                vb: checked_difference(self.vb, other.vb)?,
                vtc: checked_difference(self.vtc, other.vtc)?,
                vv: checked_difference(self.vv, other.vv)?,
                vtip: checked_difference(self.vtip, other.vtip)?,
                vmfxx: checked_difference(self.vmfxx, other.vmfxx)?,
                other: checked_difference(self.other, other.other)?,
                outside_bond: checked_difference(self.outside_bond, other.outside_bond)?,
                outside_stock: checked_difference(self.outside_stock, other.outside_stock)?,
            },
        )
    }

    /// The slot by slot product, each rounded toward zero to a millionth, when
    /// every slot of it can be stored. Share counts times prices are values.
    pub fn mul(self, other: ShareValues) -> (r: Option<ShareValues>)
        ensures
            r is Some <==> self@.times(other@).fits(),
            r matches Some(product) ==> product@ == self@.times(other@),
    {
        Some(
            ShareValues {
                vxus: checked_product(self.vxus, other.vxus)?,
                bndx: checked_product(self.bndx, other.bndx)?,
                bnd: checked_product(self.bnd, other.bnd)?,
                vwo: checked_product(self.vwo, other.vwo)?,
                vo: checked_product(self.vo, other.vo)?,
                vb: checked_product(self.vb, other.vb)?,
                vtc: checked_product(self.vtc, other.vtc)?,
                vv: checked_product(self.vv, other.vv)?,
                vtip: checked_product(self.vtip, other.vtip)?,
                vmfxx: checked_product(self.vmfxx, other.vmfxx)?,
                other: checked_product(self.other, other.other)?,
                outside_bond: checked_product(self.outside_bond, other.outside_bond)?,
                outside_stock: checked_product(self.outside_stock, other.outside_stock)?,
            },
        )
    }

    /// The slot by slot quotient by a vector without a zero, each rounded toward
    /// zero to a millionth, when every slot of it can be stored. Values over
    /// prices are share counts.
    pub fn div(self, other: ShareValues) -> (r: Option<ShareValues>)
        requires
            other@.no_zero(),
        ensures
            r is Some <==> self@.over(other@).fits(),
            r matches Some(quotient) ==> quotient@ == self@.over(other@),
    {
        Some(
            ShareValues {
                vxus: checked_ratio(self.vxus, other.vxus)?,
                bndx: checked_ratio(self.bndx, other.bndx)?,
                bnd: checked_ratio(self.bnd, other.bnd)?,
                vwo: checked_ratio(self.vwo, other.vwo)?,
                vo: checked_ratio(self.vo, other.vo)?,
                vb: checked_ratio(self.vb, other.vb)?,
                vtc: checked_ratio(self.vtc, other.vtc)?,
                vv: checked_ratio(self.vv, other.vv)?,
                vtip: checked_ratio(self.vtip, other.vtip)?,
                vmfxx: checked_ratio(self.vmfxx, other.vmfxx)?,
                other: checked_ratio(self.other, other.other)?,
                outside_bond: checked_ratio(self.outside_bond, other.outside_bond)?,
                outside_stock: checked_ratio(self.outside_stock, other.outside_stock)?,
            },
        )
    }
}

impl Default for ShareValues {
    fn default() -> (r: ShareValues)
        ensures
            r@ == Values::zero(),
    {
        ShareValues::new()
    }
}

} // verus!
