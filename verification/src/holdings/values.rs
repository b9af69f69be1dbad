//! The mathematical model of a value vector.
use crate::fixed::{fits, lemma_product_then_ratio, lemma_ratio_of_zero, product, ratio, SCALE};
use crate::holdings::symbol::{Fund, StockSymbol};
use vstd::prelude::*;

verus! {

/// One integer for each fund, for cash, for the unsupported funds together, and
/// for the bonds and the stocks held outside the accounts. This is what a
/// [`ShareValues`](crate::holdings::ShareValues) holds, without the limits of
/// machine integers.
pub struct Values {
    pub vxus: int,
    pub bndx: int,
    pub bnd: int,
    pub vwo: int,
    pub vo: int,
    pub vb: int,
    pub vtc: int,
    pub vv: int,
    pub vtip: int,
    pub vmfxx: int,
    pub other: int,
    pub outside_bond: int,
    pub outside_stock: int,
}

impl Values {
    /// The vector that holds `x` in every slot.
    pub open spec fn filled(x: int) -> Values {
        Values {
            vxus: x,
            bndx: x,
            bnd: x,
            vwo: x,
            vo: x,
            vb: x,
            vtc: x,
            vv: x,
            vtip: x,
            vmfxx: x,
            other: x,
            outside_bond: x,
            outside_stock: x,
        }
    }

    /// The vector of zeros.
    pub open spec fn zero() -> Values {
        Values::filled(0)
    }

    /// The amount kept for a fund. Nothing is kept for no fund.
    pub open spec fn at(self, fund: Fund) -> int
        recommends
            !(fund is Empty),
    {
        match fund {
            Fund::VXUS => self.vxus,
            Fund::BNDX => self.bndx,
            Fund::VTIP => self.vtip,
            Fund::BND => self.bnd,
            Fund::VWO => self.vwo,
            Fund::VO => self.vo,
            Fund::VB => self.vb,
            Fund::VTC => self.vtc,
            Fund::VV => self.vv,
            Fund::VMFXX => self.vmfxx,
            Fund::Empty => 0,
            Fund::Other => self.other,
        }
    }

    /// The vector with the amount of a fund replaced.
    pub open spec fn with(self, fund: Fund, value: int) -> Values
        recommends
            !(fund is Empty),
    {
        match fund {
            Fund::VXUS => Values { vxus: value, ..self },
            Fund::BNDX => Values { bndx: value, ..self },
            Fund::VTIP => Values { vtip: value, ..self },
            Fund::BND => Values { bnd: value, ..self },
            Fund::VWO => Values { vwo: value, ..self },
            Fund::VO => Values { vo: value, ..self },
            Fund::VB => Values { vb: value, ..self },
            Fund::VTC => Values { vtc: value, ..self },
            Fund::VV => Values { vv: value, ..self },
            Fund::VMFXX => Values { vmfxx: value, ..self },
            Fund::Empty => self,
            Fund::Other => Values { other: value, ..self },
        }
    }

    /// The slot of a symbol. Every unsupported symbol reads the slot that they
    /// share. The empty symbol has no slot.
    pub open spec fn get(self, symbol: StockSymbol) -> int
        recommends
            !(symbol is Empty),
    {
        self.at(symbol.fund())
    }

    /// The vector with the slot of a symbol replaced.
    pub open spec fn set(self, symbol: StockSymbol, value: int) -> Values
        recommends
            !(symbol is Empty),
    {
        self.with(symbol.fund(), value)
    }

    /// The sum of the nine funds, cash and the unsupported funds. What is held
    /// outside the accounts is left out.
    pub open spec fn total(self) -> int {
        self.vxus + self.bndx + self.bnd + self.vwo + self.vo + self.vb + self.vtc + self.vv
            + self.vmfxx + self.vtip + self.other
    }

    /// The stocks, inside the accounts and outside.
    pub open spec fn stocks(self) -> int {
        self.vwo + self.vo + self.vb + self.vv + self.vxus + self.outside_stock
    }

    /// The bonds, inside the accounts and outside.
    pub open spec fn bonds(self) -> int {
        self.bndx + self.bnd + self.vtc + self.outside_bond
    }

    /// Everything that is invested: the total without cash and the unsupported
    /// funds, with what is held outside the accounts.
    pub open spec fn invested(self) -> int {
        self.total() - self.vmfxx - self.other + self.outside_bond + self.outside_stock
    }

    /// The slot by slot sum.
    pub open spec fn plus(self, other: Values) -> Values {
        Values {
            vxus: self.vxus + other.vxus,
            bndx: self.bndx + other.bndx,
            bnd: self.bnd + other.bnd,
            vwo: self.vwo + other.vwo,
            vo: self.vo + other.vo,
            vb: self.vb + other.vb,
            vtc: self.vtc + other.vtc,
            vv: self.vv + other.vv,
            vtip: self.vtip + other.vtip,
            vmfxx: self.vmfxx + other.vmfxx,
            other: self.other + other.other,
            outside_bond: self.outside_bond + other.outside_bond,
            outside_stock: self.outside_stock + other.outside_stock,
        }
    }

    /// The slot by slot difference.
    pub open spec fn minus(self, other: Values) -> Values {
        Values {
            vxus: self.vxus - other.vxus,
            bndx: self.bndx - other.bndx,
            bnd: self.bnd - other.bnd,
            vwo: self.vwo - other.vwo,
            vo: self.vo - other.vo,
            vb: self.vb - other.vb,
            vtc: self.vtc - other.vtc,
            vv: self.vv - other.vv,
            vtip: self.vtip - other.vtip,
            vmfxx: self.vmfxx - other.vmfxx,
            other: self.other - other.other,
            outside_bond: self.outside_bond - other.outside_bond,
            outside_stock: self.outside_stock - other.outside_stock,
        }
    }

    /// The slot by slot fixed-point product, each rounded toward zero.
    pub open spec fn times(self, other: Values) -> Values {
        Values {
            vxus: product(self.vxus, other.vxus),
            bndx: product(self.bndx, other.bndx),
            bnd: product(self.bnd, other.bnd),
            vwo: product(self.vwo, other.vwo),
            vo: product(self.vo, other.vo),
            vb: product(self.vb, other.vb),
            vtc: product(self.vtc, other.vtc),
            vv: product(self.vv, other.vv),
            vtip: product(self.vtip, other.vtip),
            vmfxx: product(self.vmfxx, other.vmfxx),
            other: product(self.other, other.other),
            outside_bond: product(self.outside_bond, other.outside_bond),
            outside_stock: product(self.outside_stock, other.outside_stock),
        }
    }

    /// The slot by slot fixed-point quotient, each rounded toward zero.
    pub open spec fn over(self, other: Values) -> Values
        recommends
            other.no_zero(),
    {
        Values {
            vxus: ratio(self.vxus, other.vxus),
            bndx: ratio(self.bndx, other.bndx),
            bnd: ratio(self.bnd, other.bnd),
            vwo: ratio(self.vwo, other.vwo),
            vo: ratio(self.vo, other.vo),
            vb: ratio(self.vb, other.vb),
            vtc: ratio(self.vtc, other.vtc),
            vv: ratio(self.vv, other.vv),
            vtip: ratio(self.vtip, other.vtip),
            vmfxx: ratio(self.vmfxx, other.vmfxx),
            other: ratio(self.other, other.other),
            outside_bond: ratio(self.outside_bond, other.outside_bond),
            outside_stock: ratio(self.outside_stock, other.outside_stock),
        }
    }

    /// Whether every slot can be stored in an `i64`.
    pub open spec fn fits(self) -> bool {
        &&& fits(self.vxus)
        &&& fits(self.bndx)
        &&& fits(self.bnd)
        &&& fits(self.vwo)
        &&& fits(self.vo)
        &&& fits(self.vb)
        &&& fits(self.vtc)
        &&& fits(self.vv)
        &&& fits(self.vtip)
        &&& fits(self.vmfxx)
        &&& fits(self.other)
        &&& fits(self.outside_bond)
        &&& fits(self.outside_stock)
    }

    /// Whether no slot is zero.
    pub open spec fn no_zero(self) -> bool {
        &&& self.vxus != 0
        &&& self.bndx != 0
        &&& self.bnd != 0
        &&& self.vwo != 0
        &&& self.vo != 0
        &&& self.vb != 0
        &&& self.vtc != 0
        &&& self.vv != 0
        &&& self.vtip != 0
        &&& self.vmfxx != 0
        &&& self.other != 0
        &&& self.outside_bond != 0
        &&& self.outside_stock != 0
    }

    /// Whether the product of the two vectors is exact: in every slot the
    /// product of the two amounts is a whole number of millionths, so that
    /// nothing is rounded away.
    pub open spec fn times_exactly(self, other: Values) -> bool {
        &&& (self.vxus * other.vxus) % (SCALE as int) == 0
        &&& (self.bndx * other.bndx) % (SCALE as int) == 0
        &&& (self.bnd * other.bnd) % (SCALE as int) == 0
        &&& (self.vwo * other.vwo) % (SCALE as int) == 0
        &&& (self.vo * other.vo) % (SCALE as int) == 0
        &&& (self.vb * other.vb) % (SCALE as int) == 0
        &&& (self.vtc * other.vtc) % (SCALE as int) == 0
        &&& (self.vv * other.vv) % (SCALE as int) == 0
        &&& (self.vtip * other.vtip) % (SCALE as int) == 0
        &&& (self.vmfxx * other.vmfxx) % (SCALE as int) == 0
        &&& (self.other * other.other) % (SCALE as int) == 0
        &&& (self.outside_bond * other.outside_bond) % (SCALE as int) == 0
        &&& (self.outside_stock * other.outside_stock) % (SCALE as int) == 0
    }

    /// Adding a vector and taking it off again gives the first vector back.
    pub proof fn lemma_plus_then_minus(self, other: Values)
        ensures
            self.plus(other).minus(other) == self,
    {
    }

    /// Multiplying by a vector without a zero and dividing by it again gives the
    /// first vector back, wherever no product is rounded.
    pub proof fn lemma_times_then_over(self, other: Values)
        requires
            other.no_zero(),
            self.times_exactly(other),
        ensures
            self.times(other).over(other) == self,
    {
        lemma_product_then_ratio(self.vxus, other.vxus);
        lemma_product_then_ratio(self.bndx, other.bndx);
        lemma_product_then_ratio(self.bnd, other.bnd);
        lemma_product_then_ratio(self.vwo, other.vwo);
        lemma_product_then_ratio(self.vo, other.vo);
        lemma_product_then_ratio(self.vb, other.vb);
        lemma_product_then_ratio(self.vtc, other.vtc);
        lemma_product_then_ratio(self.vv, other.vv);
        lemma_product_then_ratio(self.vtip, other.vtip);
        lemma_product_then_ratio(self.vmfxx, other.vmfxx);
        lemma_product_then_ratio(self.other, other.other);
        lemma_product_then_ratio(self.outside_bond, other.outside_bond);
        lemma_product_then_ratio(self.outside_stock, other.outside_stock);
    }

    /// The vector of zeros over a vector without a zero is the vector of zeros.
    pub proof fn lemma_zero_over(quotes: Values)
        requires
            quotes.no_zero(),
        ensures
            Values::zero().over(quotes) == Values::zero(),
    {
        lemma_ratio_of_zero(quotes.vxus);
        lemma_ratio_of_zero(quotes.bndx);
        lemma_ratio_of_zero(quotes.bnd);
        lemma_ratio_of_zero(quotes.vwo);
        lemma_ratio_of_zero(quotes.vo);
        lemma_ratio_of_zero(quotes.vb);
        lemma_ratio_of_zero(quotes.vtc);
        lemma_ratio_of_zero(quotes.vv);
        lemma_ratio_of_zero(quotes.vtip);
        lemma_ratio_of_zero(quotes.vmfxx);
        lemma_ratio_of_zero(quotes.other);
        lemma_ratio_of_zero(quotes.outside_bond);
        lemma_ratio_of_zero(quotes.outside_stock);
    }
}

} // verus!
