//! Taking the transactions of an account back to the end of a year.
//!
//! What an account held at the end of a year is what it holds now, less what
//! every transaction since has brought. The end of a year is taken at its last
//! day, the boundary: the transactions dated on that day or later are taken
//! back. What the account held is known only where the ledger reaches back to
//! before the boundary.
use crate::calendar::day_number;
use crate::holdings::share_values::ShareValues;
use crate::holdings::symbol::StockSymbol;
use crate::holdings::transaction::{Transaction, TransactionType};
use crate::holdings::values::Values;
use vstd::prelude::*;

verus! {

/// What taking transactions back has found so far.
pub struct Replay {
    /// The holdings, with the transactions of the account since the boundary
    /// taken back.
    pub holdings: Values,
    /// The dollars that the account has distributed in the year after the
    /// boundary.
    pub distributed: int,
    /// How many transactions of the account are dated on or after the boundary.
    pub recent: nat,
    /// Whether any transaction, of any account, is dated before the boundary.
    pub reaches_back: bool,
}

/// The boundary at which the year before `year` ends: December 31 of that year,
/// as a day number.
pub open spec fn year_end_boundary(year: u32) -> Option<i32> {
    if year - 1 <= i32::MAX {
        day_number((year - 1) as i32, 12, 31)
    } else {
        None
    }
}

/// Takes one transaction back.
///
/// A transaction of the account that is dated on or after the boundary is
/// counted, and undone: where it is in cash, its dollars come off the cash;
/// where it names another fund, its shares come off that fund; where it names no
/// fund, is a distribution, and is dated less than 365 days after the boundary,
/// its dollars, which left the account, are added to what was distributed. A
/// transaction that is dated before the boundary shows that the ledger reaches
/// back far enough.
pub open spec fn taken_back(state: Replay, transaction: Transaction, account: u32, boundary: int) -> Replay {
    if transaction.trade_date >= boundary && transaction.account_number == account {
        let counted = Replay { recent: state.recent + 1, ..state };
        if transaction.symbol is VMFXX {
            Replay {
                holdings: state.holdings.set(
                    transaction.symbol,
                    state.holdings.get(transaction.symbol) - transaction.net_amount,
                ),
                ..counted
            }
        } else if !(transaction.symbol is Empty) {
            Replay {
                holdings: state.holdings.set(
                    transaction.symbol,
                    state.holdings.get(transaction.symbol) - transaction.shares,
                ),
                ..counted
            }
        } else if transaction.transaction_type is DISTRIBUTION && transaction.trade_date
            < boundary + 365 {
            Replay { distributed: state.distributed - transaction.net_amount, ..counted }
        } else {
            counted
        }
    } else if transaction.trade_date < boundary {
        Replay { reaches_back: true, ..state }
    } else {
        state
    }
}

/// Takes the first `count` transactions of a ledger back from the current
/// holdings of an account.
pub open spec fn replay(
    ledger: Seq<Transaction>,
    account: u32,
    boundary: int,
    current: Values,
    count: nat,
) -> Replay
    decreases count,
{
    if count == 0 {
        Replay { holdings: current, distributed: 0, recent: 0, reaches_back: false }
    } else {
        taken_back(
            replay(ledger, account, boundary, current, (count - 1) as nat),
            ledger[count - 1],
            account,
            boundary,
        )
    }
}

/// Whether the holdings at the boundary are known: the ledger reaches back to
/// before the boundary, and holds a transaction of the account since.
pub open spec fn sufficient(found: Replay) -> bool {
    found.reaches_back && found.recent > 0
}

/// A ledger without a transaction before the boundary never reaches back, and so
/// never shows what an account held at the boundary.
pub proof fn lemma_short_ledger_is_insufficient(
    ledger: Seq<Transaction>,
    account: u32,
    boundary: int,
    current: Values,
    count: nat,
)
    requires
        count <= ledger.len(),
        forall|i: int| 0 <= i < ledger.len() ==> (#[trigger] ledger[i]).trade_date >= boundary,
    ensures
        !replay(ledger, account, boundary, current, count).reaches_back,
        !sufficient(replay(ledger, account, boundary, current, count)),
    decreases count,
{
    if count > 0 {
        lemma_short_ledger_is_insufficient(ledger, account, boundary, current, (count - 1) as nat);
        assert(ledger[count - 1].trade_date >= boundary);
    }
}

/// The holdings of an account while transactions are taken back: exact sums, in
/// a wider type than the amounts.
pub(crate) struct Wide {
    vxus: i128,
    bndx: i128,
    bnd: i128,
    vwo: i128,
    vo: i128,
    vb: i128,
    vtc: i128,
    vv: i128,
    vtip: i128,
    vmfxx: i128,
    other: i128,
    outside_bond: i64,
    outside_stock: i64,
}

impl View for Wide {
    type V = Values;

    closed spec fn view(&self) -> Values {
        Values {
            vxus: self.vxus as int,
            bndx: self.bndx as int,
            bnd: self.bnd as int,
            vwo: self.vwo as int,
            vo: self.vo as int,
            vb: self.vb as int,
            vtc: self.vtc as int,
            vv: self.vv as int,
            vtip: self.vtip as int,
            vmfxx: self.vmfxx as int,
            other: self.other as int,
            outside_bond: self.outside_bond as int,
            outside_stock: self.outside_stock as int,
        }
    }
}

/// Whether a sum is what `steps` amounts taken off one amount can be.
pub(crate) open spec fn reachable(sum: int, steps: int) -> bool {
    -(steps + 1) * 0x8000_0000_0000_0000 <= sum <= (steps + 1) * 0x8000_0000_0000_0000 - 1
}

impl Wide {
    /// Whether every sum is what `steps` amounts taken off one amount can be.
    pub(crate) closed spec fn within(&self, steps: int) -> bool {
        &&& reachable(self.vxus as int, steps)
        &&& reachable(self.bndx as int, steps)
        &&& reachable(self.bnd as int, steps)
        &&& reachable(self.vwo as int, steps)
        &&& reachable(self.vo as int, steps)
        &&& reachable(self.vb as int, steps)
        &&& reachable(self.vtc as int, steps)
        &&& reachable(self.vv as int, steps)
        &&& reachable(self.vtip as int, steps)
        &&& reachable(self.vmfxx as int, steps)
        &&& reachable(self.other as int, steps)
    }

    /// Sums that are within some number of steps are within any larger number.
    pub(crate) proof fn lemma_within_more(&self, steps: int)
        requires
            0 <= steps,
            self.within(steps),
        ensures
            self.within(steps + 1),
    {
    }

    /// The holdings before any transaction is taken back.
    pub(crate) fn start(current: ShareValues) -> (r: Wide)
        ensures
            r@ == current@,
            r.within(0),
    {
        Wide {
            vxus: current.stock_value(StockSymbol::VXUS) as i128,
            bndx: current.stock_value(StockSymbol::BNDX) as i128,
            bnd: current.stock_value(StockSymbol::BND) as i128,
            vwo: current.stock_value(StockSymbol::VWO) as i128,
            vo: current.stock_value(StockSymbol::VO) as i128,
            vb: current.stock_value(StockSymbol::VB) as i128,
            vtc: current.stock_value(StockSymbol::VTC) as i128,
            vv: current.stock_value(StockSymbol::VV) as i128,
            vtip: current.stock_value(StockSymbol::VTIP) as i128,
            vmfxx: current.stock_value(StockSymbol::VMFXX) as i128,
            other: current.stock_value(StockSymbol::Other(String::new())) as i128,
            outside_bond: current.outside_bond_value(),
            outside_stock: current.outside_stock_value(),
        }
    }

    /// Takes an amount off the sum of a symbol.
    pub(crate) fn take(&mut self, symbol: &StockSymbol, amount: i64, Ghost(steps): Ghost<int>)
        requires
            !(symbol is Empty),
            0 <= steps < 0xffff_ffff_ffff_ffff,
            old(self).within(steps),
        ensures
            final(self)@ == old(self)@.set(*symbol, old(self)@.get(*symbol) - amount),
            final(self).within(steps + 1),
    {
        match symbol {
            StockSymbol::VXUS => self.vxus = self.vxus - amount as i128,
            StockSymbol::BNDX => self.bndx = self.bndx - amount as i128,
            StockSymbol::VTIP => self.vtip = self.vtip - amount as i128,
            StockSymbol::BND => self.bnd = self.bnd - amount as i128,
            StockSymbol::VWO => self.vwo = self.vwo - amount as i128,
            StockSymbol::VO => self.vo = self.vo - amount as i128,
            StockSymbol::VB => self.vb = self.vb - amount as i128,
            StockSymbol::VTC => self.vtc = self.vtc - amount as i128,
            StockSymbol::VV => self.vv = self.vv - amount as i128,
            StockSymbol::VMFXX => self.vmfxx = self.vmfxx - amount as i128,
            StockSymbol::Empty => {},
            StockSymbol::Other(_) => self.other = self.other - amount as i128,
        }
    }

    /// The sums as amounts, where every one of them can be stored.
    pub(crate) fn store(&self) -> (r: Option<ShareValues>)
        ensures
            r is Some <==> self@.fits(),
            r matches Some(stored) ==> stored@ == self@,
    {
        let mut stored = ShareValues::new();
        stored.add_stock_value(StockSymbol::VXUS, crate::fixed::narrow(self.vxus)?);
        stored.add_stock_value(StockSymbol::BNDX, crate::fixed::narrow(self.bndx)?);
        stored.add_stock_value(StockSymbol::BND, crate::fixed::narrow(self.bnd)?);
        stored.add_stock_value(StockSymbol::VWO, crate::fixed::narrow(self.vwo)?);
        stored.add_stock_value(StockSymbol::VO, crate::fixed::narrow(self.vo)?);
        stored.add_stock_value(StockSymbol::VB, crate::fixed::narrow(self.vb)?);
        stored.add_stock_value(StockSymbol::VTC, crate::fixed::narrow(self.vtc)?);
        stored.add_stock_value(StockSymbol::VV, crate::fixed::narrow(self.vv)?);
        stored.add_stock_value(StockSymbol::VTIP, crate::fixed::narrow(self.vtip)?);
        stored.add_stock_value(StockSymbol::VMFXX, crate::fixed::narrow(self.vmfxx)?);
        stored.add_stock_value(
            StockSymbol::Other(String::new()),
            crate::fixed::narrow(self.other)?,
        );
        stored.add_outside_bond_value(self.outside_bond);
        stored.add_outside_stock_value(self.outside_stock);
        Some(stored)
    }
}

/// What taking a whole ledger back has found, as it is computed.
pub(crate) struct Found {
    pub holdings: Wide,
    pub distributed: i128,
    pub recent: usize,
    pub reaches_back: bool,
}

/// Takes every transaction of a ledger back from the current holdings of an
/// account.
pub(crate) fn take_back(
    ledger: &Vec<Transaction>,
    account: u32,
    boundary: i32,
    current: ShareValues,
) -> (r: Found)
    ensures
        replay(ledger@, account, boundary as int, current@, ledger@.len()) == (Replay {
            holdings: r.holdings@,
            distributed: r.distributed as int,
            recent: r.recent as nat,
            reaches_back: r.reaches_back,
        }),
        -0x7fff_ffff_ffff_ffff_8000_0000_0000_0000 <= r.distributed
            <= 0x7fff_ffff_ffff_ffff_8000_0000_0000_0000,
{
    let count: usize = ledger.len();
    let following: i64 = boundary as i64 + 365;
    let mut holdings = Wide::start(current);
    let mut distributed: i128 = 0;
    let mut recent: usize = 0;
    let mut reaches_back = false;
    let mut i: usize = 0;
    while i < count
        invariant
            i <= count,
            count == ledger@.len(),
            following == boundary + 365,
            holdings.within(i as int),
            -i * 0x8000_0000_0000_0000 <= distributed <= i * 0x8000_0000_0000_0000,
            recent <= i,
            replay(ledger@, account, boundary as int, current@, i as nat) == (Replay {
                holdings: holdings@,
                distributed: distributed as int,
                recent: recent as nat,
                reaches_back,
            }),
        decreases count - i,
    {
        let transaction = &ledger[i];
        proof {
            holdings.lemma_within_more(i as int);
        }
        if transaction.trade_date >= boundary && transaction.account_number == account {
            recent = recent + 1;
            match &transaction.symbol {
                StockSymbol::VMFXX => {
                    holdings.take(&transaction.symbol, transaction.net_amount, Ghost(i as int));
                },
                StockSymbol::Empty => {
                    let is_distribution = match &transaction.transaction_type {
                        TransactionType::DISTRIBUTION => true,
                        _ => false,
                    };
                    if is_distribution && (transaction.trade_date as i64) < following {
                        distributed = distributed - transaction.net_amount as i128;
                    }
                },
                _ => {
                    holdings.take(&transaction.symbol, transaction.shares, Ghost(i as int));
                },
            }
        } else if transaction.trade_date < boundary {
            reaches_back = true;
        }
        i = i + 1;
    }
    Found { holdings, distributed, recent, reaches_back }
}

} // verus!
