//! The holdings of all accounts, as an export gives them.
use crate::error::OutOfRange;
use crate::fixed::{fits, narrow};
use crate::holdings::ledger::{replay, sufficient, take_back, year_end_boundary};
use crate::holdings::share_values::ShareValues;
use crate::holdings::transaction::Transaction;
use crate::holdings::values::Values;
use std::collections::HashMap;
use vstd::prelude::*;

verus! {

broadcast use vstd::std_specs::hash::group_hash_axioms;

/// What every account holds, the prices, the ledger of transactions, and what
/// each account has distributed.
#[derive(Clone, Debug)]
pub struct VanguardHoldings {
    /// The dollar value that each account holds of each fund, by account number.
    pub accounts_values: HashMap<u32, ShareValues>,
    /// The shares that each account holds of each fund, by account number.
    pub accounts_shares: HashMap<u32, ShareValues>,
    /// The price of a share of each fund. A price of one dollar is a price that
    /// is not known.
    pub quotes: ShareValues,
    /// The transactions of all accounts, in the order of the export.
    pub transactions: Vec<Transaction>,
    /// The dollars that each account has distributed in the year whose end was
    /// last looked at for it, by account number.
    pub distributions: HashMap<u32, i64>,
}

/// What the end of a year looks like from a ledger.
pub struct YearEnd {
    /// The holdings at the end of the year before, where they are known and can
    /// be stored; an error where they are known and cannot.
    pub holdings: Result<Option<Values>, OutOfRange>,
    /// The dollars that the ledger shows as distributed in the year, which
    /// become what is recorded for the account; `None` where nothing is
    /// recorded.
    pub distributed: Option<int>,
}

/// What an account held at the boundary, the day with the number `boundary`,
/// and what the ledger shows it to have distributed since, for an account that
/// now holds `current`.
///
/// The holdings are known only where the ledger is sufficient. Where it is, it
/// is an error if the holdings, or what was distributed, cannot be stored, and
/// nothing is recorded then. Where it is not, what was distributed is still
/// recorded, unless it cannot be stored.
pub open spec fn taken_back_to(
    ledger: Seq<Transaction>,
    boundary: int,
    account: u32,
    current: Values,
) -> YearEnd {
    let found = replay(ledger, account, boundary, current, ledger.len());
    if !sufficient(found) {
        YearEnd {
            holdings: Ok(None),
            distributed: if fits(found.distributed) {
                Some(found.distributed)
            } else {
                None
            },
        }
    } else if !fits(found.distributed) || !found.holdings.fits() {
        YearEnd { holdings: Err(OutOfRange), distributed: None }
    } else {
        YearEnd { holdings: Ok(Some(found.holdings)), distributed: Some(found.distributed) }
    }
}

/// What an account held at the end of the year before `year`, and what the
/// ledger shows it to have distributed since: see [`taken_back_to`]. Nothing is
/// known, and nothing is recorded, where the year before has no last day in the
/// calendar.
pub open spec fn year_end(
    ledger: Seq<Transaction>,
    year: u32,
    account: u32,
    current: Values,
) -> YearEnd {
    match year_end_boundary(year) {
        None => YearEnd { holdings: Ok(None), distributed: None },
        Some(boundary) => taken_back_to(ledger, boundary as int, account, current),
    }
}

/// What an account has distributed once the end of a year has been looked at:
/// what the ledger shows, or what was recorded before where nothing is recorded.
pub open spec fn taken_now(before: int, distributed: Option<int>) -> int {
    match distributed {
        Some(shown) => shown,
        None => before,
    }
}

/// The value of holdings at the given prices, where the value of every fund and
/// their total can be stored.
pub open spec fn valued(holdings: Values, quotes: Values) -> Option<int> {
    if holdings.times(quotes).fits() && fits(holdings.times(quotes).total()) {
        Some(holdings.times(quotes).total())
    } else {
        None
    }
}

/// The value at the end of a year from the holdings at that time: unknown where
/// they are unknown, and an error where an amount cannot be stored.
pub open spec fn year_end_value(holdings: Result<Option<Values>, OutOfRange>, quotes: Values) -> Result<
    Option<int>,
    OutOfRange,
> {
    match holdings {
        Err(error) => Err(error),
        Ok(None) => Ok(None),
        Ok(Some(held)) => match valued(held, quotes) {
            Some(value) => Ok(Some(value)),
            None => Err(OutOfRange),
        },
    }
}

/// The value of holdings at the given prices: what is held of each fund times
/// its price, added up. `None` where the value of a fund or the total cannot be
/// stored.
pub fn worth(holdings: ShareValues, quotes: ShareValues) -> (r: Option<i64>)
    ensures
        match valued(holdings@, quotes@) {
            Some(value) => r == Some(value as i64),
            None => r is None,
        },
{
    let values = holdings.mul(quotes)?;
    narrow(values.total_value())
}

impl VanguardHoldings {
    /// The store with the given prices and nothing else.
    pub fn new(quotes: ShareValues) -> (r: VanguardHoldings)
        ensures
            r.accounts_values@ == Map::<u32, ShareValues>::empty(),
            r.accounts_shares@ == Map::<u32, ShareValues>::empty(),
            r.quotes == quotes,
            r.transactions@ == Seq::<Transaction>::empty(),
            r.distributions@ == Map::<u32, i64>::empty(),
    {
        VanguardHoldings {
            accounts_values: HashMap::new(),
            accounts_shares: HashMap::new(),
            quotes,
            transactions: Vec::new(),
            distributions: HashMap::new(),
        }
    }

    /// The prices.
    pub fn stock_quotes(&self) -> (r: ShareValues)
        ensures
            r == self.quotes,
    {
        self.quotes
    }

    /// A copy of the ledger.
    pub fn transactions(&self) -> (r: Vec<Transaction>)
        ensures
            r@ == self.transactions@,
    {
        let mut copies: Vec<Transaction> = Vec::new();
        let mut i: usize = 0;
        while i < self.transactions.len()
            invariant
                i <= self.transactions@.len(),
                copies@ == self.transactions@.subrange(0, i as int),
            decreases self.transactions@.len() - i,
        {
            copies.push(self.transactions[i].duplicate());
            assert(copies@ =~= self.transactions@.subrange(0, i + 1));
            i = i + 1;
        }
        assert(self.transactions@.subrange(0, i as int) =~= self.transactions@);
        copies
    }

    /// The dollars that an account has distributed: zero for an account of which
    /// none are recorded.
    pub open spec fn taken(&self, account_number: u32) -> int {
        if self.distributions@.contains_key(account_number) {
            self.distributions@[account_number] as int
        } else {
            0
        }
    }

    /// The dollar values that an account holds: zeros for an account that is not
    /// in the store.
    pub open spec fn held(&self, account_number: u32) -> Values {
        if self.accounts_values@.contains_key(account_number) {
            self.accounts_values@[account_number]@
        } else {
            Values::zero()
        }
    }

    /// The dollars that an account has distributed.
    pub fn distributions(&self, account_number: &u32) -> (r: i64)
        ensures
            r == self.taken(*account_number),
    {
        match self.distributions.get(account_number) {
            Some(taken) => *taken,
            None => 0,
        }
    }

    /// Whether the store is the old one but for what the account has
    /// distributed, which is now `distributed`; with `None` it is the old one.
    /// What was recorded for the account before is replaced, not added to.
    pub open spec fn has_recorded(
        self,
        before: VanguardHoldings,
        account_number: u32,
        distributed: Option<int>,
    ) -> bool {
        &&& self.accounts_values == before.accounts_values
        &&& self.accounts_shares == before.accounts_shares
        &&& self.quotes == before.quotes
        &&& self.transactions == before.transactions
        &&& self.distributions@ == match distributed {
            Some(shown) => before.distributions@.insert(account_number, shown as i64),
            None => before.distributions@,
        }
    }

    /// To record the same twice changes nothing: the distributions of a year are
    /// counted once, however often its end is looked at.
    pub proof fn lemma_recorded_once(
        self,
        first: VanguardHoldings,
        before: VanguardHoldings,
        account_number: u32,
        distributed: Option<int>,
    )
        requires
            first.has_recorded(before, account_number, distributed),
            self.has_recorded(first, account_number, distributed),
        ensures
            self.distributions@ == first.distributions@,
            self.taken(account_number) == first.taken(account_number),
    {
        assert(self.distributions@ =~= first.distributions@);
    }

    /// What the account `traditional_acct_num`, which now holds `trad_holdings`,
    /// held at the boundary, the day with the number `boundary`: its transactions
    /// of that day and of every later day are taken back. `None` where the ledger
    /// does not show it. What the ledger shows the account to have distributed in
    /// the 365 days from the boundary on becomes what is recorded for it: it
    /// takes the place of what was recorded before, so that a second call changes
    /// nothing. On an error the store is left as it was.
    ///
    /// The holdings are taken back in shares, but for cash, which is taken back in
    /// dollars.
    pub fn holdings_before(
        &mut self,
        boundary: i32,
        traditional_acct_num: u32,
        trad_holdings: ShareValues,
    ) -> (r: Result<Option<ShareValues>, OutOfRange>)
        ensures
            ({
                let outcome = taken_back_to(
                    old(self).transactions@,
                    boundary as int,
                    traditional_acct_num,
                    trad_holdings@,
                );
                &&& match outcome.holdings {
                    Ok(Some(held)) => r matches Ok(Some(holdings)) && holdings@ == held,
                    Ok(None) => r matches Ok(None),
                    Err(_) => r is Err,
                }
                &&& final(self).has_recorded(*old(self), traditional_acct_num, outcome.distributed)
            }),
    {
        let found = take_back(&self.transactions, traditional_acct_num, boundary, trad_holdings);
        let total = narrow(found.distributed);
        let known = found.reaches_back && found.recent > 0;
        let holdings = if known {
            match found.holdings.store() {
                Some(holdings) => Some(holdings),
                None => {
                    return Err(OutOfRange);
                },
            }
        } else {
            None
        };
        match total {
            Some(total) => {
                self.distributions.insert(traditional_acct_num, total);
            },
            None => {
                if known {
                    return Err(OutOfRange);
                }
            },
        }
        Ok(holdings)
    }

    /// What the account `traditional_acct_num`, which now holds `trad_holdings`,
    /// held at the end of the year before `year`; `None` where the ledger does
    /// not show it, and where that year has no last day in the calendar. What the
    /// ledger shows the account to have distributed since becomes what is recorded
    /// for it. On an error the store is left as it was. See
    /// [`Self::holdings_before`], which does the work once the boundary is known:
    /// December 31 of the year before.
    pub fn eoy_traditional_holdings(
        &mut self,
        year: u32,
        traditional_acct_num: u32,
        trad_holdings: ShareValues,
    ) -> (r: Result<Option<ShareValues>, OutOfRange>)
        ensures
            ({
                let outcome = year_end(
                    old(self).transactions@,
                    year,
                    traditional_acct_num,
                    trad_holdings@,
                );
                &&& match outcome.holdings {
                    Ok(Some(held)) => r matches Ok(Some(holdings)) && holdings@ == held,
                    Ok(None) => r matches Ok(None),
                    Err(_) => r is Err,
                }
                &&& final(self).has_recorded(*old(self), traditional_acct_num, outcome.distributed)
            }),
    {
        if year as i64 - 1 > 0x7fff_ffff {
            return Ok(None);
        }
        let previous_year = match crate::calendar::day_of((year as i64 - 1) as i32, 12, 31) {
            Some(day) => day,
            None => {
                return Ok(None);
            },
        };
        self.holdings_before(previous_year, traditional_acct_num, trad_holdings)
    }

    /// The dollar value that the account `traditional_acct_num` held at the end
    /// of the year before `year`, at the prices of that time; `None` where the
    /// ledger does not show what it held. What the ledger shows the account to
    /// have distributed since becomes what is recorded for it, unless its holdings
    /// at that time cannot be stored.
    pub fn eoy_value(&mut self, year: u32, traditional_acct_num: u32, eoy_quotes: ShareValues) -> (r:
        Result<Option<i64>, OutOfRange>)
        ensures
            ({
                let outcome = year_end(
                    old(self).transactions@,
                    year,
                    traditional_acct_num,
                    old(self).held(traditional_acct_num),
                );
                &&& match year_end_value(outcome.holdings, eoy_quotes@) {
                    Ok(Some(value)) => r matches Ok(Some(dollars)) && dollars == value,
                    Ok(None) => r matches Ok(None),
                    Err(_) => r is Err,
                }
                &&& final(self).has_recorded(*old(self), traditional_acct_num, outcome.distributed)
            }),
    {
        let trad_holdings = match self.accounts_values.get(&traditional_acct_num) {
            Some(holdings) => *holdings,
            None => ShareValues::new(),
        };
        match self.eoy_traditional_holdings(year, traditional_acct_num, trad_holdings)? {
            Some(holdings) => match worth(holdings, eoy_quotes) {
                Some(value) => Ok(Some(value)),
                None => Err(OutOfRange),
            },
            None => Ok(None),
        }
    }
}

impl Default for VanguardHoldings {
    fn default() -> (r: VanguardHoldings)
        ensures
            r.accounts_values@ == Map::<u32, ShareValues>::empty(),
            r.accounts_shares@ == Map::<u32, ShareValues>::empty(),
            r.quotes@ == Values::filled(1_000_000),
            r.transactions@ == Seq::<Transaction>::empty(),
            r.distributions@ == Map::<u32, i64>::empty(),
    {
        VanguardHoldings::new(ShareValues::new_quote())
    }
}

} // verus!
