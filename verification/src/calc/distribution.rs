//! The minimum distribution that is required from a traditional IRA.
//!
//! The distribution required in a year is the value that the account had at the
//! end of the year before, divided by the distribution period that a table
//! gives for the age of its owner.
use crate::error::OutOfRange;
use crate::fixed::{checked_difference, checked_ratio, fits, ratio};
use crate::holdings::ledger::year_end_boundary;
use crate::holdings::share_values::ShareValues;
use crate::holdings::store::{taken_now, year_end, year_end_value, VanguardHoldings};
use crate::holdings::transaction::Transaction;
use crate::holdings::values::Values;
use std::collections::HashMap;
use vstd::prelude::*;

verus! {

broadcast use vstd::std_specs::hash::group_hash_axioms;

/// The distribution period for an age, in millionths of a year. There is none
/// where the table has no entry of that age, and none where the entry is zero.
pub open spec fn period_for(table: Map<u32, i64>, age: int) -> Option<int> {
    if 0 <= age <= u32::MAX && table.contains_key(age as u32) && table[age as u32] != 0 {
        Some(table[age as u32] as int)
    } else {
        None
    }
}

/// The minimum distribution for an age and a value at the end of the year
/// before: the value over the distribution period, and zero where the table has
/// no period for the age.
pub open spec fn minimum_distribution(age: int, value: int, table: Map<u32, i64>) -> int {
    match period_for(table, age) {
        Some(period) => ratio(value, period),
        None => 0,
    }
}

/// The minimum distribution for someone of the given age whose traditional IRA
/// was worth `traditional_value` at the end of the year before. This is for
/// someone who is unmarried, or whose spouse is not more than ten years younger.
/// The table gives the distribution period, in millionths of a year, for each
/// age.
pub fn calculate_minimum_distribution(
    age: u32,
    traditional_value: i64,
    distribution_table: &HashMap<u32, i64>,
) -> (r: Result<i64, OutOfRange>)
    ensures
        match r {
            Ok(minimum) => minimum == minimum_distribution(
                age as int,
                traditional_value as int,
                distribution_table@,
            ),
            Err(_) => !fits(
                minimum_distribution(age as int, traditional_value as int, distribution_table@),
            ),
        },
{
    match distribution_table.get(&age) {
        Some(period) => {
            if *period == 0 {
                Ok(0)
            } else {
                match checked_ratio(traditional_value, *period) {
                    Some(minimum) => Ok(minimum),
                    None => Err(OutOfRange),
                }
            }
        },
        None => Ok(0),
    }
}

/// What is known of the distribution that is required in a year.
#[derive(Clone, Copy, PartialEq, Eq, Debug, Structural)]
pub enum Distribution {
    /// The ledger does not show what the account held at the end of the year
    /// before: more history is needed. This is not a distribution of zero.
    InsufficientHistory,
    /// No distribution is required at this age.
    NotRequired,
    /// A distribution is required.
    Required {
        /// The least that has to be distributed in the year, in millionths of a
        /// dollar.
        minimum: i64,
        /// What has been distributed already.
        distributed: i64,
        /// What is left to distribute: never less than zero.
        remaining: i64,
    },
}

/// The distribution that is required, from the value that the account had at the
/// end of the year before, what it has distributed, and the age of its owner.
///
/// Where the value is not known, more history is needed, whatever the age. Where
/// the table has no period for the age, none is required. Else the minimum is
/// the value over the period, and what remains of it once the distributions are
/// taken off, or nothing if they exceed it.
pub open spec fn distribution_due(
    value: Result<Option<int>, OutOfRange>,
    distributed: int,
    age: int,
    table: Map<u32, i64>,
) -> Result<Distribution, OutOfRange> {
    match value {
        Err(error) => Err(error),
        Ok(None) => Ok(Distribution::InsufficientHistory),
        Ok(Some(worth)) => match period_for(table, age) {
            None => Ok(Distribution::NotRequired),
            Some(period) => {
                let minimum = ratio(worth, period);
                let remaining = if minimum - distributed > 0 {
                    minimum - distributed
                } else {
                    0
                };
                if fits(minimum) && fits(remaining) && fits(distributed) {
                    Ok(
                        Distribution::Required {
                            minimum: minimum as i64,
                            distributed: distributed as i64,
                            remaining: remaining as i64,
                        },
                    )
                } else {
                    Err(OutOfRange)
                }
            },
        },
    }
}

/// The value of an account at the end of the year before, as it was computed.
pub open spec fn known(worth: Option<i64>) -> Result<Option<int>, OutOfRange> {
    match worth {
        Some(value) => Ok(Some(value as int)),
        None => Ok(None),
    }
}

/// The distribution that is required in `distribution_year` from an account of
/// someone born in `birth_year`, where the account was worth `worth` at the end
/// of the year before, if that is known, and has distributed `distributed`.
pub fn distribution_for(
    worth: Option<i64>,
    distributed: i64,
    distribution_year: u32,
    birth_year: u32,
    distribution_table: &HashMap<u32, i64>,
) -> (r: Result<Distribution, OutOfRange>)
    ensures
        r == distribution_due(
            known(worth),
            distributed as int,
            distribution_year - birth_year,
            distribution_table@,
        ),
{
    let worth: i64 = match worth {
        Some(worth) => worth,
        None => {
            return Ok(Distribution::InsufficientHistory);
        },
    };
    if birth_year > distribution_year {
        return Ok(Distribution::NotRequired);
    }
    let age: u32 = distribution_year - birth_year;
    let period: i64 = match distribution_table.get(&age) {
        Some(period) => *period,
        None => {
            return Ok(Distribution::NotRequired);
        },
    };
    if period == 0 {
        return Ok(Distribution::NotRequired);
    }
    let minimum: i64 = match checked_ratio(worth, period) {
        Some(minimum) => minimum,
        None => {
            return Err(OutOfRange);
        },
    };
    let remaining: i64 = match checked_difference(minimum, distributed) {
        Some(difference) => if difference > 0 {
            difference
        } else {
            0
        },
        None => {
            if minimum > distributed {
                return Err(OutOfRange);
            }
            0
        },
    };
    Ok(Distribution::Required { minimum, distributed, remaining })
}

/// The distribution that is required in `distribution_year` from the account
/// `traditional_acct_num` of someone born in `birth_year`.
///
/// The holdings of the account at the end of the year before are taken from the
/// ledger and valued at `eoy_quotes`, the prices of that time. The table gives
/// the distribution period, in millionths of a year, for each age. What the
/// ledger shows the account to have distributed since the end of the year
/// before becomes what the store records for it, and is what counts as
/// distributed.
pub fn required_distribution(
    distribution_year: u32,
    birth_year: u32,
    traditional_acct_num: u32,
    holdings: &mut VanguardHoldings,
    distribution_table: &HashMap<u32, i64>,
    eoy_quotes: ShareValues,
) -> (r: Result<Distribution, OutOfRange>)
    ensures
        ({
            let outcome = year_end(
                old(holdings).transactions@,
                distribution_year,
                traditional_acct_num,
                old(holdings).held(traditional_acct_num),
            );
            &&& r == distribution_due(
                year_end_value(outcome.holdings, eoy_quotes@),
                taken_now(old(holdings).taken(traditional_acct_num), outcome.distributed),
                distribution_year - birth_year,
                distribution_table@,
            )
            &&& final(holdings).has_recorded(
                *old(holdings),
                traditional_acct_num,
                outcome.distributed,
            )
        }),
{
    let worth = holdings.eoy_value(distribution_year, traditional_acct_num, eoy_quotes)?;
    let distributed: i64 = holdings.distributions(&traditional_acct_num);
    distribution_for(worth, distributed, distribution_year, birth_year, distribution_table)
}

/// From a ledger that holds no transaction dated before December 31 of the year
/// before, no distribution is ever computed: more history is needed.
pub proof fn lemma_short_ledger_needs_more_history(
    ledger: Seq<Transaction>,
    taken: int,
    year: u32,
    account: u32,
    current: Values,
    quotes: Values,
    age: int,
    table: Map<u32, i64>,
)
    requires
        year_end_boundary(year) matches Some(boundary) ==> forall|i: int|
            0 <= i < ledger.len() ==> (#[trigger] ledger[i]).trade_date >= boundary,
    ensures
        year_end(ledger, year, account, current).holdings == Ok::<Option<Values>, OutOfRange>(
            None,
        ),
        distribution_due(
            year_end_value(year_end(ledger, year, account, current).holdings, quotes),
            taken_now(taken, year_end(ledger, year, account, current).distributed),
            age,
            table,
        ) == Ok::<Distribution, OutOfRange>(Distribution::InsufficientHistory),
{
    if let Some(boundary) = year_end_boundary(year) {
        crate::holdings::ledger::lemma_short_ledger_is_insufficient(
            ledger,
            account,
            boundary as int,
            current,
            ledger.len(),
        );
    }
}

} // verus!
