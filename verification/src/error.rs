//! Why a computation can fail.
use vstd::prelude::*;

verus! {

/// The reasons for which no allocation or no rebalance is computed.
#[derive(Clone, Copy, PartialEq, Eq, Debug, Structural)]
pub enum RebalanceError {
    /// The retirement year is before 2000 or after 2999.
    RetirementYear,
    /// The stock, bond and inflation protected percentages do not add up to 100.
    AllocationSum,
    /// The percentages of the nine funds are off 100 by a tenth or more.
    SubAllocationSum,
    /// Some value of the Roth IRA was left without a fund after all nine funds
    /// had been considered.
    RothLeftover,
    /// The target of the Roth IRA is not within one percent of what the account
    /// holds.
    RothMismatch,
    /// Some value of the brokerage account was left without a fund after all
    /// nine funds had been considered.
    BrokerageLeftover,
    /// The target of the brokerage account is not within one percent of what the
    /// account holds.
    BrokerageMismatch,
    /// An amount of the result cannot be stored in 64 bits.
    OutOfRange,
}

/// An amount cannot be stored in 64 bits.
#[derive(Clone, Copy, PartialEq, Eq, Debug, Structural)]
pub struct OutOfRange;

} // verus!
