//! What a rebalance says of one account, and of the three accounts together.
use crate::holdings::share_values::ShareValues;
use crate::holdings::values::Values;
use vstd::prelude::*;

verus! {

/// What one account holds, what it should hold, and what to trade.
pub struct AccountPlan {
    /// The value held of each fund.
    pub current: Values,
    /// The value to hold of each fund.
    pub target: Values,
    /// The shares to buy of each fund, or to sell where negative.
    pub sale_purchases_needed: Values,
}

impl AccountPlan {
    /// The plan of an account that takes no part: zeros throughout.
    pub open spec fn idle() -> AccountPlan {
        AccountPlan {
            current: Values::zero(),
            target: Values::zero(),
            sale_purchases_needed: Values::zero(),
        }
    }
}

/// What one account holds, what it should hold, and the shares to buy or sell to
/// get there.
#[derive(Clone, Copy, PartialEq, Eq, Debug, Structural)]
pub struct AccountHoldings {
    /// The value held of each fund.
    pub current: ShareValues,
    /// The value to hold of each fund.
    pub target: ShareValues,
    /// The shares to buy of each fund, or to sell where negative.
    pub sale_purchases_needed: ShareValues,
}

impl View for AccountHoldings {
    type V = AccountPlan;

    open spec fn view(&self) -> AccountPlan {
        AccountPlan {
            current: self.current@,
            target: self.target@,
            sale_purchases_needed: self.sale_purchases_needed@,
        }
    }
}

impl AccountHoldings {
    /// Puts the three vectors of an account together.
    pub fn new(current: ShareValues, target: ShareValues, sale_purchases_needed: ShareValues) -> (r:
        AccountHoldings)
        ensures
            r.current == current,
            r.target == target,
            r.sale_purchases_needed == sale_purchases_needed,
    {
        AccountHoldings { current, target, sale_purchases_needed }
    }
}

impl Default for AccountHoldings {
    fn default() -> (r: AccountHoldings)
        ensures
            r@ == AccountPlan::idle(),
    {
        AccountHoldings {
            current: ShareValues::new(),
            target: ShareValues::new(),
            sale_purchases_needed: ShareValues::new(),
        }
    }
}

/// The role of an account.
#[derive(Clone, Copy, PartialEq, Eq, Debug, Structural)]
pub enum HoldingType {
    /// The taxable brokerage account.
    Brokerage,
    /// The traditional IRA, taxed when money is taken out.
    TraditionalIra,
    /// The Roth IRA, which grows free of tax.
    RothIra,
}

/// The outcome of a rebalance as a mathematical value.
pub struct RebalancePlan {
    pub brokerage: AccountPlan,
    pub traditional_ira: AccountPlan,
    pub roth_ira: AccountPlan,
    /// The target of the retirement accounts together, where any takes part.
    pub retirement_target: Option<Values>,
}

impl RebalancePlan {
    /// The plan before any account was added.
    pub open spec fn idle() -> RebalancePlan {
        RebalancePlan {
            brokerage: AccountPlan::idle(),
            traditional_ira: AccountPlan::idle(),
            roth_ira: AccountPlan::idle(),
            retirement_target: None,
        }
    }
}

/// The outcome of a rebalance: one [`AccountHoldings`] for each account, and the
/// target of the retirement accounts together where any of them takes part. An
/// account that takes no part holds zeros.
#[derive(Clone, Copy, PartialEq, Eq, Debug)]
pub struct VanguardRebalance {
    pub brokerage: AccountHoldings,
    pub traditional_ira: AccountHoldings,
    pub roth_ira: AccountHoldings,
    /// The target of the retirement accounts together, where any takes part.
    pub retirement_target: Option<ShareValues>,
}

impl View for VanguardRebalance {
    type V = RebalancePlan;

    open spec fn view(&self) -> RebalancePlan {
        RebalancePlan {
            brokerage: self.brokerage@,
            traditional_ira: self.traditional_ira@,
            roth_ira: self.roth_ira@,
            retirement_target: match self.retirement_target {
                Some(target) => Some(target@),
                None => None,
            },
        }
    }
}

impl VanguardRebalance {
    /// The rebalance in which no account takes part.
    pub fn new() -> (r: VanguardRebalance)
        ensures
            r@ == RebalancePlan::idle(),
    {
        VanguardRebalance {
            brokerage: AccountHoldings::default(),
            traditional_ira: AccountHoldings::default(),
            roth_ira: AccountHoldings::default(),
            retirement_target: None,
        }
    }

    /// Replaces the holdings of the account with the given role.
    pub fn add_account_holdings(&mut self, acct_holding: AccountHoldings, acct_type: HoldingType)
        ensures
            final(self)@ == match acct_type {
                HoldingType::Brokerage => RebalancePlan { brokerage: acct_holding@, ..old(self)@ },
                HoldingType::TraditionalIra => RebalancePlan {
                    traditional_ira: acct_holding@,
                    ..old(self)@
                },
                HoldingType::RothIra => RebalancePlan { roth_ira: acct_holding@, ..old(self)@ },
            },
    {
        match acct_type {
            HoldingType::Brokerage => self.brokerage = acct_holding,
            HoldingType::TraditionalIra => self.traditional_ira = acct_holding,
            HoldingType::RothIra => self.roth_ira = acct_holding,
        }
    }

    /// Sets the target of the retirement accounts together.
    pub fn add_retirement_target(&mut self, retirement_target: ShareValues)
        ensures
            final(self)@ == (RebalancePlan {
                retirement_target: Some(retirement_target@),
                ..old(self)@
            }),
    {
        self.retirement_target = Some(retirement_target);
    }

    /// The target of the retirement accounts together, where any of them takes
    /// part.
    pub fn retirement_target(&self) -> (r: Option<ShareValues>)
        ensures
            r == self.retirement_target,
    {
        self.retirement_target
    }
}

impl Default for VanguardRebalance {
    fn default() -> (r: VanguardRebalance)
        ensures
            r@ == RebalancePlan::idle(),
    {
        VanguardRebalance::new()
    }
}

} // verus!
