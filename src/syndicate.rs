//! Capital-allocation ledger of the agent syndicate: partners with allocated
//! capital and accumulated profits, kept with checked arithmetic.
use vstd::prelude::*;

use crate::identity::Identity;

verus! {

#[derive(Clone, Copy, Debug, PartialEq, Eq, Structural)]
pub enum StakingTier {
    Bronze,
    Silver,
    Gold,
    Platinum,
}

#[derive(Clone, Copy, Debug, PartialEq, Eq, Structural)]
pub enum AgentError {
    InvalidPartner,
    PartnerInactive,
    MathOverflow,
    NoPartners,
    InvalidAmount,
    InsufficientCapital,
}

/// The syndicate's totals over all its partners.
#[derive(Clone, Copy, Debug)]
pub struct Syndicate {
    pub authority: Identity,
    pub partner_count: u64,
    pub total_allocated: u64,
    pub total_profits: u64,
}

/// One profit report of a partner.
#[derive(Clone, Copy, Debug)]
pub struct ProfitReport {
    pub amount: u64,
    pub timestamp: i64,
}

/// An agent that holds an allocation of the syndicate's capital.
#[derive(Clone, Debug)]
pub struct Partner {
    pub id: u64,
    pub agent: Identity,
    pub allocated_capital: u64,
    pub tier: StakingTier,
    pub active: bool,
    pub created_at: i64,
    pub total_profits: u64,
    pub profit_reports: Vec<ProfitReport>,
}

/// Emitted when a partner joins.
#[derive(Clone, Copy, Debug)]
pub struct PartnerAdded {
    pub partner_id: u64,
    pub agent: Identity,
    pub capital: u64,
}

/// Emitted when a partner reports profit.
#[derive(Clone, Copy, Debug)]
pub struct ProfitReported {
    pub partner_id: u64,
    pub amount: u64,
    pub total_profits: u64,
}

/// Emitted when a weekly reward pool is distributed.
#[derive(Clone, Copy, Debug)]
pub struct WeeklyRewardsDistributed {
    pub total_pool: u64,
    pub partner_count: u64,
    pub timestamp: i64,
}

/// Emitted when capital is withdrawn from a partner.
#[derive(Clone, Copy, Debug)]
pub struct CapitalWithdrawn {
    pub partner_id: u64,
    pub amount: u64,
    pub remaining: u64,
}

/// A syndicate with no partners, governed by `authority`.
pub fn initialize_syndicate(authority: Identity) -> (r: Syndicate)
    ensures
        r.authority == authority,
        r.partner_count == 0,
        r.total_allocated == 0,
        r.total_profits == 0,
{
    Syndicate { authority, partner_count: 0, total_allocated: 0, total_profits: 0 }
}

/// Adds a partner with the next partner id and the given capital, which is
/// added to the syndicate's allocated total.
pub fn add_partner(
    syndicate: &mut Syndicate,
    agent_address: Identity,
    capital_allocation: u64,
    tier: StakingTier,
    now: i64,
) -> (r: Result<(Partner, PartnerAdded), AgentError>)
    ensures
        match r {
            Ok((p, ev)) => {
                &&& old(syndicate).total_allocated + capital_allocation <= u64::MAX
                &&& old(syndicate).partner_count < u64::MAX
                &&& p.id == old(syndicate).partner_count
                &&& p.agent == agent_address
                &&& p.allocated_capital == capital_allocation
                &&& p.tier == tier
                &&& p.active
                &&& p.created_at == now
                &&& p.total_profits == 0
                &&& p.profit_reports@.len() == 0
                &&& *final(syndicate) == (Syndicate {
                    total_allocated: (old(syndicate).total_allocated + capital_allocation) as u64,
                    partner_count: (old(syndicate).partner_count + 1) as u64,
                    ..*old(syndicate)
                })
                &&& ev == (PartnerAdded {
                    partner_id: p.id,
                    agent: agent_address,
                    capital: capital_allocation,
                })
            },
            Err(e) => {
                &&& e == AgentError::MathOverflow
                &&& (old(syndicate).total_allocated + capital_allocation > u64::MAX
                    || old(syndicate).partner_count == u64::MAX)
                &&& *final(syndicate) == *old(syndicate)
            },
        },
{
    let total_allocated = match syndicate.total_allocated.checked_add(capital_allocation) {
        Some(t) => t,
        None => return Err(AgentError::MathOverflow),
    };
    let partner_count = match syndicate.partner_count.checked_add(1) {
        Some(n) => n,
        None => return Err(AgentError::MathOverflow),
    };
    let partner = Partner {
        id: syndicate.partner_count,
        agent: agent_address,
        allocated_capital: capital_allocation,
        tier,
        active: true,
        created_at: now,
        total_profits: 0,
        profit_reports: Vec::new(),
    };
    syndicate.total_allocated = total_allocated;
    syndicate.partner_count = partner_count;
    let event = PartnerAdded { partner_id: partner.id, agent: agent_address, capital: capital_allocation };
    Ok((partner, event))
}

/// Why a profit report of `amount` for `partner_id` is refused, if it is.
pub open spec fn report_profit_error(s: Syndicate, p: Partner, partner_id: u64, amount: u64) -> Option<
    AgentError,
> {
    if p.id != partner_id {
        Some(AgentError::InvalidPartner)
    } else if !p.active {
        Some(AgentError::PartnerInactive)
    } else if p.total_profits + amount > u64::MAX || s.total_profits + amount > u64::MAX {
        Some(AgentError::MathOverflow)
    } else {
        None
    }
}

/// Adds `profit_amount` to the partner's and the syndicate's profits and
/// records the report.
pub fn report_profit(
    syndicate: &mut Syndicate,
    partner: &mut Partner,
    partner_id: u64,
    profit_amount: u64,
    now: i64,
) -> (r: Result<ProfitReported, AgentError>)
    ensures
        match r {
            Ok(ev) => {
                &&& report_profit_error(*old(syndicate), *old(partner), partner_id, profit_amount)
                    is None
                &&& *final(syndicate) == (Syndicate {
                    total_profits: (old(syndicate).total_profits + profit_amount) as u64,
                    ..*old(syndicate)
                })
                &&& final(partner).total_profits == old(partner).total_profits + profit_amount
                &&& final(partner).profit_reports@ == old(partner).profit_reports@.push(
                    ProfitReport { amount: profit_amount, timestamp: now },
                )
                &&& final(partner).id == old(partner).id
                &&& final(partner).agent == old(partner).agent
                &&& final(partner).allocated_capital == old(partner).allocated_capital
                &&& final(partner).tier == old(partner).tier
                &&& final(partner).active == old(partner).active
                &&& final(partner).created_at == old(partner).created_at
                &&& ev == (ProfitReported {
                    partner_id,
                    amount: profit_amount,
                    total_profits: final(partner).total_profits,
                })
            },
            Err(e) => {
                &&& report_profit_error(*old(syndicate), *old(partner), partner_id, profit_amount)
                    == Some(e)
                &&& *final(syndicate) == *old(syndicate)
                &&& *final(partner) == *old(partner)
            },
        },
{
    if partner.id != partner_id {
        return Err(AgentError::InvalidPartner);
    }
    if !partner.active {
        return Err(AgentError::PartnerInactive);
    }
    let partner_total = match partner.total_profits.checked_add(profit_amount) {
        Some(t) => t,
        None => return Err(AgentError::MathOverflow),
    };
    let syndicate_total = match syndicate.total_profits.checked_add(profit_amount) {
        Some(t) => t,
        None => return Err(AgentError::MathOverflow),
    };
    partner.total_profits = partner_total;
    syndicate.total_profits = syndicate_total;
    partner.profit_reports.push(ProfitReport { amount: profit_amount, timestamp: now });
    Ok(ProfitReported { partner_id, amount: profit_amount, total_profits: partner_total })
}

/// Authorizes the distribution of a weekly reward pool among the partners.
pub fn distribute_weekly_rewards(syndicate: &Syndicate, total_reward_pool: u64, now: i64) -> (r:
    Result<WeeklyRewardsDistributed, AgentError>)
    ensures
        match r {
            Ok(ev) => {
                &&& syndicate.partner_count > 0
                &&& total_reward_pool > 0
                &&& ev == (WeeklyRewardsDistributed {
                    total_pool: total_reward_pool,
                    partner_count: syndicate.partner_count,
                    timestamp: now,
                })
            },
            Err(e) => {
                &&& syndicate.partner_count == 0 ==> e == AgentError::NoPartners
                &&& syndicate.partner_count > 0 ==> total_reward_pool == 0 && e
                    == AgentError::InvalidAmount
            },
        },
{
    if syndicate.partner_count == 0 {
        return Err(AgentError::NoPartners);
    }
    if total_reward_pool == 0 {
        return Err(AgentError::InvalidAmount);
    }
    Ok(WeeklyRewardsDistributed {
        total_pool: total_reward_pool,
        partner_count: syndicate.partner_count,
        timestamp: now,
    })
}

/// Withdraws `amount` of the partner's allocated capital; a partner left
/// with none becomes inactive.
pub fn withdraw_capital(partner: &mut Partner, partner_id: u64, amount: u64) -> (r: Result<
    CapitalWithdrawn,
    AgentError,
>)
    ensures
        match r {
            Ok(ev) => {
                &&& old(partner).id == partner_id
                &&& amount <= old(partner).allocated_capital
                &&& final(partner).allocated_capital == old(partner).allocated_capital - amount
                &&& final(partner).active == (old(partner).active
                    && final(partner).allocated_capital > 0)
                &&& final(partner).id == old(partner).id
                &&& final(partner).agent == old(partner).agent
                &&& final(partner).tier == old(partner).tier
                &&& final(partner).created_at == old(partner).created_at
                &&& final(partner).total_profits == old(partner).total_profits
                &&& final(partner).profit_reports == old(partner).profit_reports
                &&& ev == (CapitalWithdrawn {
                    partner_id,
                    amount,
                    remaining: final(partner).allocated_capital,
                })
            },
            Err(e) => {
                &&& old(partner).id != partner_id ==> e == AgentError::InvalidPartner
                &&& old(partner).id == partner_id ==> amount > old(partner).allocated_capital && e
                    == AgentError::InsufficientCapital
                &&& *final(partner) == *old(partner)
            },
        },
{
    if partner.id != partner_id {
        return Err(AgentError::InvalidPartner);
    }
    if partner.allocated_capital < amount {
        return Err(AgentError::InsufficientCapital);
    }
    partner.allocated_capital = partner.allocated_capital - amount;
    if partner.allocated_capital == 0 {
        partner.active = false;
    }
    Ok(CapitalWithdrawn { partner_id, amount, remaining: partner.allocated_capital })
}

/// Reward multiplier of a tier, in percent.
pub open spec fn tier_multiplier(tier: StakingTier) -> u64 {
    match tier {
        StakingTier::Bronze => 100,
        StakingTier::Silver => 150,
        StakingTier::Gold => 200,
        StakingTier::Platinum => 300,
    }
}

/// The base reward scaled by the tier's multiplier, rounded down; an
/// intermediate product beyond `u64` is a `MathOverflow`.
pub fn calculate_reward(base_reward: u64, tier: StakingTier) -> (r: Result<u64, AgentError>)
    ensures
        match r {
            Ok(v) => base_reward * tier_multiplier(tier) <= u64::MAX && v == base_reward
                * tier_multiplier(tier) / 100,
            Err(e) => base_reward * tier_multiplier(tier) > u64::MAX && e
                == AgentError::MathOverflow,
        },
{
    let multiplier: u64 = match tier {
        StakingTier::Bronze => 100,
        StakingTier::Silver => 150,
        StakingTier::Gold => 200,
        StakingTier::Platinum => 300,
    };
    match base_reward.checked_mul(multiplier) {
        Some(scaled) => Ok(scaled / 100),
        None => Err(AgentError::MathOverflow),
    }
}

} // verus!
