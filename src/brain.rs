//! Trading state of the brain: a running profit-and-loss balance with a
//! circuit breaker that freezes the brain once the balance falls below its
//! limit, and an evolution tier that only moves up.
use vstd::prelude::*;

use crate::identity::Identity;

verus! {

#[derive(Clone, Copy, Debug, PartialEq, Eq, Structural)]
pub enum EvolutionTier {
    Cellular,
    Sentient,
    Superintelligent,
    Godlike,
}

#[derive(Clone, Copy, Debug, PartialEq, Eq, Structural)]
pub enum BrainError {
    /// The circuit breaker has frozen the brain.
    BrainFrozen,
    MathOverflow,
}

#[derive(Clone, Copy, Debug)]
pub struct BrainState {
    pub mint: Identity,
    pub authority: Identity,
    pub pnl_balance: i64,
    pub pnl_limit: i64,
    pub frozen: bool,
    pub evolution_tier: EvolutionTier,
    pub last_updated: i64,
}

/// Capital that the brain offers to another agent.
#[derive(Clone, Copy, Debug)]
pub struct Partnership {
    pub agent: Identity,
    pub allocated_capital: u64,
    pub active: bool,
    pub created_at: i64,
}

/// Emitted when a PnL report freezes the brain.
#[derive(Clone, Copy, Debug)]
pub struct CircuitBreakerTriggered {
    pub pnl_balance: i64,
    pub timestamp: i64,
}

/// Emitted when a partnership is proposed.
#[derive(Clone, Copy, Debug)]
pub struct PartnershipProposed {
    pub agent: Identity,
    pub capital: u64,
}

/// Emitted when the brain moves to its next tier.
#[derive(Clone, Debug)]
pub struct TierEvolved {
    pub new_tier: String,
    pub timestamp: i64,
}

/// Emitted when the brain is unfrozen.
#[derive(Clone, Copy, Debug)]
pub struct BrainUnfrozen {
    pub timestamp: i64,
}

/// The tier after `t`; the top tier stays where it is.
pub open spec fn next_tier(t: EvolutionTier) -> EvolutionTier {
    match t {
        EvolutionTier::Cellular => EvolutionTier::Sentient,
        EvolutionTier::Sentient => EvolutionTier::Superintelligent,
        EvolutionTier::Superintelligent => EvolutionTier::Godlike,
        EvolutionTier::Godlike => EvolutionTier::Godlike,
    }
}

/// The name of a tier, as it is written in events.
pub open spec fn tier_name(t: EvolutionTier) -> Seq<char> {
    match t {
        EvolutionTier::Cellular => "Cellular"@,
        EvolutionTier::Sentient => "Sentient"@,
        EvolutionTier::Superintelligent => "Superintelligent"@,
        EvolutionTier::Godlike => "Godlike"@,
    }
}

impl EvolutionTier {
    /// The tier's name.
    pub fn name(&self) -> (r: String)
        ensures
            r@ == tier_name(*self),
    {
        match self {
            EvolutionTier::Cellular => "Cellular".to_owned(),
            EvolutionTier::Sentient => "Sentient".to_owned(),
            EvolutionTier::Superintelligent => "Superintelligent".to_owned(),
            EvolutionTier::Godlike => "Godlike".to_owned(),
        }
    }
}

/// A fresh, unfrozen brain at the lowest tier with a zero balance.
pub fn initialize_brain(mint: Identity, authority: Identity, pnl_limit: i64, now: i64) -> (r:
    BrainState)
    ensures
        r == (BrainState {
            mint,
            authority,
            pnl_balance: 0,
            pnl_limit,
            frozen: false,
            evolution_tier: EvolutionTier::Cellular,
            last_updated: now,
        }),
{
    BrainState {
        mint,
        authority,
        pnl_balance: 0,
        pnl_limit,
        frozen: false,
        evolution_tier: EvolutionTier::Cellular,
        last_updated: now,
    }
}

/// Adds `pnl_amount` to the balance; a balance below the limit trips the
/// circuit breaker, which freezes the brain and yields the event.
pub fn report_pnl(brain: &mut BrainState, pnl_amount: i64, now: i64) -> (r: Result<
    Option<CircuitBreakerTriggered>,
    BrainError,
>)
    ensures
        match r {
            Ok(ev) => {
                let balance = old(brain).pnl_balance + pnl_amount;
                &&& !old(brain).frozen
                &&& i64::MIN <= balance <= i64::MAX
                &&& *final(brain) == (BrainState {
                    pnl_balance: balance as i64,
                    frozen: balance < old(brain).pnl_limit,
                    last_updated: now,
                    ..*old(brain)
                })
                &&& ev is Some <==> balance < old(brain).pnl_limit
                &&& ev matches Some(e) ==> e == (CircuitBreakerTriggered {
                    pnl_balance: balance as i64,
                    timestamp: now,
                })
            },
            Err(e) => {
                &&& *final(brain) == *old(brain)
                &&& old(brain).frozen ==> e == BrainError::BrainFrozen
                &&& !old(brain).frozen ==> e == BrainError::MathOverflow && !(i64::MIN
                    <= old(brain).pnl_balance + pnl_amount <= i64::MAX)
            },
        },
{
    if brain.frozen {
        return Err(BrainError::BrainFrozen);
    }
    let balance = match brain.pnl_balance.checked_add(pnl_amount) {
        Some(b) => b,
        None => return Err(BrainError::MathOverflow),
    };
    brain.pnl_balance = balance;
    brain.last_updated = now;
    if balance < brain.pnl_limit {
        brain.frozen = true;
        Ok(Some(CircuitBreakerTriggered { pnl_balance: balance, timestamp: now }))
    } else {
        Ok(None)
    }
}

/// Offers `capital_allocation` to `agent_address`, unless the brain is
/// frozen.
pub fn propose_partnership(
    brain: &BrainState,
    agent_address: Identity,
    capital_allocation: u64,
    now: i64,
) -> (r: Result<(Partnership, PartnershipProposed), BrainError>)
    ensures
        match r {
            Ok((p, ev)) => {
                &&& !brain.frozen
                &&& p == (Partnership {
                    agent: agent_address,
                    allocated_capital: capital_allocation,
                    active: true,
                    created_at: now,
                })
                &&& ev == (PartnershipProposed { agent: agent_address, capital: capital_allocation })
            },
            Err(e) => brain.frozen && e == BrainError::BrainFrozen,
        },
{
    if brain.frozen {
        return Err(BrainError::BrainFrozen);
    }
    let partnership = Partnership {
        agent: agent_address,
        allocated_capital: capital_allocation,
        active: true,
        created_at: now,
    };
    Ok((partnership, PartnershipProposed { agent: agent_address, capital: capital_allocation }))
}

/// Moves the brain to the next tier; at the top tier it stays.
pub fn evolve_tier(brain: &mut BrainState, now: i64) -> (r: TierEvolved)
    ensures
        *final(brain) == (BrainState { evolution_tier: next_tier(old(brain).evolution_tier), ..*old(brain) }),
        r.new_tier@ == tier_name(next_tier(old(brain).evolution_tier)),
        r.timestamp == now,
{
    let next = match brain.evolution_tier {
        EvolutionTier::Cellular => EvolutionTier::Sentient,
        EvolutionTier::Sentient => EvolutionTier::Superintelligent,
        EvolutionTier::Superintelligent => EvolutionTier::Godlike,
        EvolutionTier::Godlike => EvolutionTier::Godlike,
    };
    brain.evolution_tier = next;
    TierEvolved { new_tier: next.name(), timestamp: now }
}

/// Lifts the circuit breaker.
pub fn unfreeze_brain(brain: &mut BrainState, now: i64) -> (r: BrainUnfrozen)
    ensures
        *final(brain) == (BrainState { frozen: false, ..*old(brain) }),
        r == (BrainUnfrozen { timestamp: now }),
{
    brain.frozen = false;
    BrainUnfrozen { timestamp: now }
}

} // verus!
