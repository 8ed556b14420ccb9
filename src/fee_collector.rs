//! Trading-fee ledger: a percentage of each trade is counted as collected,
//! and collected fees are withdrawn to the treasury.
use vstd::prelude::*;

use crate::identity::Identity;

verus! {

#[derive(Clone, Copy, Debug, PartialEq, Eq, Structural)]
pub enum FeeError {
    InsufficientFees,
    MathOverflow,
    InvalidPercentage,
}

#[derive(Clone, Copy, Debug)]
pub struct FeeCollector {
    pub authority: Identity,
    pub treasury_wallet: Identity,
    pub fee_percentage: u64,
    pub total_fees_collected: u64,
    pub total_withdrawn: u64,
}

/// Emitted when the fee of a trade is recorded.
#[derive(Clone, Copy, Debug)]
pub struct FeeRecorded {
    pub trade_amount: u64,
    pub fee_amount: u64,
    pub total_collected: u64,
    pub timestamp: i64,
}

/// Emitted when fees are withdrawn to the treasury.
#[derive(Clone, Copy, Debug)]
pub struct FeesWithdrawn {
    pub amount: u64,
    pub timestamp: i64,
    pub treasury: Identity,
}

/// Emitted when the fee percentage changes.
#[derive(Clone, Copy, Debug)]
pub struct FeePercentageUpdated {
    pub old_percentage: u64,
    pub new_percentage: u64,
    pub timestamp: i64,
}

/// A collector with nothing collected or withdrawn yet.
pub fn initialize_fee_collector(authority: Identity, treasury_wallet: Identity, fee_percentage: u64) -> (r:
    FeeCollector)
    ensures
        r == (FeeCollector {
            authority,
            treasury_wallet,
            fee_percentage,
            total_fees_collected: 0,
            total_withdrawn: 0,
        }),
{
    FeeCollector { authority, treasury_wallet, fee_percentage, total_fees_collected: 0, total_withdrawn: 0 }
}

/// Counts `trade_amount * fee_percentage / 100`, rounded down, as
/// collected. A product or a total beyond `u64` is a `MathOverflow`.
pub fn record_fee(collector: &mut FeeCollector, trade_amount: u64, now: i64) -> (r: Result<
    FeeRecorded,
    FeeError,
>)
    ensures
        ({
            let product = trade_amount * old(collector).fee_percentage;
            let fee = product / 100;
            match r {
                Ok(ev) => {
                    &&& product <= u64::MAX
                    &&& old(collector).total_fees_collected + fee <= u64::MAX
                    &&& *final(collector) == (FeeCollector {
                        total_fees_collected: (old(collector).total_fees_collected + fee) as u64,
                        ..*old(collector)
                    })
                    &&& ev == (FeeRecorded {
                        trade_amount,
                        fee_amount: fee as u64,
                        total_collected: final(collector).total_fees_collected,
                        timestamp: now,
                    })
                },
                Err(e) => {
                    &&& e == FeeError::MathOverflow
                    &&& (product > u64::MAX || old(collector).total_fees_collected + fee > u64::MAX)
                    &&& *final(collector) == *old(collector)
                },
            }
        }),
{
    let product = match trade_amount.checked_mul(collector.fee_percentage) {
        Some(p) => p,
        None => return Err(FeeError::MathOverflow),
    };
    let fee_amount = product / 100;
    let total = match collector.total_fees_collected.checked_add(fee_amount) {
        Some(t) => t,
        None => return Err(FeeError::MathOverflow),
    };
    collector.total_fees_collected = total;
    Ok(FeeRecorded { trade_amount, fee_amount, total_collected: total, timestamp: now })
}

/// Moves `amount` from the collected balance to the withdrawn total.
pub fn withdraw_fees(collector: &mut FeeCollector, amount: u64, now: i64) -> (r: Result<
    FeesWithdrawn,
    FeeError,
>)
    ensures
        match r {
            Ok(ev) => {
                &&& amount <= old(collector).total_fees_collected
                &&& old(collector).total_withdrawn + amount <= u64::MAX
                &&& *final(collector) == (FeeCollector {
                    total_fees_collected: (old(collector).total_fees_collected - amount) as u64,
                    total_withdrawn: (old(collector).total_withdrawn + amount) as u64,
                    ..*old(collector)
                })
                &&& ev == (FeesWithdrawn {
                    amount,
                    timestamp: now,
                    treasury: old(collector).treasury_wallet,
                })
            },
            Err(e) => {
                &&& *final(collector) == *old(collector)
                &&& amount > old(collector).total_fees_collected ==> e == FeeError::InsufficientFees
                &&& amount <= old(collector).total_fees_collected ==> e == FeeError::MathOverflow
                    && old(collector).total_withdrawn + amount > u64::MAX
            },
        },
{
    if collector.total_fees_collected < amount {
        return Err(FeeError::InsufficientFees);
    }
    let withdrawn = match collector.total_withdrawn.checked_add(amount) {
        Some(w) => w,
        None => return Err(FeeError::MathOverflow),
    };
    collector.total_fees_collected = collector.total_fees_collected - amount;
    collector.total_withdrawn = withdrawn;
    Ok(FeesWithdrawn { amount, timestamp: now, treasury: collector.treasury_wallet })
}

/// Sets the fee percentage; it must lie in 1..=100.
pub fn update_fee_percentage(collector: &mut FeeCollector, new_percentage: u64, now: i64) -> (r:
    Result<FeePercentageUpdated, FeeError>)
    ensures
        match r {
            Ok(ev) => {
                &&& 0 < new_percentage <= 100
                &&& *final(collector) == (FeeCollector {
                    fee_percentage: new_percentage,
                    ..*old(collector)
                })
                &&& ev == (FeePercentageUpdated {
                    old_percentage: old(collector).fee_percentage,
                    new_percentage,
                    timestamp: now,
                })
            },
            Err(e) => {
                &&& !(0 < new_percentage <= 100)
                &&& e == FeeError::InvalidPercentage
                &&& *final(collector) == *old(collector)
            },
        },
{
    if new_percentage == 0 || new_percentage > 100 {
        return Err(FeeError::InvalidPercentage);
    }
    let old_percentage = collector.fee_percentage;
    collector.fee_percentage = new_percentage;
    Ok(FeePercentageUpdated { old_percentage, new_percentage, timestamp: now })
}

/// The fees collected and not yet withdrawn.
pub fn get_fee_balance(collector: &FeeCollector) -> (r: u64)
    ensures
        r == collector.total_fees_collected,
{
    collector.total_fees_collected
}

} // verus!
