//! Multi-party governance for an agent treasury: proposals that wait out a
//! timelock and are ratified by two of three authorized signers, together
//! with the checked-arithmetic ledgers that the governance gates.
pub mod brain;
pub mod fee_collector;
pub mod governance;
pub mod identity;
pub mod store;
pub mod syndicate;
