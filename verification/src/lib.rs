//! Balance-change and profit/loss accounting for a trading engine.
//!
//! Order fills are turned into signed per-currency balance deltas, the deltas
//! are kept in a sliding window per trading place, and the window is kept in
//! step with the position changes reported by a position authority.

pub mod amount;
pub mod balance_change_period_selector;
pub mod balance_changes_accumulator;
pub mod balance_changes_calculator;
pub mod balance_changes_service;
pub mod configuration_descriptor;
pub mod identifiers;
pub mod liquidity_subscription;
pub mod orders;
pub mod position_change;
pub mod position_helper;
pub mod profit_loss_balance_change;
pub mod symbol;
pub mod time;
