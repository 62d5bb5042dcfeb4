//! Verified core of the portfolio ledger backend: request parsing, configuration
//! decisions, response shaping and the import/commit decision rules.
use vstd::prelude::*;

pub mod body_limits;
pub mod text;
pub mod key_set;
pub mod config;
pub mod decimal;
pub mod valuation;
pub mod gains;
pub mod gain_rows;
pub mod performance;
pub mod waterfall;
pub mod error;
pub mod instruments;
pub mod transactions;
pub mod calendar;
pub mod period;
pub mod refresh_runs;
pub mod provider_symbols;
pub mod requests;
pub mod prices;
pub mod fx_rates;
pub mod history;
pub mod rebalance;
pub mod holdings;
pub mod ledger_open;
pub mod float_literal;
pub mod static_assets;
pub mod import;

verus! {

} // verus!
