//! Streaming technical-analysis engine over time-ordered price bars.
//!
//! Each step consumes one bar (open/high/low/close/volume) and produces a
//! small fixed-capacity batch of values and discrete trading signals:
//! stateful scalar transforms ("methods") are composed into configurable,
//! validated indicators, and indicators into strategies that fuse their
//! per-step outputs into buy/sell signals.

mod action;
mod candle;
mod error;
mod hma_ema_crossover;
mod hma_pivot_reversal;
mod hull_moving_average;
mod indicator;
mod laws;
mod math;
mod method;
mod moving_average;
mod result;
mod reversal;
mod strategy;
mod text;

pub use action::Action;
pub use candle::Candle;
pub use candle::Source;
pub use error::Error;
pub use hma_ema_crossover::crossover_signal;
pub use hma_ema_crossover::crossover_step;
pub use hma_ema_crossover::HmaEmaCrossOver;
pub use hma_ema_crossover::HmaEmaCrossOverInstance;
pub use hma_pivot_reversal::pivot_step;
pub use hma_pivot_reversal::HMAPivotReversal;
pub use hma_pivot_reversal::HMAPivotReversalStrategy;
pub use hull_moving_average::HullMovingAverage;
pub use hull_moving_average::HullMovingAverageInstance;
pub use laws::crossover_observable;
pub use laws::detector_signals;
pub use laws::lemma_crossover_step_deterministic;
pub use laws::lemma_pass_through_round_trip;
pub use laws::lemma_pivot_step_deterministic;
pub use laws::lemma_replay_deterministic;
pub use laws::lemma_replay_window_len;
pub use laws::lemma_warm_up_neutral;
pub use laws::pass_through_signals;
pub use laws::pivot_observable;
pub use laws::replay_window;
pub use indicator::IndicatorConfig;
pub use indicator::IndicatorInstance;
pub use method::Method;
pub use moving_average::ema_step;
pub use moving_average::hma_diff;
pub use moving_average::hma_fresh;
pub use moving_average::hma_obs;
pub use moving_average::hma_stepped;
pub use moving_average::is_sqrt_floor;
pub use moving_average::lemma_sqrt_floor_unique;
pub use moving_average::sqrt_period;
pub use moving_average::Ema;
pub use moving_average::Hma;
pub use result::IndicatorResult;
pub use result::RESULT_SIZE;
pub use reversal::detector_signal;
pub use reversal::is_peak;
pub use reversal::is_trough;
pub use reversal::pivot_signal;
pub use reversal::valid_lag;
pub use reversal::window_push;
pub use reversal::ReversalSignal;
pub use strategy::StrategyConfig;
pub use strategy::StrategyInstance;
pub use strategy::StrategyResult;
pub use text::parse_period;
pub use text::parse_source;
