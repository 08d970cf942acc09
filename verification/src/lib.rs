//! A tick-replay trading simulation: raw trade times are converted into
//! elapsed micro-seconds, a market feed replays ticks in order, and each
//! trader runs a dollar-cost-averaging strategy that buys and sells on fixed
//! schedules. The orders the traders place are turned into log records.
pub mod data_loader;
pub mod logger;
pub mod market;
pub mod simulation_builder;
pub mod strategy;
pub mod trader;
