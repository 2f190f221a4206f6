//! A correlated synthetic market-data engine: the symbol universe, the
//! decisions of the tick generator, the gateway's batching and
//! backpressure rules, the shutdown lifecycle and the metrics windows.

pub mod cli;
pub mod config;
pub mod correlation;
pub mod dashboard;
pub mod factor;
pub mod gateway;
pub mod generator;
pub mod labels;
pub mod lifecycle;
pub mod metrics;
pub mod model;
pub mod store;
pub mod stream;
pub mod text;
pub mod transport;
