//! Synthetic market data: a seeded, bounded random walk that yields candles
//! and ticks, with scheduled regimes and an online regime detector.

pub mod clock;
pub mod config;
pub mod env;
pub mod export;
pub mod generator;
pub mod price;
pub mod random_walk;
pub mod regimes;
pub mod sampling;
pub mod server;
pub mod sorting;
pub mod text;
pub mod types;

pub use config::{ConfigBuilder, ConfigError, GeneratorConfig, TrendDirection};
pub use generator::{ControlledRegimeOHLC, MarketDataGenerator, RegimeOHLC};
pub use price::Price;
pub use random_walk::RandomWalkGenerator;
pub use regimes::{MarketRegime, RegimeController, RegimeSchedule, RegimeSegment, ScheduleInfo};
pub use types::{Tick, TimeInterval, Volume, OHLC};
