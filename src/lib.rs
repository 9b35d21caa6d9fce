//! Incremental refresh of daily price history: request building for a
//! paginated market-data provider, the watermark range planner, the columnar
//! batch accumulator, the per-asset retry policy and the run orchestration.

pub mod decimal;
pub mod calendar;
pub mod params;
pub mod planner;
pub mod paging;
pub mod frame;
pub mod retry;
pub mod run;
