//! Verified core of a telemetry bridge for a fleet of car chargers: the
//! authenticated session, the fetch pipeline and the time-boxed result cache.
//!
//! Everything here is synchronous and free of I/O. A driver performs the
//! requests that the functions of this crate ask for and hands the replies
//! back; instants are Unix timestamps in milliseconds.

pub mod cache;
pub mod clock;
pub mod error;
pub mod fetch;
pub mod json;
pub mod routes;
pub mod run;
pub mod session;
pub mod text;
pub mod upstream;

pub use cache::{Cache, CacheEntry, CachePlan};
pub use error::EaseeError;
pub use fetch::{get_charger_state, ChargerState, FetchRun, FetchStage, FetchStep};
pub use routes::{
    car_charger_usage, easee_energy_per_hour, easee_lade_mengde, field, field_index, index, Field,
};
pub use run::{tick, Variable};
pub use session::{ensure_valid, AuthPlan, AuthStage, AuthStep, SessionState};
pub use upstream::{Event, Request};
