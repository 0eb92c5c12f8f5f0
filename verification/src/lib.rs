//! Check-in tracking for warehouse packages: zones, tracking codes, the
//! statements that keep the packages table, and the state of the scan desk.

pub mod cli;
pub mod clock;
pub mod counters;
pub mod state;
pub mod store;
pub mod text;
pub mod tracking;
pub mod zone;

pub use clock::Timestamp;
pub use counters::Counters;
pub use state::AppState;
pub use store::{Package, PackageStatus};
pub use tracking::normalize_tracking;
pub use zone::Zone;
