//! Progression engine for a user-progression tracker: levels that cost more
//! experience as they rise, and a daily streak counted in the user's own time
//! zone.
pub mod calendar;
pub mod leveling;
pub mod model;
pub mod service;

pub use service::UserService;
