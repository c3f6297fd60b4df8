//! Host side of the level-plugin subsystem: an ABI contract for level
//! libraries, a checked opaque handle, a loader that validates a library's
//! exports, a panic-containing guard around every plugin entry point, and a
//! worker that drives all calls into one loaded level so that a defective
//! level degrades gracefully instead of taking the host down.

pub mod bucket_level;
pub mod finder;
pub mod game_info;
pub mod handle;
pub mod interface;
pub mod items;
pub mod level;
pub mod messages;
pub mod penrose;
pub mod plugin;
pub mod test_level;
pub mod views;
