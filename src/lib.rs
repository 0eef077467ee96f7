//! Concurrent downloader core: byte formatting, read observation, the task
//! queue and the progress aggregator.
pub mod fmt;
pub mod queue;
pub mod watch;
pub mod watcher;
