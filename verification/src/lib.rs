//! The engine of a download manager: from a list of URLs to files on disk,
//! a bounded number of transfers at a time, resuming what was interrupted
//! and trying again what failed for a passing reason.
//!
//! The library decides and its caller acts. It resolves URLs to file names,
//! lays down each step of a transfer, keeps the transfer slots and the count
//! of finished jobs, and says which failures are tried again and when. The
//! program around it talks to the network, the file system and the terminal.

pub mod args;
pub mod batch;
pub mod dlm_error;
pub mod downloader;
pub mod file_link;
pub mod headers;
pub mod progress_bar_manager;
pub mod progress_bars;
pub mod retry;
pub mod text;
pub mod user_agents;
pub mod utils;
