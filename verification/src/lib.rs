//! Concurrent batch downloads, decided here and carried out elsewhere.
//!
//! A [`Downloader`] holds a list of tasks and a cap on how many run at
//! once. Its [`Batch`] decides which task starts when and counts the tasks
//! that have reported back; a [`Transfer`] decides, for one task, what each
//! answer of the network and the disk means and how far the progress has
//! come. Neither performs I/O: the caller does what they ask and tells them
//! what happened.

pub mod batch;
pub mod downloader;
pub mod error;
pub mod external;
pub mod p3task;
pub mod progress;
pub mod text;
pub mod transfer;

pub use batch::{Batch, Completion, TaskStatus};
pub use downloader::Downloader;
pub use error::DownloadError;
pub use p3task::P3Task;
pub use transfer::{Action, Event, Phase, Transfer};
