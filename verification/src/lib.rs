//! A verified core for a one-shot system monitor.
//!
//! The crate decides which facts about the machine are gathered, in which
//! order, and which failure ends a collection; it assembles the gathered
//! facts into a [`SystemSnapshot`] and renders the snapshot as text.  It never
//! touches the operating system itself: a driver performs each [`Query`] the
//! [`Collector`] asks for and hands back the [`Answer`].

pub mod collector;
pub mod error;
pub mod ratio;
pub mod readings;
pub mod report;
pub mod snapshot;

pub use collector::{collect, Answer, Collector, Progress, Query, Readings};
pub use error::CollectorError;
pub use ratio::Ratio;
pub use readings::{Statistics, Volume};
pub use snapshot::SystemSnapshot;
