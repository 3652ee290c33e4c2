//! Keeps a local store of amateur-radio licence records in step with the
//! regulator's published dumps: one full weekly snapshot and seven daily
//! deltas.
//!
//! The crate holds the decisions of that pipeline as verified functions on
//! plain values; the program around it performs the network, file and
//! database work and hands the results in.

pub mod batch;
pub mod driver;
pub mod fcc_date;
pub mod file;
pub mod load;
pub mod meta;
pub mod normalize;
pub mod probe;
pub mod query;
pub mod record;
pub mod text;
pub mod timestamp;
pub mod types;
pub mod updates;
