//! Argument encoding and reply decoding for a time-series extension of a
//! key/value store: builders turn query and configuration objects into the
//! ordered command tokens the wire protocol expects, and decoders turn the
//! generic reply tree back into typed results.

pub mod tokens;
pub mod args;
pub mod options;
pub mod filters;
pub mod query;
pub mod reply;
pub mod decode;
pub mod info;
pub mod laws;

pub use crate::args::{Integer, TsAggregationType, TsAlign, TsBucketTimestamp};
pub use crate::decode::{latest_sample, TsMget, TsMgetEntry, TsMrange, TsMrangeEntry, TsRange};
pub use crate::filters::{TsFilter, TsFilterOptions};
pub use crate::info::TsInfo;
pub use crate::options::{TsDuplicatePolicy, TsOptions};
pub use crate::query::TsRangeQuery;
pub use crate::reply::{FromReply, Reply, TsError};
