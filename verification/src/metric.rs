//! Point metrics as they go over the wire.

use vstd::prelude::*;

verus! {

pub use crate::timestamp::Timestamp;

/// The answer to a pushed metric: the identifier it was stored under.
#[derive(Clone, Copy, Debug, PartialEq, Eq, Structural)]
pub struct PushResponse {
    pub metric_id: i64,
}

} // verus!
