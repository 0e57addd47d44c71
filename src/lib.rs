//! Balance-constrained transaction core.
//!
//! A request to record an amount for a user is admitted only when the
//! user's running total stays within `[0, CEILING]`. The protocol that reads
//! the total under a lock, decides, writes and retries on transient
//! contention is a state machine over plain values: the caller performs each
//! action against the datastore and hands back what happened.
use vstd::prelude::*;

pub mod admission;
pub mod errors;
pub mod submission;
