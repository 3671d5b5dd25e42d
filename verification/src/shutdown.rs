//! The flag that tells the broker's loops to stop. Other threads set it at
//! any time, so nothing is known of its value between two reads.

use vstd::prelude::*;
use std::sync::atomic::{AtomicBool, Ordering};

verus! {

/// Whether a stop has been requested.
pub fn shutdown_requested(flag: &AtomicBool) -> bool {
    flag.load(Ordering::Relaxed)
}

/// Requests a stop.
pub fn request_shutdown(flag: &AtomicBool) {
    flag.store(true, Ordering::Relaxed)
}

} // verus!
