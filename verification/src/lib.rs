//! Settings, driver data and curve selection of the Raw Accel userspace tool.
pub mod binary64;
pub mod config;
pub mod curves;
pub mod devices;
pub mod driver;
pub mod models;
pub mod text;

use vstd::prelude::*;

verus! {

/// Default for a device's `poll_time_lock` flag when the settings omit it.
pub fn default_poll_time_lock() -> (r: bool)
    ensures
        r == false,
{
    false
}

} // verus!
