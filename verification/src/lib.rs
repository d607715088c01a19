//! Verified core of the HAR-SDV services: user preferences, vehicle data
//! mapping and the request conversions used by the service bundles.

use vstd::prelude::*;

verus! {

/// Seconds before an SDV integration test gives up.
pub const SDV_DEFAULT_TEST_TIMEOUT_SECONDS: u64 = 30;

} // verus!

pub mod keyed;
pub mod float_bits;
pub mod user_preferences;
pub mod text;
pub mod mapper;
pub mod integrations;
pub mod integrations_v1;
pub mod vehicle_data;
pub mod har_message;
pub mod preferences_forwarding;
pub mod har_preferences;
pub mod driverui;
pub mod service_discovery;
pub mod bundle_state;
pub mod support;
