//! The base URLs of the space-weather endpoints.

use vstd::prelude::*;

verus! {

/// Solar flares.
pub const FLR_BASE_URL: &'static str = "https://api.nasa.gov/DONKI/FLR";

/// Geomagnetic storms.
pub const GST_BASE_URL: &'static str = "https://api.nasa.gov/DONKI/GST";

/// Solar energetic particles.
pub const SEP_BASE_URL: &'static str = "https://api.nasa.gov/DONKI/SEP";

/// Magnetopause crossings.
pub const MPC_BASE_URL: &'static str = "https://api.nasa.gov/DONKI/MPC";

/// Radiation belt enhancements.
pub const RBE_BASE_URL: &'static str = "https://api.nasa.gov/DONKI/RBE";

/// High speed streams.
pub const HSS_BASE_URL: &'static str = "https://api.nasa.gov/DONKI/HSS";

/// WSA+Enlil simulations.
pub const WSA_BASE_URL: &'static str = "https://api.nasa.gov/DONKI/WSAEnlilSimulations";

/// Interplanetary shocks.
pub const IPS_BASE_URL: &'static str = "https://api.nasa.gov/DONKI/IPS";

/// Analyses of coronal mass ejections.
pub const CME_BASE_URL: &'static str = "https://api.nasa.gov/DONKI/CME";

} // verus!
