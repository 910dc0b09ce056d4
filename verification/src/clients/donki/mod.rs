//! The space-weather endpoints.

/// Analyses of coronal mass ejections.
pub mod cme;
/// The base URLs.
pub mod endpoints;
/// The endpoints that take a range of days.
pub mod exports;
/// Solar flares.
pub mod flr;
/// Geomagnetic storms.
pub mod gst;
/// High speed streams.
pub mod hss;
/// Interplanetary shocks.
pub mod ips;
/// Magnetopause crossings.
pub mod mpc;
/// Radiation belt enhancements.
pub mod rbe;
/// Solar energetic particles.
pub mod sep;
/// WSA+Enlil simulations.
pub mod wsa;
