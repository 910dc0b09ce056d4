//! Radiation belt enhancements.

pub use crate::clients::donki::exports::Rbe;
