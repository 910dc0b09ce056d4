//! Solar energetic particles.

pub use crate::clients::donki::exports::Sep;
