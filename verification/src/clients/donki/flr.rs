//! Solar flares.

pub use crate::clients::donki::exports::Flr;
