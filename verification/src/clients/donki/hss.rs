//! High speed streams.

pub use crate::clients::donki::exports::Hss;
