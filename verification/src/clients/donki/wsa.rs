//! WSA+Enlil simulations.

pub use crate::clients::donki::exports::Wsa;
