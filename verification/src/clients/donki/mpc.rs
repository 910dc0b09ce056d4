//! Magnetopause crossings.

pub use crate::clients::donki::exports::Mpc;
