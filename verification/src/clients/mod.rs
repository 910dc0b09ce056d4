//! The endpoints: for each its description and its parameters.

pub mod apod;
pub mod donki;
pub mod neo;

pub use crate::clients::apod::{Apod, ApodParams};
pub use crate::clients::donki::cme::{Catalog as CmeAnalysisCatalog, CmeAnalysis, CmeAnalysisParams};
pub use crate::clients::donki::flr::Flr;
pub use crate::clients::donki::gst::Gst;
pub use crate::clients::donki::hss::Hss;
pub use crate::clients::donki::ips::{Catalog as IpsCatalog, Ips, IpsParams, Location as IpsLocation};
pub use crate::clients::donki::mpc::Mpc;
pub use crate::clients::donki::rbe::Rbe;
pub use crate::clients::donki::sep::Sep;
pub use crate::clients::donki::wsa::Wsa;
pub use crate::clients::neo::{Neo, NeoParams};
