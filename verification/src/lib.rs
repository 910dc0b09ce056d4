//! Typed clients for a family of REST endpoints that share one request and
//! response shape: an endpoint description, a generic client that turns typed
//! parameters into a request URL and a reply into a decoded document, and an
//! untyped path for ad-hoc queries.

use vstd::prelude::*;

/// The endpoints.
pub mod clients;
/// Calendar days.
pub mod date;
/// The error kinds.
pub mod error;
/// Percent-encoding.
pub mod escape;
/// Decoding of replies.
pub mod json;
/// The parameter types.
pub mod params;
/// The client abstraction.
pub mod prelude;
/// The query mapping and its encoder.
pub mod query;
/// The text of a query string.
pub mod query_string;
/// The text of plain values.
pub mod text;

verus! {

/// The client of the picture-of-the-day endpoint.
pub type Apod = prelude::Client<clients::Apod>;

/// The client of the near-earth-object endpoint.
pub type NeoWs = prelude::Client<clients::Neo>;

/// The client of the geomagnetic-storm endpoint.
pub type Gst = prelude::Client<clients::Gst>;

/// The client of the endpoint for analyses of coronal mass ejections.
pub type CmeAnalysis = prelude::Client<clients::CmeAnalysis>;

/// The client of the solar-flare endpoint.
pub type Flr = prelude::Client<clients::Flr>;

/// The client of the solar-energetic-particle endpoint.
pub type Sep = prelude::Client<clients::Sep>;

} // verus!
