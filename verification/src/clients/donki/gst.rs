//! The geomagnetic-storm endpoint.

use vstd::prelude::*;
use crate::clients::donki::endpoints::GST_BASE_URL;
use crate::error::Error;
use crate::json::{decode_json, decoded_json};
use crate::params::{encode_range, range_entries};
use crate::prelude::{build_flat_query, flat_url, Client, ClientHandler, Spec};
use crate::query::{Pair, QueryMap, QueryValues};

verus! {

/// The range of days of a request for geomagnetic storms.
#[derive(Debug, Clone)]
pub struct Params {
    /// The first day; the endpoint takes 30 days before the current day
    /// where it is absent.
    pub start_date: Option<String>,
    /// The last day; the endpoint takes the current day where it is absent.
    pub end_date: Option<String>,
}

impl Default for Params {
    /// The range that leaves both ends to the endpoint.
    fn default() -> (r: Params)
        ensures
            r.is_unset(),
    {
        Params { start_date: None, end_date: None }
    }
}

impl QueryValues for Params {
    open spec fn encoded(&self) -> Seq<Pair> {
        range_entries(self.start_date, self.end_date)
    }

    /// Whether no field has a value.
    open spec fn is_unset(&self) -> bool {
        self.start_date is None && self.end_date is None
    }

    /// Each end that has a value gives one entry; a range without any gives
    /// the empty mapping.
    fn values(&self) -> (r: QueryMap) {
        encode_range(&self.start_date, &self.end_date)
    }
}

/// Geomagnetic storms.
pub struct Gst;

impl Spec for Gst {
    const BASE_URL: &'static str = GST_BASE_URL;

    open spec fn base_url() -> Seq<char> {
        GST_BASE_URL@
    }

    proof fn lemma_base_url() {
    }

    type Params = Params;

    type ResponseType = serde_json::Value;

    open spec fn decoded(body: Seq<char>) -> Result<serde_json::Value, Error> {
        decoded_json(body)
    }

    fn parse_response(body: &str) -> (r: Result<serde_json::Value, Error>) {
        decode_json(body)
    }
}

impl ClientHandler<Gst> for Client<Gst> {
    open spec fn request_url(params: Params, key: Seq<char>) -> Seq<char> {
        flat_url::<Gst>(params, key)
    }

    fn build_query(params: &Params, credential: Option<String>) -> (r: Result<String, Error>) {
        build_flat_query::<Gst>(params, credential)
    }
}

} // verus!
