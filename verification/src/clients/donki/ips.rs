//! The interplanetary-shock endpoint.

use vstd::prelude::*;
use crate::clients::donki::endpoints::IPS_BASE_URL;
use crate::error::Error;
use crate::json::{decode_json, decoded_json};
use crate::prelude::{build_flat_query, flat_url, Client, ClientHandler, Spec};
use crate::query::{
    add_field,
    copy_text,
    field,
    lemma_no_pairs_no_keys,
    text_of,
    Pair,
    QueryMap,
    QueryValues,
};

verus! {

/// Where a shock was observed.
#[allow(non_camel_case_types)]
#[derive(Debug, Clone, Copy, PartialEq, Eq, Structural)]
pub enum Location {
    /// At Earth.
    Earth,
    /// At the MESSENGER probe.
    MESSENGER,
    /// At the STEREO A probe.
    STEREO_A,
    /// At the STEREO B probe.
    STEREO_B,
}

impl Location {
    /// The name of the location on the wire.
    pub open spec fn wire_text(self) -> Seq<char> {
        match self {
            Location::Earth => "Earth"@,
            Location::MESSENGER => "MESSENGER"@,
            Location::STEREO_A => "STEREO_A"@,
            Location::STEREO_B => "STEREO_B"@,
        }
    }

    /// The name of the location on the wire.
    pub fn wire_name(&self) -> (r: &'static str)
        ensures
            r@ == self.wire_text(),
    {
        match self {
            Location::Earth => "Earth",
            Location::MESSENGER => "MESSENGER",
            Location::STEREO_A => "STEREO_A",
            Location::STEREO_B => "STEREO_B",
        }
    }
}

/// The catalog that a shock is listed in.
#[allow(non_camel_case_types)]
#[derive(Debug, Clone, Copy, PartialEq, Eq, Structural)]
pub enum Catalog {
    /// The catalog of the Space Weather Research Center.
    SWRC_CATALOG,
    /// The catalog of Winslow et al. from MESSENGER data.
    WINSLOW_MESSENGER_ICME_CATALOG,
}

impl Catalog {
    /// The name of the catalog on the wire.
    pub open spec fn wire_text(self) -> Seq<char> {
        match self {
            Catalog::SWRC_CATALOG => "SWRC_CATALOG"@,
            Catalog::WINSLOW_MESSENGER_ICME_CATALOG => "WINSLOW_MESSENGER_ICME_CATALOG"@,
        }
    }

    /// The name of the catalog on the wire.
    pub fn wire_name(&self) -> (r: &'static str)
        ensures
            r@ == self.wire_text(),
    {
        match self {
            Catalog::SWRC_CATALOG => "SWRC_CATALOG",
            Catalog::WINSLOW_MESSENGER_ICME_CATALOG => "WINSLOW_MESSENGER_ICME_CATALOG",
        }
    }
}

/// The parameters of a request for interplanetary shocks.
#[derive(Debug, Clone)]
pub struct IpsParams {
    /// The first day; the endpoint takes 30 days before the current day
    /// where it is absent.
    pub start_date: Option<String>,
    /// The last day; the endpoint takes the current day where it is absent.
    pub end_date: Option<String>,
    /// The location; the endpoint takes every location where it is absent.
    pub location: Option<Location>,
    /// The catalog; the endpoint takes every catalog where it is absent.
    pub catalog: Option<Catalog>,
}

/// The name on the wire of a location that may be absent.
pub open spec fn location_text(location: Option<Location>) -> Option<Seq<char>> {
    match location {
        Some(l) => Some(l.wire_text()),
        None => None,
    }
}

/// The name on the wire of a catalog that may be absent.
pub open spec fn catalog_text(catalog: Option<Catalog>) -> Option<Seq<char>> {
    match catalog {
        Some(c) => Some(c.wire_text()),
        None => None,
    }
}

fn location_to_text(location: Option<Location>) -> (r: Option<String>)
    ensures
        text_of(r) == location_text(location),
{
    match location {
        Some(l) => Some(l.wire_name().to_owned()),
        None => None,
    }
}

fn catalog_to_text(catalog: Option<Catalog>) -> (r: Option<String>)
    ensures
        text_of(r) == catalog_text(catalog),
{
    match catalog {
        Some(c) => Some(c.wire_name().to_owned()),
        None => None,
    }
}

proof fn lemma_names_differ()
    ensures
        "startDate"@.len() == 9,
        "endDate"@.len() == 7,
        "location"@.len() == 8,
        "catalog"@.len() == 7,
        "endDate"@[0] == 'e',
        "catalog"@[0] == 'c',
{
    reveal_strlit("startDate");
    reveal_strlit("endDate");
    reveal_strlit("location");
    reveal_strlit("catalog");
}

impl Default for IpsParams {
    /// The request that leaves every choice to the endpoint.
    fn default() -> (r: IpsParams)
        ensures
            r.is_unset(),
    {
        IpsParams { start_date: None, end_date: None, location: None, catalog: None }
    }
}

impl QueryValues for IpsParams {
    open spec fn encoded(&self) -> Seq<Pair> {
        field("startDate"@, text_of(self.start_date)) + field("endDate"@, text_of(self.end_date))
            + field("location"@, location_text(self.location)) + field(
            "catalog"@,
            catalog_text(self.catalog),
        )
    }

    /// Whether no field has a value.
    open spec fn is_unset(&self) -> bool {
        &&& self.start_date is None
        &&& self.end_date is None
        &&& self.location is None
        &&& self.catalog is None
    }

    /// Every field that has a value gives one entry under its name; a
    /// request without any gives the empty mapping.
    fn values(&self) -> (r: QueryMap) {
        proof {
            lemma_names_differ();
            lemma_no_pairs_no_keys();
        }
        let mut values = QueryMap::new();
        add_field(&mut values, "startDate", copy_text(&self.start_date));
        add_field(&mut values, "endDate", copy_text(&self.end_date));
        add_field(&mut values, "location", location_to_text(self.location));
        add_field(&mut values, "catalog", catalog_to_text(self.catalog));
        values
    }
}

/// Interplanetary shocks.
pub struct Ips;

impl Spec for Ips {
    const BASE_URL: &'static str = IPS_BASE_URL;

    open spec fn base_url() -> Seq<char> {
        IPS_BASE_URL@
    }

    proof fn lemma_base_url() {
    }

    type Params = IpsParams;

    type ResponseType = serde_json::Value;

    open spec fn decoded(body: Seq<char>) -> Result<serde_json::Value, Error> {
        decoded_json(body)
    }

    fn parse_response(body: &str) -> (r: Result<serde_json::Value, Error>) {
        decode_json(body)
    }
}

impl ClientHandler<Ips> for Client<Ips> {
    open spec fn request_url(params: IpsParams, key: Seq<char>) -> Seq<char> {
        flat_url::<Ips>(params, key)
    }

    fn build_query(params: &IpsParams, credential: Option<String>) -> (r: Result<String, Error>) {
        build_flat_query::<Ips>(params, credential)
    }
}

} // verus!
