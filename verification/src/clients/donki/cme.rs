//! The endpoint for analyses of coronal mass ejections.

use vstd::prelude::*;
use crate::clients::donki::endpoints::CME_BASE_URL;
use crate::error::Error;
use crate::json::{decode_json, decoded_json};
use crate::prelude::{build_flat_query, flat_url, Client, ClientHandler, Spec};
use crate::query::{
    add_field,
    copy_text,
    field,
    flag_text,
    flag_to_text,
    lemma_no_pairs_no_keys,
    text_of,
    Pair,
    QueryMap,
    QueryValues,
};

verus! {

/// The catalog that an analysis belongs to.
#[allow(non_camel_case_types)]
#[derive(Debug, Clone, Copy, PartialEq, Eq, Structural)]
pub enum Catalog {
    /// Every catalog.
    ALL,
    /// The catalog of the Space Weather Research Center.
    SWRC_CATALOG,
    /// The catalog of Jang et al.
    JANG_ET_AL_CATALOG,
}

impl Catalog {
    /// The name of the catalog on the wire.
    pub open spec fn wire_text(self) -> Seq<char> {
        match self {
            Catalog::ALL => "ALL"@,
            Catalog::SWRC_CATALOG => "SWRC_CATALOG"@,
            Catalog::JANG_ET_AL_CATALOG => "JANG_ET_AL_CATALOG"@,
        }
    }

    /// The name of the catalog on the wire.
    pub fn wire_name(&self) -> (r: &'static str)
        ensures
            r@ == self.wire_text(),
    {
        match self {
            Catalog::ALL => "ALL",
            Catalog::SWRC_CATALOG => "SWRC_CATALOG",
            Catalog::JANG_ET_AL_CATALOG => "JANG_ET_AL_CATALOG",
        }
    }
}

/// The parameters of a request for analyses of coronal mass ejections.
#[derive(Debug, Clone)]
pub struct CmeAnalysisParams {
    /// The first day; the endpoint takes 30 days before the current day
    /// where it is absent.
    pub start_date: Option<String>,
    /// The last day; the endpoint takes the current day where it is absent.
    pub end_date: Option<String>,
    /// Whether only the most accurate analysis of each ejection is wanted.
    pub most_accurate_only: Option<bool>,
    /// Whether only complete entries are wanted.
    pub complete_entry_only: Option<bool>,
    /// The lower limit of the speed, as the decimal number that goes on the
    /// wire.
    pub speed: Option<String>,
    /// The lower limit of the half angle, as the decimal number that goes
    /// on the wire.
    pub half_angle: Option<String>,
    /// The catalog.
    pub catalog: Option<Catalog>,
    /// A keyword that the analyses are tagged with.
    pub keyword: Option<String>,
}

/// The name on the wire of a catalog that may be absent.
pub open spec fn catalog_text(catalog: Option<Catalog>) -> Option<Seq<char>> {
    match catalog {
        Some(c) => Some(c.wire_text()),
        None => None,
    }
}

fn catalog_to_text(catalog: Option<Catalog>) -> (r: Option<String>)
    ensures
        text_of(r) == catalog_text(catalog),
{
    match catalog {
        Some(c) => Some(c.wire_name().to_owned()),
        None => None,
    }
}

impl Default for CmeAnalysisParams {
    /// The request that leaves every choice to the endpoint.
    fn default() -> (r: CmeAnalysisParams)
        ensures
            r.is_unset(),
    {
        CmeAnalysisParams {
            start_date: None,
            end_date: None,
            most_accurate_only: None,
            complete_entry_only: None,
            speed: None,
            half_angle: None,
            catalog: None,
            keyword: None,
        }
    }
}

proof fn lemma_names_differ()
    ensures
        "startDate"@.len() == 9,
        "endDate"@.len() == 7,
        "mostAccurateOnly"@.len() == 16,
        "completeEntryOnly"@.len() == 17,
        "speed"@.len() == 5,
        "halfAngle"@.len() == 9,
        "catalog"@.len() == 7,
        "keyword"@.len() == 7,
        "startDate"@[0] == 's',
        "halfAngle"@[0] == 'h',
        "endDate"@[0] == 'e',
        "catalog"@[0] == 'c',
        "keyword"@[0] == 'k',
{
    reveal_strlit("startDate");
    reveal_strlit("endDate");
    reveal_strlit("mostAccurateOnly");
    reveal_strlit("completeEntryOnly");
    reveal_strlit("speed");
    reveal_strlit("halfAngle");
    reveal_strlit("catalog");
    reveal_strlit("keyword");
}

impl QueryValues for CmeAnalysisParams {
    open spec fn encoded(&self) -> Seq<Pair> {
        field("startDate"@, text_of(self.start_date)) + field("endDate"@, text_of(self.end_date))
            + field("mostAccurateOnly"@, flag_text(self.most_accurate_only)) + field(
            "completeEntryOnly"@,
            flag_text(self.complete_entry_only),
        ) + field("speed"@, text_of(self.speed)) + field("halfAngle"@, text_of(self.half_angle))
            + field("catalog"@, catalog_text(self.catalog)) + field(
            "keyword"@,
            text_of(self.keyword),
        )
    }

    /// Whether no field has a value.
    open spec fn is_unset(&self) -> bool {
        &&& self.start_date is None
        &&& self.end_date is None
        &&& self.most_accurate_only is None
        &&& self.complete_entry_only is None
        &&& self.speed is None
        &&& self.half_angle is None
        &&& self.catalog is None
        &&& self.keyword is None
    }

    /// Every field that has a value gives one entry under its name; a
    /// request without any gives the empty mapping.
    fn values(&self) -> (r: QueryMap) {
        proof {
            lemma_names_differ();
            lemma_no_pairs_no_keys();
        }
        let mut map = QueryMap::new();
        add_field(&mut map, "startDate", copy_text(&self.start_date));
        add_field(&mut map, "endDate", copy_text(&self.end_date));
        add_field(&mut map, "mostAccurateOnly", flag_to_text(self.most_accurate_only));
        add_field(&mut map, "completeEntryOnly", flag_to_text(self.complete_entry_only));
        add_field(&mut map, "speed", copy_text(&self.speed));
        add_field(&mut map, "halfAngle", copy_text(&self.half_angle));
        add_field(&mut map, "catalog", catalog_to_text(self.catalog));
        add_field(&mut map, "keyword", copy_text(&self.keyword));
        map
    }
}

/// Analyses of coronal mass ejections: large releases of plasma and
/// magnetic field from the solar corona.
pub struct CmeAnalysis;

impl Spec for CmeAnalysis {
    const BASE_URL: &'static str = CME_BASE_URL;

    open spec fn base_url() -> Seq<char> {
        CME_BASE_URL@
    }

    proof fn lemma_base_url() {
    }

    type Params = CmeAnalysisParams;

    type ResponseType = serde_json::Value;

    open spec fn decoded(body: Seq<char>) -> Result<serde_json::Value, Error> {
        decoded_json(body)
    }

    fn parse_response(body: &str) -> (r: Result<serde_json::Value, Error>) {
        decode_json(body)
    }
}

impl ClientHandler<CmeAnalysis> for Client<CmeAnalysis> {
    open spec fn request_url(params: CmeAnalysisParams, key: Seq<char>) -> Seq<char> {
        flat_url::<CmeAnalysis>(params, key)
    }

    fn build_query(params: &CmeAnalysisParams, credential: Option<String>) -> (r: Result<
        String,
        Error,
    >) {
        build_flat_query::<CmeAnalysis>(params, credential)
    }
}

} // verus!
