//! The parameters that several endpoints share, and the parameter types of
//! all endpoints under one path.

use vstd::prelude::*;
pub use crate::clients::apod::ApodParams;
pub use crate::clients::donki::cme::CmeAnalysisParams;
pub use crate::clients::donki::ips::IpsParams;
pub use crate::clients::neo::NeoParams;
use crate::query::{
    add_field,
    copy_text,
    field,
    lemma_no_pairs_no_keys,
    text_of,
    Pair,
    QueryMap,
    QueryValues,
};

verus! {

/// A range of days, as most of the space-weather endpoints take it.
#[derive(Debug, Clone)]
pub struct ParamsCommon {
    /// The first day; the endpoint takes 30 days before the current day
    /// where it is absent.
    pub start_date: Option<String>,
    /// The last day; the endpoint takes the current day where it is absent.
    pub end_date: Option<String>,
}

impl Default for ParamsCommon {
    /// The range that leaves both ends to the endpoint.
    fn default() -> (r: ParamsCommon)
        ensures
            r.is_unset(),
    {
        ParamsCommon { start_date: None, end_date: None }
    }
}

/// The entries of a range of days under the names `startDate` and `endDate`.
pub open spec fn range_entries(start_date: Option<String>, end_date: Option<String>) -> Seq<Pair> {
    field("startDate"@, text_of(start_date)) + field("endDate"@, text_of(end_date))
}

/// Encodes a range of days.
pub fn encode_range(start_date: &Option<String>, end_date: &Option<String>) -> (r: QueryMap)
    ensures
        r.wf(),
        r.pairs() == range_entries(*start_date, *end_date),
        start_date is None && end_date is None ==> r.pairs().len() == 0 && r@ == Map::<
            Seq<char>,
            Seq<char>,
        >::empty(),
{
    proof {
        reveal_strlit("startDate");
        reveal_strlit("endDate");
        assert("startDate"@.len() == 9);
        assert("endDate"@.len() == 7);
        lemma_no_pairs_no_keys();
    }
    let mut map = QueryMap::new();
    add_field(&mut map, "startDate", copy_text(start_date));
    add_field(&mut map, "endDate", copy_text(end_date));
    map
}

impl QueryValues for ParamsCommon {
    open spec fn encoded(&self) -> Seq<Pair> {
        range_entries(self.start_date, self.end_date)
    }

    /// Whether no field has a value.
    open spec fn is_unset(&self) -> bool {
        self.start_date is None && self.end_date is None
    }

    /// Each end that has a value gives one entry; a range without any gives
    /// the empty mapping.
    fn values(&self) -> (r: QueryMap) {
        encode_range(&self.start_date, &self.end_date)
    }
}

} // verus!
