//! The near-earth-object endpoint: a feed by closest approach, the lookup of
//! one asteroid, and the browsing of the whole data set.

use vstd::prelude::*;
use crate::date::{iso_text, Date};
use crate::error::Error;
use crate::json::{decode_json, decoded_json};
use crate::prelude::{
    build_typed_url,
    lemma_typed_url_carries_credential,
    lemma_typed_url_starts_with_base,
    typed_url,
    Client,
    ClientHandler,
    Spec,
};
use crate::query::{
    add_field,
    field,
    lemma_no_pairs_no_keys,
    text_of,
    Pair,
    QueryMap,
    QueryValues,
};
use crate::text::{i32_to_decimal, signed_decimal};

verus! {

/// The parameters of a request for near-earth objects.
#[derive(Debug, Clone)]
pub enum NeoParams {
    /// The asteroids by the day of their closest approach to Earth.
    Feed {
        /// The first day of the feed.
        start_date: Option<Date>,
        /// The last day of the feed.
        end_date: Option<Date>,
    },
    /// One asteroid, by its small-body identifier.
    Lookup {
        /// The identifier of the asteroid.
        asteroid_id: i32,
    },
    /// The whole data set.
    Browse,
}

/// The text of a day that may be absent.
pub open spec fn day_text(day: Option<Date>) -> Option<Seq<char>> {
    match day {
        Some(d) => Some(iso_text(d@.0, d@.1, d@.2)),
        None => None,
    }
}

fn day_to_text(day: &Option<Date>) -> (r: Option<String>)
    ensures
        text_of(r) == day_text(*day),
{
    match day {
        Some(d) => Some(d.to_string()),
        None => None,
    }
}

proof fn lemma_names_differ()
    ensures
        "start_date"@.len() == 10,
        "end_date"@.len() == 8,
{
    reveal_strlit("start_date");
    reveal_strlit("end_date");
}

impl Default for NeoParams {
    /// The feed of the first three days of 2023.
    fn default() -> (r: NeoParams)
        ensures
            r matches NeoParams::Feed { start_date: Some(first), end_date: Some(last) }
                && first@ == (2023int, 1int, 1int) && last@ == (2023int, 1int, 3int),
    {
        NeoParams::Feed {
            start_date: Date::from_ymd_opt(2023, 1, 1),
            end_date: Date::from_ymd_opt(2023, 1, 3),
        }
    }
}

impl QueryValues for NeoParams {
    open spec fn encoded(&self) -> Seq<Pair> {
        match *self {
            NeoParams::Feed { start_date, end_date } => field("start_date"@, day_text(start_date))
                + field("end_date"@, day_text(end_date)),
            NeoParams::Lookup { asteroid_id } => seq![
                ("asteroid_id"@, signed_decimal(asteroid_id as int)),
            ],
            NeoParams::Browse => Seq::empty(),
        }
    }

    /// Whether the value selects nothing: a feed without days, or the
    /// browsing of everything.
    open spec fn is_unset(&self) -> bool {
        match *self {
            NeoParams::Feed { start_date, end_date } => start_date is None && end_date is None,
            NeoParams::Lookup { .. } => false,
            NeoParams::Browse => true,
        }
    }

    /// Only the fields of the chosen variant are encoded: the days of a
    /// feed that are present, the identifier of a lookup, nothing for
    /// browsing.
    fn values(&self) -> (r: QueryMap) {
        proof {
            lemma_names_differ();
            lemma_no_pairs_no_keys();
        }
        let mut map = QueryMap::new();
        match self {
            NeoParams::Feed { start_date, end_date } => {
                add_field(&mut map, "start_date", day_to_text(start_date));
                add_field(&mut map, "end_date", day_to_text(end_date));
            },
            NeoParams::Lookup { asteroid_id } => {
                map.insert("asteroid_id".to_owned(), i32_to_decimal(*asteroid_id));
            },
            NeoParams::Browse => {},
        }
        map
    }
}

/// Asteroids and other near-earth objects.
pub struct Neo;

impl Spec for Neo {
    const BASE_URL: &'static str = "https://api.nasa.gov/neo/rest/v1";

    open spec fn base_url() -> Seq<char> {
        "https://api.nasa.gov/neo/rest/v1"@
    }

    proof fn lemma_base_url() {
    }

    type Params = NeoParams;

    type ResponseType = serde_json::Value;

    open spec fn decoded(body: Seq<char>) -> Result<serde_json::Value, Error> {
        decoded_json(body)
    }

    fn parse_response(body: &str) -> (r: Result<serde_json::Value, Error>) {
        decode_json(body)
    }
}

/// The path below the base URL that a request goes to.
pub open spec fn neo_path(params: NeoParams) -> Seq<char> {
    match params {
        NeoParams::Feed { .. } => "/feed"@,
        NeoParams::Lookup { asteroid_id } => "/neo/"@ + signed_decimal(asteroid_id as int),
        NeoParams::Browse => "/neo/browse"@,
    }
}

/// The entries that a request carries in its query string besides the
/// credential: the days of a feed. The identifier of a lookup stands in the
/// path.
pub open spec fn neo_query(params: NeoParams) -> Seq<Pair> {
    match params {
        NeoParams::Feed { .. } => params.encoded(),
        NeoParams::Lookup { .. } => Seq::empty(),
        NeoParams::Browse => Seq::empty(),
    }
}

impl ClientHandler<Neo> for Client<Neo> {
    open spec fn request_url(params: NeoParams, key: Seq<char>) -> Seq<char> {
        typed_url(Neo::base_url(), neo_path(params), neo_query(params), key)
    }

    /// A feed goes to `/feed` with its days in the query string, a lookup to
    /// `/neo/` and the identifier, browsing to `/neo/browse`; each with the
    /// credential as its last query parameter.
    fn build_query(params: &NeoParams, credential: Option<String>) -> (r: Result<String, Error>) {
        proof {
            Neo::lemma_base_url();
            if credential is Some {
                lemma_typed_url_carries_credential(
                    Neo::base_url(),
                    neo_path(*params),
                    neo_query(*params),
                    credential->Some_0@,
                );
                lemma_typed_url_starts_with_base(
                    Neo::base_url(),
                    neo_path(*params),
                    neo_query(*params),
                    credential->Some_0@,
                );
            }
        }
        match params {
            NeoParams::Feed { .. } => build_typed_url(
                Neo::BASE_URL,
                "/feed",
                params.values(),
                credential,
            ),
            NeoParams::Lookup { asteroid_id } => {
                let mut path = "/neo/".to_owned();
                path.append(i32_to_decimal(*asteroid_id).as_str());
                build_typed_url(Neo::BASE_URL, path.as_str(), QueryMap::new(), credential)
            },
            NeoParams::Browse => build_typed_url(
                Neo::BASE_URL,
                "/neo/browse",
                QueryMap::new(),
                credential,
            ),
        }
    }
}

} // verus!
