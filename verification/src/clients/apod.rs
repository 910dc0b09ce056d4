//! The picture-of-the-day endpoint.

use vstd::prelude::*;
use crate::date::{date_of_reading, day_of, iso_text, Date};
use crate::error::Error;
use crate::json::{decode_json, decoded_json};
use crate::prelude::{build_flat_query, flat_url, Client, ClientHandler, Spec};
use crate::query::{
    add_field,
    copy_text,
    field,
    flag_text,
    flag_to_text,
    lemma_no_pairs_no_keys,
    text_of,
    Pair,
    QueryMap,
    QueryValues,
};
use crate::text::{decimal, u32_to_decimal};

verus! {

/// Astronomy Picture of the Day.
pub struct Apod;

/// The parameters of a request for pictures of the day.
#[derive(Debug, Clone)]
pub struct ApodParams {
    /// The day of the picture.
    pub date: Option<String>,
    /// The first day of a range of pictures.
    pub start_date: Option<String>,
    /// The last day of a range of pictures.
    pub end_date: Option<String>,
    /// How many pictures, chosen at random, to return.
    pub count: Option<u32>,
    /// Whether to return the address of a video's thumbnail.
    pub thumbs: Option<bool>,
}

/// The text of a count that may be absent.
pub open spec fn count_text(count: Option<u32>) -> Option<Seq<char>> {
    match count {
        Some(n) => Some(decimal(n as nat)),
        None => None,
    }
}

fn count_to_text(count: Option<u32>) -> (r: Option<String>)
    ensures
        text_of(r) == count_text(count),
{
    match count {
        Some(n) => Some(u32_to_decimal(n)),
        None => None,
    }
}

proof fn lemma_names_differ()
    ensures
        "date"@.len() == 4,
        "start_date"@.len() == 10,
        "end_date"@.len() == 8,
        "count"@.len() == 5,
        "thumbs"@.len() == 6,
{
    reveal_strlit("date");
    reveal_strlit("start_date");
    reveal_strlit("end_date");
    reveal_strlit("count");
    reveal_strlit("thumbs");
}

impl ApodParams {
    /// The request for the picture of one day; without a day, the request
    /// that names none.
    pub fn for_day(day: Option<Date>) -> (r: ApodParams)
        ensures
            r.start_date is None,
            r.end_date is None,
            r.count is None,
            r.thumbs is None,
            day is None ==> r.date is None,
            day is Some ==> r.date is Some && r.date->Some_0@ == iso_text(
                day->Some_0@.0,
                day->Some_0@.1,
                day->Some_0@.2,
            ),
    {
        let date = match day {
            Some(d) => Some(d.to_string()),
            None => None,
        };
        ApodParams { date, start_date: None, end_date: None, count: None, thumbs: None }
    }
}

/// Whether `date` is the text of `day`: absent where the day is, else the
/// day as `YYYY-MM-DD`.
pub open spec fn names_day(date: Option<String>, day: Option<(int, int, int)>) -> bool {
    match day {
        Some(day) => date is Some && date->Some_0@ == iso_text(day.0, day.1, day.2),
        None => date is None,
    }
}

impl Default for ApodParams {
    /// The request for the picture of the current day in UTC: the day that
    /// the reading of the clock at the call stands for. Where the clock
    /// shows no day that can be written, the request names none.
    fn default() -> (r: ApodParams)
        ensures
            r.start_date is None,
            r.end_date is None,
            r.count is None,
            r.thumbs is None,
            exists|reading: Option<u64>| names_day(r.date, #[trigger] date_of_reading(reading)),
    {
        let today = Date::today();
        let r = ApodParams::for_day(today);
        proof {
            let reading = choose|reading: Option<u64>| day_of(today) == date_of_reading(reading);
            assert(day_of(today) == date_of_reading(reading));
            assert(names_day(r.date, date_of_reading(reading)));
        }
        r
    }
}

impl QueryValues for ApodParams {
    open spec fn encoded(&self) -> Seq<Pair> {
        field("date"@, text_of(self.date)) + field("start_date"@, text_of(self.start_date))
            + field("end_date"@, text_of(self.end_date)) + field("count"@, count_text(self.count))
            + field("thumbs"@, flag_text(self.thumbs))
    }

    /// Whether no field has a value.
    open spec fn is_unset(&self) -> bool {
        &&& self.date is None
        &&& self.start_date is None
        &&& self.end_date is None
        &&& self.count is None
        &&& self.thumbs is None
    }

    /// Every field that has a value gives one entry under its name; a
    /// request without any gives the empty mapping.
    fn values(&self) -> (r: QueryMap) {
        proof {
            lemma_names_differ();
            lemma_no_pairs_no_keys();
        }
        let mut map = QueryMap::new();
        add_field(&mut map, "date", copy_text(&self.date));
        add_field(&mut map, "start_date", copy_text(&self.start_date));
        add_field(&mut map, "end_date", copy_text(&self.end_date));
        add_field(&mut map, "count", count_to_text(self.count));
        add_field(&mut map, "thumbs", flag_to_text(self.thumbs));
        map
    }
}

impl Spec for Apod {
    const BASE_URL: &'static str = "https://api.nasa.gov/planetary/apod";

    open spec fn base_url() -> Seq<char> {
        "https://api.nasa.gov/planetary/apod"@
    }

    proof fn lemma_base_url() {
    }

    type Params = ApodParams;

    type ResponseType = serde_json::Value;

    open spec fn decoded(body: Seq<char>) -> Result<serde_json::Value, Error> {
        decoded_json(body)
    }

    fn parse_response(body: &str) -> (r: Result<serde_json::Value, Error>) {
        decode_json(body)
    }
}

impl ClientHandler<Apod> for Client<Apod> {
    open spec fn request_url(params: ApodParams, key: Seq<char>) -> Seq<char> {
        flat_url::<Apod>(params, key)
    }

    fn build_query(params: &ApodParams, credential: Option<String>) -> (r: Result<String, Error>) {
        build_flat_query::<Apod>(params, credential)
    }
}

} // verus!
