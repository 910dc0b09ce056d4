use nasa_rs::clients::{Apod, ApodParams, CmeAnalysis, CmeAnalysisCatalog, CmeAnalysisParams};
use nasa_rs::clients::{Flr, Gst, Hss, Ips, IpsCatalog, IpsLocation, IpsParams, Mpc, Neo, NeoParams};
use nasa_rs::clients::{Rbe, Sep, Wsa};
use nasa_rs::clients::donki::gst::Params;
use nasa_rs::date::Date;
use nasa_rs::error::Error;
use nasa_rs::params::ParamsCommon;
use nasa_rs::prelude::{
    build_flat_query, build_typed_url, receive, Client, ClientHandler, Reply, Spec,
    API_KEY_PARAMETER, API_KEY_VARIABLE,
};
use nasa_rs::query::{QueryMap, QueryValues};

fn key() -> Option<String> {
    Some("DEMO_KEY".to_string())
}

fn apod_on(day: &str) -> ApodParams {
    ApodParams {
        date: Some(day.to_string()),
        start_date: None,
        end_date: None,
        count: None,
        thumbs: None,
    }
}

fn ok_json(body: &str) -> Option<Reply> {
    Some(Reply { status: 200, body: body.to_string() })
}

#[test]
fn test_apod() {
    let client = Client::<Apod>::default();
    let params = ApodParams::default();
    let mut asked = String::new();
    let response: serde_json::Value = client
        .query(&params, key(), |url| {
            asked = url.to_string();
            ok_json("{\"media_type\":\"image\",\"title\":\"A picture\"}")
        })
        .unwrap();
    assert_eq!(response["title"], "A picture");
    let date = params.date.expect("the clock shows a day");
    assert_eq!(
        asked,
        format!("https://api.nasa.gov/planetary/apod?date={}&api_key=DEMO_KEY", date)
    );
}

#[test]
fn test_gst() {
    let client = Client::<Gst>::default();
    let params = Params::default();
    let mut asked = String::new();
    let response = client
        .query(&params, key(), |url| {
            asked = url.to_string();
            ok_json("[]")
        })
        .unwrap();
    assert!(response.is_array());
    assert_eq!(asked, "https://api.nasa.gov/DONKI/GST?api_key=DEMO_KEY");
}

#[test]
fn test_neo() {
    let client = Client::<Neo>::default();
    let params = NeoParams::default();
    let mut asked = String::new();
    let response = client
        .query(&params, key(), |url| {
            asked = url.to_string();
            ok_json("{\"element_count\":3}")
        })
        .unwrap();
    assert_eq!(response["element_count"], 3);
    assert_eq!(
        asked,
        "https://api.nasa.gov/neo/rest/v1/feed?start_date=2023-01-01&end_date=2023-01-03&api_key=DEMO_KEY"
    );
}

#[test]
fn query_with() {
    let client = Client::<Apod>::default();
    let mut asked = String::new();
    let response = client
        .query_with(vec![("date", "2019-01-01"), ("hd", "true")], |url| {
            asked = url.to_string();
            ok_json("{\"date\":\"2019-01-01\"}")
        })
        .unwrap();
    assert_eq!(response["date"], "2019-01-01");
    assert_eq!(asked, "https://api.nasa.gov/planetary/apod?date=2019-01-01&hd=true");
}

#[test]
fn query_with_adds_no_credential() {
    let client = Client::<Gst>::default();
    let mut asked = String::new();
    let empty: Vec<(&str, &str)> = Vec::new();
    let result = client.query_with(empty, |url| {
        asked = url.to_string();
        ok_json("[]")
    });
    assert!(result.is_ok());
    assert_eq!(asked, "https://api.nasa.gov/DONKI/GST?");
    assert!(!asked.contains(API_KEY_PARAMETER));
}

#[test]
fn query_with_takes_a_mapping() {
    let client = Client::<Flr>::default();
    let mut map = QueryMap::new();
    map.insert("startDate".to_string(), "2016-01-01".to_string());
    map.insert("api_key".to_string(), "MINE".to_string());
    let mut asked = String::new();
    let result = client.query_with(map, |url| {
        asked = url.to_string();
        ok_json("null")
    });
    assert_eq!(result.unwrap(), serde_json::Value::Null);
    assert_eq!(asked, "https://api.nasa.gov/DONKI/FLR?startDate=2016-01-01&api_key=MINE");
}

#[test]
fn apod_date_scenario() {
    let params = apod_on("2020-01-01");
    let values = params.values();
    assert_eq!(values.len(), 1);
    assert_eq!(values.get("date"), Some(&"2020-01-01".to_string()));
    let url = Client::<Apod>::build_query(&params, key()).unwrap();
    assert_eq!(url, "https://api.nasa.gov/planetary/apod?date=2020-01-01&api_key=DEMO_KEY");
    assert_eq!(url, format!("{}?date=2020-01-01&api_key=DEMO_KEY", Apod::BASE_URL));
}

#[test]
fn neo_lookup_scenario() {
    let params = NeoParams::Lookup { asteroid_id: 3542519 };
    let url = Client::<Neo>::build_query(&params, key()).unwrap();
    assert_eq!(url, "https://api.nasa.gov/neo/rest/v1/neo/3542519?api_key=DEMO_KEY");
    assert!(url.contains("/neo/3542519"));
    assert!(!url.contains("asteroid_id"));
    assert!(!url.contains("feed"));
}

#[test]
fn neo_browse_scenario() {
    let url = Client::<Neo>::build_query(&NeoParams::Browse, Some("K3Y".to_string())).unwrap();
    assert_eq!(url, format!("{}/neo/browse?api_key=K3Y", Neo::BASE_URL));
    assert_eq!(url.matches('=').count(), 1);
    assert_eq!(url.matches('&').count(), 0);
}

#[test]
fn neo_feed_url() {
    let params = NeoParams::Feed { start_date: Date::from_ymd_opt(2015, 9, 7), end_date: None };
    let url = Client::<Neo>::build_query(&params, key()).unwrap();
    assert_eq!(url, "https://api.nasa.gov/neo/rest/v1/feed?start_date=2015-09-07&api_key=DEMO_KEY");
    let none = NeoParams::Feed { start_date: None, end_date: None };
    let url = Client::<Neo>::build_query(&none, key()).unwrap();
    assert_eq!(url, "https://api.nasa.gov/neo/rest/v1/feed?api_key=DEMO_KEY");
}

#[test]
fn neo_lookup_of_a_negative_identifier() {
    let params = NeoParams::Lookup { asteroid_id: -7 };
    let url = Client::<Neo>::build_query(&params, key()).unwrap();
    assert_eq!(url, "https://api.nasa.gov/neo/rest/v1/neo/-7?api_key=DEMO_KEY");
}

#[test]
fn missing_credential_fails_every_typed_client() {
    assert_eq!(
        Client::<Apod>::build_query(&apod_on("2020-01-01"), None),
        Err(Error::MissingCredential)
    );
    assert_eq!(Client::<Apod>::build_query(&ApodParams::default(), None), Err(Error::MissingCredential));
    assert_eq!(Client::<Neo>::build_query(&NeoParams::default(), None), Err(Error::MissingCredential));
    assert_eq!(Client::<Neo>::build_query(&NeoParams::Browse, None), Err(Error::MissingCredential));
    assert_eq!(
        Client::<Neo>::build_query(&NeoParams::Lookup { asteroid_id: 1 }, None),
        Err(Error::MissingCredential)
    );
    assert_eq!(Client::<Gst>::build_query(&Params::default(), None), Err(Error::MissingCredential));
    assert_eq!(
        Client::<CmeAnalysis>::build_query(&CmeAnalysisParams::default(), None),
        Err(Error::MissingCredential)
    );
    assert_eq!(Client::<Ips>::build_query(&IpsParams::default(), None), Err(Error::MissingCredential));
    assert_eq!(Client::<Flr>::build_query(&ParamsCommon::default(), None), Err(Error::MissingCredential));
    assert_eq!(build_flat_query::<Sep>(&ParamsCommon::default(), None), Err(Error::MissingCredential));
    assert_eq!(
        build_typed_url("https://example.org", "/x", QueryMap::new(), None),
        Err(Error::MissingCredential)
    );
}

#[test]
fn missing_credential_sends_nothing() {
    let client = Client::<Apod>::default();
    let mut sent = false;
    let result = client.query(&apod_on("2020-01-01"), None, |_url| {
        sent = true;
        ok_json("{}")
    });
    assert_eq!(result, Err(Error::MissingCredential));
    assert!(!sent);
}

#[test]
fn every_built_url_ends_with_the_credential() {
    let urls = vec![
        Client::<Apod>::build_query(&apod_on("2020-01-01"), key()).unwrap(),
        Client::<Neo>::build_query(&NeoParams::default(), key()).unwrap(),
        Client::<Neo>::build_query(&NeoParams::Browse, key()).unwrap(),
        Client::<Neo>::build_query(&NeoParams::Lookup { asteroid_id: 9 }, key()).unwrap(),
        Client::<Wsa>::build_query(&ParamsCommon::default(), key()).unwrap(),
    ];
    for url in urls {
        assert!(url.ends_with("?api_key=DEMO_KEY") || url.ends_with("&api_key=DEMO_KEY"));
    }
}

#[test]
fn status_500_is_a_transport_error() {
    let client = Client::<Apod>::default();
    let result = client.query(&apod_on("2020-01-01"), key(), |_url| {
        Some(Reply { status: 500, body: "{\"partial\":true}".to_string() })
    });
    assert_eq!(result, Err(Error::TransportError));
}

#[test]
fn no_reply_is_a_transport_error() {
    let client = Client::<Neo>::default();
    let result = client.query(&NeoParams::Browse, key(), |_url| None);
    assert_eq!(result, Err(Error::TransportError));
    let result = client.query_with(vec![("a", "b")], |_url| None);
    assert_eq!(result, Err(Error::TransportError));
}

#[test]
fn only_the_2xx_statuses_succeed() {
    for status in [0u16, 100, 199, 300, 301, 404, 429, 500, 503, 65535] {
        let got = Some(Reply { status, body: "{}".to_string() });
        assert_eq!(receive::<Apod>(got), Err(Error::TransportError));
    }
    for status in [200u16, 201, 204, 299] {
        let got = Some(Reply { status, body: "{}".to_string() });
        assert!(receive::<Apod>(got).is_ok());
    }
    assert_eq!(receive::<Gst>(None), Err(Error::TransportError));
}

#[test]
fn malformed_body_is_a_decode_error() {
    let client = Client::<Apod>::default();
    let result = client.query(&apod_on("2020-01-01"), key(), |_url| ok_json("<html>"));
    assert_eq!(result, Err(Error::DecodeError));
    assert_eq!(receive::<Neo>(ok_json("")), Err(Error::DecodeError));
    assert_eq!(Apod::parse_response("{\"a\":"), Err(Error::DecodeError));
}

#[test]
fn donki_urls() {
    let range = ParamsCommon {
        start_date: Some("2016-01-01".to_string()),
        end_date: Some("2016-01-30".to_string()),
    };
    let tail = "?startDate=2016-01-01&endDate=2016-01-30&api_key=DEMO_KEY";
    assert_eq!(
        Client::<Flr>::build_query(&range, key()).unwrap(),
        format!("https://api.nasa.gov/DONKI/FLR{}", tail)
    );
    assert_eq!(
        Client::<Sep>::build_query(&range, key()).unwrap(),
        format!("https://api.nasa.gov/DONKI/SEP{}", tail)
    );
    assert_eq!(
        Client::<Mpc>::build_query(&range, key()).unwrap(),
        format!("https://api.nasa.gov/DONKI/MPC{}", tail)
    );
    assert_eq!(
        Client::<Rbe>::build_query(&range, key()).unwrap(),
        format!("https://api.nasa.gov/DONKI/RBE{}", tail)
    );
    assert_eq!(
        Client::<Hss>::build_query(&range, key()).unwrap(),
        format!("https://api.nasa.gov/DONKI/HSS{}", tail)
    );
    assert_eq!(
        Client::<Wsa>::build_query(&range, key()).unwrap(),
        format!("https://api.nasa.gov/DONKI/WSAEnlilSimulations{}", tail)
    );
    let gst = Params { start_date: None, end_date: Some("2016-01-30".to_string()) };
    assert_eq!(
        Client::<Gst>::build_query(&gst, key()).unwrap(),
        "https://api.nasa.gov/DONKI/GST?endDate=2016-01-30&api_key=DEMO_KEY"
    );
}

#[test]
fn cme_and_ips_urls() {
    let cme = CmeAnalysisParams {
        start_date: None,
        end_date: None,
        most_accurate_only: Some(true),
        complete_entry_only: None,
        speed: Some("500".to_string()),
        half_angle: Some("30.5".to_string()),
        catalog: Some(CmeAnalysisCatalog::ALL),
        keyword: None,
    };
    assert_eq!(
        Client::<CmeAnalysis>::build_query(&cme, key()).unwrap(),
        "https://api.nasa.gov/DONKI/CME?mostAccurateOnly=true&speed=500&halfAngle=30.5&catalog=ALL&api_key=DEMO_KEY"
    );
    let ips = IpsParams {
        start_date: Some("2016-01-01".to_string()),
        end_date: None,
        location: Some(IpsLocation::Earth),
        catalog: Some(IpsCatalog::SWRC_CATALOG),
    };
    assert_eq!(
        Client::<Ips>::build_query(&ips, key()).unwrap(),
        "https://api.nasa.gov/DONKI/IPS?startDate=2016-01-01&location=Earth&catalog=SWRC_CATALOG&api_key=DEMO_KEY"
    );
}

#[test]
fn typed_urls_escape_values_and_the_credential() {
    let cme = CmeAnalysisParams {
        start_date: None,
        end_date: None,
        most_accurate_only: None,
        complete_entry_only: None,
        speed: None,
        half_angle: None,
        catalog: None,
        keyword: Some("a&b=c".to_string()),
    };
    assert_eq!(
        Client::<CmeAnalysis>::build_query(&cme, Some("K".to_string())).unwrap(),
        "https://api.nasa.gov/DONKI/CME?keyword=a%26b%3Dc&api_key=K"
    );
    assert_eq!(
        Client::<Neo>::build_query(&NeoParams::Browse, Some("k&x=1 #".to_string())).unwrap(),
        "https://api.nasa.gov/neo/rest/v1/neo/browse?api_key=k%26x%3D1%20%23"
    );
    let client = Client::<Apod>::default();
    let mut asked = String::new();
    let result = client.query_with(vec![("q", "a&b"), ("r s", "=")], |url| {
        asked = url.to_string();
        ok_json("{}")
    });
    assert!(result.is_ok());
    assert_eq!(asked, "https://api.nasa.gov/planetary/apod?q=a%26b&r%20s=%3D");
}

#[test]
fn every_built_url_begins_with_the_base_url() {
    assert!(Client::<Apod>::build_query(&apod_on("2020-01-01"), key()).unwrap().starts_with(Apod::BASE_URL));
    assert!(Client::<Neo>::build_query(&NeoParams::default(), key()).unwrap().starts_with(Neo::BASE_URL));
    assert!(Client::<Neo>::build_query(&NeoParams::Browse, key()).unwrap().starts_with(Neo::BASE_URL));
    assert!(Client::<Ips>::build_query(&IpsParams::default(), key()).unwrap().starts_with(Ips::BASE_URL));
}

#[test]
fn typed_url_from_parts() {
    let mut values = QueryMap::new();
    values.insert("a".to_string(), "1".to_string());
    values.insert("b".to_string(), "".to_string());
    assert_eq!(
        build_typed_url("http://h", "/p", values, Some("k".to_string())),
        Ok("http://h/p?a=1&b=&api_key=k".to_string())
    );
    assert_eq!(
        build_typed_url("http://h", "", QueryMap::new(), Some("".to_string())),
        Ok("http://h?api_key=".to_string())
    );
}

#[test]
fn names_of_the_credential() {
    assert_eq!(API_KEY_PARAMETER, "api_key");
    assert_eq!(API_KEY_VARIABLE, "NASA_API_KEY");
}

#[test]
fn error_messages_differ() {
    let all = [
        Error::MissingCredential,
        Error::SerializationError,
        Error::TransportError,
        Error::DecodeError,
    ];
    for (i, a) in all.iter().enumerate() {
        assert!(!a.message().is_empty());
        for b in all.iter().skip(i + 1) {
            assert_ne!(a, b);
            assert_ne!(a.message(), b.message());
        }
    }
    assert_eq!(Error::MissingCredential.message(), "no API key found in the environment");
}

#[test]
fn crate_root_clients() {
    let apod = nasa_rs::Apod::default();
    let result = apod.query(&apod_on("2021-02-03"), key(), |_url| ok_json("1"));
    assert_eq!(result.unwrap(), 1);
    let neo = nasa_rs::NeoWs::default();
    assert!(neo.query(&NeoParams::Browse, key(), |_url| ok_json("{}")).is_ok());
    let gst = nasa_rs::Gst::default();
    assert!(gst.query(&Params::default(), key(), |_url| ok_json("[]")).is_ok());
    let cme = nasa_rs::CmeAnalysis::default();
    assert!(cme.query(&CmeAnalysisParams::default(), key(), |_url| ok_json("[]")).is_ok());
    let flr = nasa_rs::Flr::default();
    assert!(flr.query(&ParamsCommon::default(), key(), |_url| ok_json("[]")).is_ok());
    let sep = nasa_rs::Sep::default();
    assert!(sep.query(&ParamsCommon::default(), key(), |_url| ok_json("[]")).is_ok());
}
