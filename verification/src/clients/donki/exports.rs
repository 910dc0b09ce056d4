//! The space-weather endpoints that take a range of days and nothing else.

use vstd::prelude::*;
use crate::clients::donki::endpoints::{
    FLR_BASE_URL,
    HSS_BASE_URL,
    MPC_BASE_URL,
    RBE_BASE_URL,
    SEP_BASE_URL,
    WSA_BASE_URL,
};
pub use crate::clients::donki::gst::Gst;
pub use crate::clients::donki::ips::Ips;
use crate::error::Error;
use crate::json::{decode_json, decoded_json};
use crate::params::ParamsCommon;
use crate::prelude::{build_flat_query, flat_url, Client, ClientHandler, Spec};

verus! {

/// Solar flares.
pub struct Flr;

impl Spec for Flr {
    const BASE_URL: &'static str = FLR_BASE_URL;

    open spec fn base_url() -> Seq<char> {
        FLR_BASE_URL@
    }

    proof fn lemma_base_url() {
    }

    type Params = ParamsCommon;

    type ResponseType = serde_json::Value;

    open spec fn decoded(body: Seq<char>) -> Result<serde_json::Value, Error> {
        decoded_json(body)
    }

    fn parse_response(body: &str) -> (r: Result<serde_json::Value, Error>) {
        decode_json(body)
    }
}

impl ClientHandler<Flr> for Client<Flr> {
    open spec fn request_url(params: ParamsCommon, key: Seq<char>) -> Seq<char> {
        flat_url::<Flr>(params, key)
    }

    fn build_query(params: &ParamsCommon, credential: Option<String>) -> (r: Result<
        String,
        Error,
    >) {
        build_flat_query::<Flr>(params, credential)
    }
}

/// Solar energetic particles.
pub struct Sep;

impl Spec for Sep {
    const BASE_URL: &'static str = SEP_BASE_URL;

    open spec fn base_url() -> Seq<char> {
        SEP_BASE_URL@
    }

    proof fn lemma_base_url() {
    }

    type Params = ParamsCommon;

    type ResponseType = serde_json::Value;

    open spec fn decoded(body: Seq<char>) -> Result<serde_json::Value, Error> {
        decoded_json(body)
    }

    fn parse_response(body: &str) -> (r: Result<serde_json::Value, Error>) {
        decode_json(body)
    }
}

impl ClientHandler<Sep> for Client<Sep> {
    open spec fn request_url(params: ParamsCommon, key: Seq<char>) -> Seq<char> {
        flat_url::<Sep>(params, key)
    }

    fn build_query(params: &ParamsCommon, credential: Option<String>) -> (r: Result<
        String,
        Error,
    >) {
        build_flat_query::<Sep>(params, credential)
    }
}

/// Magnetopause crossings.
pub struct Mpc;

impl Spec for Mpc {
    const BASE_URL: &'static str = MPC_BASE_URL;

    open spec fn base_url() -> Seq<char> {
        MPC_BASE_URL@
    }

    proof fn lemma_base_url() {
    }

    type Params = ParamsCommon;

    type ResponseType = serde_json::Value;

    open spec fn decoded(body: Seq<char>) -> Result<serde_json::Value, Error> {
        decoded_json(body)
    }

    fn parse_response(body: &str) -> (r: Result<serde_json::Value, Error>) {
        decode_json(body)
    }
}

impl ClientHandler<Mpc> for Client<Mpc> {
    open spec fn request_url(params: ParamsCommon, key: Seq<char>) -> Seq<char> {
        flat_url::<Mpc>(params, key)
    }

    fn build_query(params: &ParamsCommon, credential: Option<String>) -> (r: Result<
        String,
        Error,
    >) {
        build_flat_query::<Mpc>(params, credential)
    }
}

/// Radiation belt enhancements.
pub struct Rbe;

impl Spec for Rbe {
    const BASE_URL: &'static str = RBE_BASE_URL;

    open spec fn base_url() -> Seq<char> {
        RBE_BASE_URL@
    }

    proof fn lemma_base_url() {
    }

    type Params = ParamsCommon;

    type ResponseType = serde_json::Value;

    open spec fn decoded(body: Seq<char>) -> Result<serde_json::Value, Error> {
        decoded_json(body)
    }

    fn parse_response(body: &str) -> (r: Result<serde_json::Value, Error>) {
        decode_json(body)
    }
}

impl ClientHandler<Rbe> for Client<Rbe> {
    open spec fn request_url(params: ParamsCommon, key: Seq<char>) -> Seq<char> {
        flat_url::<Rbe>(params, key)
    }

    fn build_query(params: &ParamsCommon, credential: Option<String>) -> (r: Result<
        String,
        Error,
    >) {
        build_flat_query::<Rbe>(params, credential)
    }
}

/// High speed streams.
pub struct Hss;

impl Spec for Hss {
    const BASE_URL: &'static str = HSS_BASE_URL;

    open spec fn base_url() -> Seq<char> {
        HSS_BASE_URL@
    }

    proof fn lemma_base_url() {
    }

    type Params = ParamsCommon;

    type ResponseType = serde_json::Value;

    open spec fn decoded(body: Seq<char>) -> Result<serde_json::Value, Error> {
        decoded_json(body)
    }

    fn parse_response(body: &str) -> (r: Result<serde_json::Value, Error>) {
        decode_json(body)
    }
}

impl ClientHandler<Hss> for Client<Hss> {
    open spec fn request_url(params: ParamsCommon, key: Seq<char>) -> Seq<char> {
        flat_url::<Hss>(params, key)
    }

    fn build_query(params: &ParamsCommon, credential: Option<String>) -> (r: Result<
        String,
        Error,
    >) {
        build_flat_query::<Hss>(params, credential)
    }
}

/// WSA+Enlil simulations.
pub struct Wsa;

impl Spec for Wsa {
    const BASE_URL: &'static str = WSA_BASE_URL;

    open spec fn base_url() -> Seq<char> {
        WSA_BASE_URL@
    }

    proof fn lemma_base_url() {
    }

    type Params = ParamsCommon;

    type ResponseType = serde_json::Value;

    open spec fn decoded(body: Seq<char>) -> Result<serde_json::Value, Error> {
        decoded_json(body)
    }

    fn parse_response(body: &str) -> (r: Result<serde_json::Value, Error>) {
        decode_json(body)
    }
}

impl ClientHandler<Wsa> for Client<Wsa> {
    open spec fn request_url(params: ParamsCommon, key: Seq<char>) -> Seq<char> {
        flat_url::<Wsa>(params, key)
    }

    fn build_query(params: &ParamsCommon, credential: Option<String>) -> (r: Result<
        String,
        Error,
    >) {
        build_flat_query::<Wsa>(params, credential)
    }
}

} // verus!
