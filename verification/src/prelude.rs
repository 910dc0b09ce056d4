//! The typed-client abstraction: what describes an endpoint, the client that
//! is bound to one, and how a request URL is built and a reply concluded.

use vstd::prelude::*;
use crate::error::Error;
use crate::escape::escape;
use crate::query::{Pair, QueryMap, QueryValues};
use crate::query_string::{
    ends_with,
    entry_separator,
    lemma_parse_inverts_render,
    lemma_render_push,
    parse,
    render,
    render_pair,
    starts_with,
};

verus! {

/// The name of the query parameter that carries the credential.
pub const API_KEY_PARAMETER: &'static str = "api_key";

/// The name of the environment variable that holds the credential.
pub const API_KEY_VARIABLE: &'static str = "NASA_API_KEY";

/// What the transport hands back for one GET that was answered.
#[derive(Debug, Clone)]
pub struct Reply {
    /// The status code of the reply.
    pub status: u16,
    /// The body of the reply.
    pub body: String,
}

/// The description of one endpoint.
pub trait Spec {
    /// The URL that every request to the endpoint starts with.
    const BASE_URL: &'static str;

    /// The text of `BASE_URL`.
    spec fn base_url() -> Seq<char>;

    /// `BASE_URL` holds the text that `base_url` states.
    proof fn lemma_base_url()
        ensures
            Self::BASE_URL@ == Self::base_url(),
    ;

    /// The parameters of a typed request.
    type Params: QueryValues + Clone + Default;

    /// The decoded body of a reply.
    type ResponseType;

    /// What decoding gives for a body.
    spec fn decoded(body: Seq<char>) -> Result<Self::ResponseType, Error>;

    /// Decodes the body of a reply. A body that cannot be decoded gives
    /// `DecodeError`.
    fn parse_response(body: &str) -> (r: Result<Self::ResponseType, Error>)
        ensures
            r == Self::decoded(body@),
            r is Err ==> r->Err_0 == Error::DecodeError,
    ;
}

/// A client of the endpoint `S`. It holds nothing but that binding.
pub struct Client<S: Spec> {
    _spec: core::marker::PhantomData<S>,
}

impl<S: Spec> Default for Client<S> {
    fn default() -> Self {
        Client { _spec: core::marker::PhantomData }
    }
}

/// Renders a mapping as a query string: each entry once as `key=value`, in
/// the order of the mapping, joined by `&`. Keys and values are
/// percent-encoded.
pub fn map_to_query(params: QueryMap) -> (r: String)
    ensures
        r@ == render(params.pairs()),
{
    let mut url = String::new();
    let size = params.len();
    let mut i: usize = 0;
    while i < size
        invariant
            i <= size,
            size == params.pairs().len(),
            url@ == render(params.pairs().take(i as int)),
        decreases size - i,
    {
        proof {
            reveal_strlit("&");
            reveal_strlit("=");
            let done = params.pairs().take(i as int);
            assert(params.pairs().take(i + 1) =~= done.push(params.pairs()[i as int]));
            lemma_render_push(done, params.pairs()[i as int]);
        }
        let ghost before = url@;
        if let Some((key, value)) = params.entry_at(i) {
            if i > 0 {
                url.append("&");
            }
            url.append(escape(key.as_str()).as_str());
            url.append("=");
            url.append(escape(value.as_str()).as_str());
        }
        assert(url@ =~= if i > 0 {
            before + seq![entry_separator()] + render_pair(params.pairs()[i as int])
        } else {
            render_pair(params.pairs()[i as int])
        });
        i += 1;
    }
    assert(params.pairs().take(i as int) =~= params.pairs());
    url
}

/// The entry that carries the credential `key`.
pub open spec fn credential_pair(key: Seq<char>) -> Pair {
    (API_KEY_PARAMETER@, key)
}

/// The URL of a typed request: the base URL, the path below it, `?`, and
/// the query string of the entries with the credential as the last one,
/// keys and values percent-encoded.
pub open spec fn typed_url(
    base: Seq<char>,
    path: Seq<char>,
    pairs: Seq<Pair>,
    key: Seq<char>,
) -> Seq<char> {
    base + path + seq!['?'] + render(pairs.push(credential_pair(key)))
}

/// The URL of an untyped request: the base URL, `?`, and the query string of
/// the entries, keys and values percent-encoded. No credential is added.
pub open spec fn untyped_url(base: Seq<char>, pairs: Seq<Pair>) -> Seq<char> {
    base + seq!['?'] + render(pairs)
}

/// Whether `url` ends with the credential `key` as a query parameter.
pub open spec fn carries_credential(url: Seq<char>, key: Seq<char>) -> bool {
    ||| ends_with(url, seq!['?'] + render_pair(credential_pair(key)))
    ||| ends_with(url, seq!['&'] + render_pair(credential_pair(key)))
}

/// Every typed URL carries the credential it was built with.
pub proof fn lemma_typed_url_carries_credential(
    base: Seq<char>,
    path: Seq<char>,
    pairs: Seq<Pair>,
    key: Seq<char>,
)
    ensures
        carries_credential(typed_url(base, path, pairs, key), key),
{
    let url = typed_url(base, path, pairs, key);
    let last = render_pair(credential_pair(key));
    lemma_render_push(pairs, credential_pair(key));
    if pairs.len() == 0 {
        let tail = seq!['?'] + last;
        assert(url =~= base + path + tail);
        assert(url.skip(url.len() - tail.len()) =~= tail);
    } else {
        let tail = seq!['&'] + last;
        assert(url =~= base + path + seq!['?'] + render(pairs) + tail);
        assert(url.skip(url.len() - tail.len()) =~= tail);
    }
}

/// Every typed URL begins with the base URL it was built with.
pub proof fn lemma_typed_url_starts_with_base(
    base: Seq<char>,
    path: Seq<char>,
    pairs: Seq<Pair>,
    key: Seq<char>,
)
    ensures
        starts_with(typed_url(base, path, pairs, key), base),
{
    let url = typed_url(base, path, pairs, key);
    assert(url.take(base.len() as int) =~= base);
}

/// The query string of a typed URL reads back as the entries of the request
/// followed by the credential, whatever they hold.
pub proof fn lemma_typed_query_reads_back(pairs: Seq<Pair>, key: Seq<char>)
    ensures
        parse(render(pairs.push(credential_pair(key)))) == pairs.push(credential_pair(key)),
{
    lemma_parse_inverts_render(pairs.push(credential_pair(key)));
}

/// Builds the URL of a typed request from its parts. Without a credential
/// there is no URL: the request must not go out unauthenticated.
pub fn build_typed_url(base: &str, path: &str, values: QueryMap, credential: Option<String>) -> (r:
    Result<String, Error>)
    ensures
        credential is None ==> r is Err && r->Err_0 == Error::MissingCredential,
        credential is Some ==> r is Ok && r->Ok_0@ == typed_url(
            base@,
            path@,
            values.pairs(),
            credential->Some_0@,
        ),
{
    match credential {
        None => Err(Error::MissingCredential),
        Some(key) => {
            let ghost pairs = values.pairs();
            let mut url = base.to_owned();
            url.append(path);
            url.append("?");
            let bare = values.is_empty();
            let query = map_to_query(values);
            url.append(query.as_str());
            if !bare {
                url.append("&");
            }
            url.append(escape(API_KEY_PARAMETER).as_str());
            url.append("=");
            url.append(escape(key.as_str()).as_str());
            proof {
                reveal_strlit("?");
                reveal_strlit("&");
                reveal_strlit("=");
                lemma_render_push(pairs, credential_pair(key@));
                assert(url@ =~= typed_url(base@, path@, pairs, key@));
            }
            Ok(url)
        },
    }
}

/// The URL of a typed request to an endpoint whose requests all go to its
/// base URL, with every entry of the parameters in the query string.
pub open spec fn flat_url<S: Spec>(params: S::Params, key: Seq<char>) -> Seq<char> {
    typed_url(S::base_url(), Seq::empty(), params.encoded(), key)
}

/// Builds the URL of a typed request to such an endpoint.
pub fn build_flat_query<S: Spec>(params: &S::Params, credential: Option<String>) -> (r: Result<
    String,
    Error,
>)
    ensures
        credential is None ==> r is Err && r->Err_0 == Error::MissingCredential,
        credential is Some ==> r is Ok && r->Ok_0@ == flat_url::<S>(*params, credential->Some_0@)
            && carries_credential(r->Ok_0@, credential->Some_0@) && starts_with(
            r->Ok_0@,
            S::base_url(),
        ),
{
    proof {
        reveal_strlit("");
        assert(""@ =~= Seq::<char>::empty());
        S::lemma_base_url();
        if credential is Some {
            lemma_typed_url_starts_with_base(
                S::base_url(),
                Seq::empty(),
                params.encoded(),
                credential->Some_0@,
            );
            lemma_typed_url_carries_credential(
                S::base_url(),
                Seq::empty(),
                params.encoded(),
                credential->Some_0@,
            );
        }
    }
    build_typed_url(S::BASE_URL, "", params.values(), credential)
}

/// Whether a status code reports success.
pub open spec fn is_success(status: u16) -> bool {
    200 <= status <= 299
}

/// What a request comes to, given what the transport handed back: no reply
/// and a reply without a success status are transport errors; the body of a
/// successful reply is decoded.
pub open spec fn conclude<S: Spec>(got: Option<Reply>) -> Result<S::ResponseType, Error> {
    match got {
        None => Err(Error::TransportError),
        Some(reply) => if is_success(reply.status) {
            S::decoded(reply.body@)
        } else {
            Err(Error::TransportError)
        },
    }
}

/// Concludes a request from what the transport handed back.
pub fn receive<S: Spec>(got: Option<Reply>) -> (r: Result<S::ResponseType, Error>)
    ensures
        r == conclude::<S>(got),
        r is Err ==> r->Err_0 == Error::TransportError || r->Err_0 == Error::DecodeError,
{
    match got {
        None => Err(Error::TransportError),
        Some(reply) => {
            if 200 <= reply.status && reply.status <= 299 {
                S::parse_response(reply.body.as_str())
            } else {
                Err(Error::TransportError)
            }
        },
    }
}

/// What a client does. The transport is handed in as `fetch`: it performs
/// one GET of the URL it is given and returns the reply, or `None` where
/// none came.
pub trait ClientHandler<S: Spec>: Default + Sized {
    /// The URL of the typed request for `params` with the credential `key`.
    spec fn request_url(params: S::Params, key: Seq<char>) -> Seq<char>;

    /// Builds the URL of a typed request. Fails with `MissingCredential`
    /// where no credential was resolved; a URL that is built begins with
    /// the base URL of the endpoint and carries the credential.
    fn build_query(params: &S::Params, credential: Option<String>) -> (r: Result<String, Error>)
        ensures
            credential is None ==> r is Err && r->Err_0 == Error::MissingCredential,
            credential is Some ==> r is Ok && r->Ok_0@ == Self::request_url(
                *params,
                credential->Some_0@,
            ) && carries_credential(r->Ok_0@, credential->Some_0@),
            credential is Some ==> r->Ok_0@.len() >= S::base_url().len() && r->Ok_0@.take(
                S::base_url().len() as int,
            ) == S::base_url(),
    ;

    /// Sends a typed request and decodes the reply. Without a credential
    /// nothing is sent.
    fn query<F: FnOnce(&str) -> Option<Reply>>(
        &self,
        params: &S::Params,
        credential: Option<String>,
        fetch: F,
    ) -> (r: Result<S::ResponseType, Error>)
        requires
            forall|url: &str|
                credential is Some && url@ == Self::request_url(*params, credential->Some_0@)
                    ==> call_requires(fetch, (url,)),
        ensures
            credential is None ==> r is Err && r->Err_0 == Error::MissingCredential,
            credential is Some ==> exists|url: &str, got: Option<Reply>|
                url@ == Self::request_url(*params, credential->Some_0@) && call_ensures(
                    fetch,
                    (url,),
                    got,
                ) && r == conclude::<S>(got),
            credential is Some && r is Err ==> r->Err_0 == Error::TransportError || r->Err_0
                == Error::DecodeError,
    {
        match Self::build_query(params, credential) {
            Err(e) => Err(e),
            Ok(url) => {
                let target: &str = url.as_str();
                let got = fetch(target);
                assert(call_ensures(fetch, (target,), got));
                receive::<S>(got)
            },
        }
    }

    /// Sends an untyped request and decodes the reply. The entries of
    /// `params` are all that the query string holds: no credential is added,
    /// a caller that needs one puts it among the entries.
    fn query_with<Q: QueryValues, F: FnOnce(&str) -> Option<Reply>>(
        &self,
        params: Q,
        fetch: F,
    ) -> (r: Result<S::ResponseType, Error>)
        requires
            forall|url: &str|
                url@ == untyped_url(S::base_url(), params.encoded()) ==> call_requires(
                    fetch,
                    (url,),
                ),
        ensures
            exists|url: &str, got: Option<Reply>|
                url@ == untyped_url(S::base_url(), params.encoded()) && call_ensures(
                    fetch,
                    (url,),
                    got,
                ) && r == conclude::<S>(got),
            r is Err ==> r->Err_0 == Error::TransportError || r->Err_0 == Error::DecodeError,
    {
        let values = params.values();
        let query = map_to_query(values);
        let mut url = S::BASE_URL.to_owned();
        url.append("?");
        url.append(query.as_str());
        proof {
            reveal_strlit("?");
            S::lemma_base_url();
            assert(url@ =~= untyped_url(S::base_url(), params.encoded()));
        }
        let target: &str = url.as_str();
        let got = fetch(target);
        assert(call_ensures(fetch, (target,), got));
        receive::<S>(got)
    }
}

} // verus!
