//! The client facade and the URL builder: configuration of API key,
//! endpoint and country; composition of the request URL; and the evaluation
//! of a transport outcome into the typed fetch result. The network GET
//! itself happens outside the library, which receives its outcome as a
//! [`Transport`] or [`AsyncTransport`] value.

use vstd::prelude::*;
use vstd::string::StringExecFns;

use crate::error::reason_for;
use crate::error::NewsAPIError;
use crate::json::decode_response;
use crate::json::decoded;
use crate::response::process_response;
use crate::response::NewsAPIResponse;

verus! {

/// A selectable service resource path.
#[derive(Debug)]
pub enum EndPoint {
    TopHeadlines,
}

/// The fixed URL path segment an endpoint maps to.
pub open spec fn endpoint_segment(e: EndPoint) -> Seq<char> {
    match e {
        EndPoint::TopHeadlines => "top-headlines"@,
    }
}

impl EndPoint {
    /// The endpoint's URL path segment.
    pub fn to_string(&self) -> (r: String)
        ensures
            r@ == endpoint_segment(*self),
    {
        match self {
            EndPoint::TopHeadlines => "top-headlines".to_owned(),
        }
    }
}

/// A selectable market filter, applied as a query parameter.
#[derive(Debug)]
pub enum Country {
    Us,
}

/// The fixed lowercase code a country maps to.
pub open spec fn country_code(c: Country) -> Seq<char> {
    match c {
        Country::Us => "us"@,
    }
}

impl Country {
    /// The country's query-parameter code.
    pub fn to_string(&self) -> (r: String)
        ensures
            r@ == country_code(*self),
    {
        match self {
            Country::Us => "us".to_owned(),
        }
    }
}

/// The service base URL.
pub open spec fn base_url_spec() -> Seq<char> {
    "https://newsapi.org/v2"@
}

/// The service base URL, as a string ready for the URL builder.
pub fn base_url() -> (r: &'static str)
    ensures
        r@ == base_url_spec(),
{
    "https://newsapi.org/v2"
}

/// What URL normalization yields: `None` on text that is not a valid
/// absolute URL, otherwise its normalized serialization. The result is a
/// function of the text alone.
pub uninterp spec fn url_normalized(s: Seq<char>) -> Option<Seq<char>>;

/// Relies on `url::Url::parse`: it returns `Ok` exactly on a valid absolute
/// URL, and `url::Url::as_str` then returns the normalized serialization;
/// both depend on the input text alone.
#[verifier::external_body]
fn normalize_absolute_url(s: &str) -> (r: Option<String>)
    ensures
        (r is Some) <==> (url_normalized(s@) is Some),
        (r matches Some(n) ==> url_normalized(s@) == Some(n@)),
{
    match url::Url::parse(s) {
        Ok(u) => Some(u.as_str().to_string()),
        Err(_) => None,
    }
}

/// The URL composed for a request: the base, the endpoint path segment as
/// one appended path component, and the query set wholesale to
/// `country=<code>`.
pub open spec fn composed_url(base: Seq<char>, e: EndPoint, c: Country) -> Seq<char> {
    base + "/"@ + endpoint_segment(e) + "?country="@ + country_code(c)
}

/// The URL builder: a valid absolute base URL yields
/// `<base>/<endpoint-segment>?country=<country-code>`, with the base in
/// normalized form; an unparseable base fails with `UrlParseFailed`.
pub fn build_url(base: &str, endpoint: &EndPoint, country: &Country) -> (r: Result<
    String,
    NewsAPIError,
>)
    ensures
        (url_normalized(base@) is None ==> (r matches Err(e) && e is UrlParseFailed)),
        (url_normalized(base@) matches Some(n) ==> (r matches Ok(u) && u@ == composed_url(
            n,
            *endpoint,
            *country,
        ))),
{
    let mut u = match normalize_absolute_url(base) {
        Some(n) => n,
        None => {
            return Err(NewsAPIError::UrlParseFailed);
        },
    };
    u.append("/");
    let seg = endpoint.to_string();
    u.append(seg.as_str());
    u.append("?country=");
    let code = country.to_string();
    u.append(code.as_str());
    proof {
        assert(u@ =~= composed_url(url_normalized(base@)->Some_0, *endpoint, *country));
    }
    Ok(u)
}

/// The client configuration: API key, endpoint selection and country
/// selection.
pub struct ClientModel {
    pub api_key: Seq<char>,
    pub endpoint: EndPoint,
    pub country: Country,
}

/// The client facade. It holds one configuration, read consistently by one
/// fetch, and prepares the request URL; the transports around it hand their
/// outcome to [`evaluate_fetch`], [`evaluate_fetch_async`] or
/// [`evaluate_raw_fetch`].
#[derive(Debug)]
pub struct NewsAPI {
    api_key: String,
    endpoint: EndPoint,
    country: Country,
}

impl View for NewsAPI {
    type V = ClientModel;

    closed spec fn view(&self) -> ClientModel {
        ClientModel { api_key: self.api_key@, endpoint: self.endpoint, country: self.country }
    }
}

impl NewsAPI {
    /// A new client for the given API key, selecting top headlines for the
    /// US market by default.
    pub fn new(api_key: &str) -> (r: NewsAPI)
        ensures
            r@.api_key == api_key@,
            r@.endpoint is TopHeadlines,
            r@.country is Us,
    {
        NewsAPI {
            api_key: api_key.to_owned(),
            endpoint: EndPoint::TopHeadlines,
            country: Country::Us,
        }
    }

    /// Selects the endpoint; key and country are unchanged.
    pub fn endpoint(&mut self, endpoint: EndPoint)
        ensures
            final(self)@.endpoint == endpoint,
            final(self)@.api_key == old(self)@.api_key,
            final(self)@.country == old(self)@.country,
    {
        self.endpoint = endpoint;
    }

    /// Selects the country; key and endpoint are unchanged.
    pub fn country(&mut self, country: Country)
        ensures
            final(self)@.country == country,
            final(self)@.api_key == old(self)@.api_key,
            final(self)@.endpoint == old(self)@.endpoint,
    {
        self.country = country;
    }

    /// The configured API key, for the transport's authorization header.
    pub fn api_key(&self) -> (r: &str)
        ensures
            r@ == self@.api_key,
    {
        self.api_key.as_str()
    }

    /// Builds the request URL for the configured endpoint and country
    /// against the fixed service base URL.
    pub fn prepare_url(&self) -> (r: Result<String, NewsAPIError>)
        ensures
            (url_normalized(base_url_spec()) is None ==> (r matches Err(e)
                && e is UrlParseFailed)),
            (url_normalized(base_url_spec()) matches Some(n) ==> (r matches Ok(u) && u@
                == composed_url(n, self@.endpoint, self@.country))),
    {
        build_url(base_url(), &self.endpoint, &self.country)
    }
}

/// The outcome of one blocking GET, as the transport hands it back: the
/// full response body read as text, a transport-level failure, or a body
/// that could not be read as text.
pub enum Transport {
    Body(String),
    Failed,
    Unreadable,
}

/// The outcome of one non-blocking GET: the full response body read as
/// text, or any failure of building, sending or awaiting the request.
pub enum AsyncTransport {
    Body(String),
    Failed,
}

/// Turns the outcome of the blocking transport into the fetch result:
/// transport failures propagate as typed errors with no partial response,
/// and a body is decoded and gated on its status.
pub fn evaluate_fetch(outcome: Transport) -> (r: Result<NewsAPIResponse, NewsAPIError>)
    ensures
        (outcome is Failed ==> (r matches Err(e) && e is RequestFailed)),
        (outcome is Unreadable ==> (r matches Err(e) && e is ResponseToStringFailed)),
        (outcome matches Transport::Body(b) ==> match decoded(b@) {
            None => (r matches Err(e) && e is ArticlesParsingFailed),
            Some(m) => if m.status == "ok"@ {
                r matches Ok(resp) && resp@ == m
            } else {
                (r matches Err(e) && (e matches NewsAPIError::BadRequest(reason) && reason@
                    == reason_for(m.code)))
            },
        }),
{
    match outcome {
        Transport::Body(b) => {
            match decode_response(b.as_str()) {
                Ok(resp) => process_response(resp),
                Err(e) => Err(e),
            }
        },
        Transport::Failed => Err(NewsAPIError::RequestFailed),
        Transport::Unreadable => Err(NewsAPIError::ResponseToStringFailed),
    }
}

/// Turns the outcome of the non-blocking transport into the fetch result.
/// It gates on the status exactly as the blocking path does, but any
/// failure specific to this path, a decode failure included, maps to
/// `AsyncRequestFailed`.
pub fn evaluate_fetch_async(outcome: AsyncTransport) -> (r: Result<NewsAPIResponse, NewsAPIError>)
    ensures
        (outcome is Failed ==> (r matches Err(e) && e is AsyncRequestFailed)),
        (outcome matches AsyncTransport::Body(b) ==> match decoded(b@) {
            None => (r matches Err(e) && e is AsyncRequestFailed),
            Some(m) => if m.status == "ok"@ {
                r matches Ok(resp) && resp@ == m
            } else {
                (r matches Err(e) && (e matches NewsAPIError::BadRequest(reason) && reason@
                    == reason_for(m.code)))
            },
        }),
{
    match outcome {
        AsyncTransport::Body(b) => {
            match decode_response(b.as_str()) {
                Ok(resp) => process_response(resp),
                Err(_) => Err(NewsAPIError::AsyncRequestFailed),
            }
        },
        AsyncTransport::Failed => Err(NewsAPIError::AsyncRequestFailed),
    }
}

/// Turns a blocking transport outcome into the raw fetch result of the
/// convenience free fetch: it decodes but never runs the error mapper, so
/// an `"ok"`-or-not status reaches the caller unchanged.
pub fn evaluate_raw_fetch(outcome: Transport) -> (r: Result<NewsAPIResponse, NewsAPIError>)
    ensures
        (outcome is Failed ==> (r matches Err(e) && e is RequestFailed)),
        (outcome is Unreadable ==> (r matches Err(e) && e is ResponseToStringFailed)),
        (outcome matches Transport::Body(b) ==> match decoded(b@) {
            None => (r matches Err(e) && e is ArticlesParsingFailed),
            Some(m) => (r matches Ok(resp) && resp@ == m),
        }),
{
    match outcome {
        Transport::Body(b) => decode_response(b.as_str()),
        Transport::Failed => Err(NewsAPIError::RequestFailed),
        Transport::Unreadable => Err(NewsAPIError::ResponseToStringFailed),
    }
}

} // verus!
