//! Clients for the public Dutch geo registries served by PDOK and the
//! Kadaster: the address lookup service, the cadastral map (BRK) and the
//! buildings and addresses registry (BAG).
//!
//! This crate holds what the clients decide and compute: which request a
//! call sends, and what becomes of the answers. Sending a request and
//! decoding its answer is left to the caller, who hands the decoded answer
//! back.

use vstd::prelude::*;
use crate::trusted::text_of;

pub mod bag;
pub mod brk;
pub mod geometry;
pub mod locatieserver;
pub mod lookup;
pub mod order;
pub mod text;
pub mod trusted;
pub mod util;

verus! {

/// What can go wrong in a call to one of the registries. `E` is the error
/// that the caller's transport reports; it is handed on as it came.
#[derive(Debug)]
pub enum Error<E> {
    /// Something went wrong with the request (invalid url, no connection, etc)
    NetworkProblem(E),
    /// Data was received, but could not be decoded
    JsonProblem(E),
    /// Data was decoded, but no items were found
    EmptyResponse,
    /// A geometry was received whose positions are not two- or three-dimensional
    MalformedGeometry,
}

/// Supported coordinate spaces
#[derive(Copy, Clone, Debug, PartialEq, Eq, Structural)]
pub enum CoordinateSpace {
    Rijksdriehoek,
    Gps,
}

impl CoordinateSpace {
    /// The identifier of the coordinate space, as the `Accept-Crs` header carries it.
    pub open spec fn code(&self) -> Seq<char> {
        match self {
            // see https://epsg.io/28992
            CoordinateSpace::Rijksdriehoek => "epsg:28992"@,
            // see https://epsg.io/4258
            CoordinateSpace::Gps => "epsg:4258"@,
        }
    }

    pub fn as_str(&self) -> (code: &'static str)
        ensures
            code@ == self.code(),
    {
        match self {
            CoordinateSpace::Rijksdriehoek => "epsg:28992",
            CoordinateSpace::Gps => "epsg:4258",
        }
    }
}

/// The settings that every client of a registry is made with.
pub trait ClientBuilder<'a> {
    type OutputType;

    fn connection_timeout_secs(&mut self, connection_timeout_secs: u64) -> &mut Self;

    fn request_timeout_secs(&mut self, request_timeout_secs: u64) -> &mut Self;

    fn build(&self) -> Self::OutputType;
}

/// What a client is configured with: every request that it sends carries
/// the user agent and the default headers, and is given up after the
/// timeouts.
#[derive(Debug, Clone)]
pub struct ClientConfig {
    pub user_agent: String,
    /// Header names with their values, in the order in which they are set.
    pub default_headers: Vec<(String, String)>,
    pub connection_timeout_secs: u64,
    pub request_timeout_secs: u64,
}

/// The HTTP verb of a request.
#[derive(Copy, Clone, Debug, PartialEq, Eq, Structural)]
pub enum Method {
    Get,
    Post,
}

/// One request to a registry, ready to be sent.
#[derive(Debug, Clone)]
pub struct Request {
    pub method: Method,
    /// The address of the request. It may already hold a query string.
    pub url: String,
    /// Name and value pairs that are added to the query string of `url`.
    pub query: Vec<(String, String)>,
    /// Headers of this request alone, besides the client's default headers.
    pub headers: Vec<(String, String)>,
    /// The members of the JSON object that is sent as the body, if any.
    pub json: Vec<(String, String)>,
}

/// What came of sending a request and decoding its answer into a `T`.
#[derive(Debug)]
pub enum Fetched<T, E> {
    /// The request could not be sent, or no answer was received.
    Unreachable(E),
    /// An answer was received, but it does not have the shape of a `T`.
    Undecodable(E),
    /// The decoded answer.
    Decoded(T),
}

/// Name and value pairs, each text taken by its view.
pub open spec fn pairs(list: Seq<(String, String)>) -> Seq<(Seq<char>, Seq<char>)> {
    list.map_values(|pair: (String, String)| (pair.0@, pair.1@))
}

impl View for ClientConfig {
    type V = ClientConfigView;

    open spec fn view(&self) -> ClientConfigView {
        ClientConfigView {
            user_agent: self.user_agent@,
            default_headers: pairs(self.default_headers@),
            connection_timeout_secs: self.connection_timeout_secs,
            request_timeout_secs: self.request_timeout_secs,
        }
    }
}

/// A `ClientConfig` with its texts as sequences of characters.
pub struct ClientConfigView {
    pub user_agent: Seq<char>,
    pub default_headers: Seq<(Seq<char>, Seq<char>)>,
    pub connection_timeout_secs: u64,
    pub request_timeout_secs: u64,
}

impl View for Request {
    type V = RequestView;

    open spec fn view(&self) -> RequestView {
        RequestView {
            method: self.method,
            url: self.url@,
            query: pairs(self.query@),
            headers: pairs(self.headers@),
            json: pairs(self.json@),
        }
    }
}

/// A `Request` with its texts as sequences of characters.
pub struct RequestView {
    pub method: Method,
    pub url: Seq<char>,
    pub query: Seq<(Seq<char>, Seq<char>)>,
    pub headers: Seq<(Seq<char>, Seq<char>)>,
    pub json: Seq<(Seq<char>, Seq<char>)>,
}

/// A plain request for `url`, by GET.
pub open spec fn get(url: Seq<char>) -> RequestView {
    RequestView {
        method: Method::Get,
        url,
        query: Seq::empty(),
        headers: Seq::empty(),
        json: Seq::empty(),
    }
}

/// The plain GET request for `url`, if there is one.
pub open spec fn get_if(url: Option<Seq<char>>) -> Option<RequestView> {
    match url {
        Some(url) => Some(get(url)),
        None => None,
    }
}

/// The view of an optional request.
pub open spec fn request_of(request: Option<Request>) -> Option<RequestView> {
    match request {
        Some(request) => Some(request@),
        None => None,
    }
}

/// Makes the plain GET request for `url`, if there is one.
pub fn get_request(url: Option<String>) -> (request: Option<Request>)
    ensures
        request_of(request) == get_if(text_of(url)),
{
    match url {
        Some(url) => {
            let request = Request {
                method: Method::Get,
                url,
                query: Vec::new(),
                headers: Vec::new(),
                json: Vec::new(),
            };
            assert(pairs(request.query@) =~= Seq::empty());
            assert(pairs(request.headers@) =~= Seq::empty());
            assert(pairs(request.json@) =~= Seq::empty());
            Some(request)
        },
        None => None,
    }
}

impl<T, E> Fetched<T, E> {
    /// What a call that only hands on its answer comes to: the decoded
    /// answer, or the error of the step that failed.
    pub open spec fn outcome(self) -> Result<T, Error<E>> {
        match self {
            Fetched::Unreachable(error) => Err(Error::NetworkProblem(error)),
            Fetched::Undecodable(error) => Err(Error::JsonProblem(error)),
            Fetched::Decoded(answer) => Ok(answer),
        }
    }

    /// The decoded answer, or the error of the step that failed.
    pub fn into_result(self) -> (result: Result<T, Error<E>>)
        ensures
            result == self.outcome(),
    {
        match self {
            Fetched::Unreachable(error) => Err(Error::NetworkProblem(error)),
            Fetched::Undecodable(error) => Err(Error::JsonProblem(error)),
            Fetched::Decoded(answer) => Ok(answer),
        }
    }
}

} // verus!
