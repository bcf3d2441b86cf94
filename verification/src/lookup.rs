//! The geocoding service by PDOK.
//! Used to generate references to the desired lots and buildings.
//!
//! See [the service documentation](https://www.pdok.nl/introductie/-/article/pdok-locatieserver)
//! for more information on its capabilities.
//!

use vstd::prelude::*;
use serde_json::Number;
use std::cmp::Ordering;
use crate::order::{compare, order};
use crate::text::{concat2, owned};
use crate::trusted::{parse_with_params, url_with_params};
use crate::{
    get_if, get_request, pairs, request_of, ClientBuilder, ClientConfig, ClientConfigView, Method,
    Request, RequestView,
};

verus! {

/// Where the service answers.
pub const GEODATA_NATIONAALGEOREGISTER_NL: &'static str = "https://api.pdok.nl/bzk";

/// The location of the TG office.
pub const TG_OFFICE: &'static str = "adr-5826c02550308f6da19e4feb5eb97ec8";

/// A client of the geocoding service, with the settings that its requests are sent with.
#[derive(Debug)]
pub struct LookupClient {
    config: ClientConfig,
}

impl View for LookupClient {
    type V = ClientConfigView;

    /// The settings that the client was built with.
    closed spec fn view(&self) -> ClientConfigView {
        self.config@
    }
}

impl LookupClient {
    /// The settings that the client was built with.
    pub fn config(&self) -> (config: &ClientConfig)
        ensures
            config@ == self@,
    {
        &self.config
    }
}

pub struct LookupClientBuilder<'a> {
    connection_timeout_secs: u64,
    request_timeout_secs: u64,
    user_agent: &'a str,
}

/// The settings of a `LookupClientBuilder`, with its text as a sequence of characters.
pub struct LookupClientBuilderView {
    pub connection_timeout_secs: u64,
    pub request_timeout_secs: u64,
    pub user_agent: Seq<char>,
}

impl<'a> View for LookupClientBuilder<'a> {
    type V = LookupClientBuilderView;

    closed spec fn view(&self) -> LookupClientBuilderView {
        LookupClientBuilderView {
            connection_timeout_secs: self.connection_timeout_secs,
            request_timeout_secs: self.request_timeout_secs,
            user_agent: self.user_agent@,
        }
    }
}

impl LookupClientBuilderView {
    /// The configuration of the client that is built from these settings.
    pub open spec fn config(self) -> ClientConfigView {
        ClientConfigView {
            user_agent: self.user_agent,
            default_headers: Seq::empty(),
            connection_timeout_secs: self.connection_timeout_secs,
            request_timeout_secs: self.request_timeout_secs,
        }
    }
}

impl<'a> ClientBuilder<'a> for LookupClientBuilder<'a> {
    type OutputType = LookupClient;

    fn connection_timeout_secs(&mut self, connection_timeout_secs: u64) -> (builder: &mut Self)
        ensures
            builder@ == (LookupClientBuilderView { connection_timeout_secs, ..old(self)@ }),
            *final(self) == *final(builder),
    {
        self.connection_timeout_secs = connection_timeout_secs;
        self
    }

    fn request_timeout_secs(&mut self, request_timeout_secs: u64) -> (builder: &mut Self)
        ensures
            builder@ == (LookupClientBuilderView { request_timeout_secs, ..old(self)@ }),
            *final(self) == *final(builder),
    {
        self.request_timeout_secs = request_timeout_secs;
        self
    }

    fn build(&self) -> (client: LookupClient)
        ensures
            client@ == self@.config(),
    {
        let config = ClientConfig {
            user_agent: owned(self.user_agent),
            default_headers: Vec::new(),
            connection_timeout_secs: self.connection_timeout_secs,
            request_timeout_secs: self.request_timeout_secs,
        };
        assert(pairs(config.default_headers@) =~= Seq::empty());
        LookupClient { config }
    }
}

impl<'a> LookupClientBuilder<'a> {
    pub fn new(user_agent: &'a str) -> (builder: Self)
        ensures
            builder@ == (LookupClientBuilderView {
                connection_timeout_secs: 10,
                request_timeout_secs: 30,
                user_agent: user_agent@,
            }),
    {
        Self { user_agent, connection_timeout_secs: 10, request_timeout_secs: 30 }
    }
}

/// The query for the addresses with a postal code and a house number.
pub open spec fn suggest_query(postcode: Seq<char>, huisnummer: Seq<char>) -> Seq<char> {
    "postcode:"@ + postcode + " "@ + huisnummer
}

/// The query for the addresses that are linked to a lot.
pub open spec fn lot_query(lot_code: Seq<char>, lot_letter: Seq<char>, lot_number: Seq<char>) -> Seq<char> {
    "gekoppeld_perceel:"@ + lot_code + "-"@ + lot_letter + "-"@ + lot_number
}

/// The parameters of the request for the addresses that are linked to a lot.
pub open spec fn lot_params(lot_code: Seq<char>, lot_letter: Seq<char>, lot_number: Seq<char>) -> Seq<(Seq<char>, Seq<char>)> {
    seq![("q"@, lot_query(lot_code, lot_letter, lot_number)), ("fq"@, "type:adres"@)]
}

/// Writes the query for the addresses with a postal code and a house number.
pub fn write_suggest_query(postcode: &str, huisnummer: &str) -> (query: String)
    ensures
        query@ == suggest_query(postcode@, huisnummer@),
{
    let mut query = concat2("postcode:", postcode);
    query.append(" ");
    query.append(huisnummer);
    query
}

/// Writes the query for the addresses that are linked to a lot.
pub fn write_lot_query(lot_code: &str, lot_letter: &str, lot_number: &str) -> (query: String)
    ensures
        query@ == lot_query(lot_code@, lot_letter@, lot_number@),
{
    let mut query = concat2("gekoppeld_perceel:", lot_code);
    query.append("-");
    query.append(lot_letter);
    query.append("-");
    query.append(lot_number);
    query
}

/// Makes the parameters of the request for the addresses that are linked to a lot.
pub fn write_lot_params(lot_code: &str, lot_letter: &str, lot_number: &str) -> (params: Vec<(String, String)>)
    ensures
        pairs(params@) == lot_params(lot_code@, lot_letter@, lot_number@),
{
    let mut params: Vec<(String, String)> = Vec::new();
    params.push((owned("q"), write_lot_query(lot_code, lot_letter, lot_number)));
    params.push((owned("fq"), owned("type:adres")));
    assert(pairs(params@) =~= lot_params(lot_code@, lot_letter@, lot_number@));
    params
}

/// Makes the one parameter of the request for a location.
pub fn write_id_params(id: &str) -> (params: Vec<(String, String)>)
    ensures
        pairs(params@) == seq![("id"@, id@)],
{
    let mut params: Vec<(String, String)> = Vec::new();
    params.push((owned("id"), owned(id)));
    assert(pairs(params@) =~= seq![("id"@, id@)]);
    params
}

impl LookupClient {
    /// The request for a Geocoding lookup based on postal code and housenumber.
    /// Its answer is a list of possible matches, the best first.
    pub fn suggest_concrete(&self, postcode: &str, huisnummer: &str) -> (request: Request)
        ensures
            request@ == (RequestView {
                method: Method::Get,
                url: GEODATA_NATIONAALGEOREGISTER_NL@ + "/locatieserver/search/v3_1/suggest"@,
                query: seq![("q"@, suggest_query(postcode@, huisnummer@))],
                headers: Seq::empty(),
                json: Seq::empty(),
            }),
    {
        let mut query: Vec<(String, String)> = Vec::new();
        query.push((owned("q"), write_suggest_query(postcode, huisnummer)));
        let request = Request {
            method: Method::Get,
            url: concat2(GEODATA_NATIONAALGEOREGISTER_NL, "/locatieserver/search/v3_1/suggest"),
            query,
            headers: Vec::new(),
            json: Vec::new(),
        };
        assert(pairs(request.query@) =~= seq![("q"@, suggest_query(postcode@, huisnummer@))]);
        assert(pairs(request.headers@) =~= Seq::empty());
        assert(pairs(request.json@) =~= Seq::empty());
        request
    }

    /// The request that looks up a specific location id.
    ///
    /// There is no request where the address of the service does not parse.
    pub fn lookup(&self, id: &str) -> (request: Option<Request>)
        ensures
            request_of(request) == get_if(
                url_with_params(
                    GEODATA_NATIONAALGEOREGISTER_NL@ + "/locatieserver/search/v3_1/lookup"@,
                    seq![("id"@, id@)],
                ),
            ),
    {
        let url = concat2(GEODATA_NATIONAALGEOREGISTER_NL, "/locatieserver/search/v3_1/lookup");
        let params = write_id_params(id);
        get_request(parse_with_params(url.as_str(), &params))
    }

    /// The request for suggestions on addresses related to a lot.
    /// Its answer is a list of possible matches.
    ///
    /// There is no request where the address of the service does not parse.
    pub fn suggest_addresses_for_lot(&self, lot_code: &str, lot_letter: &str, lot_number: &str) -> (request: Option<Request>)
        ensures
            request_of(request) == get_if(
                url_with_params(
                    GEODATA_NATIONAALGEOREGISTER_NL@ + "/locatieserver/search/v3_1/free"@,
                    lot_params(lot_code@, lot_letter@, lot_number@),
                ),
            ),
    {
        let url = concat2(GEODATA_NATIONAALGEOREGISTER_NL, "/locatieserver/search/v3_1/free");
        // Example: https://api.pdok.nl/bzk/locatieserver/search/v3_1/free?q=gekoppeld_perceel:HTT02-M-5038
        let params = write_lot_params(lot_code, lot_letter, lot_number);
        get_request(parse_with_params(url.as_str(), &params))
    }

    /// The request that tells whether the API is up: it looks up our office.
    pub fn lookup_tg_office(&self) -> (request: Option<Request>)
        ensures
            request_of(request) == get_if(
                url_with_params(
                    GEODATA_NATIONAALGEOREGISTER_NL@ + "/locatieserver/search/v3_1/lookup"@,
                    seq![("id"@, TG_OFFICE@)],
                ),
            ),
    {
        self.lookup(TG_OFFICE)
    }
}

/// A specific location that was looked up.
/// Contains references to the lot, building and address.
#[derive(Debug, Clone)]
pub struct LookupDoc {
    pub id: String,
    pub gekoppeld_perceel: Vec<String>,
    pub nummeraanduiding_id: String,
    pub adresseerbaarobject_id: String,
    pub postcode: String,
    pub huis_nlt: String,
    pub straatnaam: String,
    pub woonplaatsnaam: String,
}

impl PartialEq for LookupDoc {
    /// Two locations are the same location when their ids are equal.
    fn eq(&self, other: &Self) -> (same: bool) {
        self.id == other.id
    }
}

impl Eq for LookupDoc {

}

impl vstd::std_specs::cmp::PartialEqSpecImpl for LookupDoc {
    open spec fn obeys_eq_spec() -> bool {
        true
    }

    open spec fn eq_spec(&self, other: &Self) -> bool {
        self.id@ == other.id@
    }
}

impl PartialOrd for LookupDoc {
    fn partial_cmp(&self, other: &Self) -> (o: Option<Ordering>) {
        Some(compare(&self.id, &other.id))
    }
}

impl vstd::std_specs::cmp::PartialOrdSpecImpl for LookupDoc {
    open spec fn obeys_partial_cmp_spec() -> bool {
        true
    }

    open spec fn partial_cmp_spec(&self, other: &Self) -> Option<Ordering> {
        Some(order(self.id@, other.id@))
    }
}

impl LookupDoc {
    /// Locations are ordered by their ids alone.
    pub fn cmp(&self, other: &Self) -> (o: Ordering)
        ensures
            o == order(self.id@, other.id@),
    {
        compare(&self.id, &other.id)
    }
}

/// One element of the set of suggestions as done by the geocoding service.
///
/// Probably only the best result is relevant for our search.
#[derive(Debug, Clone)]
pub struct SuggestDoc {
    pub id: String,
    pub result_type: String,
    pub weergavenaam: String,
    /// The score that the service gave to the match, as the JSON number that it sent.
    pub score: Number,
}

} // verus!
