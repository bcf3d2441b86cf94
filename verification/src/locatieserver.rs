//! The geocoding service by PDOK at its former address, where a suggestion
//! is asked for by POST.

use vstd::prelude::*;
use serde_json::Number;
use crate::lookup::{lot_params, suggest_query, write_id_params, write_lot_params, write_suggest_query};
use crate::text::{concat2, owned};
use crate::trusted::{parse_with_params, url_with_params};
use crate::{get_if, get_request, pairs, request_of, Method, Request, RequestView};

verus! {

/// Where the service answered.
pub const GEODATA_NATIONAALGEOREGISTER_NL: &'static str = "https://geodata.nationaalgeoregister.nl";

/// The location of the TG office.
pub const TG_OFFICE: &'static str = "adr-5826c02550308f6da19e4feb5eb97ec8";

/// A specific location that was looked up.
/// Contains references to the lot, building and address.
#[derive(Debug, Clone)]
pub struct LookupDoc {
    pub id: String,
    pub gekoppeld_perceel: Vec<String>,
    pub nummeraanduiding_id: String,
    pub adresseerbaarobject_id: String,
    pub postcode: String,
    pub huis_nlt: String,
    pub straatnaam: String,
    pub woonplaatsnaam: String,
}

/// The request for a Geocoding lookup based on postal code and housenumber.
/// Its answer is a list of possible matches.
pub fn suggest_concrete(postcode: &str, huisnummer: &str) -> (request: Request)
    ensures
        request@ == (RequestView {
            method: Method::Post,
            url: GEODATA_NATIONAALGEOREGISTER_NL@ + "/locatieserver/v3/suggest"@,
            query: Seq::empty(),
            headers: Seq::empty(),
            json: seq![("query"@, suggest_query(postcode@, huisnummer@))],
        }),
{
    let mut json: Vec<(String, String)> = Vec::new();
    json.push((owned("query"), write_suggest_query(postcode, huisnummer)));
    let request = Request {
        method: Method::Post,
        url: concat2(GEODATA_NATIONAALGEOREGISTER_NL, "/locatieserver/v3/suggest"),
        query: Vec::new(),
        headers: Vec::new(),
        json,
    };
    assert(pairs(request.json@) =~= seq![("query"@, suggest_query(postcode@, huisnummer@))]);
    assert(pairs(request.headers@) =~= Seq::empty());
    assert(pairs(request.query@) =~= Seq::empty());
    request
}

/// The request that looks up a specific location id.
///
/// There is no request where the address of the service does not parse.
pub fn lookup(id: &str) -> (request: Option<Request>)
    ensures
        request_of(request) == get_if(
            url_with_params(
                GEODATA_NATIONAALGEOREGISTER_NL@ + "/locatieserver/v3/lookup"@,
                seq![("id"@, id@)],
            ),
        ),
{
    let url = concat2(GEODATA_NATIONAALGEOREGISTER_NL, "/locatieserver/v3/lookup");
    let params = write_id_params(id);
    get_request(parse_with_params(url.as_str(), &params))
}

/// The request for suggestions on addresses related to a lot.
/// Its answer is a list of possible matches.
///
/// There is no request where the address of the service does not parse.
pub fn suggest_addresses_for_lot(lot_code: &str, lot_letter: &str, lot_number: &str) -> (request: Option<Request>)
    ensures
        request_of(request) == get_if(
            url_with_params(
                GEODATA_NATIONAALGEOREGISTER_NL@ + "/locatieserver/v3/free"@,
                lot_params(lot_code@, lot_letter@, lot_number@),
            ),
        ),
{
    let url = concat2(GEODATA_NATIONAALGEOREGISTER_NL, "/locatieserver/v3/free");
    // Example: https://geodata.nationaalgeoregister.nl/locatieserver/v3/free?q=gekoppeld_perceel:HTT02-M-5763
    let params = write_lot_params(lot_code, lot_letter, lot_number);
    get_request(parse_with_params(url.as_str(), &params))
}

/// The request that tells whether the API is up: it looks up our office.
pub fn lookup_tg_office() -> (request: Option<Request>)
    ensures
        request_of(request) == get_if(
            url_with_params(
                GEODATA_NATIONAALGEOREGISTER_NL@ + "/locatieserver/v3/lookup"@,
                seq![("id"@, TG_OFFICE@)],
            ),
        ),
{
    lookup(TG_OFFICE)
}

/// One element of the set of suggestions as done by the geocoding service.
///
/// Probably only the best result is relevant for our search.
#[derive(Debug, Clone)]
pub struct SuggestDoc {
    pub id: String,
    pub result_type: String,
    pub weergavenaam: String,
    /// The score that the service gave to the match, as the JSON number that it sent.
    pub score: Number,
}

} // verus!
