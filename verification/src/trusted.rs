//! What this crate takes on trust from the crates that it is built on:
//! the values of `geojson` and `serde_json` that its records carry, and the
//! address of a request as the `url` crate writes it. Nothing here is
//! proved; every contract states what the crate in question does.

use vstd::prelude::*;
use crate::pairs;

verus! {

/// A GeoJSON geometry, as the `geojson` crate holds it. The records of this
/// crate carry it from the registry to the caller and do not look into it.
#[verifier::external_type_specification]
#[verifier::external_body]
pub struct ExGeometry(geojson::Geometry);

/// A JSON number, as the `serde_json` crate holds it. A lot carries the
/// number of its size from the service to the caller.
#[verifier::external_type_specification]
#[verifier::external_body]
pub struct ExNumber(serde_json::Number);

/// `Clone` of `geojson::Geometry`, which the crate derives: the copy is
/// equal to the geometry that it was made of.
pub assume_specification[ <geojson::Geometry as Clone>::clone ](geometry: &geojson::Geometry) -> (copy: geojson::Geometry)
    ensures
        copy == *geometry,
;

/// `Clone` of `serde_json::Number`, which the crate derives: the copy is
/// equal to the number that it was made of.
pub assume_specification[ <serde_json::Number as Clone>::clone ](number: &serde_json::Number) -> (copy: serde_json::Number)
    ensures
        copy == *number,
;

/// The text of the URL that `url::Url::parse_with_params` makes of `base`
/// and `params`: `base` in its normal form, with each pair of `params`
/// appended to its query string in the `application/x-www-form-urlencoded`
/// encoding. `None` where `base` is not an absolute URL.
pub uninterp spec fn url_with_params(base: Seq<char>, params: Seq<(Seq<char>, Seq<char>)>) -> Option<Seq<char>>;

/// The view of an optional text.
pub open spec fn text_of(text: Option<String>) -> Option<Seq<char>> {
    match text {
        Some(t) => Some(t@),
        None => None,
    }
}

/// Calls `url::Url::parse_with_params` and hands back the text of the URL,
/// or `None` where `base` does not parse. The URL depends on `base` and
/// `params` alone; the contract gives it its name and claims no more.
#[verifier::external_body]
pub(crate) fn parse_with_params(base: &str, params: &Vec<(String, String)>) -> (url: Option<String>)
    ensures
        text_of(url) == url_with_params(base@, pairs(params@)),
{
    match url::Url::parse_with_params(base, params.iter()) {
        Ok(url) => Some(String::from(url)),
        Err(_) => None,
    }
}

} // verus!
