//! The Basisregistratie Kadaster (BRK) service by PDOK.
//! Used to lookup lots.
//!
//! See [the service documentation](https://www.pdok.nl/introductie/-/article/basisregistratie-kadaster-brk-)
//! for more information on its capabilities.

use vstd::prelude::*;
use std::cmp::Ordering;
use geojson::Geometry;
use serde_json::Number;
use crate::order::{compare, order};
use crate::text::owned;
use crate::trusted::{parse_with_params, text_of, url_with_params};
pub use crate::CoordinateSpace;
use crate::{
    get_if, get_request, pairs, request_of, ClientBuilder, ClientConfig, ClientConfigView, Error,
    Fetched, Request,
};

verus! {

/// Where the service answers.
pub const BRK_URL: &'static str = "https://service.pdok.nl/kadaster/kadastralekaart/wfs/v5_0";

/// The filter that selects one lot, up to the section.
pub const FILTER_SECTIE: &'static str =
    "\n<Filter>\n  <And>\n    <And>\n      <PropertyIsEqualTo>\n        <PropertyName>sectie</PropertyName>\n        <Literal>";

/// The filter from the section to the number of the lot.
pub const FILTER_PERCEELNUMMER: &'static str =
    "</Literal>\n      </PropertyIsEqualTo>\n      <PropertyIsEqualTo>\n        <PropertyName>perceelnummer</PropertyName>\n        <Literal>";

/// The filter from the number of the lot to the code of the municipality.
pub const FILTER_GEMEENTECODE: &'static str =
    "</Literal>\n      </PropertyIsEqualTo>\n    </And>\n    <PropertyIsEqualTo>\n      <PropertyName>AKRKadastraleGemeenteCodeWaarde</PropertyName>\n      <Literal>";

/// The end of the filter.
pub const FILTER_END: &'static str = "</Literal>\n    </PropertyIsEqualTo>\n  </And>\n</Filter>";

/// A client of the BRK, with the settings that its requests are sent with.
#[derive(Debug)]
pub struct BrkClient {
    config: ClientConfig,
}

impl View for BrkClient {
    type V = ClientConfigView;

    /// The settings that the client was built with.
    closed spec fn view(&self) -> ClientConfigView {
        self.config@
    }
}

impl BrkClient {
    /// The settings that the client was built with.
    pub fn config(&self) -> (config: &ClientConfig)
        ensures
            config@ == self@,
    {
        &self.config
    }
}

pub struct BrkClientBuilder<'a> {
    accept_crs: CoordinateSpace,
    connection_timeout_secs: u64,
    request_timeout_secs: u64,
    user_agent: &'a str,
}

/// The settings of a `BrkClientBuilder`, with its texts as sequences of characters.
pub struct BrkClientBuilderView {
    pub accept_crs: CoordinateSpace,
    pub connection_timeout_secs: u64,
    pub request_timeout_secs: u64,
    pub user_agent: Seq<char>,
}

impl<'a> View for BrkClientBuilder<'a> {
    type V = BrkClientBuilderView;

    closed spec fn view(&self) -> BrkClientBuilderView {
        BrkClientBuilderView {
            accept_crs: self.accept_crs,
            connection_timeout_secs: self.connection_timeout_secs,
            request_timeout_secs: self.request_timeout_secs,
            user_agent: self.user_agent@,
        }
    }
}

impl BrkClientBuilderView {
    /// The configuration of the client that is built from these settings.
    pub open spec fn config(self) -> ClientConfigView {
        ClientConfigView {
            user_agent: self.user_agent,
            default_headers: seq![
                ("Accept-Crs"@, self.accept_crs.code()),
                ("transfer-encoding"@, "chunked"@),
            ],
            connection_timeout_secs: self.connection_timeout_secs,
            request_timeout_secs: self.request_timeout_secs,
        }
    }
}

impl<'a> BrkClientBuilder<'a> {
    pub fn new(user_agent: &'a str) -> (builder: Self)
        ensures
            builder@ == (BrkClientBuilderView {
                accept_crs: CoordinateSpace::Rijksdriehoek,
                connection_timeout_secs: 5,
                request_timeout_secs: 20,
                user_agent: user_agent@,
            }),
    {
        Self {
            user_agent,
            accept_crs: CoordinateSpace::Rijksdriehoek,
            connection_timeout_secs: 5,
            request_timeout_secs: 20,
        }
    }

    pub fn accept_crs(&mut self, accept_crs: CoordinateSpace) -> (builder: &mut Self)
        ensures
            builder@ == (BrkClientBuilderView { accept_crs, ..old(self)@ }),
            *final(self) == *final(builder),
    {
        self.accept_crs = accept_crs;
        self
    }
}

impl<'a> ClientBuilder<'a> for BrkClientBuilder<'a> {
    type OutputType = BrkClient;

    fn connection_timeout_secs(&mut self, connection_timeout_secs: u64) -> (builder: &mut Self)
        ensures
            builder@ == (BrkClientBuilderView { connection_timeout_secs, ..old(self)@ }),
            *final(self) == *final(builder),
    {
        self.connection_timeout_secs = connection_timeout_secs;
        self
    }

    fn request_timeout_secs(&mut self, request_timeout_secs: u64) -> (builder: &mut Self)
        ensures
            builder@ == (BrkClientBuilderView { request_timeout_secs, ..old(self)@ }),
            *final(self) == *final(builder),
    {
        self.request_timeout_secs = request_timeout_secs;
        self
    }

    fn build(&self) -> (client: BrkClient)
        ensures
            client@ == self@.config(),
    {
        let mut headers: Vec<(String, String)> = Vec::new();
        // Gewenste coördinatenstelsel (CRS) van de coördinaten in de response.
        headers.push((owned("Accept-Crs"), owned(self.accept_crs.as_str())));
        headers.push((owned("transfer-encoding"), owned("chunked")));
        let config = ClientConfig {
            user_agent: owned(self.user_agent),
            default_headers: headers,
            connection_timeout_secs: self.connection_timeout_secs,
            request_timeout_secs: self.request_timeout_secs,
        };
        assert(pairs(config.default_headers@) =~= self@.config().default_headers);
        BrkClient { config }
    }
}

/// The filter that selects the lots of one section and number in one
/// municipality: the three conditions, joined by a logical and.
pub open spec fn lot_filter(gemeentecode: Seq<char>, sectie: Seq<char>, perceelnummer: Seq<char>) -> Seq<char> {
    FILTER_SECTIE@ + sectie + FILTER_PERCEELNUMMER@ + perceelnummer + FILTER_GEMEENTECODE@
        + gemeentecode + FILTER_END@
}

/// The parameters of the request for the lots that `filter` selects.
pub open spec fn lot_params(filter: Seq<char>) -> Seq<(Seq<char>, Seq<char>)> {
    seq![
        ("request"@, "GetFeature"@),
        ("service"@, "WFS"@),
        ("version"@, "2.0.0"@),
        ("typenames"@, "kadastralekaartv5:perceel"@),
        ("outputFormat"@, "application/json"@),
        ("filter"@, filter),
    ]
}

impl BrkClient {
    /// The request for a singular lot according to its uid,
    /// which is comprised of gemeentecode, sectie and perceelnummer.
    /// The features of its answer become lots by `BrkClient::lots`.
    /// There is no request where the address of the service does not parse.
    pub fn get_lot(&self, gemeentecode: &str, sectie: &str, perceelnummer: &str) -> (request: Option<Request>)
        ensures
            request_of(request) == get_if(
                url_with_params(BRK_URL@, lot_params(lot_filter(gemeentecode@, sectie@, perceelnummer@))),
            ),
    {
        // Filters lot by gemeentecode, sectie and perceelnummer
        let mut filter = owned(FILTER_SECTIE);
        filter.append(sectie);
        filter.append(FILTER_PERCEELNUMMER);
        filter.append(perceelnummer);
        filter.append(FILTER_GEMEENTECODE);
        filter.append(gemeentecode);
        filter.append(FILTER_END);
        let mut params: Vec<(String, String)> = Vec::new();
        params.push((owned("request"), owned("GetFeature")));
        params.push((owned("service"), owned("WFS")));
        params.push((owned("version"), owned("2.0.0")));
        params.push((owned("typenames"), owned("kadastralekaartv5:perceel")));
        params.push((owned("outputFormat"), owned("application/json")));
        params.push((owned("filter"), filter));
        assert(pairs(params@) =~= lot_params(lot_filter(gemeentecode@, sectie@, perceelnummer@)));
        get_request(parse_with_params(BRK_URL, &params))
    }

    ///
    /// The request that tells whether the API is up: it looks up the TG office.
    ///
    pub fn get_brk_status(&self) -> (request: Option<Request>)
        ensures
            request_of(request) == get_if(
                url_with_params(BRK_URL@, lot_params(lot_filter("HTT02"@, "M"@, "5038"@))),
            ),
    {
        self.get_lot("HTT02", "M", "5038")
    }
}

/// The value of a property of a feature, as far as a lot is made of it.
#[derive(Debug)]
pub enum PropertyValue {
    /// A JSON string.
    Text(String),
    /// A JSON number.
    Number(JsonNumber),
    /// Anything else: null, a boolean, an array or an object.
    Other,
}

/// A JSON number, with the whole number that it stands for.
#[derive(Debug)]
pub struct JsonNumber {
    /// The number, where it is a whole number from zero to `u64::MAX`.
    pub unsigned: Option<u64>,
    pub value: Number,
}

/// One feature of the answer of the service: its properties by their
/// names, each name once, and its geometry.
#[derive(Debug)]
pub struct Feature {
    pub properties: Option<Vec<(String, PropertyValue)>>,
    pub geometry: Option<Geometry>,
}

/// A singular lot along with its geometry and size.
#[derive(Debug, Clone)]
pub struct Lot {
    pub id: String,
    pub gemeentenaam: Option<String>,
    pub kadastralegemeentecode: Option<String>,
    pub grootte: Option<Number>,
    pub sectie: Option<String>,
    pub perceelnummer: Option<u64>,
    pub geometry: Geometry,
}

/// A `Lot` with its texts as sequences of characters.
pub struct LotView {
    pub id: Seq<char>,
    pub gemeentenaam: Option<Seq<char>>,
    pub kadastralegemeentecode: Option<Seq<char>>,
    pub grootte: Option<Number>,
    pub sectie: Option<Seq<char>>,
    pub perceelnummer: Option<u64>,
    pub geometry: Geometry,
}

impl View for Lot {
    type V = LotView;

    open spec fn view(&self) -> LotView {
        LotView {
            id: self.id@,
            gemeentenaam: text_of(self.gemeentenaam),
            kadastralegemeentecode: text_of(self.kadastralegemeentecode),
            grootte: self.grootte,
            sectie: text_of(self.sectie),
            perceelnummer: self.perceelnummer,
            geometry: self.geometry,
        }
    }
}

/// The views of `lots`.
pub open spec fn lot_views(lots: Seq<Lot>) -> Seq<LotView> {
    lots.map_values(|lot: Lot| lot@)
}

/// The place of the first property of `properties` that has the name
/// `name`, at or behind `from`; `None` where there is none.
pub open spec fn place_of(properties: Seq<(String, PropertyValue)>, name: Seq<char>, from: int) -> Option<int>
    decreases properties.len() - from,
{
    if from < 0 || from >= properties.len() {
        None
    } else if properties[from].0@ == name {
        Some(from)
    } else {
        place_of(properties, name, from + 1)
    }
}

/// The value of the property `name` of `properties`, if it has one.
pub open spec fn property_of(properties: Seq<(String, PropertyValue)>, name: Seq<char>) -> Option<PropertyValue> {
    match place_of(properties, name, 0) {
        Some(place) => Some(properties[place].1),
        None => None,
    }
}

/// The text of a property, where the property is there and is a string.
pub open spec fn text_in(property: Option<PropertyValue>) -> Option<Seq<char>> {
    match property {
        Some(PropertyValue::Text(text)) => Some(text@),
        _ => None,
    }
}

/// The whole number of a property, where the property is there and is a
/// number that stands for one.
pub open spec fn unsigned_in(property: Option<PropertyValue>) -> Option<u64> {
    match property {
        Some(PropertyValue::Number(number)) => number.unsigned,
        _ => None,
    }
}

/// The number of a property, where the property is a number.
pub open spec fn number_in(property: PropertyValue) -> Option<Number> {
    match property {
        PropertyValue::Number(number) => Some(number.value),
        _ => None,
    }
}

/// The lot that `feature` describes. There is none where the feature lacks
/// its identification, the name or the code of its municipality, its
/// section or its number; where one of these does not have the type of its
/// field; where the feature has no size at all; or where it has no geometry.
/// A size that is no number is left out of the lot.
pub open spec fn lot_of(feature: Feature) -> Option<LotView> {
    match (feature.properties, feature.geometry) {
        (Some(list), Some(geometry)) => {
            let properties = list@;
            let id = text_in(property_of(properties, "identificatieLokaalID"@));
            let gemeentenaam = text_in(property_of(properties, "kadastraleGemeenteWaarde"@));
            let gemeentecode = text_in(property_of(properties, "AKRKadastraleGemeenteCodeWaarde"@));
            let grootte = property_of(properties, "kadastraleGrootteWaarde"@);
            let sectie = text_in(property_of(properties, "sectie"@));
            let perceelnummer = unsigned_in(property_of(properties, "perceelnummer"@));
            if id is Some && gemeentenaam is Some && gemeentecode is Some && grootte is Some
                && sectie is Some && perceelnummer is Some {
                Some(
                    LotView {
                        id: id->0,
                        gemeentenaam,
                        kadastralegemeentecode: gemeentecode,
                        grootte: number_in(grootte->0),
                        sectie,
                        perceelnummer,
                        geometry,
                    },
                )
            } else {
                None
            }
        },
        _ => None,
    }
}

/// The lots that `features` describe, in the order of the features. A
/// feature that describes no lot is passed over.
pub open spec fn lots_of(features: Seq<Feature>) -> Seq<LotView>
    decreases features.len(),
{
    if features.len() == 0 {
        Seq::empty()
    } else {
        match lot_of(features.last()) {
            Some(lot) => lots_of(features.drop_last()).push(lot),
            None => lots_of(features.drop_last()),
        }
    }
}

/// A place in a list, as a mathematical integer.
pub open spec fn place_as_int(place: Option<usize>) -> Option<int> {
    match place {
        Some(at) => Some(at as int),
        None => None,
    }
}

/// Finds the first property that has the name `name`.
pub fn find_property(properties: &Vec<(String, PropertyValue)>, name: &str) -> (place: Option<usize>)
    ensures
        place_of(properties@, name@, 0) == place_as_int(place),
        place matches Some(at) ==> at < properties.len(),
{
    let wanted = owned(name);
    let mut i: usize = 0;
    while i < properties.len()
        invariant
            i <= properties.len(),
            wanted@ == name@,
            place_of(properties@, name@, 0) == place_of(properties@, name@, i as int),
        decreases properties.len() - i,
    {
        if properties[i].0 == wanted {
            return Some(i);
        }
        i += 1;
    }
    None
}

/// The text of the property `name`, where it is there and is a string.
fn text_property(properties: &Vec<(String, PropertyValue)>, name: &str) -> (text: Option<String>)
    ensures
        text_of(text) == text_in(property_of(properties@, name@)),
{
    match find_property(properties, name) {
        Some(place) => match &properties[place].1 {
            PropertyValue::Text(text) => Some(text.clone()),
            _ => None,
        },
        None => None,
    }
}

/// The whole number of the property `name`, where it is there and stands for one.
fn unsigned_property(properties: &Vec<(String, PropertyValue)>, name: &str) -> (number: Option<u64>)
    ensures
        number == unsigned_in(property_of(properties@, name@)),
{
    match find_property(properties, name) {
        Some(place) => match &properties[place].1 {
            PropertyValue::Number(number) => number.unsigned,
            _ => None,
        },
        None => None,
    }
}

/// Makes the lot that `feature` describes, if it describes one.
pub fn lot_from(feature: &Feature) -> (lot: Option<Lot>)
    ensures
        match lot_of(*feature) {
            Some(view) => lot matches Some(made) && made@ == view,
            None => lot is None,
        },
{
    let properties = feature.properties.as_ref()?;
    let id = text_property(properties, "identificatieLokaalID")?;
    let gemeentenaam = text_property(properties, "kadastraleGemeenteWaarde")?;
    let gemeentecode = text_property(properties, "AKRKadastraleGemeenteCodeWaarde")?;
    let place = find_property(properties, "kadastraleGrootteWaarde")?;
    let grootte = match &properties[place].1 {
        PropertyValue::Number(number) => Some(number.value.clone()),
        _ => None,
    };
    let sectie = text_property(properties, "sectie")?;
    let perceelnummer = unsigned_property(properties, "perceelnummer")?;
    let geometry = feature.geometry.as_ref()?.clone();
    Some(
        Lot {
            id,
            gemeentenaam: Some(gemeentenaam),
            kadastralegemeentecode: Some(gemeentecode),
            grootte,
            sectie: Some(sectie),
            perceelnummer: Some(perceelnummer),
            geometry,
        },
    )
}

impl BrkClient {
    /// The lots that the features of an answer describe, in the order of
    /// the features. An answer without any lot is an error.
    pub fn lots_from_features<E>(features: &Vec<Feature>) -> (lots: Result<Vec<Lot>, Error<E>>)
        ensures
            lots_of(features@).len() == 0 ==> (lots matches Err(Error::EmptyResponse)),
            lots_of(features@).len() > 0 ==> (lots matches Ok(made) && lot_views(made@) == lots_of(
                features@,
            )),
    {
        let mut lots: Vec<Lot> = Vec::new();
        let mut i: usize = 0;
        assert(lot_views(lots@) =~= Seq::empty());
        assert(features@.take(0) =~= Seq::empty());
        while i < features.len()
            invariant
                i <= features.len(),
                lot_views(lots@) == lots_of(features@.take(i as int)),
            decreases features.len() - i,
        {
            let ghost before = features@.take(i as int);
            let ghost after = features@.take(i + 1);
            let ghost done = lots@;
            proof {
                assert(after.drop_last() =~= before);
                assert(after.last() == features@[i as int]);
            }
            match lot_from(&features[i]) {
                Some(lot) => {
                    lots.push(lot);
                    assert(lot_views(lots@) =~= lot_views(done).push(lot@));
                },
                None => {},
            }
            i += 1;
        }
        proof {
            assert(features@.take(i as int) =~= features@);
        }
        if lots.is_empty() {
            Err(Error::EmptyResponse)
        } else {
            Ok(lots)
        }
    }

    /// What `get_lot` comes to, given the answer to its request: the lots of
    /// its features, or the error of the step that failed.
    pub fn lots<E>(answer: Fetched<Vec<Feature>, E>) -> (lots: Result<Vec<Lot>, Error<E>>)
        ensures
            match answer {
                Fetched::Unreachable(error) => lots == Err::<Vec<Lot>, Error<E>>(Error::NetworkProblem(error)),
                Fetched::Undecodable(error) => lots == Err::<Vec<Lot>, Error<E>>(Error::JsonProblem(error)),
                Fetched::Decoded(features) => {
                    if lots_of(features@).len() == 0 {
                        lots matches Err(Error::EmptyResponse)
                    } else {
                        lots matches Ok(made) && lot_views(made@) == lots_of(features@)
                    }
                },
            },
    {
        match answer {
            Fetched::Unreachable(error) => Err(Error::NetworkProblem(error)),
            Fetched::Undecodable(error) => Err(Error::JsonProblem(error)),
            Fetched::Decoded(features) => Self::lots_from_features(&features),
        }
    }
}

impl PartialEq for Lot {
    /// Two lots are the same lot when their identifications are equal.
    fn eq(&self, other: &Self) -> (same: bool) {
        self.id == other.id
    }
}

impl Eq for Lot {

}

impl vstd::std_specs::cmp::PartialEqSpecImpl for Lot {
    open spec fn obeys_eq_spec() -> bool {
        true
    }

    open spec fn eq_spec(&self, other: &Self) -> bool {
        self.id@ == other.id@
    }
}

impl PartialOrd for Lot {
    fn partial_cmp(&self, other: &Self) -> (o: Option<Ordering>) {
        Some(compare(&self.id, &other.id))
    }
}

impl vstd::std_specs::cmp::PartialOrdSpecImpl for Lot {
    open spec fn obeys_partial_cmp_spec() -> bool {
        true
    }

    open spec fn partial_cmp_spec(&self, other: &Self) -> Option<Ordering> {
        Some(order(self.id@, other.id@))
    }
}

impl Lot {
    /// Lots are ordered by their identifications alone.
    pub fn cmp(&self, other: &Self) -> (o: Ordering)
        ensures
            o == order(self.id@, other.id@),
    {
        compare(&self.id, &other.id)
    }
}

} // verus!
