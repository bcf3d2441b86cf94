//! The buildings and addresses registry (BAG) of the Kadaster.
//! Used to find the buildings that an addressable object is part of.

use vstd::prelude::*;
use std::cmp::Ordering;
use geojson::Geometry;
use crate::order::{compare, order};
use crate::text::{concat2, decimal, i64_to_string, join, joined, owned, views};
use crate::{pairs, ClientBuilder, ClientConfig, ClientConfigView, Error, Fetched, Method, Request, RequestView};

verus! {

/// Where the registry answers.
pub const BAG_URL: &'static str = "https://api.bag.kadaster.nl/lvbag/individuelebevragingen/v2";

/// The addressable object of the Tweede Golf office: it is part of exactly one building.
pub const OFFICE_OBJECT: &'static str = "0268010000084126";

/// Coordinate space that the BAG returns
/// (currently only Rijksdriehoek is supported)
#[derive(Copy, Clone, Debug, PartialEq, Eq, Structural)]
pub enum BagCoordinateSpace {
    Rijksdriehoek,
}

impl BagCoordinateSpace {
    /// The identifier of the coordinate space, as the `Accept-Crs` header carries it.
    pub open spec fn code(&self) -> Seq<char> {
        match self {
            // see https://epsg.io/28992
            BagCoordinateSpace::Rijksdriehoek => "epsg:28992"@,
        }
    }

    pub fn as_str(&self) -> (code: &'static str)
        ensures
            code@ == self.code(),
    {
        match self {
            BagCoordinateSpace::Rijksdriehoek => "epsg:28992",
        }
    }
}

/// A client of the BAG, with the settings that its requests are sent with.
#[derive(Debug)]
pub struct BagClient {
    config: ClientConfig,
}

impl View for BagClient {
    type V = ClientConfigView;

    /// The settings that the client was built with.
    closed spec fn view(&self) -> ClientConfigView {
        self.config@
    }
}

impl BagClient {
    /// The settings that the client was built with.
    pub fn config(&self) -> (config: &ClientConfig)
        ensures
            config@ == self@,
    {
        &self.config
    }
}

pub struct BagClientBuilder<'a> {
    accept_crs: BagCoordinateSpace,
    connection_timeout_secs: u64,
    request_timeout_secs: u64,
    user_agent: &'a str,
    api_key: &'a str,
}

/// The settings of a `BagClientBuilder`, with its texts as sequences of characters.
pub struct BagClientBuilderView {
    pub accept_crs: BagCoordinateSpace,
    pub connection_timeout_secs: u64,
    pub request_timeout_secs: u64,
    pub user_agent: Seq<char>,
    pub api_key: Seq<char>,
}

impl<'a> View for BagClientBuilder<'a> {
    type V = BagClientBuilderView;

    closed spec fn view(&self) -> BagClientBuilderView {
        BagClientBuilderView {
            accept_crs: self.accept_crs,
            connection_timeout_secs: self.connection_timeout_secs,
            request_timeout_secs: self.request_timeout_secs,
            user_agent: self.user_agent@,
            api_key: self.api_key@,
        }
    }
}

impl BagClientBuilderView {
    /// The configuration of the client that is built from these settings.
    pub open spec fn config(self) -> ClientConfigView {
        ClientConfigView {
            user_agent: self.user_agent,
            default_headers: seq![
                ("X-Api-Key"@, self.api_key),
                ("Accept-Crs"@, self.accept_crs.code()),
                ("transfer-encoding"@, "chunked"@),
            ],
            connection_timeout_secs: self.connection_timeout_secs,
            request_timeout_secs: self.request_timeout_secs,
        }
    }
}

impl<'a> BagClientBuilder<'a> {
    pub fn new(user_agent: &'a str, api_key: &'a str) -> (builder: Self)
        ensures
            builder@ == (BagClientBuilderView {
                accept_crs: BagCoordinateSpace::Rijksdriehoek,
                connection_timeout_secs: 5,
                request_timeout_secs: 20,
                user_agent: user_agent@,
                api_key: api_key@,
            }),
    {
        Self {
            user_agent,
            api_key,
            connection_timeout_secs: 5,
            request_timeout_secs: 20,
            accept_crs: BagCoordinateSpace::Rijksdriehoek,
        }
    }

    pub fn accept_crs(&mut self, accept_crs: BagCoordinateSpace) -> (builder: &mut Self)
        ensures
            builder@ == (BagClientBuilderView { accept_crs, ..old(self)@ }),
            *final(self) == *final(builder),
    {
        self.accept_crs = accept_crs;
        self
    }
}

impl<'a> ClientBuilder<'a> for BagClientBuilder<'a> {
    type OutputType = BagClient;

    fn connection_timeout_secs(&mut self, connection_timeout_secs: u64) -> (builder: &mut Self)
        ensures
            builder@ == (BagClientBuilderView { connection_timeout_secs, ..old(self)@ }),
            *final(self) == *final(builder),
    {
        self.connection_timeout_secs = connection_timeout_secs;
        self
    }

    fn request_timeout_secs(&mut self, request_timeout_secs: u64) -> (builder: &mut Self)
        ensures
            builder@ == (BagClientBuilderView { request_timeout_secs, ..old(self)@ }),
            *final(self) == *final(builder),
    {
        self.request_timeout_secs = request_timeout_secs;
        self
    }

    fn build(&self) -> (client: BagClient)
        ensures
            client@ == self@.config(),
    {
        let mut headers: Vec<(String, String)> = Vec::new();
        headers.push((owned("X-Api-Key"), owned(self.api_key)));
        // Gewenste coördinatenstelsel (CRS) van de coördinaten in de response.
        headers.push((owned("Accept-Crs"), owned(self.accept_crs.as_str())));
        headers.push((owned("transfer-encoding"), owned("chunked")));
        let config = ClientConfig {
            user_agent: owned(self.user_agent),
            default_headers: headers,
            connection_timeout_secs: self.connection_timeout_secs,
            request_timeout_secs: self.request_timeout_secs,
        };
        assert(pairs(config.default_headers@) =~= self@.config().default_headers);
        BagClient { config }
    }
}

/// The request for the addressable object `object_id`.
pub open spec fn panden_request(object_id: Seq<char>) -> RequestView {
    RequestView {
        method: Method::Get,
        url: BAG_URL@ + "/verblijfsobjecten/"@ + object_id,
        query: Seq::empty(),
        headers: seq![("Accept-Crs"@, "epsg:28992"@)],
        json: Seq::empty(),
    }
}

impl BagClient {
    ///
    /// The request that asks for the addressable object `object_id`, with the
    /// links to the panden that it is part of. Its answer starts a
    /// `PandenChase`, which collects those panden.
    ///
    pub fn get_panden(&self, object_id: &str) -> (request: Request)
        ensures
            request@ == panden_request(object_id@),
    {
        let mut url = concat2(BAG_URL, "/verblijfsobjecten/");
        url.append(object_id);
        let mut headers: Vec<(String, String)> = Vec::new();
        headers.push((owned("Accept-Crs"), owned("epsg:28992")));
        let request = Request {
            method: Method::Get,
            url,
            query: Vec::new(),
            headers,
            json: Vec::new(),
        };
        assert(pairs(request.headers@) =~= panden_request(object_id@).headers);
        assert(pairs(request.query@) =~= Seq::empty());
        assert(pairs(request.json@) =~= Seq::empty());
        request
    }

    ///
    /// The request that tells whether the BAG is up: it asks for the panden
    /// of an object that is known to be part of exactly one.
    ///
    pub fn get_bag_status(&self) -> (request: Request)
        ensures
            request@ == panden_request(OFFICE_OBJECT@),
    {
        self.get_panden(OFFICE_OBJECT)
    }

    ///
    /// What the panden of the office object say of the BAG: it is up when
    /// exactly one pand came back.
    ///
    pub fn bag_status(panden: &Vec<Pand>) -> (up: bool)
        ensures
            up == (panden.len() == 1),
    {
        panden.len() == 1
    }
}

#[derive(Debug)]
pub struct BagRequest {
    query: String,
}

#[derive(Debug)]
pub struct BagResponse {
    data: String,
}

/// A link to another record of the registry.
#[derive(Debug)]
pub struct Link {
    pub href: String,
}

/// The links of an addressable object.
#[derive(Debug)]
pub struct Links {
    /// The panden that the object is part of, in the order of the registry.
    pub maakt_deel_uit_van: Vec<Link>,
}

/// An addressable object: a usable space within one or more panden.
#[derive(Debug)]
pub struct VerblijfsObject {
    pub status: String,
    /// The floor area, in whole square metres.
    pub oppervlakte: i64,
    pub gebruiksdoelen: Vec<String>,
}

/// The answer of the registry to the request for an addressable object.
#[derive(Debug)]
pub struct VerblijfsObjectResponse {
    pub verblijfsobject: VerblijfsObject,
    pub links: Links,
}

/// The answer of the registry to the request for a pand.
#[derive(Debug)]
pub struct Building {
    pub pand: BuildingEmbedded,
}

#[derive(Debug)]
pub struct BuildingEmbedded {
    pub identificatie: String,
    pub geometry: Geometry,
    pub bouwjaar: String,
    pub pandstatus: String,
}

/// One pand of an addressable object: the building as the registry holds it,
/// with what the object says of itself.
#[derive(Debug, Clone)]
pub struct Pand {
    pub identificatiecode: String,
    /// The area of the footprint, rounded to whole square metres.
    pub pandvlak: String,
    pub vloeroppervlak: String,
    pub bouwjaar: String,
    pub pandstatus: String,
    pub objectstatus: String,
    pub gebruiksdoel: String,
    pub geometry: Geometry,
}

/// A `Pand` with its texts as sequences of characters.
pub struct PandView {
    pub identificatiecode: Seq<char>,
    pub pandvlak: Seq<char>,
    pub vloeroppervlak: Seq<char>,
    pub bouwjaar: Seq<char>,
    pub pandstatus: Seq<char>,
    pub objectstatus: Seq<char>,
    pub gebruiksdoel: Seq<char>,
    pub geometry: Geometry,
}

impl View for Pand {
    type V = PandView;

    open spec fn view(&self) -> PandView {
        PandView {
            identificatiecode: self.identificatiecode@,
            pandvlak: self.pandvlak@,
            vloeroppervlak: self.vloeroppervlak@,
            bouwjaar: self.bouwjaar@,
            pandstatus: self.pandstatus@,
            objectstatus: self.objectstatus@,
            gebruiksdoel: self.gebruiksdoel@,
            geometry: self.geometry,
        }
    }
}

impl PartialEq for Pand {
    /// Two panden are the same pand when their identification codes are equal.
    fn eq(&self, other: &Self) -> (same: bool) {
        self.identificatiecode == other.identificatiecode
    }
}

impl Eq for Pand {

}

impl vstd::std_specs::cmp::PartialEqSpecImpl for Pand {
    open spec fn obeys_eq_spec() -> bool {
        true
    }

    open spec fn eq_spec(&self, other: &Self) -> bool {
        self.identificatiecode@ == other.identificatiecode@
    }
}

impl PartialOrd for Pand {
    fn partial_cmp(&self, other: &Self) -> (o: Option<Ordering>) {
        Some(compare(&self.identificatiecode, &other.identificatiecode))
    }
}

impl vstd::std_specs::cmp::PartialOrdSpecImpl for Pand {
    open spec fn obeys_partial_cmp_spec() -> bool {
        true
    }

    open spec fn partial_cmp_spec(&self, other: &Self) -> Option<Ordering> {
        Some(order(self.identificatiecode@, other.identificatiecode@))
    }
}

impl Pand {
    /// Panden are ordered by their identification codes alone.
    pub fn cmp(&self, other: &Self) -> (o: Ordering)
        ensures
            o == order(self.identificatiecode@, other.identificatiecode@),
    {
        compare(&self.identificatiecode, &other.identificatiecode)
    }
}

/// What an addressable object says of itself, and so of each of its panden.
pub struct Shared {
    pub objectstatus: Seq<char>,
    pub vloeroppervlak: Seq<char>,
    pub gebruiksdoel: Seq<char>,
}

/// What `object` hands on to its panden: its status, its floor area in
/// decimal, and its purposes joined by a comma and a space.
pub open spec fn shared_by(object: VerblijfsObject) -> Shared {
    Shared {
        objectstatus: object.status@,
        vloeroppervlak: decimal(object.oppervlakte as int),
        gebruiksdoel: joined(views(object.gebruiksdoelen@), ", "@),
    }
}

/// The pand that is made of `building`, of the area `pandvlak` of its
/// footprint, and of what its object shares.
pub open spec fn pand_of(shared: Shared, building: Building, pandvlak: Seq<char>) -> PandView {
    PandView {
        identificatiecode: building.pand.identificatie@,
        pandvlak,
        vloeroppervlak: shared.vloeroppervlak,
        bouwjaar: building.pand.bouwjaar@,
        pandstatus: building.pand.pandstatus@,
        objectstatus: shared.objectstatus,
        gebruiksdoel: shared.gebruiksdoel,
        geometry: building.pand.geometry,
    }
}

/// The addresses that `links` point to.
pub open spec fn hrefs(links: Seq<Link>) -> Seq<Seq<char>> {
    links.map_values(|link: Link| link.href@)
}

/// The views of `panden`.
pub open spec fn pand_views(panden: Seq<Pand>) -> Seq<PandView> {
    panden.map_values(|pand: Pand| pand@)
}

/// What came of following one link of an addressable object.
#[derive(Debug)]
pub enum LinkAnswer<E> {
    /// The request could not be sent, or no answer was received.
    Unreachable(E),
    /// An answer was received, but it does not have the shape of a `Building`.
    Undecodable(E),
    /// The building was received, but a position of its geometry has neither
    /// two nor three coordinates.
    Malformed,
    /// The building, and the area of its footprint rounded to whole square
    /// metres.
    Measured(Building, String),
}

/// The collecting of the panden of one addressable object, between two
/// requests: the links of the object are followed one at a time, in the
/// order of the registry, and each answer adds one pand.
#[derive(Debug)]
pub struct PandenChase {
    objectstatus: String,
    vloeroppervlak: String,
    gebruiksdoel: String,
    links: Vec<Link>,
    panden: Vec<Pand>,
}

/// A `PandenChase` as contracts speak of it.
pub struct ChaseView {
    pub shared: Shared,
    /// The addresses of all the links of the object.
    pub links: Seq<Seq<char>>,
    /// The panden of the links that were followed so far.
    pub panden: Seq<PandView>,
}

/// Where a chase stands after an answer.
#[derive(Debug)]
pub enum ChaseStep<E> {
    /// The building at `next_link` is to be fetched, and its answer handed to `advance`.
    Follow(PandenChase),
    /// The chase is over.
    Finished(Result<Vec<Pand>, Error<E>>),
}

/// A `ChaseStep` as contracts speak of it.
pub enum StepView<E> {
    Follow(ChaseView),
    Finished(Result<Seq<PandView>, Error<E>>),
}

impl View for PandenChase {
    type V = ChaseView;

    closed spec fn view(&self) -> ChaseView {
        ChaseView {
            shared: Shared {
                objectstatus: self.objectstatus@,
                vloeroppervlak: self.vloeroppervlak@,
                gebruiksdoel: self.gebruiksdoel@,
            },
            links: hrefs(self.links@),
            panden: pand_views(self.panden@),
        }
    }
}

impl<E> View for ChaseStep<E> {
    type V = StepView<E>;

    open spec fn view(&self) -> StepView<E> {
        match self {
            ChaseStep::Follow(chase) => StepView::Follow(chase@),
            ChaseStep::Finished(Ok(panden)) => StepView::Finished(Ok(pand_views(panden@))),
            ChaseStep::Finished(Err(error)) => StepView::Finished(Err(*error)),
        }
    }
}

/// Where a chase stands after the answer `root` to the request for its
/// object. An object that cannot be reached has no panden; an answer that
/// cannot be decoded ends the chase with that error. Else the first link is
/// followed, if there is one.
pub open spec fn began<E>(root: Fetched<VerblijfsObjectResponse, E>) -> StepView<E> {
    match root {
        Fetched::Unreachable(_) => StepView::Finished(Ok(Seq::empty())),
        Fetched::Undecodable(error) => StepView::Finished(Err(Error::JsonProblem(error))),
        Fetched::Decoded(response) => {
            if response.links.maakt_deel_uit_van.len() == 0 {
                StepView::Finished(Ok(Seq::empty()))
            } else {
                StepView::Follow(
                    ChaseView {
                        shared: shared_by(response.verblijfsobject),
                        links: hrefs(response.links.maakt_deel_uit_van@),
                        panden: Seq::empty(),
                    },
                )
            }
        },
    }
}

/// Where `chase` stands after the answer `answer` to the request for its
/// next link. A building adds its pand behind those that are there, and the
/// chase is over when every link was followed. Any failure ends the chase
/// with its error, and the panden that were collected are dropped.
pub open spec fn advanced<E>(chase: ChaseView, answer: LinkAnswer<E>) -> StepView<E> {
    match answer {
        LinkAnswer::Unreachable(error) => StepView::Finished(Err(Error::NetworkProblem(error))),
        LinkAnswer::Undecodable(error) => StepView::Finished(Err(Error::JsonProblem(error))),
        LinkAnswer::Malformed => StepView::Finished(Err(Error::MalformedGeometry)),
        LinkAnswer::Measured(building, pandvlak) => {
            let panden = chase.panden.push(pand_of(chase.shared, building, pandvlak@));
            if panden.len() >= chase.links.len() {
                StepView::Finished(Ok(panden))
            } else {
                StepView::Follow(ChaseView { panden, ..chase })
            }
        },
    }
}

impl PandenChase {
    /// Some link is still to be followed.
    #[verifier::type_invariant]
    spec fn open_ended(&self) -> bool {
        self.panden.len() < self.links.len()
    }

    /// Starts the chase with the answer to `BagClient::get_panden`.
    pub fn begin<E>(root: Fetched<VerblijfsObjectResponse, E>) -> (step: ChaseStep<E>)
        ensures
            step@ == began(root),
            step matches ChaseStep::Follow(chase) ==> chase@.panden.len() < chase@.links.len(),
    {
        match root {
            Fetched::Unreachable(_) => {
                let panden: Vec<Pand> = Vec::new();
                assert(pand_views(panden@) =~= Seq::empty());
                ChaseStep::Finished(Ok(panden))
            },
            Fetched::Undecodable(error) => ChaseStep::Finished(Err(Error::JsonProblem(error))),
            Fetched::Decoded(response) => {
                let VerblijfsObjectResponse { verblijfsobject, links } = response;
                let panden: Vec<Pand> = Vec::with_capacity(links.maakt_deel_uit_van.len());
                assert(pand_views(panden@) =~= Seq::empty());
                if links.maakt_deel_uit_van.len() == 0 {
                    ChaseStep::Finished(Ok(panden))
                } else {
                    let vloeroppervlak = i64_to_string(verblijfsobject.oppervlakte);
                    let gebruiksdoel = join(&verblijfsobject.gebruiksdoelen, ", ");
                    ChaseStep::Follow(
                        PandenChase {
                            objectstatus: verblijfsobject.status,
                            vloeroppervlak,
                            gebruiksdoel,
                            links: links.maakt_deel_uit_van,
                            panden,
                        },
                    )
                }
            },
        }
    }

    /// The address of the building that is to be fetched next.
    pub fn next_link(&self) -> (href: &str)
        ensures
            self@.panden.len() < self@.links.len(),
            href@ == self@.links[self@.panden.len() as int],
    {
        proof {
            use_type_invariant(self);
        }
        self.links[self.panden.len()].href.as_str()
    }

    /// Takes the answer to the request for `next_link`.
    pub fn advance<E>(self, answer: LinkAnswer<E>) -> (step: ChaseStep<E>)
        ensures
            step@ == advanced(self@, answer),
            step matches ChaseStep::Follow(chase) ==> chase@.panden.len() < chase@.links.len(),
    {
        proof {
            use_type_invariant(&self);
        }
        match answer {
            LinkAnswer::Unreachable(error) => ChaseStep::Finished(Err(Error::NetworkProblem(error))),
            LinkAnswer::Undecodable(error) => ChaseStep::Finished(Err(Error::JsonProblem(error))),
            LinkAnswer::Malformed => ChaseStep::Finished(Err(Error::MalformedGeometry)),
            LinkAnswer::Measured(building, pandvlak) => {
                let ghost before = self@;
                let PandenChase { objectstatus, vloeroppervlak, gebruiksdoel, links, mut panden } = self;
                let pand = Pand {
                    identificatiecode: building.pand.identificatie,
                    geometry: building.pand.geometry,
                    pandvlak,
                    vloeroppervlak: vloeroppervlak.clone(),
                    bouwjaar: building.pand.bouwjaar,
                    pandstatus: building.pand.pandstatus,
                    objectstatus: objectstatus.clone(),
                    gebruiksdoel: gebruiksdoel.clone(),
                };
                assert(pand@ == pand_of(before.shared, building, pandvlak@));
                panden.push(pand);
                assert(pand_views(panden@) =~= before.panden.push(pand@));
                if panden.len() >= links.len() {
                    ChaseStep::Finished(Ok(panden))
                } else {
                    ChaseStep::Follow(
                        PandenChase { objectstatus, vloeroppervlak, gebruiksdoel, links, panden },
                    )
                }
            },
        }
    }
}

/// Where a chase that stands at `step` stands after the answers `answers`,
/// taken in turn. A chase that is over takes no further answer.
pub open spec fn chased<E>(step: StepView<E>, answers: Seq<LinkAnswer<E>>) -> StepView<E>
    decreases answers.len(),
{
    if answers.len() == 0 {
        step
    } else {
        match chased(step, answers.drop_last()) {
            StepView::Follow(chase) => advanced(chase, answers.last()),
            StepView::Finished(outcome) => StepView::Finished(outcome),
        }
    }
}

/// The answers in which every building of `buildings` arrived, each with the area of its footprint.
pub open spec fn measured<E>(buildings: Seq<(Building, Seq<char>)>, texts: Seq<String>) -> Seq<LinkAnswer<E>>
    recommends
        texts.len() == buildings.len(),
{
    Seq::new(buildings.len(), |i: int| LinkAnswer::Measured(buildings[i].0, texts[i]))
}

/// The panden of `buildings`, in their order, each with what `object` shares.
pub open spec fn panden_of(object: VerblijfsObject, buildings: Seq<(Building, Seq<char>)>) -> Seq<PandView> {
    Seq::new(
        buildings.len(),
        |i: int| pand_of(shared_by(object), buildings[i].0, buildings[i].1),
    )
}

/// The footprint areas of `buildings` are the texts `texts`.
pub open spec fn areas_are(buildings: Seq<(Building, Seq<char>)>, texts: Seq<String>) -> bool {
    &&& texts.len() == buildings.len()
    &&& forall|i: int| 0 <= i < texts.len() ==> (#[trigger] texts[i])@ == buildings[i].1
}

/// While the buildings of the first `k` links arrive, the chase asks for the
/// links in the order of the registry and keeps the panden in that order.
proof fn lemma_chase_prefix<E>(
    response: VerblijfsObjectResponse,
    buildings: Seq<(Building, Seq<char>)>,
    texts: Seq<String>,
    k: int,
)
    requires
        areas_are(buildings, texts),
        0 <= k <= buildings.len() <= response.links.maakt_deel_uit_van.len(),
        response.links.maakt_deel_uit_van.len() > 0,
    ensures
        chased(began::<E>(Fetched::Decoded(response)), measured::<E>(buildings, texts).take(k))
            == if k < response.links.maakt_deel_uit_van.len() {
            StepView::<E>::Follow(
                ChaseView {
                    shared: shared_by(response.verblijfsobject),
                    links: hrefs(response.links.maakt_deel_uit_van@),
                    panden: panden_of(response.verblijfsobject, buildings.take(k)),
                },
            )
        } else {
            StepView::<E>::Finished(Ok(panden_of(response.verblijfsobject, buildings)))
        },
    decreases k,
{
    let start = began::<E>(Fetched::Decoded(response));
    let answers = measured::<E>(buildings, texts);
    let object = response.verblijfsobject;
    if k == 0 {
        assert(answers.take(0).len() == 0);
        assert(panden_of(object, buildings.take(0)) =~= Seq::empty());
    } else {
        lemma_chase_prefix::<E>(response, buildings, texts, k - 1);
        assert(answers.take(k).drop_last() =~= answers.take(k - 1));
        assert(answers.take(k).last() == answers[k - 1]);
        assert(panden_of(object, buildings.take(k - 1)).push(
            pand_of(shared_by(object), buildings[k - 1].0, texts[k - 1]@),
        ) =~= panden_of(object, buildings.take(k)));
        if k == response.links.maakt_deel_uit_van.len() {
            assert(buildings.take(k) =~= buildings);
        }
    }
}

/// The panden of an addressable object come out one for each link, in the
/// order of the links: when the building of every link arrives, the chase
/// asks for link `k` after `k` answers, and it ends with the pand of the
/// building that arrived for link `i` at place `i`. Each pand has the
/// identification of its building, and all of them carry the status, the
/// floor area and the purposes of the one object.
pub proof fn lemma_panden_keep_the_order_of_links<E>(
    response: VerblijfsObjectResponse,
    buildings: Seq<(Building, Seq<char>)>,
    texts: Seq<String>,
)
    requires
        areas_are(buildings, texts),
        buildings.len() == response.links.maakt_deel_uit_van.len(),
    ensures
        forall|k: int|
            0 <= k < buildings.len() ==> (#[trigger] chased(
                began::<E>(Fetched::Decoded(response)),
                measured::<E>(buildings, texts).take(k),
            ) matches StepView::Follow(chase) && chase.panden.len() == k && chase.links[k]
                == response.links.maakt_deel_uit_van[k].href@),
        chased(began::<E>(Fetched::Decoded(response)), measured::<E>(buildings, texts))
            == StepView::<E>::Finished(Ok(panden_of(response.verblijfsobject, buildings))),
        panden_of(response.verblijfsobject, buildings).len() == buildings.len(),
        forall|i: int|
            0 <= i < buildings.len() ==> {
                let pand = #[trigger] panden_of(response.verblijfsobject, buildings)[i];
                &&& pand.identificatiecode == buildings[i].0.pand.identificatie@
                &&& pand.geometry == buildings[i].0.pand.geometry
                &&& pand.pandvlak == buildings[i].1
                &&& pand.objectstatus == response.verblijfsobject.status@
                &&& pand.vloeroppervlak == decimal(response.verblijfsobject.oppervlakte as int)
                &&& pand.gebruiksdoel == joined(views(response.verblijfsobject.gebruiksdoelen@), ", "@)
            },
{
    let answers = measured::<E>(buildings, texts);
    let n = buildings.len() as int;
    if n == 0 {
        assert(answers.len() == 0);
        assert(panden_of(response.verblijfsobject, buildings) =~= Seq::empty());
    } else {
        assert forall|k: int| 0 <= k < n implies (#[trigger] chased(
            began::<E>(Fetched::Decoded(response)),
            measured::<E>(buildings, texts).take(k),
        ) matches StepView::Follow(chase) && chase.panden.len() == k && chase.links[k]
            == response.links.maakt_deel_uit_van[k].href@) by {
            lemma_chase_prefix::<E>(response, buildings, texts, k);
        }
        lemma_chase_prefix::<E>(response, buildings, texts, n);
        assert(answers.take(n) =~= answers);
    }
}

/// One failure ends the chase: when the buildings of the first links arrive
/// and the answer for the next link is a failure, the chase ends with the
/// error of that failure and hands out no pand.
pub proof fn lemma_one_failure_ends_the_chase<E>(
    response: VerblijfsObjectResponse,
    buildings: Seq<(Building, Seq<char>)>,
    texts: Seq<String>,
    failure: LinkAnswer<E>,
)
    requires
        areas_are(buildings, texts),
        buildings.len() < response.links.maakt_deel_uit_van.len(),
        !(failure is Measured),
    ensures
        chased(
            began::<E>(Fetched::Decoded(response)),
            measured::<E>(buildings, texts).push(failure),
        ) == StepView::<E>::Finished(
            Err(
                match failure {
                    LinkAnswer::Unreachable(error) => Error::NetworkProblem(error),
                    LinkAnswer::Undecodable(error) => Error::JsonProblem(error),
                    _ => Error::MalformedGeometry,
                },
            ),
        ),
{
    let answers = measured::<E>(buildings, texts);
    lemma_chase_prefix::<E>(response, buildings, texts, buildings.len() as int);
    assert(answers.take(buildings.len() as int) =~= answers);
    assert(answers.push(failure).drop_last() =~= answers);
}

} // verus!
