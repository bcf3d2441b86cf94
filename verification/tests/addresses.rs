use pdok_apis::locatieserver;
use pdok_apis::lookup::{LookupClient, LookupClientBuilder, LookupDoc, SuggestDoc};
use pdok_apis::{ClientBuilder, Error, Fetched};
use serde_json::Number;

fn suggestion(id: &str, name: &str, score: f64) -> SuggestDoc {
    SuggestDoc {
        id: id.to_string(),
        result_type: "adres".to_string(),
        weergavenaam: name.to_string(),
        score: Number::from_f64(score).unwrap(),
    }
}

fn location(id: &str, street: &str, number: &str, postcode: &str) -> LookupDoc {
    LookupDoc {
        id: id.to_string(),
        gekoppeld_perceel: vec!["HTT02-M-5038".to_string()],
        nummeraanduiding_id: "0268200000075156".to_string(),
        adresseerbaarobject_id: "0268010000084126".to_string(),
        postcode: postcode.to_string(),
        huis_nlt: number.to_string(),
        straatnaam: street.to_string(),
        woonplaatsnaam: "Nijmegen".to_string(),
    }
}

fn suggested(client: &LookupClient, postcode: &str, number: &str) -> Result<Vec<SuggestDoc>, Error<String>> {
    let request = client.suggest_concrete(postcode, number);
    assert_eq!(request.query[0].1, "postcode:6542WZ 222");
    Fetched::Decoded(vec![
        suggestion("adr-2fe93c94378bb179c424cf9918662375", "Oude Nonnendaalseweg 222, 6542WZ Nijmegen", 41.5),
        suggestion("adr-0000", "Oude Nonnendaalseweg 220, 6542WZ Nijmegen", 12.25),
    ])
    .into_result()
}

fn looked_up(client: &LookupClient, id: &str, doc: LookupDoc) -> Result<Vec<LookupDoc>, Error<String>> {
    let request = client.lookup(id).unwrap();
    assert!(request.url.ends_with(&format!("/lookup?id={}", id)));
    Fetched::Decoded(vec![doc]).into_result()
}

#[test]
fn concrete_address() {
    let postalcode = "6542WZ";
    let housenumber = "222";
    let client = LookupClientBuilder::new("pdok-apis lookup").build();

    let suggest_doc = suggested(&client, postalcode, housenumber);

    let id = suggest_doc.unwrap().first().unwrap().id.clone();

    assert_eq!(id, "adr-2fe93c94378bb179c424cf9918662375");

    let lookup_doc = looked_up(&client, &id, location(&id, "Oude Nonnendaalseweg", "222", "6542WZ"));
    let street_name = lookup_doc.unwrap().first().unwrap().straatnaam.clone();

    assert_eq!(street_name, "Oude Nonnendaalseweg");
}

#[test]
fn suggest_address_for_lot() {
    let client = LookupClientBuilder::new("pdok-apis lookup").build();

    // TG office plot
    let request = client.suggest_addresses_for_lot("HTT02", "M", "5038").unwrap();
    assert!(request.url.ends_with("/free?q=gekoppeld_perceel%3AHTT02-M-5038&fq=type%3Aadres"));
    let result: Result<Vec<SuggestDoc>, Error<String>> = Fetched::Decoded(vec![suggestion(
        "adr-03b34aeb91028a913c05006049ed3245",
        "Castellastraat 1, 6512EX Nijmegen",
        7.5,
    )])
    .into_result();

    // Should return Castellastraat 1
    let id = result.unwrap().first().unwrap().id.clone();
    assert_eq!(id, "adr-03b34aeb91028a913c05006049ed3245");
}

#[test]
fn lookup_id() {
    let client = LookupClientBuilder::new("pdok-apis lookup").build();

    // TG office ID
    let request = client.lookup_tg_office().unwrap();
    assert!(request.url.ends_with("/lookup?id=adr-5826c02550308f6da19e4feb5eb97ec8"));
    let answer: Fetched<Vec<LookupDoc>, String> = Fetched::Decoded(vec![location(
        "adr-5826c02550308f6da19e4feb5eb97ec8",
        "Castellastraat",
        "26",
        "6512EX",
    )]);
    let result = answer.into_result().unwrap();

    // Check if the address matches
    let street = result.first().unwrap().straatnaam.clone();
    let number = result.first().unwrap().huis_nlt.clone();
    let postcode = result.first().unwrap().postcode.clone();
    assert_eq!(street, "Castellastraat");
    assert_eq!(number, "26");
    assert_eq!(postcode, "6512EX");
}

#[test]
fn test_concrete_address() {
    let postalcode = "6542WZ";
    let housenumber = "222";

    let request = locatieserver::suggest_concrete(postalcode, housenumber);
    assert_eq!(request.json[0].1, "postcode:6542WZ 222");
    let suggest_doc: Result<Vec<locatieserver::SuggestDoc>, Error<String>> =
        Fetched::Decoded(vec![locatieserver::SuggestDoc {
            id: "adr-2fe93c94378bb179c424cf9918662375".to_string(),
            result_type: "adres".to_string(),
            weergavenaam: "Oude Nonnendaalseweg 222, 6542WZ Nijmegen".to_string(),
            score: Number::from_f64(41.5).unwrap(),
        }])
        .into_result();
    let id = suggest_doc.unwrap().first().unwrap().id.clone();

    assert_eq!(id, "adr-2fe93c94378bb179c424cf9918662375");

    let request = locatieserver::lookup(&id).unwrap();
    assert!(request.url.ends_with("/lookup?id=adr-2fe93c94378bb179c424cf9918662375"));
    let lookup_doc: Result<Vec<locatieserver::LookupDoc>, Error<String>> =
        Fetched::Decoded(vec![locatieserver::LookupDoc {
            id: id.clone(),
            gekoppeld_perceel: Vec::new(),
            nummeraanduiding_id: String::new(),
            adresseerbaarobject_id: String::new(),
            postcode: "6542WZ".to_string(),
            huis_nlt: "222".to_string(),
            straatnaam: "Oude Nonnendaalseweg".to_string(),
            woonplaatsnaam: "Nijmegen".to_string(),
        }])
        .into_result();
    let street_name = lookup_doc.unwrap().first().unwrap().straatnaam.clone();

    assert_eq!(street_name, "Oude Nonnendaalseweg");
}

#[test]
fn an_answer_is_handed_on_as_it_came() {
    let docs: Fetched<Vec<u8>, String> = Fetched::Decoded(vec![3, 1, 2]);
    assert_eq!(docs.into_result().unwrap(), vec![3, 1, 2]);
    let none: Fetched<Vec<u8>, String> = Fetched::Decoded(Vec::new());
    assert!(none.into_result().unwrap().is_empty());
    let unreachable: Fetched<Vec<u8>, String> = Fetched::Unreachable("dns".to_string());
    match unreachable.into_result() {
        Err(Error::NetworkProblem(why)) => assert_eq!(why, "dns"),
        other => panic!("unexpected outcome: {:?}", other),
    }
    let undecodable: Fetched<Vec<u8>, String> = Fetched::Undecodable("eof".to_string());
    match undecodable.into_result() {
        Err(Error::JsonProblem(why)) => assert_eq!(why, "eof"),
        other => panic!("unexpected outcome: {:?}", other),
    }
}
