use pdok_apis::bag::BagClientBuilder;
use pdok_apis::brk::BrkClientBuilder;
use pdok_apis::lookup::{write_lot_query, write_suggest_query, LookupClientBuilder};
use pdok_apis::{get_request, locatieserver, ClientBuilder, Method};

fn pair(name: &str, value: &str) -> (String, String) {
    (name.to_string(), value.to_string())
}

#[test]
fn panden_request_names_the_object() {
    let client = BagClientBuilder::new("agent", "key").build();
    let request = client.get_panden("0268010000084126");
    assert_eq!(request.method, Method::Get);
    assert_eq!(
        request.url,
        "https://api.bag.kadaster.nl/lvbag/individuelebevragingen/v2/verblijfsobjecten/0268010000084126"
    );
    assert_eq!(request.headers, vec![pair("Accept-Crs", "epsg:28992")]);
    assert!(request.query.is_empty());
    assert!(request.json.is_empty());
}

#[test]
fn panden_request_of_an_empty_id() {
    let client = BagClientBuilder::new("agent", "key").build();
    let request = client.get_panden("");
    assert_eq!(
        request.url,
        "https://api.bag.kadaster.nl/lvbag/individuelebevragingen/v2/verblijfsobjecten/"
    );
}

#[test]
fn bag_status_request_asks_for_the_office() {
    let client = BagClientBuilder::new("agent", "key").build();
    let status = client.get_bag_status();
    let office = client.get_panden("0268010000084126");
    assert_eq!(status.url, office.url);
    assert_eq!(status.headers, office.headers);
    assert_eq!(status.method, Method::Get);
}

#[test]
fn lot_request_carries_the_filter() {
    let client = BrkClientBuilder::new("agent").build();
    let request = client.get_lot("HTT02", "M", "5038").unwrap();
    assert_eq!(request.method, Method::Get);
    assert!(request.query.is_empty());
    assert!(request.headers.is_empty());
    assert!(request.json.is_empty());
    let expected = [
        "https://service.pdok.nl/kadaster/kadastralekaart/wfs/v5_0",
        "?request=GetFeature&service=WFS&version=2.0.0",
        "&typenames=kadastralekaartv5%3Aperceel&outputFormat=application%2Fjson",
        "&filter=%0A%3CFilter%3E%0A++%3CAnd%3E%0A++++%3CAnd%3E",
        "%0A++++++%3CPropertyIsEqualTo%3E",
        "%0A++++++++%3CPropertyName%3Esectie%3C%2FPropertyName%3E",
        "%0A++++++++%3CLiteral%3EM%3C%2FLiteral%3E",
        "%0A++++++%3C%2FPropertyIsEqualTo%3E",
        "%0A++++++%3CPropertyIsEqualTo%3E",
        "%0A++++++++%3CPropertyName%3Eperceelnummer%3C%2FPropertyName%3E",
        "%0A++++++++%3CLiteral%3E5038%3C%2FLiteral%3E",
        "%0A++++++%3C%2FPropertyIsEqualTo%3E",
        "%0A++++%3C%2FAnd%3E",
        "%0A++++%3CPropertyIsEqualTo%3E",
        "%0A++++++%3CPropertyName%3EAKRKadastraleGemeenteCodeWaarde%3C%2FPropertyName%3E",
        "%0A++++++%3CLiteral%3EHTT02%3C%2FLiteral%3E",
        "%0A++++%3C%2FPropertyIsEqualTo%3E",
        "%0A++%3C%2FAnd%3E",
        "%0A%3C%2FFilter%3E",
    ]
    .concat();
    assert_eq!(request.url, expected);
}

#[test]
fn lot_request_keeps_the_three_parts_apart() {
    let client = BrkClientBuilder::new("agent").build();
    let one = client.get_lot("A", "B", "C").unwrap().url;
    let other = client.get_lot("C", "A", "B").unwrap().url;
    assert_ne!(one, other);
    assert!(one.contains("%3CLiteral%3EB%3C%2FLiteral%3E%0A++++++%3C%2FPropertyIsEqualTo%3E%0A++++++%3CPropertyIsEqualTo%3E"));
    assert!(one.contains("AKRKadastraleGemeenteCodeWaarde%3C%2FPropertyName%3E%0A++++++%3CLiteral%3EA%3C"));
    assert!(one.contains("perceelnummer%3C%2FPropertyName%3E%0A++++++++%3CLiteral%3EC%3C"));
}

#[test]
fn brk_status_request_asks_for_the_office() {
    let client = BrkClientBuilder::new("agent").build();
    let status = client.get_brk_status().unwrap();
    let office = client.get_lot("HTT02", "M", "5038").unwrap();
    assert_eq!(status.url, office.url);
}

#[test]
fn suggest_request_carries_the_query() {
    let client = LookupClientBuilder::new("pdok-apis lookup").build();
    let request = client.suggest_concrete("6542WZ", "222");
    assert_eq!(request.method, Method::Get);
    assert_eq!(request.url, "https://api.pdok.nl/bzk/locatieserver/search/v3_1/suggest");
    assert_eq!(request.query, vec![pair("q", "postcode:6542WZ 222")]);
    assert!(request.headers.is_empty());
    assert!(request.json.is_empty());
}

#[test]
fn queries_are_written_out() {
    assert_eq!(write_suggest_query("6542WZ", "222"), "postcode:6542WZ 222");
    assert_eq!(write_suggest_query("", ""), "postcode: ");
    assert_eq!(write_lot_query("HTT02", "M", "5038"), "gekoppeld_perceel:HTT02-M-5038");
    assert_eq!(write_lot_query("", "", ""), "gekoppeld_perceel:--");
}

#[test]
fn lookup_request_carries_the_id() {
    let client = LookupClientBuilder::new("pdok-apis lookup").build();
    let request = client.lookup("adr-2fe93c94378bb179c424cf9918662375").unwrap();
    assert_eq!(request.method, Method::Get);
    assert_eq!(
        request.url,
        "https://api.pdok.nl/bzk/locatieserver/search/v3_1/lookup?id=adr-2fe93c94378bb179c424cf9918662375"
    );
    assert!(request.query.is_empty());
}

#[test]
fn lookup_request_encodes_the_id() {
    let client = LookupClientBuilder::new("pdok-apis lookup").build();
    let request = client.lookup("a b&c=d").unwrap();
    assert_eq!(
        request.url,
        "https://api.pdok.nl/bzk/locatieserver/search/v3_1/lookup?id=a+b%26c%3Dd"
    );
}

#[test]
fn lot_addresses_request_carries_both_parameters() {
    let client = LookupClientBuilder::new("pdok-apis lookup").build();
    let request = client.suggest_addresses_for_lot("HTT02", "M", "5038").unwrap();
    assert_eq!(
        request.url,
        "https://api.pdok.nl/bzk/locatieserver/search/v3_1/free?q=gekoppeld_perceel%3AHTT02-M-5038&fq=type%3Aadres"
    );
    assert_eq!(request.method, Method::Get);
}

#[test]
fn office_request_looks_up_the_office() {
    let client = LookupClientBuilder::new("pdok-apis lookup").build();
    let request = client.lookup_tg_office().unwrap();
    assert_eq!(
        request.url,
        "https://api.pdok.nl/bzk/locatieserver/search/v3_1/lookup?id=adr-5826c02550308f6da19e4feb5eb97ec8"
    );
}

#[test]
fn former_suggest_request_posts_the_query() {
    let request = locatieserver::suggest_concrete("6542WZ", "222");
    assert_eq!(request.method, Method::Post);
    assert_eq!(request.url, "https://geodata.nationaalgeoregister.nl/locatieserver/v3/suggest");
    assert_eq!(request.json, vec![pair("query", "postcode:6542WZ 222")]);
    assert!(request.query.is_empty());
    assert!(request.headers.is_empty());
}

#[test]
fn former_lookup_requests() {
    let lookup = locatieserver::lookup("adr-2fe93c94378bb179c424cf9918662375").unwrap();
    assert_eq!(
        lookup.url,
        "https://geodata.nationaalgeoregister.nl/locatieserver/v3/lookup?id=adr-2fe93c94378bb179c424cf9918662375"
    );
    let free = locatieserver::suggest_addresses_for_lot("HTT02", "M", "5763").unwrap();
    assert_eq!(
        free.url,
        "https://geodata.nationaalgeoregister.nl/locatieserver/v3/free?q=gekoppeld_perceel%3AHTT02-M-5763&fq=type%3Aadres"
    );
    let office = locatieserver::lookup_tg_office().unwrap();
    assert_eq!(
        office.url,
        "https://geodata.nationaalgeoregister.nl/locatieserver/v3/lookup?id=adr-5826c02550308f6da19e4feb5eb97ec8"
    );
}

#[test]
fn a_request_is_made_of_an_address_only() {
    assert!(get_request(None).is_none());
    let request = get_request(Some("https://example.net/".to_string())).unwrap();
    assert_eq!(request.method, Method::Get);
    assert_eq!(request.url, "https://example.net/");
    assert!(request.query.is_empty());
    assert!(request.headers.is_empty());
    assert!(request.json.is_empty());
}
