use geojson::Geometry;
use pdok_apis::bag::Pand;
use pdok_apis::brk::Lot;
use pdok_apis::lookup::LookupDoc;
use pdok_apis::order::{comes_before, compare};
use std::cmp::Ordering;

fn pand(id: &str, year: &str) -> Pand {
    Pand {
        identificatiecode: id.to_string(),
        pandvlak: "1".to_string(),
        vloeroppervlak: "2".to_string(),
        bouwjaar: year.to_string(),
        pandstatus: String::new(),
        objectstatus: String::new(),
        gebruiksdoel: String::new(),
        geometry: Geometry::new_point([0.0, 0.0]),
    }
}

fn lot(id: &str, sectie: &str) -> Lot {
    Lot {
        id: id.to_string(),
        gemeentenaam: None,
        kadastralegemeentecode: None,
        grootte: None,
        sectie: Some(sectie.to_string()),
        perceelnummer: None,
        geometry: Geometry::new_point([0.0, 0.0]),
    }
}

fn doc(id: &str, street: &str) -> LookupDoc {
    LookupDoc {
        id: id.to_string(),
        gekoppeld_perceel: Vec::new(),
        nummeraanduiding_id: String::new(),
        adresseerbaarobject_id: String::new(),
        postcode: String::new(),
        huis_nlt: String::new(),
        straatnaam: street.to_string(),
        woonplaatsnaam: String::new(),
    }
}

#[test]
fn identifiers_are_ordered_byte_by_byte() {
    let cases = [
        ("", "", Ordering::Equal),
        ("", "a", Ordering::Less),
        ("a", "", Ordering::Greater),
        ("abc", "abc", Ordering::Equal),
        ("abc", "abd", Ordering::Less),
        ("abd", "abc", Ordering::Greater),
        ("ab", "abc", Ordering::Less),
        ("abc", "ab", Ordering::Greater),
        ("10", "9", Ordering::Less),
        ("Z", "a", Ordering::Less),
        ("z", "é", Ordering::Less),
        ("é", "€", Ordering::Less),
        ("€", "😀", Ordering::Less),
    ];
    for (a, b, expected) in cases {
        assert_eq!(compare(&a.to_string(), &b.to_string()), expected, "{:?} {:?}", a, b);
        assert_eq!(comes_before(a, b), expected == Ordering::Less, "{:?} {:?}", a, b);
        assert_eq!(a.cmp(b), expected);
    }
}

#[test]
fn panden_are_told_apart_by_their_code_alone() {
    assert!(pand("0001", "2008") == pand("0001", "1931"));
    assert!(pand("0001", "2008") != pand("0002", "2008"));
    assert_eq!(pand("0001", "2008").cmp(&pand("0001", "1931")), Ordering::Equal);
    assert_eq!(pand("0001", "2008").cmp(&pand("0002", "1931")), Ordering::Less);
    assert_eq!(pand("1", "2008").cmp(&pand("0002", "2008")), Ordering::Greater);
    assert_eq!(pand("a", "1").partial_cmp(&pand("b", "1")), Some(Ordering::Less));
    assert!(pand("a", "1") < pand("b", "0"));
    assert!(pand("b", "1") >= pand("a", "2"));
}

#[test]
fn lots_are_told_apart_by_their_id_alone() {
    assert!(lot("1", "M") == lot("1", "N"));
    assert!(lot("1", "M") != lot("2", "M"));
    assert_eq!(lot("1", "M").cmp(&lot("1", "N")), Ordering::Equal);
    assert_eq!(lot("1", "M").cmp(&lot("2", "A")), Ordering::Less);
    assert_eq!(lot("2", "A").cmp(&lot("1", "M")), Ordering::Greater);
    assert_eq!(lot("2", "A").partial_cmp(&lot("10", "A")), Some(Ordering::Greater));
    assert!(lot("10", "A") < lot("2", "A"));
}

#[test]
fn locations_are_told_apart_by_their_id_alone() {
    assert!(doc("adr-1", "Castellastraat") == doc("adr-1", "Oude Nonnendaalseweg"));
    assert!(doc("adr-1", "Castellastraat") != doc("adr-2", "Castellastraat"));
    assert_eq!(doc("adr-1", "x").cmp(&doc("adr-1", "y")), Ordering::Equal);
    assert_eq!(doc("adr-1", "x").cmp(&doc("adr-2", "x")), Ordering::Less);
    assert_eq!(doc("adr-2", "x").partial_cmp(&doc("adr-1", "x")), Some(Ordering::Greater));
    assert!(doc("adr-1", "x") <= doc("adr-1", "y"));
}
