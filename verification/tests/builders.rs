use pdok_apis::bag::{BagClientBuilder, BagCoordinateSpace};
use pdok_apis::brk::BrkClientBuilder;
use pdok_apis::lookup::LookupClientBuilder;
use pdok_apis::{ClientBuilder, CoordinateSpace};

fn pair(name: &str, value: &str) -> (String, String) {
    (name.to_string(), value.to_string())
}

#[test]
fn coordinate_space_codes() {
    assert_eq!(CoordinateSpace::Rijksdriehoek.as_str(), "epsg:28992");
    assert_eq!(CoordinateSpace::Gps.as_str(), "epsg:4258");
    assert_eq!(BagCoordinateSpace::Rijksdriehoek.as_str(), "epsg:28992");
}

#[test]
fn bag_builder_defaults() {
    let client = BagClientBuilder::new("pdok-apis bag 1.0", "SECRET-REDACTED").build();
    assert_eq!(client.config().user_agent, "pdok-apis bag 1.0");
    assert_eq!(client.config().connection_timeout_secs, 5);
    assert_eq!(client.config().request_timeout_secs, 20);
    assert_eq!(
        client.config().default_headers,
        vec![
            pair("X-Api-Key", "SECRET-REDACTED"),
            pair("Accept-Crs", "epsg:28992"),
            pair("transfer-encoding", "chunked"),
        ]
    );
}

#[test]
fn bag_builder_overrides() {
    let client = BagClientBuilder::new("agent", "key")
        .accept_crs(BagCoordinateSpace::Rijksdriehoek)
        .connection_timeout_secs(1)
        .request_timeout_secs(2)
        .build();
    assert_eq!(client.config().connection_timeout_secs, 1);
    assert_eq!(client.config().request_timeout_secs, 2);
    assert_eq!(client.config().default_headers[1], pair("Accept-Crs", "epsg:28992"));
}

#[test]
fn brk_builder_defaults() {
    let client = BrkClientBuilder::new("pdok-apis brk 1.0").build();
    assert_eq!(client.config().user_agent, "pdok-apis brk 1.0");
    assert_eq!(client.config().connection_timeout_secs, 5);
    assert_eq!(client.config().request_timeout_secs, 20);
    assert_eq!(
        client.config().default_headers,
        vec![pair("Accept-Crs", "epsg:28992"), pair("transfer-encoding", "chunked")]
    );
}

#[test]
fn brk_builder_overrides() {
    let client = BrkClientBuilder::new("agent")
        .accept_crs(CoordinateSpace::Gps)
        .request_timeout_secs(40)
        .connection_timeout_secs(7)
        .build();
    assert_eq!(client.config().connection_timeout_secs, 7);
    assert_eq!(client.config().request_timeout_secs, 40);
    assert_eq!(
        client.config().default_headers,
        vec![pair("Accept-Crs", "epsg:4258"), pair("transfer-encoding", "chunked")]
    );
}

#[test]
fn lookup_builder_defaults() {
    let client = LookupClientBuilder::new("pdok-apis lookup").build();
    assert_eq!(client.config().user_agent, "pdok-apis lookup");
    assert_eq!(client.config().connection_timeout_secs, 10);
    assert_eq!(client.config().request_timeout_secs, 30);
    assert!(client.config().default_headers.is_empty());
}

#[test]
fn lookup_builder_overrides() {
    let mut builder = LookupClientBuilder::new("agent");
    builder.connection_timeout_secs(3);
    builder.request_timeout_secs(4);
    let client = builder.build();
    assert_eq!(client.config().connection_timeout_secs, 3);
    assert_eq!(client.config().request_timeout_secs, 4);
}
