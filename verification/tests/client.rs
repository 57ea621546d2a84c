use cross_seed::capabilities::{
    Capabilities, Categories, CapabilityEntry, SearchCapability, SearchingCapabilities,
    SupportedParam,
};
use cross_seed::client::{TorznabClient, check_search_supported};
use cross_seed::error::{CapabilityMismatch, ClientError};
use cross_seed::functions::SearchFunction;
use cross_seed::search_parameters::{GenericSearchParametersBuilder, TVSearchParametersBuilder};

fn caps(entries: Vec<CapabilityEntry>) -> Capabilities {
    Capabilities {
        categories: Categories::new(Vec::new()),
        searching_capabilities: SearchingCapabilities::new(entries),
    }
}

fn entry(capability: SearchCapability, params: Vec<SupportedParam>) -> CapabilityEntry {
    CapabilityEntry { capability, params }
}

#[test]
fn new_client_starts_empty() {
    let client = TorznabClient::new_no_capabilities(
        "alpha".to_string(),
        "http://indexer.example",
        "SECRET-REDACTED",
    );
    assert_eq!(client.name, "alpha");
    assert_eq!(client.base_url, "http://indexer.example");
    assert!(!client
        .capabilities
        .searching_capabilities
        .does_support_search(SearchCapability::Search));
}

#[test]
fn request_url_holds_key_and_params() {
    let client =
        TorznabClient::new_no_capabilities("alpha".to_string(), "http://indexer.example", "k1");
    assert_eq!(
        client.request_url("&t=search&q=abc"),
        "http://indexer.example?apikey=k1&t=search&q=abc"
    );
    assert_eq!(
        client.capabilities_url(),
        "http://indexer.example?apikey=k1&t=caps"
    );
}

#[test]
fn stored_capabilities_replace_wholesale() {
    let mut client =
        TorznabClient::new_no_capabilities("alpha".to_string(), "http://indexer.example", "k1");
    client.store_capabilities(caps(vec![entry(
        SearchCapability::Search,
        vec![SupportedParam::Query],
    )]));
    assert!(client
        .capabilities
        .searching_capabilities
        .does_support_search(SearchCapability::Search));
}

#[test]
fn search_url_for_supported_query() {
    let mut client =
        TorznabClient::new_no_capabilities("alpha".to_string(), "http://indexer.example", "k1");
    client.store_capabilities(caps(vec![entry(
        SearchCapability::Search,
        vec![SupportedParam::Query],
    )]));
    let generic = GenericSearchParametersBuilder::new()
        .query("Example.S01E01".to_string())
        .build();
    let url = client.search_url(&SearchFunction::Search, &generic).unwrap();
    assert_eq!(
        url,
        "http://indexer.example?apikey=k1&t=search&q=Example.S01E01"
    );
}

#[test]
fn unsupported_search_type_fails_fast() {
    let mut client =
        TorznabClient::new_no_capabilities("alpha".to_string(), "http://indexer.example", "k1");
    client.store_capabilities(caps(vec![entry(
        SearchCapability::Search,
        vec![SupportedParam::Query],
    )]));
    let tv = SearchFunction::TVSearch(TVSearchParametersBuilder::new().season(1).build());
    let generic = GenericSearchParametersBuilder::new().build();
    assert!(matches!(
        client.search_url(&tv, &generic),
        Err(ClientError::CapabilityMismatch(
            CapabilityMismatch::SearchTypeUnsupported
        ))
    ));
}

#[test]
fn unsupported_param_fails_fast() {
    let sc = SearchingCapabilities::new(vec![entry(
        SearchCapability::TV,
        vec![SupportedParam::Query, SupportedParam::Season],
    )]);
    let tv = SearchFunction::TVSearch(
        TVSearchParametersBuilder::new().season(1).episode(2).build(),
    );
    let generic = GenericSearchParametersBuilder::new().build();
    assert!(matches!(
        check_search_supported(&sc, &tv, &generic),
        Err(ClientError::CapabilityMismatch(
            CapabilityMismatch::ParamUnsupported
        ))
    ));
}

#[test]
fn query_param_must_be_advertised() {
    let sc = SearchingCapabilities::new(vec![entry(SearchCapability::Search, vec![])]);
    let generic = GenericSearchParametersBuilder::new()
        .query("abc".to_string())
        .build();
    assert!(matches!(
        check_search_supported(&sc, &SearchFunction::Search, &generic),
        Err(ClientError::CapabilityMismatch(
            CapabilityMismatch::ParamUnsupported
        ))
    ));
    let no_query = GenericSearchParametersBuilder::new().build();
    assert!(check_search_supported(&sc, &SearchFunction::Search, &no_query).is_ok());
}

#[test]
fn supported_tv_search_passes_the_check() {
    let sc = SearchingCapabilities::new(vec![entry(
        SearchCapability::TV,
        vec![
            SupportedParam::Query,
            SupportedParam::Season,
            SupportedParam::Episode,
            SupportedParam::TVDB,
        ],
    )]);
    let tv = SearchFunction::TVSearch(
        TVSearchParametersBuilder::new()
            .tvdb_id(42)
            .season(1)
            .episode(2)
            .build(),
    );
    let generic = GenericSearchParametersBuilder::new()
        .query("abc".to_string())
        .build();
    assert!(check_search_supported(&sc, &tv, &generic).is_ok());
}

#[test]
fn music_search_is_unsupported_even_when_advertised() {
    let mut client =
        TorznabClient::new_no_capabilities("alpha".to_string(), "http://indexer.example", "k1");
    client.store_capabilities(caps(vec![entry(SearchCapability::Music, vec![])]));
    let generic = GenericSearchParametersBuilder::new().build();
    assert!(matches!(
        client.search_url(&SearchFunction::MusicSearch, &generic),
        Err(ClientError::UnsupportedFunction)
    ));
}
