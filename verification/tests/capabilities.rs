use cross_seed::capabilities::{
    CapabilityEntry, RawSearchEntry, SearchCapability, SearchingCapabilities, SupportedParam,
    split_commas,
};
use cross_seed::error::DecodeError;

fn raw(kind: &str, available: &str, params: Option<&str>) -> RawSearchEntry {
    RawSearchEntry {
        kind: kind.to_string(),
        available: available.to_string(),
        supported_params: params.map(|p| p.to_string()),
    }
}

#[test]
fn discovery_document_availability_and_params() {
    let entries = vec![
        raw("tv-search", "yes", Some("season,ep")),
        raw("movie-search", "no", None),
    ];
    let caps = SearchingCapabilities::from_raw(&entries).unwrap();
    assert!(caps.does_support_search(SearchCapability::TV));
    assert!(!caps.does_support_search(SearchCapability::Movie));
    assert!(caps.does_search_support_param(SearchCapability::TV, SupportedParam::Season));
    assert!(caps.does_search_support_param(SearchCapability::TV, SupportedParam::Episode));
    assert!(!caps.does_search_support_param(SearchCapability::TV, SupportedParam::IMDB));
}

#[test]
fn unavailable_means_absent_not_empty() {
    let entries = vec![raw("search", "no", Some("q"))];
    let caps = SearchingCapabilities::from_raw(&entries).unwrap();
    assert!(!caps.does_support_search(SearchCapability::Search));
    assert!(!caps.does_search_support_param(SearchCapability::Search, SupportedParam::Query));
}

#[test]
fn availability_token_must_be_exactly_yes() {
    let entries = vec![raw("search", "true", Some("q"))];
    let caps = SearchingCapabilities::from_raw(&entries).unwrap();
    assert!(!caps.does_support_search(SearchCapability::Search));
}

#[test]
fn available_without_params_field() {
    let entries = vec![raw("search", "yes", None)];
    let caps = SearchingCapabilities::from_raw(&entries).unwrap();
    assert!(caps.does_support_search(SearchCapability::Search));
    assert!(!caps.does_search_support_param(SearchCapability::Search, SupportedParam::Query));
}

#[test]
fn unknown_param_token_is_decode_error() {
    let entries = vec![raw("tv-search", "yes", Some("season,bogus"))];
    assert_eq!(
        SearchingCapabilities::from_raw(&entries).unwrap_err(),
        DecodeError::UnknownParam
    );
}

#[test]
fn unknown_search_type_is_decode_error() {
    let entries = vec![raw("mystery-search", "yes", Some("q"))];
    assert_eq!(
        SearchingCapabilities::from_raw(&entries).unwrap_err(),
        DecodeError::UnknownSearchType
    );
}

#[test]
fn unknown_search_type_errors_even_when_unavailable() {
    let entries = vec![raw("mystery-search", "no", None)];
    assert_eq!(
        SearchingCapabilities::from_raw(&entries).unwrap_err(),
        DecodeError::UnknownSearchType
    );
}

#[test]
fn later_entry_replaces_earlier() {
    let entries = vec![
        raw("search", "yes", Some("q")),
        raw("search", "yes", Some("season")),
    ];
    let caps = SearchingCapabilities::from_raw(&entries).unwrap();
    assert!(caps.does_support_search(SearchCapability::Search));
    assert!(!caps.does_search_support_param(SearchCapability::Search, SupportedParam::Query));
    assert!(caps.does_search_support_param(SearchCapability::Search, SupportedParam::Season));
}

#[test]
fn param_tokens() {
    assert_eq!(SupportedParam::from_token("q"), Ok(SupportedParam::Query));
    assert_eq!(SupportedParam::from_token("season"), Ok(SupportedParam::Season));
    assert_eq!(SupportedParam::from_token("ep"), Ok(SupportedParam::Episode));
    assert_eq!(SupportedParam::from_token("imdbid"), Ok(SupportedParam::IMDB));
    assert_eq!(SupportedParam::from_token("tmdbid"), Ok(SupportedParam::TMDB));
    assert_eq!(SupportedParam::from_token("tvdbid"), Ok(SupportedParam::TVDB));
    assert_eq!(
        SupportedParam::from_token("seeders"),
        Err(DecodeError::UnknownParam)
    );
}

#[test]
fn capability_tokens() {
    assert_eq!(
        SearchCapability::from_token("search"),
        Ok(SearchCapability::Search)
    );
    assert_eq!(SearchCapability::from_token("tv-search"), Ok(SearchCapability::TV));
    assert_eq!(
        SearchCapability::from_token("movie-search"),
        Ok(SearchCapability::Movie)
    );
    assert_eq!(
        SearchCapability::from_token("music-search"),
        Ok(SearchCapability::Music)
    );
    assert_eq!(
        SearchCapability::from_token("audio-search"),
        Ok(SearchCapability::Audio)
    );
    assert_eq!(
        SearchCapability::from_token("book-search"),
        Ok(SearchCapability::Book)
    );
    assert_eq!(
        SearchCapability::from_token("caps"),
        Err(DecodeError::UnknownSearchType)
    );
}

#[test]
fn split_commas_fields() {
    assert_eq!(split_commas("a,b,c"), vec!["a", "b", "c"]);
    assert_eq!(split_commas("season,ep"), vec!["season", "ep"]);
    assert_eq!(split_commas("q"), vec!["q"]);
    assert_eq!(split_commas(""), vec![""]);
    assert_eq!(split_commas("a,"), vec!["a", ""]);
    assert_eq!(split_commas(",a"), vec!["", "a"]);
}

#[test]
fn direct_construction() {
    let caps = SearchingCapabilities::new(vec![CapabilityEntry {
        capability: SearchCapability::Search,
        params: vec![SupportedParam::Query],
    }]);
    assert!(caps.does_support_search(SearchCapability::Search));
    assert!(caps.does_search_support_param(SearchCapability::Search, SupportedParam::Query));
    assert!(!caps.does_support_search(SearchCapability::Book));
}
