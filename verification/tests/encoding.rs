use cross_seed::decimal::{i64_decimal, u64_decimal};
use cross_seed::error::ClientError;
use cross_seed::functions::{SearchFunction, TorznabFunction};
use cross_seed::search_parameters::{
    GenericSearchParametersBuilder, MovieSearchParametersBuilder, TVSearchParametersBuilder,
};

#[test]
fn query_only_is_exactly_q() {
    let params = GenericSearchParametersBuilder::new()
        .query("Example.S01E01".to_string())
        .build();
    assert_eq!(params.to_params(), "&q=Example.S01E01");
}

#[test]
fn query_is_percent_encoded() {
    let params = GenericSearchParametersBuilder::new()
        .query("a b/c&d".to_string())
        .build();
    assert_eq!(params.to_params(), "&q=a%20b%2Fc%26d");
}

#[test]
fn empty_parameters_encode_to_nothing() {
    let params = GenericSearchParametersBuilder::new().build();
    assert_eq!(params.to_params(), "");
}

#[test]
fn all_fields_in_fixed_order() {
    let params = GenericSearchParametersBuilder::new()
        .limit(100)
        .offset(20)
        .extended(true)
        .attributes(&["seeders".to_string(), "peers".to_string()])
        .categories(&[5100, 5200])
        .query("x".to_string())
        .build();
    assert_eq!(
        params.to_params(),
        "&q=x&cat=5100,5200&attrs=seeders,peers&extended=1&offset=20&limit=100"
    );
}

#[test]
fn extended_false_is_zero() {
    let params = GenericSearchParametersBuilder::new().extended(false).build();
    assert_eq!(params.to_params(), "&extended=0");
}

#[test]
fn single_category_by_push() {
    let params = GenericSearchParametersBuilder::new()
        .category(2000)
        .category(-3)
        .build();
    assert_eq!(params.to_params(), "&cat=2000,-3");
}

#[test]
fn single_attribute_by_push() {
    let params = GenericSearchParametersBuilder::new()
        .attribute("seeders".to_string())
        .build();
    assert_eq!(params.to_params(), "&attrs=seeders");
}

#[test]
fn tv_parameters_full_order() {
    let params = TVSearchParametersBuilder::new()
        .episode(5)
        .season(4)
        .tvmaze_id(3)
        .tvdb_id(2)
        .rid(1)
        .build();
    assert_eq!(
        params.to_params(),
        "&rid=1&tvdbid=2&tvmazeid=3&season=4&ep=5"
    );
}

#[test]
fn tv_parameters_partial() {
    let params = TVSearchParametersBuilder::new().season(4).episode(5).build();
    assert_eq!(params.to_params(), "&season=4&ep=5");
    let empty = TVSearchParametersBuilder::new().build();
    assert_eq!(empty.to_params(), "");
}

#[test]
fn movie_parameters() {
    let params = MovieSearchParametersBuilder::new().imdb_id(1234).build();
    assert_eq!(params.to_params(), "&imdbid=1234");
    let empty = MovieSearchParametersBuilder::new().build();
    assert_eq!(empty.to_params(), "");
}

#[test]
fn search_function_tokens() {
    assert_eq!(SearchFunction::Search.to_function_str(), "search");
    let tv = SearchFunction::TVSearch(TVSearchParametersBuilder::new().build());
    assert_eq!(tv.to_function_str(), "tvsearch");
    let movie = SearchFunction::MovieSearch(MovieSearchParametersBuilder::new().build());
    assert_eq!(movie.to_function_str(), "movie");
    assert_eq!(SearchFunction::MusicSearch.to_function_str(), "music");
    assert_eq!(SearchFunction::BookSearch.to_function_str(), "book");
}

#[test]
fn search_function_params() {
    assert_eq!(SearchFunction::Search.to_params().unwrap(), "&t=search");
    let tv = SearchFunction::TVSearch(TVSearchParametersBuilder::new().season(1).build());
    assert_eq!(tv.to_params().unwrap(), "&t=tvsearch&season=1");
    let movie = SearchFunction::MovieSearch(MovieSearchParametersBuilder::new().imdb_id(7).build());
    assert_eq!(movie.to_params().unwrap(), "&t=movie&imdbid=7");
    assert!(matches!(
        SearchFunction::MusicSearch.to_params(),
        Err(ClientError::UnsupportedFunction)
    ));
    assert!(matches!(
        SearchFunction::BookSearch.to_params(),
        Err(ClientError::UnsupportedFunction)
    ));
}

#[test]
fn torznab_function_params() {
    assert_eq!(TorznabFunction::Capabilities.to_params().unwrap(), "&t=caps");
    let generic = GenericSearchParametersBuilder::new()
        .query("abc".to_string())
        .build();
    let combined = TorznabFunction::SearchFunction(generic, SearchFunction::Search);
    assert_eq!(combined.to_params().unwrap(), "&q=abc&t=search");
    assert!(matches!(
        TorznabFunction::Details.to_params(),
        Err(ClientError::UnsupportedFunction)
    ));
}

#[test]
fn torznab_function_tokens() {
    assert_eq!(TorznabFunction::Capabilities.to_function_str().unwrap(), "caps");
    let generic = GenericSearchParametersBuilder::new().build();
    let combined = TorznabFunction::SearchFunction(generic, SearchFunction::Search);
    assert_eq!(combined.to_function_str().unwrap(), "search");
    assert!(matches!(
        TorznabFunction::User.to_function_str(),
        Err(ClientError::UnsupportedFunction)
    ));
}

#[test]
fn decimal_rendering() {
    assert_eq!(u64_decimal(0), "0");
    assert_eq!(u64_decimal(7), "7");
    assert_eq!(u64_decimal(1234567890), "1234567890");
    assert_eq!(u64_decimal(u64::MAX), "18446744073709551615");
    assert_eq!(i64_decimal(-42), "-42");
    assert_eq!(i64_decimal(42), "42");
    assert_eq!(i64_decimal(i64::MIN), "-9223372036854775808");
}
