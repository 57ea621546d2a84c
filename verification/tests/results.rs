use cross_seed::client::decode_results;
use cross_seed::error::{DecodeError, ResultError};
use cross_seed::torrent_result::{FeedItem, TorrentResult, collect_results};

fn item(title: Option<&str>, link: Option<&str>) -> FeedItem {
    FeedItem {
        title: title.map(|t| t.to_string()),
        link: link.map(|l| l.to_string()),
    }
}

#[test]
fn item_with_both_fields_decodes() {
    let result = TorrentResult::from_item(&item(Some("Example.S01E01"), Some("http://example.com/1")))
        .unwrap();
    assert_eq!(result.name, "Example.S01E01");
    assert_eq!(result.link, "http://example.com/1");
}

#[test]
fn missing_title_is_an_error() {
    let err = TorrentResult::from_item(&item(None, Some("http://example.com/1"))).unwrap_err();
    assert_eq!(err, ResultError::MissingTitle);
}

#[test]
fn missing_link_is_an_error() {
    let err = TorrentResult::from_item(&item(Some("Example"), None)).unwrap_err();
    assert_eq!(err, ResultError::MissingLink);
}

#[test]
fn missing_both_reports_the_title_first() {
    let err = TorrentResult::from_item(&item(None, None)).unwrap_err();
    assert_eq!(err, ResultError::MissingTitle);
}

#[test]
fn bad_item_is_skipped_and_rest_kept() {
    let items = vec![
        item(Some("First"), Some("http://example.com/1")),
        item(None, Some("http://example.com/2")),
        item(Some("Third"), Some("http://example.com/3")),
        item(Some("NoLink"), None),
    ];
    let (results, errors) = collect_results(&items);
    assert_eq!(results.len(), 2);
    assert_eq!(results[0].name, "First");
    assert_eq!(results[1].name, "Third");
    assert_eq!(results[1].link, "http://example.com/3");
    assert_eq!(errors, vec![ResultError::MissingTitle, ResultError::MissingLink]);
}

#[test]
fn feed_body_decodes_items() {
    let body = b"<rss version=\"2.0\"><channel>\
        <title>feed</title><link>http://example.com</link><description>d</description>\
        <item><title>Example.S01E01</title><link>http://example.com/1.torrent</link></item>\
        <item><description>no title here</description></item>\
        <item><title>Second</title><link>http://example.com/2.torrent</link></item>\
        </channel></rss>";
    let out = decode_results(body).unwrap();
    assert_eq!(out.results.len(), 2);
    assert_eq!(out.results[0].name, "Example.S01E01");
    assert_eq!(out.results[0].link, "http://example.com/1.torrent");
    assert_eq!(out.results[1].name, "Second");
    assert_eq!(out.item_errors, vec![ResultError::MissingTitle]);
}

#[test]
fn non_feed_body_is_a_malformed_feed_error() {
    let err = decode_results(b"this is not xml at all").unwrap_err();
    assert_eq!(err, DecodeError::MalformedFeed);
}

#[test]
fn empty_feed_gives_no_results() {
    let body = b"<rss version=\"2.0\"><channel>\
        <title>feed</title><link>http://example.com</link><description>d</description>\
        </channel></rss>";
    let out = decode_results(body).unwrap();
    assert!(out.results.is_empty());
    assert!(out.item_errors.is_empty());
}
