//! One parsed search hit, decoded from a feed item. Both the title and the
//! link are required; an item missing either is recorded as a per-item
//! error and skipped, and the remaining items are still decoded.
use vstd::prelude::*;

use crate::error::ResultError;

verus! {

/// The fields of one feed item that a search result is read from, as plain
/// values.
#[derive(Debug, Clone)]
pub struct FeedItem {
    pub title: Option<String>,
    pub link: Option<String>,
}

/// One search result: the feed item's title and link.
#[derive(Debug, Clone)]
pub struct TorrentResult {
    pub name: String,
    pub link: String,
}

/// The title and link of a feed item, as character sequences.
pub open spec fn item_fields(i: FeedItem) -> (Option<Seq<char>>, Option<Seq<char>>) {
    (
        match i.title {
            Some(t) => Some(t@),
            None => None,
        },
        match i.link {
            Some(l) => Some(l@),
            None => None,
        },
    )
}

/// The fields of each feed item, in order.
pub open spec fn item_views(items: Seq<FeedItem>) -> Seq<(Option<Seq<char>>, Option<Seq<char>>)> {
    items.map_values(|i: FeedItem| item_fields(i))
}

/// What one feed item decodes to: its name and link, or the error of the
/// first missing required field, the title being checked first.
pub open spec fn decoded_item(v: (Option<Seq<char>>, Option<Seq<char>>)) -> Result<
    (Seq<char>, Seq<char>),
    ResultError,
> {
    match v.0 {
        None => Err(ResultError::MissingTitle),
        Some(t) => match v.1 {
            None => Err(ResultError::MissingLink),
            Some(l) => Ok((t, l)),
        },
    }
}

/// The results of the items that decode, in order.
pub open spec fn results_of(views: Seq<(Option<Seq<char>>, Option<Seq<char>>)>) -> Seq<
    (Seq<char>, Seq<char>),
>
    decreases views.len(),
{
    if views.len() == 0 {
        Seq::empty()
    } else {
        let rest = results_of(views.drop_last());
        match decoded_item(views.last()) {
            Ok(p) => rest.push(p),
            Err(_) => rest,
        }
    }
}

/// The errors of the items that do not decode, in order.
pub open spec fn errors_of(views: Seq<(Option<Seq<char>>, Option<Seq<char>>)>) -> Seq<ResultError>
    decreases views.len(),
{
    if views.len() == 0 {
        Seq::empty()
    } else {
        let rest = errors_of(views.drop_last());
        match decoded_item(views.last()) {
            Ok(_) => rest,
            Err(e) => rest.push(e),
        }
    }
}

/// The name and link of each result, as character sequences.
pub open spec fn result_views(results: Seq<TorrentResult>) -> Seq<(Seq<char>, Seq<char>)> {
    results.map_values(|t: TorrentResult| (t.name@, t.link@))
}

impl TorrentResult {
    /// Decode one feed item; a missing title or link is a per-item error.
    pub fn from_item(item: &FeedItem) -> (r: Result<TorrentResult, ResultError>)
        ensures
            match decoded_item(item_fields(*item)) {
                Ok(p) => r matches Ok(t) && t.name@ == p.0 && t.link@ == p.1,
                Err(e) => r == Err::<TorrentResult, ResultError>(e),
            },
    {
        match &item.title {
            None => Err(ResultError::MissingTitle),
            Some(title) => match &item.link {
                None => Err(ResultError::MissingLink),
                Some(link) => Ok(TorrentResult { name: title.clone(), link: link.clone() }),
            },
        }
    }
}

/// Decode every feed item: the results of the items with both required
/// fields, and the error of each item without, both in item order.
pub fn collect_results(items: &Vec<FeedItem>) -> (r: (Vec<TorrentResult>, Vec<ResultError>))
    ensures
        result_views(r.0@) == results_of(item_views(items@)),
        r.1@ == errors_of(item_views(items@)),
{
    let mut results: Vec<TorrentResult> = Vec::new();
    let mut errors: Vec<ResultError> = Vec::new();
    let mut i: usize = 0;
    while i < items.len()
        invariant
            i <= items@.len(),
            result_views(results@) == results_of(item_views(items@.take(i as int))),
            errors@ == errors_of(item_views(items@.take(i as int))),
        decreases items@.len() - i,
    {
        proof {
            assert(item_views(items@.take(i + 1)).drop_last() =~= item_views(
                items@.take(i as int),
            ));
            assert(item_views(items@.take(i + 1)).last() == item_fields(items@[i as int]));
        }
        match TorrentResult::from_item(&items[i]) {
            Ok(t) => {
                let ghost prev = results@;
                results.push(t);
                proof {
                    assert(result_views(results@) =~= result_views(prev).push(
                        (t.name@, t.link@),
                    ));
                }
            },
            Err(e) => {
                errors.push(e);
            },
        }
        i += 1;
    }
    proof {
        assert(items@.take(items@.len() as int) =~= items@);
    }
    (results, errors)
}

} // verus!
