//! The per-indexer client core: the URLs and query strings of each request,
//! capability-gated dispatch, and the decoding of search responses. The
//! transport that carries a URL to the remote and brings the body back is
//! the caller's; everything here is a pure function of its inputs.
use vstd::prelude::*;

use crate::capabilities::{Capabilities, SearchCapability, SearchingCapabilities, SupportedParam};
use crate::error::{CapabilityMismatch, ClientError, DecodeError};
use crate::functions::{SearchFunction, function_encodable, function_fragment};
use crate::search_parameters::{GenericSearchParameters, generic_fragment};
use crate::torrent_result::{FeedItem, TorrentResult, errors_of, item_views, result_views, results_of};
use crate::error::ResultError;

verus! {

#[verifier::external_type_specification]
#[verifier::external_body]
pub struct ExRssError(rss::Error);

/// What `rss::Channel::read_from` makes of a response body: the title and
/// link fields of each item of the channel, in order, or nothing when the
/// body is not a well-formed feed. The outcome depends on the bytes alone.
pub uninterp spec fn feed_items_of(body: Seq<u8>) -> Option<
    Seq<(Option<Seq<char>>, Option<Seq<char>>)>,
>;

/// Relies on rss::Channel::read_from: parses an RSS document from bytes and
/// hands its items out; the title and link of each item are carried over
/// unchanged.
#[verifier::external_body]
fn read_feed_items(body: &[u8]) -> (r: Result<Vec<FeedItem>, rss::Error>)
    ensures
        match r {
            Ok(items) => feed_items_of(body@) == Some(item_views(items@)),
            Err(_) => feed_items_of(body@) is None,
        },
{
    let channel = rss::Channel::read_from(body)?;
    Ok(channel.into_items().into_iter().map(|i| FeedItem {
        title: i.title().map(str::to_string),
        link: i.link().map(str::to_string),
    }).collect())
}

/// What a search response decodes to: every well-formed item as a result,
/// and a recorded error for every item missing a required field.
#[derive(Debug)]
pub struct SearchResults {
    pub results: Vec<TorrentResult>,
    pub item_errors: Vec<ResultError>,
}

/// Decode a search response body as a result feed. An item missing its
/// title or link is skipped and its error recorded; the remaining items are
/// still returned. A body that is no feed at all fails the whole request.
pub fn decode_results(body: &[u8]) -> (r: Result<SearchResults, DecodeError>)
    ensures
        match r {
            Ok(out) => feed_items_of(body@) matches Some(views) && result_views(out.results@)
                == results_of(views) && out.item_errors@ == errors_of(views),
            Err(e) => feed_items_of(body@) is None && e == DecodeError::MalformedFeed,
        },
{
    match read_feed_items(body) {
        Err(_) => Err(DecodeError::MalformedFeed),
        Ok(items) => {
            let (results, item_errors) = crate::torrent_result::collect_results(&items);
            Ok(SearchResults { results, item_errors })
        },
    }
}

/// The search capability a search function asks for.
pub open spec fn capability_of(f: SearchFunction) -> SearchCapability {
    match f {
        SearchFunction::Search => SearchCapability::Search,
        SearchFunction::TVSearch(_) => SearchCapability::TV,
        SearchFunction::MovieSearch(_) => SearchCapability::Movie,
        SearchFunction::MusicSearch => SearchCapability::Music,
        SearchFunction::BookSearch => SearchCapability::Book,
    }
}

/// Whether the advertised capabilities cover the requested search: the
/// search type itself, and each parameter that is actually set and has a
/// supported-parameter token (the free-text query, and the season, episode,
/// tvdb and imdb ids).
pub open spec fn search_allowed(
    sc: SearchingCapabilities,
    f: SearchFunction,
    g: GenericSearchParameters,
) -> bool {
    let m = sc.as_map();
    let cap = capability_of(f);
    m.contains_key(cap) && (g.query is Some ==> m[cap].contains(SupportedParam::Query)) && (match f {
        SearchFunction::TVSearch(tv) => (tv.season is Some ==> m[cap].contains(
            SupportedParam::Season,
        )) && (tv.episode is Some ==> m[cap].contains(SupportedParam::Episode)) && (
        tv.tvdb_id is Some ==> m[cap].contains(SupportedParam::TVDB)),
        SearchFunction::MovieSearch(mv) => (mv.imdb_id is Some ==> m[cap].contains(
            SupportedParam::IMDB,
        )),
        _ => true,
    })
}

impl SearchFunction {
    /// The search capability this function asks for.
    pub fn capability(&self) -> (r: SearchCapability)
        ensures
            r == capability_of(*self),
    {
        match self {
            SearchFunction::Search => SearchCapability::Search,
            SearchFunction::TVSearch(_) => SearchCapability::TV,
            SearchFunction::MovieSearch(_) => SearchCapability::Movie,
            SearchFunction::MusicSearch => SearchCapability::Music,
            SearchFunction::BookSearch => SearchCapability::Book,
        }
    }
}

/// Check a requested search against the advertised capabilities before
/// anything is encoded or sent: an unsupported search type, or a set
/// parameter outside the type's allow-list, fails fast with a
/// capability-mismatch error.
pub fn check_search_supported(
    sc: &SearchingCapabilities,
    func: &SearchFunction,
    generic: &GenericSearchParameters,
) -> (r: Result<(), ClientError>)
    ensures
        r is Ok <==> search_allowed(*sc, *func, *generic),
        !sc.as_map().contains_key(capability_of(*func)) ==> r == Err::<(), ClientError>(
            ClientError::CapabilityMismatch(CapabilityMismatch::SearchTypeUnsupported),
        ),
        sc.as_map().contains_key(capability_of(*func)) && !search_allowed(*sc, *func, *generic)
            ==> r == Err::<(), ClientError>(
            ClientError::CapabilityMismatch(CapabilityMismatch::ParamUnsupported),
        ),
{
    let cap = func.capability();
    if !sc.does_support_search(cap) {
        return Err(ClientError::CapabilityMismatch(CapabilityMismatch::SearchTypeUnsupported));
    }
    if generic.query.is_some() && !sc.does_search_support_param(cap, SupportedParam::Query) {
        return Err(ClientError::CapabilityMismatch(CapabilityMismatch::ParamUnsupported));
    }
    match func {
        SearchFunction::TVSearch(tv) => {
            if tv.season.is_some() && !sc.does_search_support_param(cap, SupportedParam::Season) {
                return Err(ClientError::CapabilityMismatch(CapabilityMismatch::ParamUnsupported));
            }
            if tv.episode.is_some() && !sc.does_search_support_param(cap, SupportedParam::Episode) {
                return Err(ClientError::CapabilityMismatch(CapabilityMismatch::ParamUnsupported));
            }
            if tv.tvdb_id.is_some() && !sc.does_search_support_param(cap, SupportedParam::TVDB) {
                return Err(ClientError::CapabilityMismatch(CapabilityMismatch::ParamUnsupported));
            }
        },
        SearchFunction::MovieSearch(mv) => {
            if mv.imdb_id.is_some() && !sc.does_search_support_param(cap, SupportedParam::IMDB) {
                return Err(ClientError::CapabilityMismatch(CapabilityMismatch::ParamUnsupported));
            }
        },
        _ => {},
    }
    Ok(())
}

/// The full URL of one request: the endpoint, the API key, and the encoded
/// parameters.
pub open spec fn request_url_text(c: TorznabClient, params: Seq<char>) -> Seq<char> {
    c.base_url@ + "?apikey="@ + c.api_key@ + params
}

/// One indexer's client core: its identity, credentials, and (once
/// discovered) capabilities. Starts with empty capabilities and moves, at
/// most once per discovery, to the decoded set; the transition never
/// exposes a partial value.
#[derive(Debug)]
pub struct TorznabClient {
    pub name: String,
    pub base_url: String,
    pub api_key: String,
    pub capabilities: Capabilities,
}

impl TorznabClient {
    /// Construct a new client without getting the capabilities: they start
    /// empty until a discovery response is stored.
    pub fn new_no_capabilities(name: String, base_url: &str, api_key: &str) -> (r: Self)
        ensures
            r.name == name,
            r.base_url@ == base_url@,
            r.api_key@ == api_key@,
            r.capabilities.categories.categories@.len() == 0,
            r.capabilities.searching_capabilities.supported_functions@.len() == 0,
    {
        TorznabClient {
            name,
            base_url: base_url.to_owned(),
            api_key: api_key.to_owned(),
            capabilities: Capabilities::default(),
        }
    }

    /// The URL of a request with the given encoded parameters.
    pub fn request_url(&self, param_str: &str) -> (r: String)
        ensures
            r@ == request_url_text(*self, param_str@),
    {
        let mut url = self.base_url.clone();
        url.append("?apikey=");
        url.append(self.api_key.as_str());
        url.append(param_str);
        proof {
            assert(url@ =~= request_url_text(*self, param_str@));
        }
        url
    }

    /// The URL of a capability-discovery request.
    pub fn capabilities_url(&self) -> (r: String)
        ensures
            r@ == request_url_text(*self, "&t=caps"@),
    {
        self.request_url("&t=caps")
    }

    /// Replace the stored capabilities wholesale with a freshly decoded
    /// set; nothing else of the client changes.
    pub fn store_capabilities(&mut self, capabilities: Capabilities)
        ensures
            final(self).capabilities == capabilities,
            final(self).name == old(self).name,
            final(self).base_url == old(self).base_url,
            final(self).api_key == old(self).api_key,
    {
        self.capabilities = capabilities;
    }

    /// The URL of a search request, after checking the request against the
    /// stored capabilities: an uncovered search type or parameter is a
    /// capability mismatch, and a function this client cannot encode is an
    /// unsupported-function error; nothing is sent in either case.
    pub fn search_url(&self, func: &SearchFunction, generic_params: &GenericSearchParameters) -> (r:
        Result<String, ClientError>)
        ensures
            r is Ok <==> search_allowed(self.capabilities.searching_capabilities, *func, *generic_params)
                && function_encodable(*func),
            r matches Ok(url) ==> url@ == request_url_text(
                *self,
                function_fragment(*func) + generic_fragment(*generic_params),
            ),
            r matches Err(e) ==> (if !search_allowed(
                self.capabilities.searching_capabilities,
                *func,
                *generic_params,
            ) {
                e is CapabilityMismatch
            } else {
                e is UnsupportedFunction
            }),
    {
        match check_search_supported(&self.capabilities.searching_capabilities, func, generic_params) {
            Err(e) => Err(e),
            Ok(()) => match func.to_params() {
                Err(e) => Err(e),
                Ok(mut params) => {
                    let generic = generic_params.to_params();
                    params.append(generic.as_str());
                    Ok(self.request_url(params.as_str()))
                },
            },
        }
    }
}

} // verus!
