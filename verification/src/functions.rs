//! The query "modes" of the protocol and their encoding. A function this
//! client cannot encode yet yields a typed error, never a panic.
use vstd::prelude::*;

use crate::error::ClientError;
use crate::search_parameters::{
    GenericSearchParameters, MovieSearchParameters, TVSearchParameters, generic_fragment,
    movie_fragment, tv_fragment,
};

verus! {

/// A search query, with the parameters specific to its search type.
#[derive(Debug, Clone)]
pub enum SearchFunction {
    /// Free text search query.
    Search,
    /// Search query with tv specific query params and filtering.
    TVSearch(TVSearchParameters),
    /// Search query with movie specific query params and filtering.
    MovieSearch(MovieSearchParameters),
    /// Search query with music specific query params and filtering.
    MusicSearch,
    /// Search query with book specific query params and filtering.
    BookSearch,
}

/// The protocol token of each search function.
pub open spec fn function_token(f: SearchFunction) -> Seq<char> {
    match f {
        SearchFunction::Search => "search"@,
        SearchFunction::TVSearch(_) => "tvsearch"@,
        SearchFunction::MovieSearch(_) => "movie"@,
        SearchFunction::MusicSearch => "music"@,
        SearchFunction::BookSearch => "book"@,
    }
}

/// Whether this client can encode the function's parameters. Music and book
/// search parameters are not modeled yet.
pub open spec fn function_encodable(f: SearchFunction) -> bool {
    match f {
        SearchFunction::Search => true,
        SearchFunction::TVSearch(_) => true,
        SearchFunction::MovieSearch(_) => true,
        SearchFunction::MusicSearch => false,
        SearchFunction::BookSearch => false,
    }
}

/// The whole fragment of a search function: `&t=` with its token, then the
/// fragment of its own parameters.
pub open spec fn function_fragment(f: SearchFunction) -> Seq<char> {
    "&t="@ + function_token(f) + (match f {
        SearchFunction::Search => Seq::<char>::empty(),
        SearchFunction::TVSearch(p) => tv_fragment(p),
        SearchFunction::MovieSearch(p) => movie_fragment(p),
        SearchFunction::MusicSearch => Seq::<char>::empty(),
        SearchFunction::BookSearch => Seq::<char>::empty(),
    })
}

impl SearchFunction {
    /// The protocol token of this search function.
    pub fn to_function_str(&self) -> (r: &str)
        ensures
            r@ == function_token(*self),
    {
        match self {
            SearchFunction::Search => "search",
            SearchFunction::TVSearch(_) => "tvsearch",
            SearchFunction::MovieSearch(_) => "movie",
            SearchFunction::MusicSearch => "music",
            SearchFunction::BookSearch => "book",
        }
    }

    /// Encode this function and its own parameters as a query-string
    /// fragment. Music and book searches are not modeled yet: they yield
    /// an unsupported-function error.
    pub fn to_params(&self) -> (r: Result<String, ClientError>)
        ensures
            function_encodable(*self) ==> (r matches Ok(s) && s@ == function_fragment(*self)),
            !function_encodable(*self) ==> (r matches Err(e) && e is UnsupportedFunction),
    {
        match self {
            SearchFunction::MusicSearch => Err(ClientError::UnsupportedFunction),
            SearchFunction::BookSearch => Err(ClientError::UnsupportedFunction),
            _ => {
                let mut params = "&t=".to_owned();
                params.append(self.to_function_str());
                match self {
                    SearchFunction::Search => {},
                    SearchFunction::TVSearch(p) => {
                        let inner = p.to_params();
                        params.append(inner.as_str());
                    },
                    SearchFunction::MovieSearch(p) => {
                        let inner = p.to_params();
                        params.append(inner.as_str());
                    },
                    _ => {},
                }
                proof {
                    assert(params@ =~= function_fragment(*self));
                }
                Ok(params)
            },
        }
    }
}

/// A top-level request of the protocol. Only capability discovery and the
/// search functions are modeled; the remaining account-oriented requests
/// yield an unsupported-function error.
#[derive(Debug, Clone)]
pub enum TorznabFunction {
    /// Returns the capabilities of the api.
    Capabilities,
    SearchFunction(GenericSearchParameters, SearchFunction),
    /// (newznab) Returns all details about a particular item.
    Details,
    /// (newznab) Returns an nfo for a particular item.
    GetNFO,
    /// (newznab) Returns nzb for the specified item.
    GetNZB,
    /// (newznab) Adds item to the users cart.
    CardAdd,
    /// (newznab) Removes item from the users cart.
    CardDel,
    /// (newznab) Returns all comments known about an item.
    Comments,
    /// (newznab) Adds a comment to an item.
    CommentsAdd,
    /// (newznab) Register a new user account.
    Register,
    /// (newznab) Retrieves information about an user account.
    User,
}

/// Whether this client can encode the request.
pub open spec fn torznab_encodable(f: TorznabFunction) -> bool {
    match f {
        TorznabFunction::Capabilities => true,
        TorznabFunction::SearchFunction(_, func) => function_encodable(func),
        _ => false,
    }
}

/// The whole fragment of a request: `&t=caps` for capability discovery; for
/// a search, the generic parameters' fragment followed by the search
/// function's own fragment.
pub open spec fn torznab_fragment(f: TorznabFunction) -> Seq<char> {
    match f {
        TorznabFunction::Capabilities => "&t=caps"@,
        TorznabFunction::SearchFunction(p, func) => generic_fragment(p) + function_fragment(func),
        _ => Seq::empty(),
    }
}

impl TorznabFunction {
    /// The protocol token of this request, for the modeled requests.
    pub fn to_function_str(&self) -> (r: Result<&str, ClientError>)
        ensures
            match *self {
                TorznabFunction::Capabilities => r matches Ok(s) && s@ == "caps"@,
                TorznabFunction::SearchFunction(_, func) => r matches Ok(s) && s@
                    == function_token(func),
                _ => r matches Err(e) && e is UnsupportedFunction,
            },
    {
        match self {
            TorznabFunction::Capabilities => Ok("caps"),
            TorznabFunction::SearchFunction(_, func) => Ok(func.to_function_str()),
            _ => Err(ClientError::UnsupportedFunction),
        }
    }

    /// Encode this request as a query-string fragment.
    pub fn to_params(&self) -> (r: Result<String, ClientError>)
        ensures
            torznab_encodable(*self) ==> (r matches Ok(s) && s@ == torznab_fragment(*self)),
            !torznab_encodable(*self) ==> (r matches Err(e) && e is UnsupportedFunction),
    {
        match self {
            TorznabFunction::Capabilities => Ok("&t=caps".to_owned()),
            TorznabFunction::SearchFunction(p, func) => {
                let mut params = p.to_params();
                match func.to_params() {
                    Ok(inner) => {
                        params.append(inner.as_str());
                        Ok(params)
                    },
                    Err(e) => Err(e),
                }
            },
            _ => Err(ClientError::UnsupportedFunction),
        }
    }
}

} // verus!
