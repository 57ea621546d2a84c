//! What an indexer supports: search types, per-type parameters, and the
//! category tree, decoded from the fields of a capability-discovery
//! document. A search type is retained iff it is marked available; an
//! unrecognized token is a decode error, never a panic.
use vstd::prelude::*;

use crate::error::DecodeError;
use crate::search_parameters::string_views;

verus! {

/// A parameter an indexer may accept for a search type.
#[derive(Debug, Clone, Copy, PartialEq, Eq, Structural)]
pub enum SupportedParam {
    Query,
    Season,
    Episode,
    IMDB,
    TMDB,
    TVDB,
}

/// A search type an indexer may support.
#[derive(Debug, Clone, Copy, PartialEq, Eq, Structural)]
pub enum SearchCapability {
    Search,
    TV,
    Movie,
    Music,
    Audio,
    Book,
}

/// The parameter named by a supported-parameter token, if any.
pub open spec fn param_of_token(s: Seq<char>) -> Option<SupportedParam> {
    if s == "q"@ {
        Some(SupportedParam::Query)
    } else if s == "season"@ {
        Some(SupportedParam::Season)
    } else if s == "ep"@ {
        Some(SupportedParam::Episode)
    } else if s == "imdbid"@ {
        Some(SupportedParam::IMDB)
    } else if s == "tmdbid"@ {
        Some(SupportedParam::TMDB)
    } else if s == "tvdbid"@ {
        Some(SupportedParam::TVDB)
    } else {
        None
    }
}

/// The search capability named by a search-type token, if any.
pub open spec fn cap_of_token(s: Seq<char>) -> Option<SearchCapability> {
    if s == "search"@ {
        Some(SearchCapability::Search)
    } else if s == "tv-search"@ {
        Some(SearchCapability::TV)
    } else if s == "movie-search"@ {
        Some(SearchCapability::Movie)
    } else if s == "music-search"@ {
        Some(SearchCapability::Music)
    } else if s == "audio-search"@ {
        Some(SearchCapability::Audio)
    } else if s == "book-search"@ {
        Some(SearchCapability::Book)
    } else {
        None
    }
}

/// Whether two strings hold the same characters.
fn str_eq(a: &str, b: &str) -> (r: bool)
    ensures
        r == (a@ == b@),
{
    let x = a.to_owned();
    let y = b.to_owned();
    x == y
}

impl SupportedParam {
    /// Decode a supported-parameter token; an unrecognized token is a
    /// decode error.
    pub fn from_token(token: &str) -> (r: Result<SupportedParam, DecodeError>)
        ensures
            match param_of_token(token@) {
                Some(p) => r == Ok::<SupportedParam, DecodeError>(p),
                None => r == Err::<SupportedParam, DecodeError>(DecodeError::UnknownParam),
            },
    {
        if str_eq(token, "q") {
            Ok(SupportedParam::Query)
        } else if str_eq(token, "season") {
            Ok(SupportedParam::Season)
        } else if str_eq(token, "ep") {
            Ok(SupportedParam::Episode)
        } else if str_eq(token, "imdbid") {
            Ok(SupportedParam::IMDB)
        } else if str_eq(token, "tmdbid") {
            Ok(SupportedParam::TMDB)
        } else if str_eq(token, "tvdbid") {
            Ok(SupportedParam::TVDB)
        } else {
            Err(DecodeError::UnknownParam)
        }
    }
}

impl SearchCapability {
    /// Decode a search-type token; an unrecognized token is a decode error.
    pub fn from_token(token: &str) -> (r: Result<SearchCapability, DecodeError>)
        ensures
            match cap_of_token(token@) {
                Some(c) => r == Ok::<SearchCapability, DecodeError>(c),
                None => r == Err::<SearchCapability, DecodeError>(DecodeError::UnknownSearchType),
            },
    {
        if str_eq(token, "search") {
            Ok(SearchCapability::Search)
        } else if str_eq(token, "tv-search") {
            Ok(SearchCapability::TV)
        } else if str_eq(token, "movie-search") {
            Ok(SearchCapability::Movie)
        } else if str_eq(token, "music-search") {
            Ok(SearchCapability::Music)
        } else if str_eq(token, "audio-search") {
            Ok(SearchCapability::Audio)
        } else if str_eq(token, "book-search") {
            Ok(SearchCapability::Book)
        } else {
            Err(DecodeError::UnknownSearchType)
        }
    }
}

/// One search type an indexer supports, with the parameters it accepts.
#[derive(Debug, Clone)]
pub struct CapabilityEntry {
    pub capability: SearchCapability,
    pub params: Vec<SupportedParam>,
}

/// The mapping the entries stand for: each capability maps to the params of
/// its last entry.
pub open spec fn entries_map(entries: Seq<CapabilityEntry>) -> Map<
    SearchCapability,
    Seq<SupportedParam>,
>
    decreases entries.len(),
{
    if entries.len() == 0 {
        Map::empty()
    } else {
        entries_map(entries.drop_last()).insert(
            entries.last().capability,
            entries.last().params@,
        )
    }
}

proof fn lemma_entries_map_contains(entries: Seq<CapabilityEntry>, cap: SearchCapability)
    ensures
        entries_map(entries).contains_key(cap) <==> exists|i: int|
            0 <= i < entries.len() && entries[i].capability == cap,
    decreases entries.len(),
{
    if entries.len() > 0 {
        lemma_entries_map_contains(entries.drop_last(), cap);
        if entries.last().capability == cap {
            assert(entries[entries.len() - 1].capability == cap);
        } else if entries_map(entries).contains_key(cap) {
            let i = choose|i: int|
                0 <= i < entries.drop_last().len() && entries.drop_last()[i].capability == cap;
            assert(entries[i].capability == cap);
        } else {
            assert forall|i: int|
                0 <= i < entries.len() && entries[i].capability == cap implies false by {
                assert(i < entries.len() - 1);
                assert(entries.drop_last()[i].capability == cap);
            }
        }
    }
}

proof fn lemma_entries_map_get(entries: Seq<CapabilityEntry>, k: int)
    requires
        0 <= k < entries.len(),
        forall|j: int| k < j < entries.len() ==> entries[j].capability != entries[k].capability,
    ensures
        entries_map(entries).contains_key(entries[k].capability),
        entries_map(entries)[entries[k].capability] == entries[k].params@,
    decreases entries.len(),
{
    if k == entries.len() - 1 {
        assert(entries.last() == entries[k]);
    } else {
        assert(entries.drop_last()[k] == entries[k]);
        lemma_entries_map_get(entries.drop_last(), k);
        assert(entries.last().capability != entries[k].capability);
    }
}

/// Which search types an indexer supports, and with which parameters.
/// Later entries for the same capability replace earlier ones, as map
/// insertion does.
#[derive(Debug, Clone)]
pub struct SearchingCapabilities {
    pub supported_functions: Vec<CapabilityEntry>,
}

impl SearchingCapabilities {
    /// The mapping from supported search type to accepted parameters.
    pub open spec fn as_map(self) -> Map<SearchCapability, Seq<SupportedParam>> {
        entries_map(self.supported_functions@)
    }

    pub fn new(supported_functions: Vec<CapabilityEntry>) -> (r: SearchingCapabilities)
        ensures
            r.supported_functions == supported_functions,
    {
        SearchingCapabilities { supported_functions }
    }

    /// Returns true if the search type is supported.
    pub fn does_support_search(&self, search_capability: SearchCapability) -> (r: bool)
        ensures
            r == self.as_map().contains_key(search_capability),
    {
        proof {
            lemma_entries_map_contains(self.supported_functions@, search_capability);
        }
        let mut i: usize = 0;
        while i < self.supported_functions.len()
            invariant
                i <= self.supported_functions@.len(),
                forall|j: int|
                    0 <= j < i ==> self.supported_functions@[j].capability != search_capability,
                self.as_map().contains_key(search_capability) <==> exists|k: int|
                    0 <= k < self.supported_functions@.len()
                        && self.supported_functions@[k].capability == search_capability,
            decreases self.supported_functions@.len() - i,
        {
            if self.supported_functions[i].capability == search_capability {
                return true;
            }
            i += 1;
        }
        false
    }

    /// Returns true if a search type supports a specific parameter; false
    /// whenever the search type itself is unsupported.
    pub fn does_search_support_param(&self, capability: SearchCapability, param: SupportedParam) -> (r:
        bool)
        ensures
            r == (self.as_map().contains_key(capability) && self.as_map()[capability].contains(
                param,
            )),
    {
        proof {
            lemma_entries_map_contains(self.supported_functions@, capability);
        }
        let mut i: usize = self.supported_functions.len();
        while i > 0
            invariant
                i <= self.supported_functions@.len(),
                forall|j: int|
                    i <= j < self.supported_functions@.len()
                        ==> self.supported_functions@[j].capability != capability,
                self.as_map().contains_key(capability) <==> exists|k: int|
                    0 <= k < self.supported_functions@.len()
                        && self.supported_functions@[k].capability == capability,
            decreases i,
        {
            i -= 1;
            if self.supported_functions[i].capability == capability {
                proof {
                    lemma_entries_map_get(self.supported_functions@, i as int);
                }
                return params_contain(&self.supported_functions[i].params, param);
            }
        }
        false
    }
}

/// Whether the given parameter list holds the given parameter.
fn params_contain(params: &Vec<SupportedParam>, param: SupportedParam) -> (r: bool)
    ensures
        r == params@.contains(param),
{
    let mut i: usize = 0;
    while i < params.len()
        invariant
            i <= params@.len(),
            forall|j: int| 0 <= j < i ==> params@[j] != param,
        decreases params@.len() - i,
    {
        if params[i] == param {
            return true;
        }
        i += 1;
    }
    false
}

impl Default for SearchingCapabilities {
    /// An empty mapping: nothing is supported.
    fn default() -> (r: Self)
        ensures
            r.supported_functions@.len() == 0,
    {
        SearchingCapabilities { supported_functions: Vec::new() }
    }
}

/// The index of the first comma, or a negative value when there is none.
pub open spec fn first_comma(s: Seq<char>) -> int
    decreases s.len(),
{
    if s.len() == 0 {
        -1
    } else if s[0] == ',' {
        0
    } else {
        let r = first_comma(s.drop_first());
        if r < 0 {
            -1
        } else {
            r + 1
        }
    }
}

proof fn lemma_first_comma(s: Seq<char>)
    ensures
        first_comma(s) < 0 ==> forall|j: int| 0 <= j < s.len() ==> s[j] != ',',
        first_comma(s) >= 0 ==> first_comma(s) < s.len() && s[first_comma(s)] == ',' && forall|
            j: int,
        | 0 <= j < first_comma(s) ==> s[j] != ',',
    decreases s.len(),
{
    if s.len() > 0 && s[0] != ',' {
        lemma_first_comma(s.drop_first());
        let r = first_comma(s.drop_first());
        if r < 0 {
            assert forall|j: int| 0 <= j < s.len() implies s[j] != ',' by {
                if j > 0 {
                    assert(s.drop_first()[j - 1] == s[j]);
                }
            }
        } else {
            assert(s[r + 1] == s.drop_first()[r]);
            assert forall|j: int| 0 <= j < r + 1 implies s[j] != ',' by {
                if j > 0 {
                    assert(s.drop_first()[j - 1] == s[j]);
                }
            }
        }
    }
}

/// The comma-separated fields of the text, in order; a text without commas
/// is one field, even when empty.
pub open spec fn split_commas_text(s: Seq<char>) -> Seq<Seq<char>>
    decreases s.len(),
{
    let fc = first_comma(s);
    if fc < 0 || fc >= s.len() {
        seq![s]
    } else {
        seq![s.take(fc)] + split_commas_text(s.skip(fc + 1))
    }
}

/// Find the first comma of a string, if any.
fn find_comma(s: &str) -> (r: Option<usize>)
    ensures
        match r {
            Some(i) => i < s@.len() && s@[i as int] == ',' && (forall|j: int|
                0 <= j < i ==> s@[j] != ','),
            None => forall|j: int| 0 <= j < s@.len() ==> s@[j] != ',',
        },
{
    let n = s.unicode_len();
    let mut i: usize = 0;
    while i < n
        invariant
            i <= n,
            n == s@.len(),
            forall|j: int| 0 <= j < i ==> s@[j] != ',',
        decreases n - i,
    {
        let c = s.get_char(i);
        if c == ',' {
            return Some(i);
        }
        i += 1;
    }
    None
}

/// Split a comma-separated field into its parts.
pub fn split_commas(s: &str) -> (r: Vec<String>)
    ensures
        string_views(r@) == split_commas_text(s@),
    decreases s@.len(),
{
    proof {
        lemma_first_comma(s@);
    }
    match find_comma(s) {
        None => {
            let mut r: Vec<String> = Vec::new();
            r.push(s.to_owned());
            proof {
                assert(string_views(r@) =~= split_commas_text(s@));
            }
            r
        },
        Some(i) => {
            let n = s.unicode_len();
            let head = s.substring_char(0, i).to_owned();
            let tail = s.substring_char(i + 1, n);
            proof {
                assert(first_comma(s@) == i);
                assert(tail@ =~= s@.skip(i + 1));
                assert(head@ =~= s@.take(i as int));
            }
            let mut rest = split_commas(tail);
            rest.insert(0, head);
            proof {
                assert(string_views(rest@) =~= split_commas_text(s@));
            }
            rest
        },
    }
}

/// The parameters named by the given tokens, or the error of the first
/// unrecognized one.
pub open spec fn params_of_tokens(tokens: Seq<Seq<char>>) -> Result<Seq<SupportedParam>, DecodeError>
    decreases tokens.len(),
{
    if tokens.len() == 0 {
        Ok(Seq::empty())
    } else {
        match params_of_tokens(tokens.drop_last()) {
            Err(e) => Err(e),
            Ok(rest) => match param_of_token(tokens.last()) {
                None => Err(DecodeError::UnknownParam),
                Some(p) => Ok(rest.push(p)),
            },
        }
    }
}

/// Decode a list of supported-parameter tokens.
fn params_from_tokens(tokens: &Vec<String>) -> (r: Result<Vec<SupportedParam>, DecodeError>)
    ensures
        match r {
            Ok(ps) => params_of_tokens(string_views(tokens@)) == Ok::<
                Seq<SupportedParam>,
                DecodeError,
            >(ps@),
            Err(e) => params_of_tokens(string_views(tokens@)) == Err::<
                Seq<SupportedParam>,
                DecodeError,
            >(e),
        },
{
    let mut params: Vec<SupportedParam> = Vec::new();
    let mut i: usize = 0;
    while i < tokens.len()
        invariant
            i <= tokens@.len(),
            params_of_tokens(string_views(tokens@.take(i as int))) == Ok::<
                Seq<SupportedParam>,
                DecodeError,
            >(params@),
        decreases tokens@.len() - i,
    {
        proof {
            assert(string_views(tokens@.take(i + 1)).drop_last() =~= string_views(
                tokens@.take(i as int),
            ));
            assert(string_views(tokens@.take(i + 1)).last() == tokens@[i as int]@);
        }
        match SupportedParam::from_token(tokens[i].as_str()) {
            Ok(p) => params.push(p),
            Err(e) => {
                proof {
                    lemma_params_prefix_err(string_views(tokens@), i + 1);
                    assert(string_views(tokens@).take(i + 1) =~= string_views(tokens@.take(i + 1)));
                }
                return Err(e);
            },
        }
        i += 1;
    }
    proof {
        assert(tokens@.take(tokens@.len() as int) =~= tokens@);
    }
    Ok(params)
}

proof fn lemma_params_prefix_err(tokens: Seq<Seq<char>>, k: int)
    requires
        0 <= k <= tokens.len(),
        params_of_tokens(tokens.take(k)) is Err,
    ensures
        params_of_tokens(tokens) == params_of_tokens(tokens.take(k)),
    decreases tokens.len() - k,
{
    if k < tokens.len() {
        assert(tokens.take(k + 1).drop_last() =~= tokens.take(k));
        lemma_params_prefix_err(tokens, k + 1);
    } else {
        assert(tokens.take(k) =~= tokens);
    }
}

/// The searching fields of one search type of a discovery document, as
/// plain values: the search-type token, the availability token, and the
/// comma-separated supported-parameter field when one was given.
#[derive(Debug, Clone)]
pub struct RawSearchEntry {
    pub kind: String,
    pub available: String,
    pub supported_params: Option<String>,
}

/// What one raw entry contributes: nothing when not available; its
/// capability and parameters when available; the error of an unrecognized
/// search-type or parameter token.
pub open spec fn decoded_entry(e: RawSearchEntry) -> Result<
    Option<(SearchCapability, Seq<SupportedParam>)>,
    DecodeError,
> {
    match cap_of_token(e.kind@) {
        None => Err(DecodeError::UnknownSearchType),
        Some(cap) => if e.available@ != "yes"@ {
            Ok(None)
        } else {
            match e.supported_params {
                None => Ok(Some((cap, Seq::empty()))),
                Some(text) => match params_of_tokens(split_commas_text(text@)) {
                    Err(err) => Err(err),
                    Ok(ps) => Ok(Some((cap, ps))),
                },
            }
        },
    }
}

/// The mapping described by the raw entries, or the error of the first
/// undecodable one. A search type is included iff its availability token is
/// exactly `yes`.
pub open spec fn decoded_searching(raw: Seq<RawSearchEntry>) -> Result<
    Map<SearchCapability, Seq<SupportedParam>>,
    DecodeError,
>
    decreases raw.len(),
{
    if raw.len() == 0 {
        Ok(Map::empty())
    } else {
        match decoded_searching(raw.drop_last()) {
            Err(e) => Err(e),
            Ok(m) => match decoded_entry(raw.last()) {
                Err(e) => Err(e),
                Ok(None) => Ok(m),
                Ok(Some((cap, ps))) => Ok(m.insert(cap, ps)),
            },
        }
    }
}

proof fn lemma_decoded_searching_prefix_err(raw: Seq<RawSearchEntry>, k: int)
    requires
        0 <= k <= raw.len(),
        decoded_searching(raw.take(k)) is Err,
    ensures
        decoded_searching(raw) == decoded_searching(raw.take(k)),
    decreases raw.len() - k,
{
    if k < raw.len() {
        assert(raw.take(k + 1).drop_last() =~= raw.take(k));
        lemma_decoded_searching_prefix_err(raw, k + 1);
    } else {
        assert(raw.take(k) =~= raw);
    }
}

/// Decode the searching fields of one search type.
fn decode_entry(e: &RawSearchEntry) -> (r: Result<Option<CapabilityEntry>, DecodeError>)
    ensures
        match r {
            Ok(Some(entry)) => decoded_entry(*e) == Ok::<
                Option<(SearchCapability, Seq<SupportedParam>)>,
                DecodeError,
            >(Some((entry.capability, entry.params@))),
            Ok(None) => decoded_entry(*e) == Ok::<
                Option<(SearchCapability, Seq<SupportedParam>)>,
                DecodeError,
            >(None),
            Err(err) => decoded_entry(*e) == Err::<
                Option<(SearchCapability, Seq<SupportedParam>)>,
                DecodeError,
            >(err),
        },
{
    let cap = match SearchCapability::from_token(e.kind.as_str()) {
        Ok(c) => c,
        Err(err) => {
            return Err(err);
        },
    };
    if !str_eq(e.available.as_str(), "yes") {
        return Ok(None);
    }
    match &e.supported_params {
        None => Ok(Some(CapabilityEntry { capability: cap, params: Vec::new() })),
        Some(text) => {
            let tokens = split_commas(text.as_str());
            match params_from_tokens(&tokens) {
                Ok(ps) => Ok(Some(CapabilityEntry { capability: cap, params: ps })),
                Err(err) => Err(err),
            }
        },
    }
}

impl SearchingCapabilities {
    /// Decode the searching section of a discovery document, given as plain
    /// per-search-type fields. A search type is retained iff its
    /// availability token is exactly `yes`; an unrecognized search-type or
    /// parameter token is a decode error.
    pub fn from_raw(raw: &Vec<RawSearchEntry>) -> (r: Result<SearchingCapabilities, DecodeError>)
        ensures
            match r {
                Ok(sc) => decoded_searching(raw@) == Ok::<
                    Map<SearchCapability, Seq<SupportedParam>>,
                    DecodeError,
                >(sc.as_map()),
                Err(e) => decoded_searching(raw@) == Err::<
                    Map<SearchCapability, Seq<SupportedParam>>,
                    DecodeError,
                >(e),
            },
    {
        let mut entries: Vec<CapabilityEntry> = Vec::new();
        let mut i: usize = 0;
        while i < raw.len()
            invariant
                i <= raw@.len(),
                decoded_searching(raw@.take(i as int)) == Ok::<
                    Map<SearchCapability, Seq<SupportedParam>>,
                    DecodeError,
                >(entries_map(entries@)),
            decreases raw@.len() - i,
        {
            proof {
                assert(raw@.take(i + 1).drop_last() =~= raw@.take(i as int));
                assert(raw@.take(i + 1).last() == raw@[i as int]);
            }
            match decode_entry(&raw[i]) {
                Err(err) => {
                    proof {
                        lemma_decoded_searching_prefix_err(raw@, i + 1);
                    }
                    return Err(err);
                },
                Ok(None) => {},
                Ok(Some(entry)) => {
                    let ghost prev = entries@;
                    entries.push(entry);
                    proof {
                        assert(entries@.drop_last() =~= prev);
                        assert(entries@.last() == entry);
                    }
                },
            }
            i += 1;
        }
        proof {
            assert(raw@.take(raw@.len() as int) =~= raw@);
        }
        Ok(SearchingCapabilities { supported_functions: entries })
    }
}

/// One node of the category tree.
#[derive(Debug)]
pub struct Category {
    pub id: u32,
    pub name: String,
    pub sub_categories: Option<Vec<Category>>,
}

/// The category tree of an indexer.
#[derive(Debug)]
pub struct Categories {
    pub categories: Vec<Category>,
}

impl Categories {
    pub fn new(categories: Vec<Category>) -> (r: Self)
        ensures
            r.categories == categories,
    {
        Categories { categories }
    }
}

impl Default for Categories {
    /// An empty tree.
    fn default() -> (r: Self)
        ensures
            r.categories@.len() == 0,
    {
        Categories { categories: Vec::new() }
    }
}

/// Everything a capability-discovery response describes.
#[derive(Debug)]
pub struct Capabilities {
    pub categories: Categories,
    pub searching_capabilities: SearchingCapabilities,
}

impl Default for Capabilities {
    /// Empty categories, nothing supported.
    fn default() -> (r: Self)
        ensures
            r.categories.categories@.len() == 0,
            r.searching_capabilities.supported_functions@.len() == 0,
    {
        Capabilities {
            categories: Categories::default(),
            searching_capabilities: SearchingCapabilities::default(),
        }
    }
}

} // verus!
