//! Typed search parameters and their encoding into query-string fragments.
//!
//! Each parameter group encodes to a leading-`&`-delimited fragment; the
//! fragments of one group compose by concatenation in a fixed field order,
//! and an absent or empty field contributes nothing.
use vstd::prelude::*;

use crate::decimal::{dec_digits, int_digits, i64_decimal, u64_decimal};

verus! {

/// What `urlencoding::encode` returns for a given character sequence:
/// the percent-encoded form of its UTF-8 bytes. The result depends on the
/// input alone.
pub uninterp spec fn percent_encoded(s: Seq<char>) -> Seq<char>;

/// Relies on urlencoding::encode: percent-encodes every byte except ASCII
/// alphanumerics and `-`, `_`, `.`, `~`; an empty input yields an empty
/// output.
#[verifier::external_body]
fn encode_query_text(s: &str) -> (r: String)
    ensures
        r@ == percent_encoded(s@),
        s@.len() == 0 ==> r@.len() == 0,
{
    urlencoding::encode(s).into_owned()
}

/// The given parts joined with single commas, in order.
pub open spec fn comma_join(parts: Seq<Seq<char>>) -> Seq<char>
    decreases parts.len(),
{
    if parts.len() == 0 {
        Seq::empty()
    } else if parts.len() == 1 {
        parts[0]
    } else {
        parts[0] + seq![','] + comma_join(parts.drop_first())
    }
}

proof fn lemma_comma_join_push(parts: Seq<Seq<char>>, x: Seq<char>)
    ensures
        parts.len() == 0 ==> comma_join(parts.push(x)) == x,
        parts.len() > 0 ==> comma_join(parts.push(x)) == comma_join(parts) + seq![','] + x,
    decreases parts.len(),
{
    let p = parts.push(x);
    if parts.len() == 0 {
        assert(p.len() == 1);
        assert(p[0] == x);
    } else {
        assert(p[0] == parts[0]);
        assert(p.drop_first() =~= parts.drop_first().push(x));
        lemma_comma_join_push(parts.drop_first(), x);
        if parts.len() == 1 {
            assert(comma_join(p) == parts[0] + seq![','] + x);
            assert(comma_join(parts) == parts[0]);
        } else {
            assert(comma_join(p) == parts[0] + seq![','] + (comma_join(parts.drop_first())
                + seq![','] + x));
            assert(comma_join(parts) + seq![','] + x =~= parts[0] + seq![','] + (comma_join(
                parts.drop_first(),
            ) + seq![','] + x));
        }
    }
}

/// The decimal forms of the given numbers.
pub open spec fn decimal_texts(vals: Seq<i32>) -> Seq<Seq<char>> {
    vals.map_values(|c: i32| int_digits(c as int))
}

/// The views of the given strings.
pub open spec fn string_views(vals: Seq<String>) -> Seq<Seq<char>> {
    vals.map_values(|a: String| a@)
}

/// Join the decimal forms of the given numbers with commas.
fn join_decimals(vals: &Vec<i32>) -> (r: String)
    ensures
        r@ == comma_join(decimal_texts(vals@)),
{
    let mut r = String::new();
    let mut i: usize = 0;
    while i < vals.len()
        invariant
            i <= vals@.len(),
            r@ == comma_join(decimal_texts(vals@.take(i as int))),
        decreases vals@.len() - i,
    {
        if i > 0 {
            r.append(",");
        }
        let text = i64_decimal(vals[i] as i64);
        r.append(text.as_str());
        proof {
            reveal_strlit(",");
            lemma_comma_join_push(decimal_texts(vals@.take(i as int)), text@);
            assert(decimal_texts(vals@.take(i + 1)) =~= decimal_texts(vals@.take(i as int)).push(
                text@,
            ));
            assert(r@ =~= comma_join(decimal_texts(vals@.take(i + 1))));
        }
        i += 1;
    }
    proof {
        assert(vals@.take(vals@.len() as int) =~= vals@);
    }
    r
}

/// Join the given strings with commas.
fn join_strings(vals: &Vec<String>) -> (r: String)
    ensures
        r@ == comma_join(string_views(vals@)),
{
    let mut r = String::new();
    let mut i: usize = 0;
    while i < vals.len()
        invariant
            i <= vals@.len(),
            r@ == comma_join(string_views(vals@.take(i as int))),
        decreases vals@.len() - i,
    {
        if i > 0 {
            r.append(",");
        }
        r.append(vals[i].as_str());
        proof {
            reveal_strlit(",");
            lemma_comma_join_push(string_views(vals@.take(i as int)), vals@[i as int]@);
            assert(string_views(vals@.take(i + 1)) =~= string_views(vals@.take(i as int)).push(
                vals@[i as int]@,
            ));
            assert(r@ =~= comma_join(string_views(vals@.take(i + 1))));
        }
        i += 1;
    }
    proof {
        assert(vals@.take(vals@.len() as int) =~= vals@);
    }
    r
}

/// Query-type-independent parameters shared by every search.
#[derive(Debug, Clone)]
pub struct GenericSearchParameters {
    /// The string search query.
    pub query: Option<String>,
    /// Categories to search in.
    pub categories: Vec<i32>,
    /// Extended attribute names that should be included in results.
    pub attributes: Vec<String>,
    /// Specifies that all extended attributes should be included in the
    /// results. Overrules `attributes`.
    pub extended: Option<bool>,
    /// Number of items to skip in the result.
    pub offset: Option<i32>,
    /// Number of results to return.
    pub limit: Option<i32>,
}

/// The `&q=` fragment: the percent-encoded free-text query, when present.
pub open spec fn query_fragment(p: GenericSearchParameters) -> Seq<char> {
    match p.query {
        Some(q) => "&q="@ + percent_encoded(q@),
        None => Seq::empty(),
    }
}

/// The `&cat=` fragment: the categories in decimal, comma-joined, only when
/// at least one is present.
pub open spec fn categories_fragment(p: GenericSearchParameters) -> Seq<char> {
    if p.categories@.len() == 0 {
        Seq::empty()
    } else {
        "&cat="@ + comma_join(decimal_texts(p.categories@))
    }
}

/// The `&attrs=` fragment: the attribute names comma-joined, only when at
/// least one is present.
pub open spec fn attributes_fragment(p: GenericSearchParameters) -> Seq<char> {
    if p.attributes@.len() == 0 {
        Seq::empty()
    } else {
        "&attrs="@ + comma_join(string_views(p.attributes@))
    }
}

/// The `&extended=` fragment: `1` or `0`, when the flag is present.
pub open spec fn extended_fragment(p: GenericSearchParameters) -> Seq<char> {
    match p.extended {
        Some(true) => "&extended=1"@,
        Some(false) => "&extended=0"@,
        None => Seq::empty(),
    }
}

/// The `&offset=` fragment, when present.
pub open spec fn offset_fragment(p: GenericSearchParameters) -> Seq<char> {
    match p.offset {
        Some(o) => "&offset="@ + int_digits(o as int),
        None => Seq::empty(),
    }
}

/// The `&limit=` fragment, when present.
pub open spec fn limit_fragment(p: GenericSearchParameters) -> Seq<char> {
    match p.limit {
        Some(l) => "&limit="@ + int_digits(l as int),
        None => Seq::empty(),
    }
}

/// The whole fragment of the generic parameters: the per-field fragments
/// concatenated in the fixed field order.
pub open spec fn generic_fragment(p: GenericSearchParameters) -> Seq<char> {
    query_fragment(p) + categories_fragment(p) + attributes_fragment(p) + extended_fragment(p)
        + offset_fragment(p) + limit_fragment(p)
}

impl GenericSearchParameters {
    /// Convert the search parameters to a query-string fragment, prefixed
    /// with `&` before each present field.
    pub fn to_params(&self) -> (r: String)
        ensures
            r@ == generic_fragment(*self),
    {
        let mut params = String::new();
        if let Some(query) = &self.query {
            params.append("&q=");
            let encoded = encode_query_text(query.as_str());
            params.append(encoded.as_str());
        }
        proof {
            assert(params@ =~= query_fragment(*self));
        }
        if self.categories.len() > 0 {
            params.append("&cat=");
            let joined = join_decimals(&self.categories);
            params.append(joined.as_str());
        }
        proof {
            assert(params@ =~= query_fragment(*self) + categories_fragment(*self));
        }
        if self.attributes.len() > 0 {
            params.append("&attrs=");
            let joined = join_strings(&self.attributes);
            params.append(joined.as_str());
        }
        proof {
            assert(params@ =~= query_fragment(*self) + categories_fragment(*self)
                + attributes_fragment(*self));
        }
        if let Some(extended) = self.extended {
            if extended {
                params.append("&extended=1");
            } else {
                params.append("&extended=0");
            }
        }
        proof {
            assert(params@ =~= query_fragment(*self) + categories_fragment(*self)
                + attributes_fragment(*self) + extended_fragment(*self));
        }
        if let Some(offset) = self.offset {
            params.append("&offset=");
            let text = i64_decimal(offset as i64);
            params.append(text.as_str());
        }
        proof {
            assert(params@ =~= query_fragment(*self) + categories_fragment(*self)
                + attributes_fragment(*self) + extended_fragment(*self) + offset_fragment(*self));
        }
        if let Some(limit) = self.limit {
            params.append("&limit=");
            let text = i64_decimal(limit as i64);
            params.append(text.as_str());
        }
        proof {
            assert(params@ =~= generic_fragment(*self));
        }
        params
    }
}

/// With only the query set, the encoded fragment is exactly `&q=` followed
/// by the percent-encoded query, and nothing else.
pub proof fn lemma_query_only_encoding(p: GenericSearchParameters, q: String)
    requires
        p.query == Some(q),
        p.categories@.len() == 0,
        p.attributes@.len() == 0,
        p.extended is None,
        p.offset is None,
        p.limit is None,
    ensures
        generic_fragment(p) == "&q="@ + percent_encoded(q@),
{
    assert(generic_fragment(p) =~= "&q="@ + percent_encoded(q@));
}

/// Whatever combination of fields is set, the encoded fragment is the
/// per-field fragments in the fixed field order, and an absent or empty
/// field contributes nothing.
pub proof fn lemma_generic_field_order(p: GenericSearchParameters)
    ensures
        generic_fragment(p) == query_fragment(p) + categories_fragment(p) + attributes_fragment(p)
            + extended_fragment(p) + offset_fragment(p) + limit_fragment(p),
        p.query is None ==> query_fragment(p) == Seq::<char>::empty(),
        p.categories@.len() == 0 ==> categories_fragment(p) == Seq::<char>::empty(),
        p.attributes@.len() == 0 ==> attributes_fragment(p) == Seq::<char>::empty(),
        p.extended is None ==> extended_fragment(p) == Seq::<char>::empty(),
        p.offset is None ==> offset_fragment(p) == Seq::<char>::empty(),
        p.limit is None ==> limit_fragment(p) == Seq::<char>::empty(),
{
}

/// Fluent construction of `GenericSearchParameters`: fields accumulate
/// incrementally and `build` hands the finished value out; no step encodes
/// or validates anything.
pub struct GenericSearchParametersBuilder {
    pub params: GenericSearchParameters,
}

impl GenericSearchParametersBuilder {
    /// Start from all-absent fields.
    pub fn new() -> (r: GenericSearchParametersBuilder)
        ensures
            r.params.query is None,
            r.params.categories@.len() == 0,
            r.params.attributes@.len() == 0,
            r.params.extended is None,
            r.params.offset is None,
            r.params.limit is None,
    {
        GenericSearchParametersBuilder {
            params: GenericSearchParameters {
                query: None,
                categories: Vec::new(),
                attributes: Vec::new(),
                extended: None,
                offset: None,
                limit: None,
            },
        }
    }

    pub fn query(self, query: String) -> (r: GenericSearchParametersBuilder)
        ensures
            r.params == (GenericSearchParameters { query: Some(query), ..self.params }),
    {
        let mut params = self.params;
        params.query = Some(query);
        GenericSearchParametersBuilder { params }
    }

    pub fn categories(self, categories: &[i32]) -> (r: GenericSearchParametersBuilder)
        ensures
            r.params.categories@ == self.params.categories@ + categories@,
            r.params.query == self.params.query,
            r.params.attributes == self.params.attributes,
            r.params.extended == self.params.extended,
            r.params.offset == self.params.offset,
            r.params.limit == self.params.limit,
    {
        let mut params = self.params;
        let mut i: usize = 0;
        while i < categories.len()
            invariant
                i <= categories@.len(),
                params.categories@ == self.params.categories@ + categories@.take(i as int),
                params.query == self.params.query,
                params.attributes == self.params.attributes,
                params.extended == self.params.extended,
                params.offset == self.params.offset,
                params.limit == self.params.limit,
            decreases categories@.len() - i,
        {
            params.categories.push(categories[i]);
            proof {
                assert(self.params.categories@ + categories@.take(i + 1) =~= (
                self.params.categories@ + categories@.take(i as int)).push(categories@[i as int]));
            }
            i += 1;
        }
        proof {
            assert(categories@.take(categories@.len() as int) =~= categories@);
        }
        GenericSearchParametersBuilder { params }
    }

    pub fn category(self, category: i32) -> (r: GenericSearchParametersBuilder)
        ensures
            r.params.categories@ == self.params.categories@.push(category),
            r.params.query == self.params.query,
            r.params.attributes == self.params.attributes,
            r.params.extended == self.params.extended,
            r.params.offset == self.params.offset,
            r.params.limit == self.params.limit,
    {
        let mut params = self.params;
        params.categories.push(category);
        GenericSearchParametersBuilder { params }
    }

    pub fn attributes(self, attributes: &[String]) -> (r: GenericSearchParametersBuilder)
        ensures
            r.params.attributes@ == self.params.attributes@ + attributes@,
            r.params.query == self.params.query,
            r.params.categories == self.params.categories,
            r.params.extended == self.params.extended,
            r.params.offset == self.params.offset,
            r.params.limit == self.params.limit,
    {
        let mut params = self.params;
        let mut i: usize = 0;
        while i < attributes.len()
            invariant
                i <= attributes@.len(),
                params.attributes@ == self.params.attributes@ + attributes@.take(i as int),
                params.query == self.params.query,
                params.categories == self.params.categories,
                params.extended == self.params.extended,
                params.offset == self.params.offset,
                params.limit == self.params.limit,
            decreases attributes@.len() - i,
        {
            let a = attributes[i].clone();
            params.attributes.push(a);
            proof {
                assert(self.params.attributes@ + attributes@.take(i + 1) =~= (
                self.params.attributes@ + attributes@.take(i as int)).push(attributes@[i as int]));
            }
            i += 1;
        }
        proof {
            assert(attributes@.take(attributes@.len() as int) =~= attributes@);
        }
        GenericSearchParametersBuilder { params }
    }

    pub fn attribute(self, attribute: String) -> (r: GenericSearchParametersBuilder)
        ensures
            r.params.attributes@ == self.params.attributes@.push(attribute),
            r.params.query == self.params.query,
            r.params.categories == self.params.categories,
            r.params.extended == self.params.extended,
            r.params.offset == self.params.offset,
            r.params.limit == self.params.limit,
    {
        let mut params = self.params;
        params.attributes.push(attribute);
        GenericSearchParametersBuilder { params }
    }

    pub fn extended(self, extended: bool) -> (r: GenericSearchParametersBuilder)
        ensures
            r.params == (GenericSearchParameters { extended: Some(extended), ..self.params }),
    {
        let mut params = self.params;
        params.extended = Some(extended);
        GenericSearchParametersBuilder { params }
    }

    pub fn offset(self, offset: i32) -> (r: GenericSearchParametersBuilder)
        ensures
            r.params == (GenericSearchParameters { offset: Some(offset), ..self.params }),
    {
        let mut params = self.params;
        params.offset = Some(offset);
        GenericSearchParametersBuilder { params }
    }

    pub fn limit(self, limit: i32) -> (r: GenericSearchParametersBuilder)
        ensures
            r.params == (GenericSearchParameters { limit: Some(limit), ..self.params }),
    {
        let mut params = self.params;
        params.limit = Some(limit);
        GenericSearchParametersBuilder { params }
    }

    pub fn build(self) -> (r: GenericSearchParameters)
        ensures
            r == self.params,
    {
        self.params
    }
}

/// Parameters specific to a tv-search query.
#[derive(Debug, Clone)]
pub struct TVSearchParameters {
    /// TV Rage id of the show.
    pub rid: Option<u32>,
    /// Id of the show on TVDB.
    pub tvdb_id: Option<u32>,
    /// Id of the show on TVMaze.
    pub tvmaze_id: Option<u32>,
    /// Season number.
    pub season: Option<u16>,
    /// Episode number.
    pub episode: Option<u16>,
}

/// The `&rid=` fragment, when present.
pub open spec fn rid_fragment(p: TVSearchParameters) -> Seq<char> {
    match p.rid {
        Some(n) => "&rid="@ + dec_digits(n as nat),
        None => Seq::empty(),
    }
}

/// The `&tvdbid=` fragment, when present.
pub open spec fn tvdb_fragment(p: TVSearchParameters) -> Seq<char> {
    match p.tvdb_id {
        Some(n) => "&tvdbid="@ + dec_digits(n as nat),
        None => Seq::empty(),
    }
}

/// The `&tvmazeid=` fragment, when present.
pub open spec fn tvmaze_fragment(p: TVSearchParameters) -> Seq<char> {
    match p.tvmaze_id {
        Some(n) => "&tvmazeid="@ + dec_digits(n as nat),
        None => Seq::empty(),
    }
}

/// The `&season=` fragment, when present.
pub open spec fn season_fragment(p: TVSearchParameters) -> Seq<char> {
    match p.season {
        Some(n) => "&season="@ + dec_digits(n as nat),
        None => Seq::empty(),
    }
}

/// The `&ep=` fragment, when present.
pub open spec fn episode_fragment(p: TVSearchParameters) -> Seq<char> {
    match p.episode {
        Some(n) => "&ep="@ + dec_digits(n as nat),
        None => Seq::empty(),
    }
}

/// The whole fragment of the tv parameters, in the fixed field order.
pub open spec fn tv_fragment(p: TVSearchParameters) -> Seq<char> {
    rid_fragment(p) + tvdb_fragment(p) + tvmaze_fragment(p) + season_fragment(p)
        + episode_fragment(p)
}

impl TVSearchParameters {
    /// Convert the tv-search parameters to a query-string fragment.
    pub fn to_params(&self) -> (r: String)
        ensures
            r@ == tv_fragment(*self),
    {
        let mut params = String::new();
        if let Some(rid) = self.rid {
            params.append("&rid=");
            let text = u64_decimal(rid as u64);
            params.append(text.as_str());
        }
        proof {
            assert(params@ =~= rid_fragment(*self));
        }
        if let Some(tvdb_id) = self.tvdb_id {
            params.append("&tvdbid=");
            let text = u64_decimal(tvdb_id as u64);
            params.append(text.as_str());
        }
        proof {
            assert(params@ =~= rid_fragment(*self) + tvdb_fragment(*self));
        }
        if let Some(tvmaze_id) = self.tvmaze_id {
            params.append("&tvmazeid=");
            let text = u64_decimal(tvmaze_id as u64);
            params.append(text.as_str());
        }
        proof {
            assert(params@ =~= rid_fragment(*self) + tvdb_fragment(*self) + tvmaze_fragment(
                *self,
            ));
        }
        if let Some(season) = self.season {
            params.append("&season=");
            let text = u64_decimal(season as u64);
            params.append(text.as_str());
        }
        proof {
            assert(params@ =~= rid_fragment(*self) + tvdb_fragment(*self) + tvmaze_fragment(*self)
                + season_fragment(*self));
        }
        if let Some(episode) = self.episode {
            params.append("&ep=");
            let text = u64_decimal(episode as u64);
            params.append(text.as_str());
        }
        proof {
            assert(params@ =~= tv_fragment(*self));
        }
        params
    }
}

/// Whatever combination of tv fields is set, the encoded fragment is the
/// per-field fragments in the fixed field order, and an absent field
/// contributes nothing.
pub proof fn lemma_tv_field_order(p: TVSearchParameters)
    ensures
        tv_fragment(p) == rid_fragment(p) + tvdb_fragment(p) + tvmaze_fragment(p)
            + season_fragment(p) + episode_fragment(p),
        p.rid is None ==> rid_fragment(p) == Seq::<char>::empty(),
        p.tvdb_id is None ==> tvdb_fragment(p) == Seq::<char>::empty(),
        p.tvmaze_id is None ==> tvmaze_fragment(p) == Seq::<char>::empty(),
        p.season is None ==> season_fragment(p) == Seq::<char>::empty(),
        p.episode is None ==> episode_fragment(p) == Seq::<char>::empty(),
{
}

/// Fluent construction of `TVSearchParameters`.
pub struct TVSearchParametersBuilder {
    pub params: TVSearchParameters,
}

impl TVSearchParametersBuilder {
    /// Start from all-absent fields.
    pub fn new() -> (r: TVSearchParametersBuilder)
        ensures
            r.params.rid is None,
            r.params.tvdb_id is None,
            r.params.tvmaze_id is None,
            r.params.season is None,
            r.params.episode is None,
    {
        TVSearchParametersBuilder {
            params: TVSearchParameters {
                rid: None,
                tvdb_id: None,
                tvmaze_id: None,
                season: None,
                episode: None,
            },
        }
    }

    pub fn rid(self, rid: u32) -> (r: TVSearchParametersBuilder)
        ensures
            r.params == (TVSearchParameters { rid: Some(rid), ..self.params }),
    {
        let mut params = self.params;
        params.rid = Some(rid);
        TVSearchParametersBuilder { params }
    }

    pub fn tvdb_id(self, tvdb_id: u32) -> (r: TVSearchParametersBuilder)
        ensures
            r.params == (TVSearchParameters { tvdb_id: Some(tvdb_id), ..self.params }),
    {
        let mut params = self.params;
        params.tvdb_id = Some(tvdb_id);
        TVSearchParametersBuilder { params }
    }

    pub fn tvmaze_id(self, tvmaze_id: u32) -> (r: TVSearchParametersBuilder)
        ensures
            r.params == (TVSearchParameters { tvmaze_id: Some(tvmaze_id), ..self.params }),
    {
        let mut params = self.params;
        params.tvmaze_id = Some(tvmaze_id);
        TVSearchParametersBuilder { params }
    }

    pub fn season(self, season: u16) -> (r: TVSearchParametersBuilder)
        ensures
            r.params == (TVSearchParameters { season: Some(season), ..self.params }),
    {
        let mut params = self.params;
        params.season = Some(season);
        TVSearchParametersBuilder { params }
    }

    pub fn episode(self, episode: u16) -> (r: TVSearchParametersBuilder)
        ensures
            r.params == (TVSearchParameters { episode: Some(episode), ..self.params }),
    {
        let mut params = self.params;
        params.episode = Some(episode);
        TVSearchParametersBuilder { params }
    }

    pub fn build(self) -> (r: TVSearchParameters)
        ensures
            r == self.params,
    {
        self.params
    }
}

/// Parameters specific to a movie-search query.
#[derive(Debug, Clone)]
pub struct MovieSearchParameters {
    /// Id of the movie on IMDB.
    pub imdb_id: Option<u32>,
}

/// The `&imdbid=` fragment, when present.
pub open spec fn imdb_fragment(p: MovieSearchParameters) -> Seq<char> {
    match p.imdb_id {
        Some(n) => "&imdbid="@ + dec_digits(n as nat),
        None => Seq::empty(),
    }
}

/// The whole fragment of the movie parameters.
pub open spec fn movie_fragment(p: MovieSearchParameters) -> Seq<char> {
    imdb_fragment(p)
}

impl MovieSearchParameters {
    /// Convert the movie-search parameters to a query-string fragment.
    pub fn to_params(&self) -> (r: String)
        ensures
            r@ == movie_fragment(*self),
    {
        let mut params = String::new();
        if let Some(imdb_id) = self.imdb_id {
            params.append("&imdbid=");
            let text = u64_decimal(imdb_id as u64);
            params.append(text.as_str());
        }
        proof {
            assert(params@ =~= movie_fragment(*self));
        }
        params
    }
}

/// The encoded movie fragment is its one field's fragment, and an absent
/// field contributes nothing.
pub proof fn lemma_movie_field_order(p: MovieSearchParameters)
    ensures
        movie_fragment(p) == imdb_fragment(p),
        p.imdb_id is None ==> imdb_fragment(p) == Seq::<char>::empty(),
{
}

/// Fluent construction of `MovieSearchParameters`.
pub struct MovieSearchParametersBuilder {
    pub params: MovieSearchParameters,
}

impl MovieSearchParametersBuilder {
    /// Start from all-absent fields.
    pub fn new() -> (r: MovieSearchParametersBuilder)
        ensures
            r.params.imdb_id is None,
    {
        MovieSearchParametersBuilder { params: MovieSearchParameters { imdb_id: None } }
    }

    pub fn imdb_id(self, imdb_id: u32) -> (r: MovieSearchParametersBuilder)
        ensures
            r.params == (MovieSearchParameters { imdb_id: Some(imdb_id), ..self.params }),
    {
        let mut params = self.params;
        params.imdb_id = Some(imdb_id);
        MovieSearchParametersBuilder { params }
    }

    pub fn build(self) -> (r: MovieSearchParameters)
        ensures
            r == self.params,
    {
        self.params
    }
}

} // verus!
