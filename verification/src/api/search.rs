//! The search endpoint: checking the query parameters and building the
//! request sent to the search backend.

use vstd::prelude::*;

use crate::api::elastic::{
    locale_of_code, BoostMode, Count, Field, Highlight, HighlightEncoder,
    HighlightFields, Locale, Order, Query, QueryBool, QueryFunctionScore,
    QueryFunctionScoreFunction, QueryFunctionScoreFunctionFieldValueFactor, QueryMatch,
    QueryMatchField, QueryMultiMatch, QueryTerms, ResponseTotal, ResponseTotalRelation, ScoreMode, Search,
    SortField, Source, Suggest, Suggester, TermSuggester,
};
use crate::api::error::SearchError;
use crate::text::{push_str, str_eq, to_owned_string, utf8_width};
use vstd::utf8::encode_utf8;

verus! {

/// The order of the results.
#[derive(Debug, Clone, Copy, PartialEq, Eq, Structural)]
pub enum Sort {
    Best,
    Relevance,
    Popularity,
}

impl Sort {
    /// The order used where none is asked for.
    pub fn default() -> (res: Sort)
        ensures
            res == Sort::Best,
    {
        Sort::Best
    }
}

/// The page shown where none is asked for.
pub fn default_page() -> (res: u64)
    ensures
        res == 1,
{
    1
}

/// The checked parameters of a search.
pub struct Params {
    pub q: String,
    pub sort: Sort,
    pub page: u64,
    pub locale: Vec<Locale>,
}

/// The lower-case form of a text (std `str::to_lowercase`).
pub uninterp spec fn lowercase(s: Seq<char>) -> Seq<char>;

/// Converts a text to lower case with std `str::to_lowercase`; the result is
/// named by `lowercase`.
#[verifier::external_body]
pub(crate) fn to_lowercase(s: &str) -> (res: String)
    ensures
        res@ == lowercase(s@),
{
    s.to_lowercase()
}

/// The message of a locale that does not exist: the words of the
/// deserializer that reads locales by their codes.
pub open spec fn unknown_locale_message(value: Seq<char>) -> Seq<char> {
    "unknown variant `"@ + value + "`, expected one of `en-us`, `de`, `es`, `fr`, `ja`, `ko`, `pl`, `pt-br`, `ru`, `zh-cn`, `zh-tw`"@
}

/// The locales asked for, each read in lower case; the first that is not a
/// locale code, if any.
pub open spec fn read_locales(values: Seq<Seq<char>>) -> Result<Seq<Locale>, Seq<char>>
    decreases values.len(),
{
    if values.len() == 0 {
        Ok(Seq::empty())
    } else {
        match read_locales(values.drop_last()) {
            Err(v) => Err(v),
            Ok(ls) => match locale_of_code(lowercase(values.last())) {
                Some(l) => Ok(ls.push(l)),
                None => Err(lowercase(values.last())),
            },
        }
    }
}

/// Whether an error is a query error on the given key with the given message.
pub open spec fn is_query_error(e: SearchError, key: Seq<char>, message: Seq<char>) -> bool {
    e matches SearchError::Query { key: k, message: m } && k@ == key && m@ == message
}

/// Checks the page and reads the locales of a search (the values of the
/// repeated `locale` keys); English where none is given.
pub fn check_params(q: String, sort: Sort, page: u64, locale_values: &Vec<String>) -> (res: Result<Params, SearchError>)
    ensures
        page < 1 ==> (res matches Err(e) && is_query_error(e, "page"@, "Ensure this value is greater than or equal to 1."@)),
        page > 10 ==> (res matches Err(e) && is_query_error(e, "page"@, "Ensure this value is less than or equal to 10."@)),
        1 <= page <= 10 ==> match read_locales(crate::text::views(locale_values@)) {
            Err(v) => res matches Err(e) && is_query_error(e, "locale"@, unknown_locale_message(v)),
            Ok(ls) => res matches Ok(p) && p.q@ == q@ && p.sort == sort && p.page == page
                && p.locale@ == (if ls.len() == 0 { seq![Locale::English] } else { ls }),
        },
{
    if page < 1 {
        return Err(SearchError::Query {
            key: to_owned_string("page"),
            message: to_owned_string("Ensure this value is greater than or equal to 1."),
        });
    }
    if page > 10 {
        return Err(SearchError::Query {
            key: to_owned_string("page"),
            message: to_owned_string("Ensure this value is less than or equal to 10."),
        });
    }
    let ghost vs = crate::text::views(locale_values@);
    let mut locale: Vec<Locale> = Vec::new();
    let mut i: usize = 0;
    while i < locale_values.len()
        invariant
            1 <= page <= 10,
            i <= locale_values.len(),
            vs == crate::text::views(locale_values@),
            read_locales(vs.take(i as int)) == Ok::<Seq<Locale>, Seq<char>>(locale@),
        decreases locale_values.len() - i,
    {
        proof { assert(vs.take(i + 1).drop_last() =~= vs.take(i as int)); }
        let lower = to_lowercase(locale_values[i].as_str());
        match Locale::from_code(lower.as_str()) {
            Some(l) => {
                locale.push(l);
            },
            None => {
                proof {
                    lemma_read_locales_err_prefix(vs, i as int + 1);
                }
                let mut message = to_owned_string("unknown variant `");
                push_str(&mut message, lower.as_str());
                push_str(&mut message, "`, expected one of `en-us`, `de`, `es`, `fr`, `ja`, `ko`, `pl`, `pt-br`, `ru`, `zh-cn`, `zh-tw`");
                return Err(SearchError::Query { key: to_owned_string("locale"), message });
            },
        }
        i = i + 1;
    }
    proof { assert(vs.take(locale_values.len() as int) =~= vs); }
    if locale.len() == 0 {
        locale.push(Locale::English);
        proof { assert(locale@ =~= seq![Locale::English]); }
    }
    Ok(Params { q, sort, page, locale })
}

proof fn lemma_read_locales_err_prefix(vs: Seq<Seq<char>>, i: int)
    requires
        0 < i <= vs.len(),
        read_locales(vs.take(i)) is Err,
    ensures
        read_locales(vs) == read_locales(vs.take(i)),
    decreases vs.len() - i,
{
    if i < vs.len() {
        assert(vs.take(i + 1).drop_last() =~= vs.take(i));
        lemma_read_locales_err_prefix(vs, i + 1);
    } else {
        assert(vs.take(i) =~= vs);
    }
}

/// The key-value pairs of a query string, decoded; none where it cannot be
/// read as pairs.
pub uninterp spec fn query_pairs(query: Seq<char>) -> Seq<(Seq<char>, Seq<char>)>;

/// Reads the key-value pairs of a query string
/// (`serde_urlencoded::from_str` into pairs of strings, none on failure);
/// the result is named by `query_pairs`.
#[verifier::external_body]
fn decode_query_pairs(query: &str) -> (res: Vec<(String, String)>)
    ensures
        res@.map_values(|p: (String, String)| (p.0@, p.1@)) == query_pairs(query@),
{
    serde_urlencoded::from_str::<Vec<(String, String)>>(query).unwrap_or_default()
}

/// The values of the `locale` keys of the pairs, in order.
pub open spec fn locale_values_of(pairs: Seq<(Seq<char>, Seq<char>)>) -> Seq<Seq<char>>
    decreases pairs.len(),
{
    if pairs.len() == 0 {
        Seq::empty()
    } else if pairs.last().0 == "locale"@ {
        locale_values_of(pairs.drop_last()).push(pairs.last().1)
    } else {
        locale_values_of(pairs.drop_last())
    }
}

/// The values of the repeated `locale` keys of a search's query string.
pub fn locale_query_values(query: &str) -> (res: Vec<String>)
    ensures
        crate::text::views(res@) == locale_values_of(query_pairs(query@)),
{
    let pairs = decode_query_pairs(query);
    let ghost ps = pairs@.map_values(|p: (String, String)| (p.0@, p.1@));
    let mut res: Vec<String> = Vec::new();
    let mut i: usize = 0;
    while i < pairs.len()
        invariant
            i <= pairs@.len(),
            ps == pairs@.map_values(|p: (String, String)| (p.0@, p.1@)),
            crate::text::views(res@) == locale_values_of(ps.take(i as int)),
        decreases pairs@.len() - i,
    {
        proof {
            assert(ps.take(i + 1).drop_last() =~= ps.take(i as int));
            assert(ps.take(i + 1).last() == (pairs@[i as int].0@, pairs@[i as int].1@));
        }
        if str_eq(pairs[i].0.as_str(), "locale") {
            let v = pairs[i].1.clone();
            let ghost before = crate::text::views(res@);
            res.push(v);
            proof { assert(crate::text::views(res@) =~= before.push(v@)); }
        }
        i = i + 1;
    }
    proof { assert(ps.take(pairs@.len() as int) =~= ps); }
    res
}

/// The error of a search backend request that failed with an error status:
/// the reason of the exception it answered with; a response that cannot be
/// read where there is no exception or no reason.
pub fn elastic_failure(reason: Option<String>, source: String) -> (res: SearchError)
    ensures
        match reason {
            Some(r) => res matches SearchError::ElasticContext { reason: rr, source: s } && rr == r && s == source,
            None => res matches SearchError::ParseResponse,
        },
{
    match reason {
        Some(r) => SearchError::ElasticContext { reason: r, source },
        None => SearchError::ParseResponse,
    }
}

/// Whether some word of the text (the parts between single spaces) is longer
/// than 30 bytes.
pub open spec fn has_long_word(q: Seq<char>) -> bool {
    exists|i: int, j: int| 0 <= i <= j <= q.len()
        && (i == 0 || q[i - 1] == ' ')
        && (forall|k: int| i <= k < j ==> q[k] != ' ')
        && encode_utf8(#[trigger] q.subrange(i, j)).len() > 30
}

/// Whether the text is too long or has too long a word to ask for spelling
/// suggestions: such queries make the backend fail.
pub open spec fn too_complex_for_suggestions(q: Seq<char>) -> bool {
    encode_utf8(q).len() > 100 || has_long_word(q)
}

/// The byte length of the word that ends at `j`, starting after the last space before it.
spec fn word_start(q: Seq<char>, j: int) -> int
    decreases j,
{
    if j <= 0 {
        0
    } else if q[j - 1] == ' ' {
        j
    } else {
        word_start(q, j - 1)
    }
}

proof fn lemma_word_start(q: Seq<char>, j: int)
    requires
        0 <= j <= q.len(),
    ensures
        0 <= word_start(q, j) <= j,
        word_start(q, j) == 0 || q[word_start(q, j) - 1] == ' ',
        forall|k: int| word_start(q, j) <= k < j ==> q[k] != ' ',
    decreases j,
{
    if j > 0 && q[j - 1] != ' ' {
        lemma_word_start(q, j - 1);
    }
}

/// Whether the text has a word longer than 30 bytes (see `has_long_word`).
fn long_word(q: &str) -> (res: bool)
    ensures
        res == has_long_word(q@),
{
    let ghost s = q@;
    let mut cur: usize = 0;
    let mut found = false;
    let ghost mut idx: int = 0;
    for c in iter: q.chars()
        invariant
            iter.seq() == s,
            idx == iter.index(),
            0 <= idx <= s.len(),
            cur <= 31,
            cur as int == (if encode_utf8(s.subrange(word_start(s, idx), idx)).len() > 30 { 31 } else { encode_utf8(s.subrange(word_start(s, idx), idx)).len() as int }),
            found == (exists|i: int, j: int| 0 <= i <= j <= idx
                && (i == 0 || s[i - 1] == ' ')
                && (forall|k: int| i <= k < j ==> s[k] != ' ')
                && encode_utf8(#[trigger] s.subrange(i, j)).len() > 30),
    {
        proof {
            assert(s[idx] == c);
            lemma_word_start(s, idx);
            lemma_word_start(s, idx + 1);
        }
        if c == ' ' {
            cur = 0;
            proof {
                assert(word_start(s, idx + 1) == idx + 1);
                assert(s.subrange(idx + 1, idx + 1) =~= Seq::<char>::empty());
                assert(encode_utf8(Seq::<char>::empty()) =~= Seq::<u8>::empty());
                // no word with a space inside
                assert forall|i: int, j: int| 0 <= i <= j <= idx + 1
                    && (i == 0 || s[i - 1] == ' ')
                    && (forall|k: int| i <= k < j ==> s[k] != ' ')
                    && encode_utf8(#[trigger] s.subrange(i, j)).len() > 30
                    implies j <= idx by {
                    if j == idx + 1 {
                        assert(s[idx] == ' ');
                        assert(false);
                    }
                }
            }
        } else {
            let w = utf8_width(c);
            proof {
                let ws = word_start(s, idx);
                assert(word_start(s, idx + 1) == ws);
                assert(s.subrange(ws, idx + 1) =~= s.subrange(ws, idx).push(c));
                crate::text::lemma_encode_utf8_push(s.subrange(ws, idx), c);
            }
            if cur + w > 30 {
                cur = 31;
                found = true;
                proof {
                    let ws = word_start(s, idx);
                    assert(encode_utf8(s.subrange(ws, idx + 1)).len() > 30);
                }
            } else {
                cur = cur + w;
            }
            proof {
                let ws = word_start(s, idx);
                assert forall|i: int, j: int| 0 <= i <= j <= idx + 1
                    && (i == 0 || s[i - 1] == ' ')
                    && (forall|k: int| i <= k < j ==> s[k] != ' ')
                    && encode_utf8(#[trigger] s.subrange(i, j)).len() > 30
                    && j == idx + 1
                    implies i == ws by {
                    if i < ws {
                        assert(s[ws - 1] == ' ');
                        assert(i <= ws - 1 < j);
                    } else if i > ws {
                        assert(s[i - 1] == ' ');
                        assert(ws <= i - 1 < idx);
                    }
                }
            }
        }
        proof { idx = idx + 1; }
    }
    found
}

/// The spelling suggestions asked for with a search: none for texts that are
/// too long or have too long a word; otherwise term suggestions on the title
/// and on the body.
pub fn suggest_for(q: &String) -> (res: Option<Suggest>)
    requires
        encode_utf8(q@).len() <= usize::MAX,
    ensures
        too_complex_for_suggestions(q@) ==> res is None,
        !too_complex_for_suggestions(q@) ==> (res matches Some(s) && s.text@ == q@
            && s.title_suggestions == Suggester::Term(TermSuggester { field: Field::Title })
            && s.body_suggestions == Suggester::Term(TermSuggester { field: Field::Body })),
{
    if q.as_str().len() > 100 || long_word(q.as_str()) {
        None
    } else {
        Some(Suggest {
            text: q.clone(),
            title_suggestions: Suggester::Term(TermSuggester { field: Field::Title }),
            body_suggestions: Suggester::Term(TermSuggester { field: Field::Body }),
        })
    }
}

/// Whether the text has a space.
pub fn has_space(q: &str) -> (res: bool)
    ensures
        res == q@.contains(' '),
{
    let mut found = false;
    for c in iter: q.chars()
        invariant
            iter.seq() == q@,
            found == (exists|k: int| 0 <= k < iter.index() && q@[k] == ' '),
    {
        proof { assert(iter.seq()[iter.index() as int] == c); }
        if c == ' ' {
            found = true;
        }
    }
    found
}

/// Whether a clause matches the text on one field with the given weight,
/// as a phrase or not.
pub open spec fn is_match(clause: Query, phrase: bool, title: bool, q: Seq<char>, boost: u64) -> bool {
    match clause {
        Query::Match(m) => !phrase && match m {
            QueryMatch::Title(f) => title && f.query@ == q && f.boost == boost,
            QueryMatch::Body(f) => !title && f.query@ == q && f.boost == boost,
        },
        Query::MatchPhrase(m) => phrase && match m {
            QueryMatch::Title(f) => title && f.query@ == q && f.boost == boost,
            QueryMatch::Body(f) => !title && f.query@ == q && f.boost == boost,
        },
        _ => false,
    }
}

/// The clauses of `subqueries` for the text.
pub open spec fn is_text_clauses(v: Seq<Query>, q: Seq<char>) -> bool {
    &&& v.len() == (if q.contains(' ') { 4int } else { 2int })
    &&& is_match(v[0], false, true, q, 5)
    &&& is_match(v[1], false, false, q, 1)
    &&& q.contains(' ') ==> is_match(v[2], true, true, q, 10) && is_match(v[3], true, false, q, 2)
}

/// The clauses of a search text, by importance: a title phrase match weighs
/// 10, a title match 5, a body phrase match 2 and a body match 1; phrase
/// matches only for texts with a space.
pub fn subqueries(q: &String) -> (res: Vec<Query>)
    ensures
        is_text_clauses(res@, q@),
{
    let mut res: Vec<Query> = Vec::new();
    res.push(Query::Match(QueryMatch::Title(QueryMatchField { query: q.clone(), boost: 5 })));
    res.push(Query::Match(QueryMatch::Body(QueryMatchField { query: q.clone(), boost: 1 })));
    if has_space(q.as_str()) {
        res.push(Query::MatchPhrase(QueryMatch::Title(QueryMatchField { query: q.clone(), boost: 10 })));
        res.push(Query::MatchPhrase(QueryMatch::Body(QueryMatchField { query: q.clone(), boost: 2 })));
    }
    res
}

/// The sort keys of an order: none for the best matches (popularity then
/// counts through the score), score then popularity for relevance, and
/// popularity then score for popularity.
pub open spec fn sort_keys(sort: Sort) -> Option<Seq<SortField>> {
    match sort {
        Sort::Relevance => Some(seq![SortField::Score(Order::Desc), SortField::Popularity(Order::Desc)]),
        Sort::Popularity => Some(seq![SortField::Popularity(Order::Desc), SortField::Score(Order::Desc)]),
        Sort::Best => None,
    }
}

/// Whether a highlighting is that of a search: `<mark>` tags, three
/// fragments of 120 characters, HTML encoding.
pub open spec fn is_search_highlight(h: Highlight) -> bool {
    &&& h.fields == (HighlightFields { title: true, body: true })
    &&& crate::text::views(h.pre_tags@) == seq!["<mark>"@]
    &&& crate::text::views(h.post_tags@) == seq!["</mark>"@]
    &&& h.number_of_fragments == 3
    &&& h.fragment_size == 120
    &&& h.encoder == HighlightEncoder::HTML
}

/// The highlighting of a search: `<mark>` tags, three fragments of 120 characters, HTML encoding.
pub fn search_highlight() -> (res: Highlight)
    ensures
        is_search_highlight(res),
{
    let mut pre_tags: Vec<String> = Vec::new();
    pre_tags.push(to_owned_string("<mark>"));
    let mut post_tags: Vec<String> = Vec::new();
    post_tags.push(to_owned_string("</mark>"));
    proof {
        assert(crate::text::views(pre_tags@) =~= seq!["<mark>"@]);
        assert(crate::text::views(post_tags@) =~= seq!["</mark>"@]);
    }
    Highlight {
        fields: HighlightFields { title: true, body: true },
        pre_tags,
        post_tags,
        number_of_fragments: 3,
        fragment_size: 120,
        encoder: HighlightEncoder::HTML,
    }
}

/// The page size of a search.
pub const PAGE_SIZE: u64 = 10;

/// A locale filter on exactly the locales.
pub open spec fn is_locale_filter(q: Query, locales: Seq<Locale>) -> bool {
    match q {
        Query::Terms(QueryTerms::Locale(ls)) => ls@ == locales,
        _ => false,
    }
}

/// A clause that holds exactly the text clauses of the search text, as alternatives.
pub open spec fn is_text_query(q: Query, text: Seq<char>) -> bool {
    match q {
        Query::Bool(b) => b.filter is None && b.must is None && match b.should {
            Some(v) => is_text_clauses(v@, text),
            None => false,
        },
        _ => false,
    }
}

/// The text query scored together with ten times the document's popularity.
pub open spec fn is_popularity_scored(q: Query, text: Seq<char>) -> bool {
    match q {
        Query::FunctionScore(fs) => {
            &&& is_text_query(*fs.query, text)
            &&& fs.functions@ == seq![QueryFunctionScoreFunction::FieldValueFactor(QueryFunctionScoreFunctionFieldValueFactor {
                field: Field::Popularity,
                factor: 10,
                missing: 0,
            })]
            &&& fs.boost_mode == BoostMode::Sum
            &&& fs.score_mode == ScoreMode::Max
        },
        _ => false,
    }
}

/// The query of a search: filtered by the locales, and required to match the
/// text query (scored with popularity for the best order).
pub open spec fn is_search_query(q: Query, locales: Seq<Locale>, sort: Sort, text: Seq<char>) -> bool {
    match q {
        Query::Bool(b) => b.should is None && match (b.filter, b.must) {
            (Some(f), Some(m)) => f@.len() == 1 && is_locale_filter(f@[0], locales) && m@.len() == 1
                && (if sort == Sort::Best { is_popularity_scored(m@[0], text) } else { is_text_query(m@[0], text) }),
            _ => false,
        },
        _ => false,
    }
}

/// The query of a count: the text on title and body, in the locales.
pub open spec fn is_count_query(q: Query, text: Seq<char>, locales: Seq<Locale>) -> bool {
    match q {
        Query::Bool(b) => b.must is None && b.should is None && match b.filter {
            Some(f) => f@.len() == 2 && is_locale_filter(f@[1], locales) && match f@[0] {
                Query::MultiMatch(mm) => mm.query@ == text && mm.fields@ == seq![Field::Title, Field::Body],
                _ => false,
            },
            None => false,
        },
        _ => false,
    }
}

/// The body of a search for the parameters: ten hits of the asked page, in
/// the asked locales, without bodies, matched by the clauses of `subqueries`
/// (scored with popularity for the best order), highlighted, with
/// suggestions where `suggest_for` gives them.
pub open spec fn is_search_body(res: Search, params: Params) -> bool {
    &&& res.from == 10 * (params.page - 1)
    &&& res.size == 10
    &&& res._source.excludes@ == seq![Field::Body]
    &&& (res.sort is None) == (sort_keys(params.sort) is None)
    &&& res.sort matches Some(v) ==> sort_keys(params.sort) == Some(v@)
    &&& too_complex_for_suggestions(params.q@) <==> res.suggest is None
    &&& res.suggest matches Some(s) ==> s.text@ == params.q@
        && s.title_suggestions == Suggester::Term(TermSuggester { field: Field::Title })
        && s.body_suggestions == Suggester::Term(TermSuggester { field: Field::Body })
    &&& is_search_query(res.query, params.locale@, params.sort, params.q@)
    &&& is_search_highlight(res.highlight)
}

/// Builds the request of a search: ten hits of the asked page, in the asked
/// locales, without bodies, matched by the clauses of `subqueries` (scored
/// with popularity for the best order), highlighted, with suggestions where
/// `suggest_for` gives them.
pub fn search_body(params: &Params) -> (res: Search)
    requires
        1 <= params.page <= 10,
        encode_utf8(params.q@).len() <= usize::MAX,
    ensures
        is_search_body(res, *params),
{
    let suggest = suggest_for(&params.q);
    let subquery = Query::Bool(QueryBool { filter: None, must: None, should: Some(subqueries(&params.q)) });
    let highlight = search_highlight();
    let (sort, query) = match params.sort {
        Sort::Relevance => {
            let mut keys: Vec<SortField> = Vec::new();
            keys.push(SortField::Score(Order::Desc));
            keys.push(SortField::Popularity(Order::Desc));
            proof { assert(keys@ =~= seq![SortField::Score(Order::Desc), SortField::Popularity(Order::Desc)]); }
            (Some(keys), subquery)
        },
        Sort::Popularity => {
            let mut keys: Vec<SortField> = Vec::new();
            keys.push(SortField::Popularity(Order::Desc));
            keys.push(SortField::Score(Order::Desc));
            proof { assert(keys@ =~= seq![SortField::Popularity(Order::Desc), SortField::Score(Order::Desc)]); }
            (Some(keys), subquery)
        },
        Sort::Best => {
            let mut functions: Vec<QueryFunctionScoreFunction> = Vec::new();
            functions.push(QueryFunctionScoreFunction::FieldValueFactor(QueryFunctionScoreFunctionFieldValueFactor {
                field: Field::Popularity,
                factor: 10,
                missing: 0,
            }));
            proof {
                assert(functions@ =~= seq![QueryFunctionScoreFunction::FieldValueFactor(QueryFunctionScoreFunctionFieldValueFactor {
                    field: Field::Popularity,
                    factor: 10,
                    missing: 0,
                })]);
            }
            (None, Query::FunctionScore(QueryFunctionScore {
                query: Box::new(subquery),
                functions,
                boost_mode: BoostMode::Sum,
                score_mode: ScoreMode::Max,
            }))
        },
    };
    let mut excludes: Vec<Field> = Vec::new();
    excludes.push(Field::Body);
    let mut filter: Vec<Query> = Vec::new();
    filter.push(Query::Terms(QueryTerms::Locale(params.locale.clone())));
    let mut must: Vec<Query> = Vec::new();
    must.push(query);
    proof { assert(excludes@ =~= seq![Field::Body]); }
    Search {
        from: 10 * (params.page - 1),
        size: PAGE_SIZE,
        _source: Source { excludes },
        sort,
        query: Query::Bool(QueryBool { filter: Some(filter), must: Some(must), should: None }),
        highlight,
        suggest,
    }
}

/// Builds the request that counts the hits of a suggested text in the locales.
pub fn count_body(query: &str, locales: &Vec<Locale>) -> (res: Count)
    ensures
        is_count_query(res.query, query@, locales@),
{
    let mut fields: Vec<Field> = Vec::new();
    fields.push(Field::Title);
    fields.push(Field::Body);
    proof { assert(fields@ =~= seq![Field::Title, Field::Body]); }
    let mut filter: Vec<Query> = Vec::new();
    filter.push(Query::MultiMatch(QueryMultiMatch { query: to_owned_string(query), fields }));
    filter.push(Query::Terms(QueryTerms::Locale(locales.clone())));
    Count { query: Query::Bool(QueryBool { filter: Some(filter), must: None, should: None }) }
}

/// The index that holds the documents.
pub const DOCS_INDEX: &'static str = "mdn_docs";

/// A request to the search backend: the index asked, and the body sent.
pub struct IndexRequest<B> {
    pub index: String,
    pub body: B,
}

/// The search request for the parameters: the body of `search_body`, sent to
/// the documents' index.
pub fn search_request(params: &Params) -> (res: IndexRequest<Search>)
    requires
        1 <= params.page <= 10,
        encode_utf8(params.q@).len() <= usize::MAX,
    ensures
        res.index@ == DOCS_INDEX@,
        is_search_body(res.body, *params),
{
    IndexRequest { index: to_owned_string(DOCS_INDEX), body: search_body(params) }
}

/// The request that counts the hits of a suggested text: the body of
/// `count_body`, sent to the documents' index.
pub fn count_request(query: &str, locales: &Vec<Locale>) -> (res: IndexRequest<Count>)
    ensures
        res.index@ == DOCS_INDEX@,
        is_count_query(res.body.query, query@, locales@),
{
    IndexRequest { index: to_owned_string(DOCS_INDEX), body: count_body(query, locales) }
}

/// A spelling suggestion with the number of its hits.
pub struct Suggestion {
    pub text: String,
    pub total: ResponseTotal,
}

/// The suggestion made of an option whose hits were counted: only an option
/// that was counted and has hits is suggested (options are tried best first,
/// and the first such one is the answer).
pub fn suggestion_from_count(text: String, count: Option<u64>) -> (res: Option<Suggestion>)
    ensures
        match count {
            Some(c) if c > 0 => res matches Some(s) && s.text@ == text@
                && s.total == (ResponseTotal { value: c, relation: ResponseTotalRelation::Equal }),
            _ => res is None,
        },
{
    match count {
        Some(c) => {
            if c > 0 {
                Some(Suggestion { text, total: ResponseTotal { value: c, relation: ResponseTotalRelation::Equal } })
            } else {
                None
            }
        },
        None => None,
    }
}


/// An order sorts first by what it is named after and breaks ties with the
/// other key: relevance ranks by score, then popularity; popularity ranks by
/// popularity, then score; so the two orders differ. The best order has no
/// sort keys (popularity counts through the score).
pub proof fn lemma_sort_keys_follow_the_order(sort: Sort)
    ensures
        sort is Best <==> sort_keys(sort) is None,
        sort_keys(sort) matches Some(k) ==> k.len() == 2 && k[1] != k[0]
            && (k[0] == SortField::Score(Order::Desc) || k[0] == SortField::Popularity(Order::Desc))
            && (k[1] == SortField::Score(Order::Desc) || k[1] == SortField::Popularity(Order::Desc)),
        sort is Relevance ==> (sort_keys(sort) matches Some(k) && k[0] == SortField::Score(Order::Desc)),
        sort is Popularity ==> (sort_keys(sort) matches Some(k) && k[0] == SortField::Popularity(Order::Desc)),
        sort_keys(Sort::Relevance) != sort_keys(Sort::Popularity),
{
    assert(seq![SortField::Score(Order::Desc), SortField::Popularity(Order::Desc)][0]
        != seq![SortField::Popularity(Order::Desc), SortField::Score(Order::Desc)][0]);
}

} // verus!
