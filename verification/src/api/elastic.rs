//! The requests sent to the search backend and the parts of its answers that
//! the library reads. Boosts are whole numbers here; they are sent as numbers.

use vstd::prelude::*;

use crate::text::str_eq;

verus! {

/// A search request.
pub struct Search {
    pub from: u64,
    pub size: u64,
    pub query: Query,
    pub _source: Source,
    pub highlight: Highlight,
    pub suggest: Option<Suggest>,
    pub sort: Option<Vec<SortField>>,
}

/// A count request.
pub struct Count {
    pub query: Query,
}

/// A query clause.
pub enum Query {
    Bool(QueryBool),
    Terms(QueryTerms),
    Match(QueryMatch),
    MatchPhrase(QueryMatch),
    MultiMatch(QueryMultiMatch),
    FunctionScore(QueryFunctionScore),
}

/// A boolean combination of clauses.
pub struct QueryBool {
    pub filter: Option<Vec<Query>>,
    pub must: Option<Vec<Query>>,
    pub should: Option<Vec<Query>>,
}

impl QueryBool {
    /// A combination with no clauses.
    pub fn empty() -> (res: QueryBool)
        ensures
            res.filter is None,
            res.must is None,
            res.should is None,
    {
        QueryBool { filter: None, must: None, should: None }
    }
}

/// A terms clause.
pub enum QueryTerms {
    Locale(Vec<Locale>),
}

/// The locales of the documents.
#[derive(Debug, Clone, Copy, PartialEq, Eq, Structural)]
pub enum Locale {
    English,
    German,
    Spanish,
    French,
    Japanese,
    Korean,
    Polish,
    PortugueseBrazilian,
    Russian,
    ChineseSimplified,
    ChineseTraditional,
}

/// The code of a locale in the index.
pub open spec fn locale_code(l: Locale) -> Seq<char> {
    match l {
        Locale::English => "en-us"@,
        Locale::German => "de"@,
        Locale::Spanish => "es"@,
        Locale::French => "fr"@,
        Locale::Japanese => "ja"@,
        Locale::Korean => "ko"@,
        Locale::Polish => "pl"@,
        Locale::PortugueseBrazilian => "pt-br"@,
        Locale::Russian => "ru"@,
        Locale::ChineseSimplified => "zh-cn"@,
        Locale::ChineseTraditional => "zh-tw"@,
    }
}

/// The locale with the given code, if any.
pub open spec fn locale_of_code(code: Seq<char>) -> Option<Locale> {
    if code == "en-us"@ {
        Some(Locale::English)
    } else if code == "de"@ {
        Some(Locale::German)
    } else if code == "es"@ {
        Some(Locale::Spanish)
    } else if code == "fr"@ {
        Some(Locale::French)
    } else if code == "ja"@ {
        Some(Locale::Japanese)
    } else if code == "ko"@ {
        Some(Locale::Korean)
    } else if code == "pl"@ {
        Some(Locale::Polish)
    } else if code == "pt-br"@ {
        Some(Locale::PortugueseBrazilian)
    } else if code == "ru"@ {
        Some(Locale::Russian)
    } else if code == "zh-cn"@ {
        Some(Locale::ChineseSimplified)
    } else if code == "zh-tw"@ {
        Some(Locale::ChineseTraditional)
    } else {
        None
    }
}

impl Locale {
    /// The code of the locale in the index.
    pub fn as_str(&self) -> (res: &'static str)
        ensures
            res@ == locale_code(*self),
    {
        match self {
            Locale::English => "en-us",
            Locale::German => "de",
            Locale::Spanish => "es",
            Locale::French => "fr",
            Locale::Japanese => "ja",
            Locale::Korean => "ko",
            Locale::Polish => "pl",
            Locale::PortugueseBrazilian => "pt-br",
            Locale::Russian => "ru",
            Locale::ChineseSimplified => "zh-cn",
            Locale::ChineseTraditional => "zh-tw",
        }
    }

    /// The locale with the given code, if there is one.
    pub fn from_code(code: &str) -> (res: Option<Locale>)
        ensures
            res == locale_of_code(code@),
    {
        if str_eq(code, "en-us") {
            Some(Locale::English)
        } else if str_eq(code, "de") {
            Some(Locale::German)
        } else if str_eq(code, "es") {
            Some(Locale::Spanish)
        } else if str_eq(code, "fr") {
            Some(Locale::French)
        } else if str_eq(code, "ja") {
            Some(Locale::Japanese)
        } else if str_eq(code, "ko") {
            Some(Locale::Korean)
        } else if str_eq(code, "pl") {
            Some(Locale::Polish)
        } else if str_eq(code, "pt-br") {
            Some(Locale::PortugueseBrazilian)
        } else if str_eq(code, "ru") {
            Some(Locale::Russian)
        } else if str_eq(code, "zh-cn") {
            Some(Locale::ChineseSimplified)
        } else if str_eq(code, "zh-tw") {
            Some(Locale::ChineseTraditional)
        } else {
            None
        }
    }
}

/// Reading a locale's code gives the locale back.
pub proof fn lemma_locale_code_round_trip(l: Locale)
    ensures
        locale_of_code(locale_code(l)) == Some(l),
{
    reveal_strlit("en-us");
    reveal_strlit("de");
    reveal_strlit("es");
    reveal_strlit("fr");
    reveal_strlit("ja");
    reveal_strlit("ko");
    reveal_strlit("pl");
    reveal_strlit("pt-br");
    reveal_strlit("ru");
    reveal_strlit("zh-cn");
    reveal_strlit("zh-tw");
    match l {
        Locale::English => {

        },
        Locale::German => {
            assert("de"@.len() != "en-us"@.len());
        },
        Locale::Spanish => {
            assert("es"@.len() != "en-us"@.len());
            assert("es"@[0] != "de"@[0]);
        },
        Locale::French => {
            assert("fr"@.len() != "en-us"@.len());
            assert("fr"@[0] != "de"@[0]);
            assert("fr"@[0] != "es"@[0]);
        },
        Locale::Japanese => {
            assert("ja"@.len() != "en-us"@.len());
            assert("ja"@[0] != "de"@[0]);
            assert("ja"@[0] != "es"@[0]);
            assert("ja"@[0] != "fr"@[0]);
        },
        Locale::Korean => {
            assert("ko"@.len() != "en-us"@.len());
            assert("ko"@[0] != "de"@[0]);
            assert("ko"@[0] != "es"@[0]);
            assert("ko"@[0] != "fr"@[0]);
            assert("ko"@[0] != "ja"@[0]);
        },
        Locale::Polish => {
            assert("pl"@.len() != "en-us"@.len());
            assert("pl"@[0] != "de"@[0]);
            assert("pl"@[0] != "es"@[0]);
            assert("pl"@[0] != "fr"@[0]);
            assert("pl"@[0] != "ja"@[0]);
            assert("pl"@[0] != "ko"@[0]);
        },
        Locale::PortugueseBrazilian => {
            assert("pt-br"@[0] != "en-us"@[0]);
            assert("pt-br"@.len() != "de"@.len());
            assert("pt-br"@.len() != "es"@.len());
            assert("pt-br"@.len() != "fr"@.len());
            assert("pt-br"@.len() != "ja"@.len());
            assert("pt-br"@.len() != "ko"@.len());
            assert("pt-br"@.len() != "pl"@.len());
        },
        Locale::Russian => {
            assert("ru"@.len() != "en-us"@.len());
            assert("ru"@[0] != "de"@[0]);
            assert("ru"@[0] != "es"@[0]);
            assert("ru"@[0] != "fr"@[0]);
            assert("ru"@[0] != "ja"@[0]);
            assert("ru"@[0] != "ko"@[0]);
            assert("ru"@[0] != "pl"@[0]);
            assert("ru"@.len() != "pt-br"@.len());
        },
        Locale::ChineseSimplified => {
            assert("zh-cn"@[0] != "en-us"@[0]);
            assert("zh-cn"@.len() != "de"@.len());
            assert("zh-cn"@.len() != "es"@.len());
            assert("zh-cn"@.len() != "fr"@.len());
            assert("zh-cn"@.len() != "ja"@.len());
            assert("zh-cn"@.len() != "ko"@.len());
            assert("zh-cn"@.len() != "pl"@.len());
            assert("zh-cn"@[0] != "pt-br"@[0]);
            assert("zh-cn"@.len() != "ru"@.len());
        },
        Locale::ChineseTraditional => {
            assert("zh-tw"@[0] != "en-us"@[0]);
            assert("zh-tw"@.len() != "de"@.len());
            assert("zh-tw"@.len() != "es"@.len());
            assert("zh-tw"@.len() != "fr"@.len());
            assert("zh-tw"@.len() != "ja"@.len());
            assert("zh-tw"@.len() != "ko"@.len());
            assert("zh-tw"@.len() != "pl"@.len());
            assert("zh-tw"@[0] != "pt-br"@[0]);
            assert("zh-tw"@.len() != "ru"@.len());
            assert("zh-tw"@[3] != "zh-cn"@[3]);
        },
    }
}

/// A match clause on one field.
pub enum QueryMatch {
    Title(QueryMatchField),
    Body(QueryMatchField),
}

/// A match clause on several fields.
pub struct QueryMultiMatch {
    pub query: String,
    pub fields: Vec<Field>,
}

/// The indexed fields.
#[derive(Debug, Clone, Copy, PartialEq, Eq, Structural)]
pub enum Field {
    Title,
    Body,
    Popularity,
}

/// The text to match and the clause's weight.
pub struct QueryMatchField {
    pub query: String,
    pub boost: u64,
}

/// A clause whose score is combined with functions of the document.
pub struct QueryFunctionScore {
    pub query: Box<Query>,
    pub functions: Vec<QueryFunctionScoreFunction>,
    pub boost_mode: BoostMode,
    pub score_mode: ScoreMode,
}

#[derive(Debug, Clone, Copy, PartialEq, Eq, Structural)]
pub enum BoostMode {
    Sum,
}

#[derive(Debug, Clone, Copy, PartialEq, Eq, Structural)]
pub enum ScoreMode {
    Max,
}

/// A scoring function.
#[derive(Debug, Clone, Copy, PartialEq, Eq, Structural)]
pub enum QueryFunctionScoreFunction {
    FieldValueFactor(QueryFunctionScoreFunctionFieldValueFactor),
}

/// A score from a field's value.
#[derive(Debug, Clone, Copy, PartialEq, Eq, Structural)]
pub struct QueryFunctionScoreFunctionFieldValueFactor {
    pub field: Field,
    pub factor: u64,
    pub missing: u64,
}

/// The fields left out of the hits.
pub struct Source {
    pub excludes: Vec<Field>,
}

/// How matches are highlighted (on the title and the body).
pub struct Highlight {
    pub fields: HighlightFields,
    pub pre_tags: Vec<String>,
    pub post_tags: Vec<String>,
    pub number_of_fragments: u64,
    pub fragment_size: u64,
    pub encoder: HighlightEncoder,
}

#[derive(Debug, Clone, Copy, PartialEq, Eq, Structural)]
pub enum HighlightEncoder {
    HTML,
}

/// The highlighted fields, each with default settings.
#[derive(Debug, Clone, Copy, PartialEq, Eq, Structural)]
pub struct HighlightFields {
    pub title: bool,
    pub body: bool,
}

/// Spelling suggestions for the query text.
pub struct Suggest {
    pub text: String,
    pub title_suggestions: Suggester,
    pub body_suggestions: Suggester,
}

#[derive(Debug, Clone, Copy, PartialEq, Eq, Structural)]
pub enum Suggester {
    Term(TermSuggester),
}

#[derive(Debug, Clone, Copy, PartialEq, Eq, Structural)]
pub struct TermSuggester {
    pub field: Field,
}

/// A sort key.
#[derive(Debug, Clone, Copy, PartialEq, Eq, Structural)]
pub enum SortField {
    Score(Order),
    Popularity(Order),
}

#[derive(Debug, Clone, Copy, PartialEq, Eq, Structural)]
pub enum Order {
    Asc,
    Desc,
}

/// The highlighted fragments of a hit.
pub struct ResponseHighlight {
    pub body: Vec<String>,
    pub title: Vec<String>,
}

/// The number of hits.
#[derive(Debug, Clone, Copy, PartialEq, Eq, Structural)]
pub struct ResponseTotal {
    pub value: u64,
    pub relation: ResponseTotalRelation,
}

#[derive(Debug, Clone, Copy, PartialEq, Eq, Structural)]
pub enum ResponseTotalRelation {
    Equal,
    GreaterThanOrEqual,
}

/// The answer to a count request.
#[derive(Debug, Clone, Copy, PartialEq, Eq, Structural)]
pub struct CountResponse {
    pub count: u64,
}

} // verus!
