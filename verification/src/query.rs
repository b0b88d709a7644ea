//! Structured commands and how a line of text becomes one.

use crate::text::{is_word, lemma_words_are_words, same, split_words, views, words};
use vstd::prelude::*;
use vstd::string::*;

verus! {

/// The four verbs a command line may start with.
#[derive(Debug, PartialEq, Eq, Structural, Clone, Copy)]
pub enum QueryType {
    Insert,
    Select,
    Update,
    Delete,
}

/// Why a line is no command.
#[derive(Debug, PartialEq, Eq, Structural, Clone, Copy)]
pub enum ParseError {
    /// Fewer than two words were given.
    NotEnoughArguments,
    /// The first word is none of the four verbs.
    InvalidQueryType,
}

/// One command: what to do, on which key, and with which value if one was
/// given.
#[derive(Debug)]
pub struct Query {
    pub q_type: QueryType,
    pub key: String,
    pub value: Option<String>,
}

/// A command as plain data.
pub struct QueryView {
    pub q_type: QueryType,
    pub key: Seq<char>,
    pub value: Option<Seq<char>>,
}

impl View for Query {
    type V = QueryView;

    open spec fn view(&self) -> QueryView {
        QueryView {
            q_type: self.q_type,
            key: self.key@,
            value: match self.value {
                Some(v) => Some(v@),
                None => None,
            },
        }
    }
}

/// The upper-case form of a text as `str::to_uppercase` computes it, by the
/// Unicode case mappings.
pub uninterp spec fn uppercased(s: Seq<char>) -> Seq<char>;

/// Calls `str::to_uppercase`. The result depends on the characters of `s`
/// alone; nothing more is claimed of it than that it is the text named by
/// [`uppercased`].
#[verifier::external_body]
fn to_upper(s: &str) -> (upper: String)
    ensures
        upper@ == uppercased(s@),
{
    s.to_uppercase()
}

/// The kind that an upper-cased verb selects, if any.
pub open spec fn verb_kind(upper: Seq<char>) -> Option<QueryType> {
    if upper == "INSERT"@ {
        Some(QueryType::Insert)
    } else if upper == "SELECT"@ {
        Some(QueryType::Select)
    } else if upper == "UPDATE"@ {
        Some(QueryType::Update)
    } else if upper == "DELETE"@ {
        Some(QueryType::Delete)
    } else {
        None
    }
}

/// The command that `tokens` spell when `upper` is the upper-case form of
/// the first of them: the second is the key, the third, where there is one,
/// the value, and the rest is ignored.
pub open spec fn parsed_with(upper: Seq<char>, tokens: Seq<Seq<char>>) -> Result<
    QueryView,
    ParseError,
> {
    if tokens.len() < 2 {
        Err(ParseError::NotEnoughArguments)
    } else {
        match verb_kind(upper) {
            None => Err(ParseError::InvalidQueryType),
            Some(kind) => Ok(
                QueryView {
                    q_type: kind,
                    key: tokens[1],
                    value: if tokens.len() > 2 {
                        Some(tokens[2])
                    } else {
                        None
                    },
                },
            ),
        }
    }
}

/// The command that `tokens` spell, the verb in any case.
pub open spec fn parsed(tokens: Seq<Seq<char>>) -> Result<QueryView, ParseError> {
    if tokens.len() < 2 {
        Err(ParseError::NotEnoughArguments)
    } else {
        parsed_with(uppercased(tokens[0]), tokens)
    }
}

/// A parse result as plain data.
pub open spec fn result_view(r: Result<Query, ParseError>) -> Result<QueryView, ParseError> {
    match r {
        Ok(q) => Ok(q@),
        Err(e) => Err(e),
    }
}

impl ParseError {
    /// The text shown for this error.
    pub fn message(&self) -> (text: String)
        ensures
            text@ == match *self {
                ParseError::NotEnoughArguments => "Not enough arguments"@,
                ParseError::InvalidQueryType => "Invalid query type"@,
            },
    {
        match self {
            ParseError::NotEnoughArguments => "Not enough arguments".to_owned(),
            ParseError::InvalidQueryType => "Invalid query type".to_owned(),
        }
    }
}

impl QueryType {
    /// Recognises a verb that is already in upper case.
    pub fn from_verb(upper: &str) -> (kind: Option<QueryType>)
        ensures
            kind == verb_kind(upper@),
    {
        if same(upper, "INSERT") {
            Some(QueryType::Insert)
        } else if same(upper, "SELECT") {
            Some(QueryType::Select)
        } else if same(upper, "UPDATE") {
            Some(QueryType::Update)
        } else if same(upper, "DELETE") {
            Some(QueryType::Delete)
        } else {
            None
        }
    }
}

impl Query {
    /// Builds the command that `tokens` spell, given the upper-case form of
    /// the verb.
    pub fn with_verb(upper: &str, tokens: &Vec<&str>) -> (r: Result<Query, ParseError>)
        ensures
            result_view(r) == parsed_with(upper@, views(tokens@)),
    {
        if tokens.len() < 2 {
            return Err(ParseError::NotEnoughArguments);
        }
        let q_type = match QueryType::from_verb(upper) {
            Some(kind) => kind,
            None => {
                return Err(ParseError::InvalidQueryType);
            },
        };
        let key = tokens[1].to_owned();
        let value = if tokens.len() > 2 {
            Some(tokens[2].to_owned())
        } else {
            None
        };
        Ok(Query { q_type, key, value })
    }

    /// Builds a command from the words of one line.
    ///
    /// Fails when there are fewer than two words, and when the first, taken
    /// to upper case, is none of `INSERT`, `SELECT`, `UPDATE` and `DELETE`.
    /// Otherwise the second word is the key and the third, where there is
    /// one, the value; further words are ignored.
    pub fn build_query(tokens: Vec<&str>) -> (r: Result<Query, ParseError>)
        ensures
            result_view(r) == parsed(views(tokens@)),
            tokens@.len() < 2 ==> r == Err::<Query, ParseError>(ParseError::NotEnoughArguments),
            tokens@.len() >= 2 && verb_kind(uppercased(tokens@[0]@)) is None ==> r == Err::<
                Query,
                ParseError,
            >(ParseError::InvalidQueryType),
            tokens@.len() >= 2 && verb_kind(uppercased(tokens@[0]@)) is Some ==> r is Ok,
    {
        if tokens.len() < 2 {
            return Err(ParseError::NotEnoughArguments);
        }
        let upper = to_upper(tokens[0]);
        Query::with_verb(upper.as_str(), &tokens)
    }

    /// Reads one line as a command: splits it into words and builds the
    /// command from them. The key of a command read this way is never empty.
    pub fn parse_line(line: &str) -> (r: Result<Query, ParseError>)
        ensures
            result_view(r) == parsed(words(line@)),
            r matches Ok(q) ==> is_word(q.key@),
    {
        let tokens = split_words(line);
        proof {
            lemma_words_are_words(line@);
        }
        Query::build_query(tokens)
    }
}

} // verus!
