//! One level of a levelspec: a name, the wildcard, or an elided position.

use vstd::prelude::*;
use vstd::string::*;

verus! {

/// The token that stands at one level of a levelspec.
#[derive(Debug, PartialEq, Eq, Clone)]
pub enum LevelType {
    /// A concrete name.
    Term(String),
    /// `%`: any value at this level.
    Wildcard,
    /// An elided level, to be supplied by context.
    Relative,
}

/// A token in contracts, with the characters of its name.
pub enum Token {
    Term(Seq<char>),
    Wildcard,
    Relative,
}

/// The text that stands for the wildcard.
pub open spec fn wildcard_text() -> Seq<char> {
    seq!['%']
}

/// The token that a piece of text denotes: nothing is `Relative`, `%` is
/// `Wildcard`, anything else is a name.
pub open spec fn token_of(text: Seq<char>) -> Token {
    if text.len() == 0 {
        Token::Relative
    } else if text == wildcard_text() {
        Token::Wildcard
    } else {
        Token::Term(text)
    }
}

impl Token {
    /// The text that denotes the token.
    pub open spec fn text(self) -> Seq<char> {
        match self {
            Token::Term(name) => name,
            Token::Wildcard => wildcard_text(),
            Token::Relative => Seq::empty(),
        }
    }

    /// A name is neither empty nor the wildcard's text.
    pub open spec fn wf(self) -> bool {
        match self {
            Token::Term(name) => name.len() > 0 && name != wildcard_text(),
            _ => true,
        }
    }
}

impl View for LevelType {
    type V = Token;

    open spec fn view(&self) -> Token {
        match self {
            LevelType::Term(name) => Token::Term(name@),
            LevelType::Wildcard => Token::Wildcard,
            LevelType::Relative => Token::Relative,
        }
    }
}

impl LevelType {
    /// Builds the token that `input` denotes.
    pub fn from_text(input: &str) -> (r: LevelType)
        ensures
            r@ == token_of(input@),
            r@.wf(),
    {
        let n = input.unicode_len();
        if n == 0 {
            LevelType::Relative
        } else if n == 1 && input.get_char(0) == '%' {
            assert(input@ =~= wildcard_text());
            LevelType::Wildcard
        } else {
            LevelType::Term(input.to_owned())
        }
    }

    /// A wildcard makes the levelspec that holds it a query.
    pub fn is_wildcard(&self) -> (r: bool)
        ensures
            r == (self@ == Token::Wildcard),
    {
        match self {
            LevelType::Wildcard => true,
            _ => false,
        }
    }

    pub fn is_relative(&self) -> (r: bool)
        ensures
            r == (self@ == Token::Relative),
    {
        match self {
            LevelType::Relative => true,
            _ => false,
        }
    }

    pub fn is_term(&self) -> (r: bool)
        ensures
            r == (self@ is Term),
    {
        match self {
            LevelType::Term(_) => true,
            _ => false,
        }
    }

    /// The text that denotes the token.
    pub fn to_str(&self) -> (r: &str)
        ensures
            r@ == self@.text(),
    {
        match self {
            LevelType::Term(name) => name.as_str(),
            LevelType::Wildcard => {
                proof {
                    reveal_strlit("%");
                }
                assert("%"@ =~= wildcard_text());
                "%"
            },
            LevelType::Relative => {
                proof {
                    reveal_strlit("");
                }
                assert(""@ =~= Seq::<char>::empty());
                ""
            },
        }
    }

    /// A copy of the token.
    pub fn duplicate(&self) -> (r: LevelType)
        ensures
            r@ == self@,
    {
        match self {
            LevelType::Term(name) => LevelType::Term(name.clone()),
            LevelType::Wildcard => LevelType::Wildcard,
            LevelType::Relative => LevelType::Relative,
        }
    }
}

impl From<&str> for LevelType {
    fn from(input: &str) -> (r: LevelType)
        ensures
            r@ == token_of(input@),
            r@.wf(),
    {
        LevelType::from_text(input)
    }
}

/// `from` is stated by the view of what it returns, in its own `ensures`:
/// contracts do not tell apart two strings of the same characters, so there
/// is no one value to name here.
impl vstd::std_specs::convert::FromSpecImpl<&str> for LevelType {
    open spec fn obeys_from_spec() -> bool {
        false
    }

    open spec fn from_spec(v: &str) -> LevelType {
        choose|t: LevelType| t@ == token_of(v@)
    }
}

/// From text to token and back nothing is lost: the token that a token's
/// text denotes is the token itself.
pub proof fn lemma_token_text_round_trip(t: Token)
    requires
        t.wf(),
    ensures
        token_of(t.text()) == t,
{
}

/// From token to text and back nothing is lost either.
pub proof fn lemma_text_token_round_trip(text: Seq<char>)
    ensures
        token_of(text).text() == text,
        token_of(text).wf(),
{
}

} // verus!
