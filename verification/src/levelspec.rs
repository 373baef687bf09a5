//! The levelspec itself: a show, and below it an optional sequence and an
//! optional shot.

use vstd::prelude::*;
use vstd::string::*;
use crate::casing::{to_uppercase, upper_text};
use crate::errors::{ErrorView, LevelSpecterError};
use crate::grammar::{dot_text, recognize};
use crate::levelparser::{levelspec_parser_with_mode, parse_failure_text, tokens_view};
use crate::lexical::CaseMode;
use crate::leveltype::{token_of, LevelType, Token};

verus! {

/// Names one of the three levels.
#[derive(Debug, PartialEq, Eq, PartialOrd, Ord, Clone, Copy, Structural)]
pub enum LevelName {
    Show,
    Sequence,
    Shot,
}

/// A levelspec. A shot is only ever present below a sequence; `wf` says so,
/// and every constructor and operation of this module keeps it.
#[derive(Debug, PartialEq, Eq, Clone)]
pub struct LevelSpec {
    pub show: LevelType,
    pub sequence: Option<LevelType>,
    pub shot: Option<LevelType>,
}

/// A levelspec in contracts.
pub struct Levels {
    pub show: Token,
    pub sequence: Option<Token>,
    pub shot: Option<Token>,
}

pub open spec fn option_token(t: Option<LevelType>) -> Option<Token> {
    match t {
        Some(t) => Some(t@),
        None => None,
    }
}

pub open spec fn option_text(t: Option<String>) -> Option<Seq<char>> {
    match t {
        Some(t) => Some(t@),
        None => None,
    }
}

impl View for LevelSpec {
    type V = Levels;

    open spec fn view(&self) -> Levels {
        Levels {
            show: self.show@,
            sequence: option_token(self.sequence),
            shot: option_token(self.shot),
        }
    }
}

/// A token in upper case: a name is upper-cased, the wildcard and an elided
/// level stay as they are.
pub open spec fn upper_token(t: Token) -> Token {
    match t {
        Token::Term(name) => Token::Term(upper_text(name)),
        other => other,
    }
}

pub open spec fn upper_option(t: Option<Token>) -> Option<Token> {
    match t {
        Some(t) => Some(upper_token(t)),
        None => None,
    }
}

/// A token as a constructor stores it: upper-cased in strict mode, as given
/// in relaxed mode.
pub open spec fn cased_token(t: Token, mode: CaseMode) -> Token {
    match mode {
        CaseMode::Strict => upper_token(t),
        CaseMode::Relaxed => t,
    }
}

impl Levels {
    /// A shot stands below a sequence.
    pub open spec fn wf(self) -> bool {
        self.shot is Some ==> self.sequence is Some
    }

    /// The levels that are present, from the show down.
    pub open spec fn tokens(self) -> Seq<Token> {
        match (self.sequence, self.shot) {
            (Some(sequence), Some(shot)) => seq![self.show, sequence, shot],
            (Some(sequence), None) => seq![self.show, sequence],
            (None, _) => seq![self.show],
        }
    }

    /// The dotted notation: the texts of the levels that are present, joined
    /// by the delimiter.
    pub open spec fn text(self) -> Seq<char> {
        match (self.sequence, self.shot) {
            (Some(sequence), Some(shot)) => self.show.text() + dot_text() + sequence.text()
                + dot_text() + shot.text(),
            (Some(sequence), None) => self.show.text() + dot_text() + sequence.text(),
            (None, _) => self.show.text(),
        }
    }

    /// Every name in upper case.
    pub open spec fn upper(self) -> Levels {
        Levels {
            show: upper_token(self.show),
            sequence: upper_option(self.sequence),
            shot: upper_option(self.shot),
        }
    }

    /// No level is the wildcard. Elided levels do not count against it.
    pub open spec fn is_concrete(self) -> bool {
        &&& self.show != Token::Wildcard
        &&& self.sequence != Some(Token::Wildcard)
        &&& self.shot != Some(Token::Wildcard)
    }

    /// No level is elided.
    pub open spec fn is_absolute(self) -> bool {
        &&& self.show != Token::Relative
        &&& self.sequence != Some(Token::Relative)
        &&& self.shot != Some(Token::Relative)
    }

    /// The levels as a constructor stores them in `mode`.
    pub open spec fn cased(self, mode: CaseMode) -> Levels {
        match mode {
            CaseMode::Strict => self.upper(),
            CaseMode::Relaxed => self,
        }
    }
}

/// One, two or three tokens, put on the levels from the show down.
pub open spec fn levels_of(tokens: Seq<Token>) -> Levels {
    Levels {
        show: tokens[0],
        sequence: if tokens.len() >= 2 {
            Some(tokens[1])
        } else {
            None
        },
        shot: if tokens.len() >= 3 {
            Some(tokens[2])
        } else {
            None
        },
    }
}

/// What parsing `input` owes: the levels of its tokens, or a parse failure
/// that quotes it.
pub open spec fn parsed(input: Seq<char>, mode: CaseMode) -> Result<Levels, ErrorView> {
    match recognize(input, mode) {
        Some(tokens) => Ok(levels_of(tokens)),
        None => Err(ErrorView::ParseError(parse_failure_text(input))),
    }
}

pub open spec fn levels_result(r: Result<LevelSpec, LevelSpecterError>) -> Result<
    Levels,
    ErrorView,
> {
    match r {
        Ok(spec) => Ok(spec@),
        Err(e) => Err(e@),
    }
}

pub open spec fn token_result(r: Result<LevelType, LevelSpecterError>) -> Result<Token, ErrorView> {
    match r {
        Ok(t) => Ok(t@),
        Err(e) => Err(e@),
    }
}

/// A level's name as it appears in messages about a missing value.
pub open spec fn level_label(name: LevelName) -> Seq<char> {
    match name {
        LevelName::Show => "Show"@,
        LevelName::Sequence => "Sequence"@,
        LevelName::Shot => "Shot"@,
    }
}

/// A level's name as it appears in messages about an empty value.
pub open spec fn level_word(name: LevelName) -> Seq<char> {
    match name {
        LevelName::Show => "show"@,
        LevelName::Sequence => "sequence"@,
        LevelName::Shot => "shot"@,
    }
}

/// The message for a level that the resolver had no value for.
pub open spec fn missing_text(name: LevelName) -> Seq<char> {
    "Unable to retrieve "@ + level_label(name) + " in rel_to_abs"@
}

/// The message for a level that the resolver gave an empty value, which is
/// quoted.
pub open spec fn still_relative_text(name: LevelName, value: Seq<char>) -> Seq<char> {
    level_word(name) + " returned by closure is relative '"@ + value + "'"@
}

/// The token that an elided level gets from what the resolver supplied: no
/// value and an empty value are errors, any other text is read as a token.
pub open spec fn resolved(name: LevelName, supplied: Option<Seq<char>>) -> Result<
    Token,
    ErrorView,
> {
    match supplied {
        None => Err(ErrorView::RelToAbsError(missing_text(name))),
        Some(value) => if value.len() == 0 {
            Err(ErrorView::RelToAbsError(still_relative_text(name, value)))
        } else {
            Ok(token_of(value))
        },
    }
}

/// One level after resolution: an elided level takes the supplied value,
/// any other stays as it is.
pub open spec fn resolved_level(name: LevelName, current: Token, supplied: Option<Seq<char>>)
    -> Result<Token, ErrorView> {
    if current == Token::Relative {
        resolved(name, supplied)
    } else {
        Ok(current)
    }
}

/// A level that may be absent: an absent level stays absent.
pub open spec fn resolved_option(
    name: LevelName,
    current: Option<Token>,
    supplied: Option<Seq<char>>,
) -> Result<Option<Token>, ErrorView> {
    match current {
        Some(t) => match resolved_level(name, t, supplied) {
            Ok(t) => Ok(Some(t)),
            Err(e) => Err(e),
        },
        None => Ok(None),
    }
}

/// The levelspec with its elided levels resolved from the three supplied
/// values, show first: the first level that cannot be resolved decides the
/// error.
pub open spec fn resolved_levels(
    v: Levels,
    show: Option<Seq<char>>,
    sequence: Option<Seq<char>>,
    shot: Option<Seq<char>>,
) -> Result<Levels, ErrorView> {
    match resolved_level(LevelName::Show, v.show, show) {
        Err(e) => Err(e),
        Ok(new_show) => match resolved_option(LevelName::Sequence, v.sequence, sequence) {
            Err(e) => Err(e),
            Ok(new_sequence) => match resolved_option(LevelName::Shot, v.shot, shot) {
                Err(e) => Err(e),
                Ok(new_shot) => Ok(Levels { show: new_show, sequence: new_sequence, shot: new_shot }),
            },
        },
    }
}

/// The resolver is asked for the show if the show is elided.
pub open spec fn asks_show(v: Levels) -> bool {
    v.show == Token::Relative
}

/// The resolver is asked for the sequence if it is elided and the show was
/// settled.
pub open spec fn asks_sequence(v: Levels, show: Option<Seq<char>>) -> bool {
    v.sequence == Some(Token::Relative) && resolved_level(LevelName::Show, v.show, show) is Ok
}

/// The resolver is asked for the shot if it is elided and show and sequence
/// were settled.
pub open spec fn asks_shot(v: Levels, show: Option<Seq<char>>, sequence: Option<Seq<char>>) -> bool {
    &&& v.shot == Some(Token::Relative)
    &&& resolved_level(LevelName::Show, v.show, show) is Ok
    &&& resolved_option(LevelName::Sequence, v.sequence, sequence) is Ok
}

fn upper_level(t: LevelType) -> (r: LevelType)
    ensures
        r@ == upper_token(t@),
{
    match t {
        LevelType::Term(name) => LevelType::Term(to_uppercase(name.as_str())),
        other => other,
    }
}

fn upper_option_level(t: Option<LevelType>) -> (r: Option<LevelType>)
    ensures
        option_token(r) == upper_option(option_token(t)),
{
    match t {
        Some(t) => Some(upper_level(t)),
        None => None,
    }
}

fn duplicate_option(t: &Option<LevelType>) -> (r: Option<LevelType>)
    ensures
        option_token(r) == option_token(*t),
{
    match t {
        Some(t) => Some(t.duplicate()),
        None => None,
    }
}

fn level_name_label(name: LevelName) -> (r: &'static str)
    ensures
        r@ == level_label(name),
{
    match name {
        LevelName::Show => "Show",
        LevelName::Sequence => "Sequence",
        LevelName::Shot => "Shot",
    }
}

fn level_name_word(name: LevelName) -> (r: &'static str)
    ensures
        r@ == level_word(name),
{
    match name {
        LevelName::Show => "show",
        LevelName::Sequence => "sequence",
        LevelName::Shot => "shot",
    }
}

/// Turns what a resolver supplied for the level `name` into the token that
/// takes the elided level's place, or into the error that says why it
/// cannot.
pub fn resolve_level(name: LevelName, supplied: Option<String>) -> (r: Result<
    LevelType,
    LevelSpecterError,
>)
    ensures
        token_result(r) == resolved(name, option_text(supplied)),
        r matches Ok(t) ==> t@.wf() && t@ != Token::Relative,
{
    match supplied {
        None => {
            let msg = "Unable to retrieve ".to_owned().concat(level_name_label(name)).concat(
                " in rel_to_abs",
            );
            Err(LevelSpecterError::RelToAbsError(msg))
        },
        Some(value) => {
            let token = LevelType::from_text(value.as_str());
            if token.is_relative() {
                let msg = level_name_word(name).to_owned().concat(
                    " returned by closure is relative '",
                ).concat(value.as_str()).concat("'");
                Err(LevelSpecterError::RelToAbsError(msg))
            } else {
                Ok(token)
            }
        },
    }
}

impl LevelSpec {
    /// Parses a levelspec with upper-case names only.
    pub fn new(levelspec: &str) -> (r: Result<LevelSpec, LevelSpecterError>)
        ensures
            levels_result(r) == parsed(levelspec@, CaseMode::Strict),
            r matches Ok(spec) ==> spec@.wf(),
    {
        LevelSpec::new_with_mode(levelspec, CaseMode::Strict)
    }

    /// Parses a levelspec in the given case mode: the tokens that the
    /// recognizer finds go to show, sequence and shot in this order.
    pub fn new_with_mode(levelspec: &str, mode: CaseMode) -> (r: Result<
        LevelSpec,
        LevelSpecterError,
    >)
        ensures
            levels_result(r) == parsed(levelspec@, mode),
            r matches Ok(spec) ==> spec@.wf(),
    {
        match levelspec_parser_with_mode(levelspec, mode) {
            Ok(levels) => Ok(LevelSpec::from_levels(levels)),
            Err(e) => Err(e),
        }
    }

    /// Puts one, two or three tokens on the levels, from the show down.
    pub fn from_levels(levels: Vec<LevelType>) -> (r: LevelSpec)
        requires
            1 <= levels@.len() <= 3,
        ensures
            r@ == levels_of(tokens_view(levels@)),
            r@.wf(),
    {
        let mut levels = levels;
        let ghost given = levels@;
        let shot = if levels.len() == 3 {
            levels.pop()
        } else {
            None
        };
        let sequence = if levels.len() == 2 {
            levels.pop()
        } else {
            None
        };
        let show = levels.pop().unwrap();
        assert(show == given[0]);
        LevelSpec { show, sequence, shot }
    }

    /// Converts every name to upper case, in place.
    pub fn set_upper(&mut self)
        ensures
            final(self)@ == old(self)@.upper(),
    {
        let mut show = LevelType::Relative;
        std::mem::swap(&mut show, &mut self.show);
        self.show = upper_level(show);
        self.sequence = upper_option_level(self.sequence.take());
        self.shot = upper_option_level(self.shot.take());
    }

    /// Converts every name to upper case and hands the levelspec back.
    pub fn upper(self) -> (r: LevelSpec)
        ensures
            r@ == self@.upper(),
    {
        LevelSpec {
            show: upper_level(self.show),
            sequence: upper_option_level(self.sequence),
            shot: upper_option_level(self.shot),
        }
    }

    /// Builds a levelspec that holds a show only, from its text, with names
    /// in upper case.
    pub fn from_show(input: &str) -> (r: LevelSpec)
        ensures
            r@ == (Levels { show: token_of(input@), sequence: None, shot: None }).upper(),
            r@.wf(),
    {
        LevelSpec::from_show_with_mode(input, CaseMode::Strict)
    }

    /// Builds a levelspec that holds a show and a sequence, with names in
    /// upper case.
    pub fn from_sequence(show: &str, sequence: &str) -> (r: LevelSpec)
        ensures
            r@ == (Levels {
                show: token_of(show@),
                sequence: Some(token_of(sequence@)),
                shot: None,
            }).upper(),
            r@.wf(),
    {
        LevelSpec::from_sequence_with_mode(show, sequence, CaseMode::Strict)
    }

    /// Builds a levelspec that holds all three levels, with names in upper
    /// case.
    pub fn from_shot(show: &str, sequence: &str, shot: &str) -> (r: LevelSpec)
        ensures
            r@ == (Levels {
                show: token_of(show@),
                sequence: Some(token_of(sequence@)),
                shot: Some(token_of(shot@)),
            }).upper(),
            r@.wf(),
    {
        LevelSpec::from_shot_with_mode(show, sequence, shot, CaseMode::Strict)
    }

    /// Builds a levelspec that holds a show only. Strict mode stores names in
    /// upper case, relaxed mode as they are given.
    pub fn from_show_with_mode(input: &str, mode: CaseMode) -> (r: LevelSpec)
        ensures
            r@ == (Levels { show: token_of(input@), sequence: None, shot: None }).cased(mode),
            r@.wf(),
    {
        let ls = LevelSpec { show: LevelType::from_text(input), sequence: None, shot: None };
        match mode {
            CaseMode::Strict => ls.upper(),
            CaseMode::Relaxed => ls,
        }
    }

    /// Builds a levelspec that holds a show and a sequence, cased as `mode`
    /// asks.
    pub fn from_sequence_with_mode(show: &str, sequence: &str, mode: CaseMode) -> (r: LevelSpec)
        ensures
            r@ == (Levels {
                show: token_of(show@),
                sequence: Some(token_of(sequence@)),
                shot: None,
            }).cased(mode),
            r@.wf(),
    {
        let ls = LevelSpec {
            show: LevelType::from_text(show),
            sequence: Some(LevelType::from_text(sequence)),
            shot: None,
        };
        match mode {
            CaseMode::Strict => ls.upper(),
            CaseMode::Relaxed => ls,
        }
    }

    /// Builds a levelspec that holds all three levels, cased as `mode` asks.
    pub fn from_shot_with_mode(show: &str, sequence: &str, shot: &str, mode: CaseMode) -> (r:
        LevelSpec)
        ensures
            r@ == (Levels {
                show: token_of(show@),
                sequence: Some(token_of(sequence@)),
                shot: Some(token_of(shot@)),
            }).cased(mode),
            r@.wf(),
    {
        let ls = LevelSpec {
            show: LevelType::from_text(show),
            sequence: Some(LevelType::from_text(sequence)),
            shot: Some(LevelType::from_text(shot)),
        };
        match mode {
            CaseMode::Strict => ls.upper(),
            CaseMode::Relaxed => ls,
        }
    }

    /// Tells whether the levelspec names something rather than queries: it
    /// does unless a level is the wildcard.
    pub fn is_concrete(&self) -> (r: bool)
        ensures
            r == self@.is_concrete(),
            r == !(self@.show == Token::Wildcard || self@.sequence == Some(Token::Wildcard)
                || self@.shot == Some(Token::Wildcard)),
    {
        if self.show.is_wildcard() {
            return false;
        }
        if let Some(ref ls) = self.sequence {
            if ls.is_wildcard() {
                return false;
            }
        }
        if let Some(ref ls) = self.shot {
            if ls.is_wildcard() {
                return false;
            }
        }
        true
    }

    /// The show.
    pub fn show(&self) -> (r: &LevelType)
        ensures
            *r == self.show,
    {
        &self.show
    }

    /// The sequence, if there is one.
    pub fn sequence(&self) -> (r: Option<&LevelType>)
        ensures
            match r {
                Some(t) => self.sequence == Some(*t),
                None => self.sequence is None,
            },
    {
        match &self.sequence {
            Some(val) => Some(val),
            None => None,
        }
    }

    /// The shot, if there is one.
    pub fn shot(&self) -> (r: Option<&LevelType>)
        ensures
            match r {
                Some(t) => self.shot == Some(*t),
                None => self.shot is None,
            },
    {
        match &self.shot {
            Some(val) => Some(val),
            None => None,
        }
    }

    /// The levels that are present, from the show down.
    pub fn to_vec_str<'a>(&'a self) -> (r: Vec<&'a LevelType>)
        ensures
            r@.len() == self@.tokens().len(),
            forall|i: int| 0 <= i < r@.len() ==> (#[trigger] r@[i])@ == self@.tokens()[i],
    {
        let mut levels: Vec<&'a LevelType> = Vec::new();
        levels.push(&self.show);
        if let Some(ref sequence) = self.sequence {
            levels.push(sequence);
            if let Some(ref shot) = self.shot {
                levels.push(shot);
            }
        }
        levels
    }

    /// Renders the levelspec in the dotted notation.
    pub fn to_string(&self) -> (r: String)
        requires
            self@.wf(),
        ensures
            r@ == self@.text(),
    {
        proof {
            reveal_strlit(".");
        }
        assert("."@ =~= dot_text());
        let mut out = self.show.to_str().to_owned();
        if let Some(ref sequence) = self.sequence {
            out = out.concat(".").concat(sequence.to_str());
            if let Some(ref shot) = self.shot {
                out = out.concat(".").concat(shot.to_str());
            }
        }
        out
    }

    /// Returns a copy in which every elided level has the value that
    /// `replacer` supplies for it. The resolver is asked only for elided
    /// levels, show first, and no further once a level cannot be resolved;
    /// names and wildcards that are already there stay untouched.
    pub fn rel_to_abs<P>(&self, replacer: P) -> (r: Result<LevelSpec, LevelSpecterError>) where
        P: Fn(LevelName) -> Option<String>,
        requires
            forall|name: LevelName| replacer.requires((name,)),
        ensures
            exists|show: Option<String>, sequence: Option<String>, shot: Option<String>|
                {
                    &&& asks_show(self@) ==> replacer.ensures((LevelName::Show,), show)
                    &&& asks_sequence(self@, option_text(show)) ==> replacer.ensures(
                        (LevelName::Sequence,),
                        sequence,
                    )
                    &&& asks_shot(self@, option_text(show), option_text(sequence))
                        ==> replacer.ensures((LevelName::Shot,), shot)
                    &&& #[trigger] resolved_levels(
                        self@,
                        option_text(show),
                        option_text(sequence),
                        option_text(shot),
                    ) == levels_result(r)
                },
            r matches Ok(spec) ==> spec@.is_absolute() && (self@.wf() ==> spec@.wf()),
    {
        let ghost mut a: Option<String> = None;
        let ghost mut b: Option<String> = None;
        let ghost mut c: Option<String> = None;
        let show = if self.show.is_relative() {
            let supplied = replacer(LevelName::Show);
            proof {
                a = supplied;
            }
            match resolve_level(LevelName::Show, supplied) {
                Ok(t) => t,
                Err(e) => {
                    assert(resolved_levels(
                        self@,
                        option_text(a),
                        option_text(b),
                        option_text(c),
                    ) == levels_result(Err::<LevelSpec, LevelSpecterError>(e)));
                    return Err(e);
                },
            }
        } else {
            self.show.duplicate()
        };
        let sequence = match &self.sequence {
            Some(t) => if t.is_relative() {
                let supplied = replacer(LevelName::Sequence);
                proof {
                    b = supplied;
                }
                match resolve_level(LevelName::Sequence, supplied) {
                    Ok(t) => Some(t),
                    Err(e) => {
                        assert(resolved_levels(
                            self@,
                            option_text(a),
                            option_text(b),
                            option_text(c),
                        ) == levels_result(Err::<LevelSpec, LevelSpecterError>(e)));
                        return Err(e);
                    },
                }
            } else {
                Some(t.duplicate())
            },
            None => None,
        };
        let shot = match &self.shot {
            Some(t) => if t.is_relative() {
                let supplied = replacer(LevelName::Shot);
                proof {
                    c = supplied;
                }
                match resolve_level(LevelName::Shot, supplied) {
                    Ok(t) => Some(t),
                    Err(e) => {
                        assert(resolved_levels(
                            self@,
                            option_text(a),
                            option_text(b),
                            option_text(c),
                        ) == levels_result(Err::<LevelSpec, LevelSpecterError>(e)));
                        return Err(e);
                    },
                }
            } else {
                Some(t.duplicate())
            },
            None => None,
        };
        let out = LevelSpec { show, sequence, shot };
        assert(resolved_levels(self@, option_text(a), option_text(b), option_text(c))
            == levels_result(Ok::<LevelSpec, LevelSpecterError>(out)));
        Ok(out)
    }
}

impl std::str::FromStr for LevelSpec {
    type Err = LevelSpecterError;

    /// Parses a levelspec with upper-case names only, as `new` does.
    fn from_str(s: &str) -> (r: Result<LevelSpec, LevelSpecterError>)
        ensures
            levels_result(r) == parsed(s@, CaseMode::Strict),
            r matches Ok(spec) ==> spec@.wf(),
    {
        LevelSpec::new(s)
    }
}

} // verus!
