//! The recognizer: from a string to the one, two or three tokens it denotes.
//!
//! Each function here computes the function of `grammar` that its contract
//! names. The pieces (`parse_*`) cut one level off the front of their input;
//! the forms (`*_alt`) put pieces together and build the tokens;
//! `levelparser` tries the forms in the grammar's order.

use vstd::prelude::*;
use vstd::string::*;
use crate::errors::{ErrorView, LevelSpecterError};
use crate::grammar::{
    after_dot, assetdev_seq_cut, assetdev_shot_cut, dot_text, dots_text, first_form, followed_by,
    keyword_cut, lemma_form_token_count, keyword_text, name_cut, recognize, rel_seq_form, rel_seq_rel_cut,
    rel_seq_rel_form, rel_seq_shot_form, rel_shot_cut, rel_shot_form, seq_cut, seq_form,
    shot_cut, shot_form, show_cut, show_form, show_rel_seq_cut, show_rel_seq_form,
    show_rel_shot_cut, show_rel_shot_form, show_seq_rel_form,
};
use crate::lexical::{
    all_plain_letters, alpha_alphanum, alpha_alphanum_upper, ascii_lower, cut_view, digit1, tag, tag_no_case, CaseMode,
};
use crate::leveltype::{wildcard_text, LevelType, Token};

verus! {

/// The tokens of a vector, in order.
pub open spec fn tokens_view(tokens: Seq<LevelType>) -> Seq<Token> {
    Seq::new(tokens.len(), |i: int| tokens[i]@)
}

/// What a form yields in contracts: the rest of the input, then the tokens.
pub open spec fn form_view(r: Option<(&str, Vec<LevelType>)>) -> Option<(Seq<char>, Seq<Token>)> {
    match r {
        Some((rest, tokens)) => Some((rest@, tokens_view(tokens@))),
        None => None,
    }
}

/// The message of a parse failure: a fixed opening, then the input as it
/// was given.
pub open spec fn parse_failure_text(input: Seq<char>) -> Seq<char> {
    "Unable to parse levelspec for "@ + input
}

/// The outcome of recognizing a whole string, in contracts.
pub open spec fn outcome_view(r: Result<Vec<LevelType>, LevelSpecterError>) -> Result<
    Seq<Token>,
    ErrorView,
> {
    match r {
        Ok(tokens) => Ok(tokens_view(tokens@)),
        Err(e) => Err(e@),
    }
}

/// What `levelspec_parser` owes for `input`: its tokens, or a parse failure
/// that quotes it.
pub open spec fn parse_outcome(input: Seq<char>, mode: CaseMode) -> Result<Seq<Token>, ErrorView> {
    match recognize(input, mode) {
        Some(tokens) => Ok(tokens),
        None => Err(ErrorView::ParseError(parse_failure_text(input))),
    }
}

fn one_token(a: LevelType) -> (v: Vec<LevelType>)
    ensures
        tokens_view(v@) == seq![a@],
{
    let mut v = Vec::new();
    v.push(a);
    assert(tokens_view(v@) =~= seq![a@]);
    v
}

fn two_tokens(a: LevelType, b: LevelType) -> (v: Vec<LevelType>)
    ensures
        tokens_view(v@) == seq![a@, b@],
{
    let mut v = Vec::with_capacity(2);
    v.push(a);
    v.push(b);
    assert(tokens_view(v@) =~= seq![a@, b@]);
    v
}

fn three_tokens(a: LevelType, b: LevelType, c: LevelType) -> (v: Vec<LevelType>)
    ensures
        tokens_view(v@) == seq![a@, b@, c@],
{
    let mut v = Vec::with_capacity(3);
    v.push(a);
    v.push(b);
    v.push(c);
    assert(tokens_view(v@) =~= seq![a@, b@, c@]);
    v
}

/// Steps over a leading delimiter.
fn skip_dot<'a>(input: &'a str) -> (r: Option<&'a str>)
    ensures
        match r {
            Some(rest) => after_dot(input@) == Some(rest@),
            None => after_dot(input@) is None,
        },
{
    proof {
        reveal_strlit(".");
    }
    assert("."@ =~= dot_text());
    match tag(".", input) {
        Some((rest, _)) => Some(rest),
        None => None,
    }
}

/// Requires `pattern` behind what was found, and steps over it.
fn then_tag<'a>(found: Option<(&'a str, &'a str)>, pattern: &str) -> (r: Option<(&'a str, &'a str)>)
    ensures
        cut_view(r) == followed_by(cut_view(found), pattern@),
{
    match found {
        Some((rest, text)) => match tag(pattern, rest) {
            Some((behind, _)) => Some((behind, text)),
            None => None,
        },
        None => None,
    }
}

/// A name, or else the wildcard.
fn parse_name<'a>(input: &'a str, mode: CaseMode) -> (r: Option<(&'a str, &'a str)>)
    ensures
        cut_view(r) == name_cut(input@, mode),
{
    proof {
        reveal_strlit("%");
    }
    assert("%"@ =~= wildcard_text());
    let word = match mode {
        CaseMode::Strict => alpha_alphanum_upper(input),
        CaseMode::Relaxed => alpha_alphanum(input),
    };
    match word {
        Some(found) => Some(found),
        None => tag("%", input),
    }
}

/// The reserved sequence name, matched as `mode` asks.
fn parse_keyword<'a>(input: &'a str, mode: CaseMode) -> (r: Option<(&'a str, &'a str)>)
    ensures
        cut_view(r) == keyword_cut(input@, mode),
{
    proof {
        reveal_strlit("ASSETDEV");
    }
    assert("ASSETDEV"@ =~= keyword_text());
    match mode {
        CaseMode::Strict => tag("ASSETDEV", input),
        CaseMode::Relaxed => {
            assert(all_plain_letters(keyword_text())) by {
                assert(ascii_lower('A') == 'a');
                assert(ascii_lower('S') == 's');
                assert(ascii_lower('E') == 'e');
                assert(ascii_lower('T') == 't');
                assert(ascii_lower('D') == 'd');
                assert(ascii_lower('V') == 'v');
            }
            tag_no_case("ASSETDEV", input)
        },
    }
}

/// Recognizes a show at the front of `input`.
pub fn parse_show<'a>(input: &'a str, mode: CaseMode) -> (r: Option<(&'a str, &'a str)>)
    ensures
        cut_view(r) == show_cut(input@, mode),
{
    parse_name(input, mode)
}

/// Recognizes a delimiter and a sequence.
pub fn parse_seq<'a>(input: &'a str, mode: CaseMode) -> (r: Option<(&'a str, &'a str)>)
    ensures
        cut_view(r) == seq_cut(input@, mode),
{
    match skip_dot(input) {
        Some(rest) => parse_name(rest, mode),
        None => None,
    }
}

/// Recognizes a delimiter and a numeric shot.
pub fn parse_shot<'a>(input: &'a str) -> (r: Option<(&'a str, &'a str)>)
    ensures
        cut_view(r) == shot_cut(input@),
{
    proof {
        reveal_strlit("%");
    }
    assert("%"@ =~= wildcard_text());
    match skip_dot(input) {
        Some(rest) => match digit1(rest) {
            Some(found) => Some(found),
            None => tag("%", rest),
        },
        None => None,
    }
}

/// Recognizes a delimiter and the reserved sequence name.
pub fn parse_assetdev_seq<'a>(input: &'a str, mode: CaseMode) -> (r: Option<(&'a str, &'a str)>)
    ensures
        cut_view(r) == assetdev_seq_cut(input@, mode),
{
    match skip_dot(input) {
        Some(rest) => parse_keyword(rest, mode),
        None => None,
    }
}

/// Recognizes a delimiter and a shot as it stands behind the reserved
/// sequence name: a name, not a number.
pub fn parse_assetdev_shot<'a>(input: &'a str, mode: CaseMode) -> (r: Option<(&'a str, &'a str)>)
    ensures
        cut_view(r) == assetdev_shot_cut(input@, mode),
{
    parse_seq(input, mode)
}

/// Recognizes a sequence behind an elided show: `.RD` or `.%`.
pub fn parse_rel_seq<'a>(input: &'a str, mode: CaseMode) -> (r: Option<(&'a str, &'a str)>)
    ensures
        cut_view(r) == seq_cut(input@, mode),
{
    parse_seq(input, mode)
}

/// Recognizes the reserved sequence name behind an elided show.
pub fn parse_rel_assetdev_seq<'a>(input: &'a str, mode: CaseMode) -> (r: Option<
    (&'a str, &'a str),
>)
    ensures
        cut_view(r) == assetdev_seq_cut(input@, mode),
{
    parse_assetdev_seq(input, mode)
}

/// Recognizes a sequence between an elided show and an elided shot: `.RD.`
pub fn parse_rel_seq_rel<'a>(input: &'a str, mode: CaseMode) -> (r: Option<(&'a str, &'a str)>)
    ensures
        cut_view(r) == rel_seq_rel_cut(input@, mode),
{
    proof {
        reveal_strlit(".");
    }
    assert("."@ =~= dot_text());
    let sequence = match parse_rel_assetdev_seq(input, mode) {
        Some(found) => Some(found),
        None => parse_rel_seq(input, mode),
    };
    then_tag(sequence, ".")
}

/// Recognizes a shot behind two elided levels: `..0001`
pub fn parse_rel_shot<'a>(input: &'a str) -> (r: Option<(&'a str, &'a str)>)
    ensures
        cut_view(r) == rel_shot_cut(input@),
{
    match skip_dot(input) {
        Some(rest) => parse_shot(rest),
        None => None,
    }
}

/// Recognizes a show with both lower levels elided: `DEV01..`
pub fn parse_show_rel_shot<'a>(input: &'a str, mode: CaseMode) -> (r: Option<(&'a str, &'a str)>)
    ensures
        cut_view(r) == show_rel_shot_cut(input@, mode),
{
    proof {
        reveal_strlit("..");
    }
    assert(".."@ =~= dots_text());
    then_tag(parse_show(input, mode), "..")
}

/// Recognizes a show with the sequence elided: `DEV01.`
pub fn parse_show_rel_seq<'a>(input: &'a str, mode: CaseMode) -> (r: Option<(&'a str, &'a str)>)
    ensures
        cut_view(r) == show_rel_seq_cut(input@, mode),
{
    proof {
        reveal_strlit(".");
    }
    assert("."@ =~= dot_text());
    then_tag(parse_show(input, mode), ".")
}

/// The form `SHOW.SEQ.SHOT`. Behind the reserved sequence name the shot is a
/// name; where that does not match, the sequence is any name and the shot a
/// number.
pub fn shot_alt<'a>(input: &'a str, mode: CaseMode) -> (r: Option<(&'a str, Vec<LevelType>)>)
    ensures
        form_view(r) == shot_form(input@, mode),
{
    match parse_show(input, mode) {
        Some((rest, show)) => {
            let reserved = match parse_assetdev_seq(rest, mode) {
                Some((rest, sequence)) => match parse_assetdev_shot(rest, mode) {
                    Some((rest, shot)) => Some((rest, sequence, shot)),
                    None => None,
                },
                None => None,
            };
            let found = match reserved {
                Some(found) => Some(found),
                None => match parse_seq(rest, mode) {
                    Some((rest, sequence)) => match parse_shot(rest) {
                        Some((rest, shot)) => Some((rest, sequence, shot)),
                        None => None,
                    },
                    None => None,
                },
            };
            match found {
                Some((rest, sequence, shot)) => Some(
                    (
                        rest,
                        three_tokens(
                            LevelType::from_text(show),
                            LevelType::from_text(sequence),
                            LevelType::from_text(shot),
                        ),
                    ),
                ),
                None => None,
            }
        },
        None => None,
    }
}

/// The form `SHOW.SEQ`.
pub fn seq_alt<'a>(input: &'a str, mode: CaseMode) -> (r: Option<(&'a str, Vec<LevelType>)>)
    ensures
        form_view(r) == seq_form(input@, mode),
{
    match parse_show(input, mode) {
        Some((rest, show)) => match parse_seq(rest, mode) {
            Some((rest, sequence)) => Some(
                (rest, two_tokens(LevelType::from_text(show), LevelType::from_text(sequence))),
            ),
            None => None,
        },
        None => None,
    }
}

/// The form `SHOW`.
pub fn show_alt<'a>(input: &'a str, mode: CaseMode) -> (r: Option<(&'a str, Vec<LevelType>)>)
    ensures
        form_view(r) == show_form(input@, mode),
{
    match parse_show(input, mode) {
        Some((rest, show)) => Some((rest, one_token(LevelType::from_text(show)))),
        None => None,
    }
}

/// The form `SHOW..`: sequence and shot are elided.
pub fn show_rel_shot_alt<'a>(input: &'a str, mode: CaseMode) -> (r: Option<
    (&'a str, Vec<LevelType>),
>)
    ensures
        form_view(r) == show_rel_shot_form(input@, mode),
{
    match parse_show_rel_shot(input, mode) {
        Some((rest, show)) => Some(
            (
                rest,
                three_tokens(LevelType::from_text(show), LevelType::Relative, LevelType::Relative),
            ),
        ),
        None => None,
    }
}

/// The form `SHOW.`: the sequence is elided.
pub fn show_rel_seq_alt<'a>(input: &'a str, mode: CaseMode) -> (r: Option<
    (&'a str, Vec<LevelType>),
>)
    ensures
        form_view(r) == show_rel_seq_form(input@, mode),
{
    match parse_show_rel_seq(input, mode) {
        Some((rest, show)) => Some(
            (rest, two_tokens(LevelType::from_text(show), LevelType::Relative)),
        ),
        None => None,
    }
}

/// The form `.SEQ`: the show is elided.
pub fn rel_seq_alt<'a>(input: &'a str, mode: CaseMode) -> (r: Option<(&'a str, Vec<LevelType>)>)
    ensures
        form_view(r) == rel_seq_form(input@, mode),
{
    let found = match parse_rel_assetdev_seq(input, mode) {
        Some(found) => Some(found),
        None => parse_rel_seq(input, mode),
    };
    match found {
        Some((rest, sequence)) => Some(
            (rest, two_tokens(LevelType::Relative, LevelType::from_text(sequence))),
        ),
        None => None,
    }
}

/// The form `.SEQ.`: show and shot are elided. It is matched once: what
/// follows the closing delimiter is left over.
pub fn rel_seq_rel_alt<'a>(input: &'a str, mode: CaseMode) -> (r: Option<
    (&'a str, Vec<LevelType>),
>)
    ensures
        form_view(r) == rel_seq_rel_form(input@, mode),
{
    match parse_rel_seq_rel(input, mode) {
        Some((rest, sequence)) => Some(
            (
                rest,
                three_tokens(
                    LevelType::Relative,
                    LevelType::from_text(sequence),
                    LevelType::Relative,
                ),
            ),
        ),
        None => None,
    }
}

/// The form `.SEQ.SHOT`: the show is elided. A sequence with a numeric shot
/// is tried first, then the reserved sequence name with a named shot.
pub fn rel_seq_shot_alt<'a>(input: &'a str, mode: CaseMode) -> (r: Option<
    (&'a str, Vec<LevelType>),
>)
    ensures
        form_view(r) == rel_seq_shot_form(input@, mode),
{
    let plain = match parse_rel_seq(input, mode) {
        Some((rest, sequence)) => match parse_shot(rest) {
            Some((rest, shot)) => Some((rest, sequence, shot)),
            None => None,
        },
        None => None,
    };
    let found = match plain {
        Some(found) => Some(found),
        None => match parse_rel_assetdev_seq(input, mode) {
            Some((rest, sequence)) => match parse_assetdev_shot(rest, mode) {
                Some((rest, shot)) => Some((rest, sequence, shot)),
                None => None,
            },
            None => None,
        },
    };
    match found {
        Some((rest, sequence, shot)) => Some(
            (
                rest,
                three_tokens(
                    LevelType::Relative,
                    LevelType::from_text(sequence),
                    LevelType::from_text(shot),
                ),
            ),
        ),
        None => None,
    }
}

/// The form `SHOW.SEQ.`: the shot is elided.
pub fn show_seq_rel_alt<'a>(input: &'a str, mode: CaseMode) -> (r: Option<
    (&'a str, Vec<LevelType>),
>)
    ensures
        form_view(r) == show_seq_rel_form(input@, mode),
{
    proof {
        reveal_strlit(".");
    }
    assert("."@ =~= dot_text());
    match parse_show(input, mode) {
        Some((rest, show)) => match then_tag(parse_seq(rest, mode), ".") {
            Some((rest, sequence)) => Some(
                (
                    rest,
                    three_tokens(
                        LevelType::from_text(show),
                        LevelType::from_text(sequence),
                        LevelType::Relative,
                    ),
                ),
            ),
            None => None,
        },
        None => None,
    }
}

/// The form `..SHOT`: show and sequence are elided.
pub fn rel_shot_alt<'a>(input: &'a str) -> (r: Option<(&'a str, Vec<LevelType>)>)
    ensures
        form_view(r) == rel_shot_form(input@),
{
    match parse_rel_shot(input) {
        Some((rest, shot)) => Some(
            (
                rest,
                three_tokens(LevelType::Relative, LevelType::Relative, LevelType::from_text(shot)),
            ),
        ),
        None => None,
    }
}

/// Tries the forms in the grammar's order and takes the first that matches a
/// prefix of `input`.
pub fn first_alt<'a>(input: &'a str, mode: CaseMode) -> (r: Option<(&'a str, Vec<LevelType>)>)
    ensures
        form_view(r) == first_form(input@, mode),
{
    if let Some(found) = rel_shot_alt(input) {
        return Some(found);
    }
    if let Some(found) = rel_seq_shot_alt(input, mode) {
        return Some(found);
    }
    if let Some(found) = rel_seq_rel_alt(input, mode) {
        return Some(found);
    }
    if let Some(found) = rel_seq_alt(input, mode) {
        return Some(found);
    }
    if let Some(found) = shot_alt(input, mode) {
        return Some(found);
    }
    if let Some(found) = show_rel_shot_alt(input, mode) {
        return Some(found);
    }
    if let Some(found) = show_seq_rel_alt(input, mode) {
        return Some(found);
    }
    if let Some(found) = seq_alt(input, mode) {
        return Some(found);
    }
    if let Some(found) = show_rel_seq_alt(input, mode) {
        return Some(found);
    }
    show_alt(input, mode)
}

/// Recognizes a whole levelspec: the first form that matches must leave
/// nothing over.
pub fn levelparser(input: &str, mode: CaseMode) -> (r: Option<Vec<LevelType>>)
    ensures
        match r {
            Some(tokens) => recognize(input@, mode) == Some(tokens_view(tokens@)),
            None => recognize(input@, mode) is None,
        },
        r matches Some(tokens) ==> 1 <= tokens@.len() <= 3,
{
    proof {
        lemma_form_token_count(input@, mode);
    }
    match first_alt(input, mode) {
        Some((rest, tokens)) => {
            if rest.unicode_len() == 0 {
                Some(tokens)
            } else {
                None
            }
        },
        None => None,
    }
}

/// Parses a levelspec in the given case mode. The result holds the tokens of
/// the show, of the sequence if there is one, and of the shot if there is
/// one; an input that is no levelspec is quoted in the error.
pub fn levelspec_parser_with_mode(input: &str, mode: CaseMode) -> (r: Result<
    Vec<LevelType>,
    LevelSpecterError,
>)
    ensures
        outcome_view(r) == parse_outcome(input@, mode),
        r matches Ok(tokens) ==> 1 <= tokens@.len() <= 3,
{
    match levelparser(input, mode) {
        Some(tokens) => Ok(tokens),
        None => {
            let msg = "Unable to parse levelspec for ".to_owned().concat(input);
            Err(LevelSpecterError::ParseError(msg))
        },
    }
}

/// Parses a levelspec with upper-case names only.
pub fn levelspec_parser(input: &str) -> (r: Result<Vec<LevelType>, LevelSpecterError>)
    ensures
        outcome_view(r) == parse_outcome(input@, CaseMode::Strict),
        r matches Ok(tokens) ==> 1 <= tokens@.len() <= 3,
{
    levelspec_parser_with_mode(input, CaseMode::Strict)
}

} // verus!
