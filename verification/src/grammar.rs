//! The levelspec grammar, as functions on sequences of characters.
//!
//! The notation is recognized by ordered choice: the forms are tried in a
//! fixed order, the first one that matches a prefix of the input is taken,
//! and the input is accepted only if that form used all of it. The order is
//! part of the grammar. The functions here define it; the recognizers of
//! `levelparser` are proved to compute them.

use vstd::prelude::*;
use crate::lexical::{digit_cut, tag_cut, tag_no_case_cut, word_cut, CaseMode};
use crate::leveltype::{token_of, wildcard_text, Token};

verus! {

/// The delimiter between levels.
pub open spec fn dot_text() -> Seq<char> {
    seq!['.']
}

/// Two delimiters in a row.
pub open spec fn dots_text() -> Seq<char> {
    seq!['.', '.']
}

/// The reserved sequence name after which a shot is a name, not a number.
pub open spec fn keyword_text() -> Seq<char> {
    seq!['A', 'S', 'S', 'E', 'T', 'D', 'E', 'V']
}

/// The first of two attempts that succeeds.
pub open spec fn or_else<T>(first: Option<T>, second: Option<T>) -> Option<T> {
    if first is Some {
        first
    } else {
        second
    }
}

/// What is left of `s` behind a leading delimiter.
pub open spec fn after_dot(s: Seq<char>) -> Option<Seq<char>> {
    match tag_cut(dot_text(), s) {
        Some((rest, _)) => Some(rest),
        None => None,
    }
}

/// Keeps the text of a match and goes on behind `pattern`, which must follow.
pub open spec fn followed_by(
    found: Option<(Seq<char>, Seq<char>)>,
    pattern: Seq<char>,
) -> Option<(Seq<char>, Seq<char>)> {
    match found {
        Some((rest, text)) => match tag_cut(pattern, rest) {
            Some((behind, _)) => Some((behind, text)),
            None => None,
        },
        None => None,
    }
}

/// A name or the wildcard.
pub open spec fn name_cut(s: Seq<char>, mode: CaseMode) -> Option<(Seq<char>, Seq<char>)> {
    or_else(word_cut(s, mode), tag_cut(wildcard_text(), s))
}

/// The reserved sequence name, in the case that `mode` asks for.
pub open spec fn keyword_cut(s: Seq<char>, mode: CaseMode) -> Option<(Seq<char>, Seq<char>)> {
    match mode {
        CaseMode::Strict => tag_cut(keyword_text(), s),
        CaseMode::Relaxed => tag_no_case_cut(keyword_text(), s),
    }
}

/// A show: a name or the wildcard.
pub open spec fn show_cut(s: Seq<char>, mode: CaseMode) -> Option<(Seq<char>, Seq<char>)> {
    name_cut(s, mode)
}

/// A sequence: a delimiter, then a name or the wildcard.
pub open spec fn seq_cut(s: Seq<char>, mode: CaseMode) -> Option<(Seq<char>, Seq<char>)> {
    match after_dot(s) {
        Some(rest) => name_cut(rest, mode),
        None => None,
    }
}

/// A shot: a delimiter, then digits or the wildcard.
pub open spec fn shot_cut(s: Seq<char>) -> Option<(Seq<char>, Seq<char>)> {
    match after_dot(s) {
        Some(rest) => or_else(digit_cut(rest), tag_cut(wildcard_text(), rest)),
        None => None,
    }
}

/// The reserved sequence: a delimiter, then the keyword. The wildcard is not
/// taken for it, so a wildcard sequence never changes what a shot may be.
pub open spec fn assetdev_seq_cut(s: Seq<char>, mode: CaseMode) -> Option<(Seq<char>, Seq<char>)> {
    match after_dot(s) {
        Some(rest) => keyword_cut(rest, mode),
        None => None,
    }
}

/// A shot behind the reserved sequence: a delimiter, then a name or the
/// wildcard.
pub open spec fn assetdev_shot_cut(s: Seq<char>, mode: CaseMode) -> Option<
    (Seq<char>, Seq<char>),
> {
    seq_cut(s, mode)
}

/// A sequence behind an elided show, with the delimiter that closes it: the
/// keyword is tried before a name, and whichever matched must be followed by
/// the delimiter.
pub open spec fn rel_seq_rel_cut(s: Seq<char>, mode: CaseMode) -> Option<(Seq<char>, Seq<char>)> {
    followed_by(or_else(assetdev_seq_cut(s, mode), seq_cut(s, mode)), dot_text())
}

/// A shot behind two elided levels.
pub open spec fn rel_shot_cut(s: Seq<char>) -> Option<(Seq<char>, Seq<char>)> {
    match after_dot(s) {
        Some(rest) => shot_cut(rest),
        None => None,
    }
}

/// A show with both lower levels elided.
pub open spec fn show_rel_shot_cut(s: Seq<char>, mode: CaseMode) -> Option<
    (Seq<char>, Seq<char>),
> {
    followed_by(show_cut(s, mode), dots_text())
}

/// A show with the sequence elided.
pub open spec fn show_rel_seq_cut(s: Seq<char>, mode: CaseMode) -> Option<(Seq<char>, Seq<char>)> {
    followed_by(show_cut(s, mode), dot_text())
}

/// Two recognizers in a row: the rest behind both, and the two texts.
pub open spec fn pair_cut(
    first: Option<(Seq<char>, Seq<char>)>,
    second: spec_fn(Seq<char>) -> Option<(Seq<char>, Seq<char>)>,
) -> Option<(Seq<char>, Seq<char>, Seq<char>)> {
    match first {
        Some((rest, a)) => match second(rest) {
            Some((behind, b)) => Some((behind, a, b)),
            None => None,
        },
        None => None,
    }
}

/// Three recognizers in a row.
pub open spec fn triple_cut(
    first: Option<(Seq<char>, Seq<char>)>,
    second: spec_fn(Seq<char>) -> Option<(Seq<char>, Seq<char>)>,
    third: spec_fn(Seq<char>) -> Option<(Seq<char>, Seq<char>)>,
) -> Option<(Seq<char>, Seq<char>, Seq<char>, Seq<char>)> {
    match pair_cut(first, second) {
        Some((rest, a, b)) => match third(rest) {
            Some((behind, c)) => Some((behind, a, b, c)),
            None => None,
        },
        None => None,
    }
}

/// `..SHOT`
pub open spec fn rel_shot_form(s: Seq<char>) -> Option<(Seq<char>, Seq<Token>)> {
    match rel_shot_cut(s) {
        Some((rest, shot)) => Some((rest, seq![Token::Relative, Token::Relative, token_of(shot)])),
        None => None,
    }
}

/// `.SEQ.SHOT`: a sequence with a numeric shot, else the keyword with a
/// named shot.
pub open spec fn rel_seq_shot_form(s: Seq<char>, mode: CaseMode) -> Option<
    (Seq<char>, Seq<Token>),
> {
    let plain = pair_cut(seq_cut(s, mode), |r: Seq<char>| shot_cut(r));
    let reserved = pair_cut(assetdev_seq_cut(s, mode), |r: Seq<char>| assetdev_shot_cut(r, mode));
    match or_else(plain, reserved) {
        Some((rest, sequence, shot)) => Some(
            (rest, seq![Token::Relative, token_of(sequence), token_of(shot)]),
        ),
        None => None,
    }
}

/// `.SEQ.`
pub open spec fn rel_seq_rel_form(s: Seq<char>, mode: CaseMode) -> Option<
    (Seq<char>, Seq<Token>),
> {
    match rel_seq_rel_cut(s, mode) {
        Some((rest, sequence)) => Some(
            (rest, seq![Token::Relative, token_of(sequence), Token::Relative]),
        ),
        None => None,
    }
}

/// `.SEQ`: the keyword is tried before a name.
pub open spec fn rel_seq_form(s: Seq<char>, mode: CaseMode) -> Option<(Seq<char>, Seq<Token>)> {
    match or_else(assetdev_seq_cut(s, mode), seq_cut(s, mode)) {
        Some((rest, sequence)) => Some((rest, seq![Token::Relative, token_of(sequence)])),
        None => None,
    }
}

/// `SHOW.SEQ.SHOT`: the keyword with a named shot, else a sequence with a
/// numeric shot.
pub open spec fn shot_form(s: Seq<char>, mode: CaseMode) -> Option<(Seq<char>, Seq<Token>)> {
    let reserved = triple_cut(
        show_cut(s, mode),
        |r: Seq<char>| assetdev_seq_cut(r, mode),
        |r: Seq<char>| assetdev_shot_cut(r, mode),
    );
    let plain = triple_cut(
        show_cut(s, mode),
        |r: Seq<char>| seq_cut(r, mode),
        |r: Seq<char>| shot_cut(r),
    );
    match or_else(reserved, plain) {
        Some((rest, show, sequence, shot)) => Some(
            (rest, seq![token_of(show), token_of(sequence), token_of(shot)]),
        ),
        None => None,
    }
}

/// `SHOW..`
pub open spec fn show_rel_shot_form(s: Seq<char>, mode: CaseMode) -> Option<
    (Seq<char>, Seq<Token>),
> {
    match show_rel_shot_cut(s, mode) {
        Some((rest, show)) => Some((rest, seq![token_of(show), Token::Relative, Token::Relative])),
        None => None,
    }
}

/// `SHOW.SEQ.`
pub open spec fn show_seq_rel_form(s: Seq<char>, mode: CaseMode) -> Option<
    (Seq<char>, Seq<Token>),
> {
    match pair_cut(
        show_cut(s, mode),
        |r: Seq<char>| followed_by(seq_cut(r, mode), dot_text()),
    ) {
        Some((rest, show, sequence)) => Some(
            (rest, seq![token_of(show), token_of(sequence), Token::Relative]),
        ),
        None => None,
    }
}

/// `SHOW.SEQ`
pub open spec fn seq_form(s: Seq<char>, mode: CaseMode) -> Option<(Seq<char>, Seq<Token>)> {
    match pair_cut(show_cut(s, mode), |r: Seq<char>| seq_cut(r, mode)) {
        Some((rest, show, sequence)) => Some((rest, seq![token_of(show), token_of(sequence)])),
        None => None,
    }
}

/// `SHOW.`
pub open spec fn show_rel_seq_form(s: Seq<char>, mode: CaseMode) -> Option<
    (Seq<char>, Seq<Token>),
> {
    match show_rel_seq_cut(s, mode) {
        Some((rest, show)) => Some((rest, seq![token_of(show), Token::Relative])),
        None => None,
    }
}

/// `SHOW`
pub open spec fn show_form(s: Seq<char>, mode: CaseMode) -> Option<(Seq<char>, Seq<Token>)> {
    match show_cut(s, mode) {
        Some((rest, show)) => Some((rest, seq![token_of(show)])),
        None => None,
    }
}

/// The first form, in the grammar's order, that matches a prefix of `s`.
pub open spec fn first_form(s: Seq<char>, mode: CaseMode) -> Option<(Seq<char>, Seq<Token>)> {
    or_else(
        rel_shot_form(s),
        or_else(
            rel_seq_shot_form(s, mode),
            or_else(
                rel_seq_rel_form(s, mode),
                or_else(
                    rel_seq_form(s, mode),
                    or_else(
                        shot_form(s, mode),
                        or_else(
                            show_rel_shot_form(s, mode),
                            or_else(
                                show_seq_rel_form(s, mode),
                                or_else(
                                    seq_form(s, mode),
                                    or_else(show_rel_seq_form(s, mode), show_form(s, mode)),
                                ),
                            ),
                        ),
                    ),
                ),
            ),
        ),
    )
}

/// The tokens of `s`: those of the first form that matches, provided that it
/// leaves nothing over. There is no going back to a later form.
pub open spec fn recognize(s: Seq<char>, mode: CaseMode) -> Option<Seq<Token>> {
    match first_form(s, mode) {
        Some((rest, tokens)) => if rest.len() == 0 {
            Some(tokens)
        } else {
            None
        },
        None => None,
    }
}

/// Every form yields between one and three tokens.
pub proof fn lemma_form_token_count(s: Seq<char>, mode: CaseMode)
    ensures
        first_form(s, mode) matches Some((_, tokens)) ==> 1 <= tokens.len() <= 3,
        recognize(s, mode) matches Some(tokens) ==> 1 <= tokens.len() <= 3,
{
}

} // verus!
