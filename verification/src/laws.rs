//! What holds of parsing and rendering taken together.
//!
//! The recognizer is defined by ordered choice, which says how an input is
//! read but not at a glance which inputs are read as what. The theorems
//! here say it: a show on its own is read as that show; the dotted notation
//! of a levelspec made of names is read back as that levelspec; and whatever
//! is read from an input renders as that input.

use vstd::prelude::*;
use crate::casing::{is_ascii_char, is_ascii_text, lemma_upper_text_idempotent};
use crate::errors::ErrorView;
use crate::grammar::{
    after_dot, assetdev_seq_cut, assetdev_shot_cut, dot_text, dots_text, first_form, keyword_cut,
    keyword_text, name_cut, recognize, rel_seq_form, rel_seq_rel_form, rel_seq_shot_form,
    rel_shot_cut, rel_shot_form, seq_cut, seq_form, shot_cut, shot_form, show_cut, show_form,
    show_rel_seq_form, show_rel_shot_form, show_seq_rel_form,
};
use crate::levelparser::parse_failure_text;
use crate::levelspec::{levels_of, parsed, Levels};
use crate::lexical::{
    ascii_lower, cut_at, digit_cut, in_class, is_digits, is_letter, is_word, lemma_run_len_is,
    lemma_run_len_props, matches_no_case, tag_cut, word_class, word_cut, CaseMode, CharClass,
};
use crate::leveltype::{token_of, wildcard_text, Token};

verus! {

/// Nothing follows, or a delimiter does.
pub open spec fn ends_level(x: Seq<char>) -> bool {
    x.len() == 0 || x[0] == '.'
}

/// `s` is the reserved sequence name as `mode` reads it.
pub open spec fn is_keyword(s: Seq<char>, mode: CaseMode) -> bool {
    match mode {
        CaseMode::Strict => s == keyword_text(),
        CaseMode::Relaxed => s.len() == keyword_text().len() && matches_no_case(keyword_text(), s),
    }
}

/// A show that the grammar accepts: a name or the wildcard.
pub open spec fn is_show_text(s: Seq<char>, mode: CaseMode) -> bool {
    is_word(s, mode) || s == wildcard_text()
}

/// A levelspec made of names that the grammar accepts in `mode`: show and
/// sequence are names, and the shot is a number or, below the reserved
/// sequence name, a name.
pub open spec fn is_named(v: Levels, mode: CaseMode) -> bool {
    &&& v.show matches Token::Term(show) && is_word(show, mode)
    &&& v.sequence matches Some(t) ==> t matches Token::Term(sequence) && is_word(sequence, mode)
    &&& v.shot matches Some(t) ==> {
        &&& t matches Token::Term(shot)
        &&& v.sequence matches Some(Token::Term(sequence))
        &&& is_digits(shot) || (is_keyword(sequence, mode) && is_word(shot, mode))
    }
}

proof fn lemma_keyword_letters()
    ensures
        keyword_text().len() == 8,
        forall|j: int| 0 <= j < 8 ==> is_letter(#[trigger] keyword_text()[j], CaseMode::Strict),
{
    let k = keyword_text();
    assert(k[0] == 'A' && k[1] == 'S' && k[2] == 'S' && k[3] == 'E');
    assert(k[4] == 'T' && k[5] == 'D' && k[6] == 'E' && k[7] == 'V');
}

proof fn lemma_word_is_term(w: Seq<char>, mode: CaseMode)
    requires
        is_word(w, mode),
    ensures
        token_of(w) == Token::Term(w),
{
    assert(in_class(w[0], word_class(mode)));
    if w == wildcard_text() {
        assert(w[0] == '%');
    }
}

proof fn lemma_digits_is_term(d: Seq<char>)
    requires
        is_digits(d),
    ensures
        token_of(d) == Token::Term(d),
{
    assert(in_class(d[0], CharClass::Digit));
    if d == wildcard_text() {
        assert(d[0] == '%');
    }
}

proof fn lemma_after_dot(x: Seq<char>)
    ensures
        after_dot(dot_text() + x) == Some(x),
{
    let s = dot_text() + x;
    assert(s.subrange(0, 1) =~= dot_text());
    assert(s.skip(1) =~= x);
}

proof fn lemma_no_dot(s: Seq<char>)
    requires
        s.len() == 0 || s[0] != '.',
    ensures
        after_dot(s) is None,
        tag_cut(dot_text(), s) is None,
        tag_cut(dots_text(), s) is None,
{
    if dot_text().is_prefix_of(s) {
        assert(s.subrange(0, 1)[0] == dot_text()[0]);
    }
    if dots_text().is_prefix_of(s) {
        assert(s.subrange(0, 2)[0] == dots_text()[0]);
    }
}

proof fn lemma_word_then(w: Seq<char>, x: Seq<char>, mode: CaseMode)
    requires
        is_word(w, mode),
        ends_level(x),
    ensures
        word_cut(w + x, mode) == Some((x, w)),
        name_cut(w + x, mode) == Some((x, w)),
        show_cut(w + x, mode) == Some((x, w)),
{
    let s = w + x;
    let class = word_class(mode);
    assert forall|i: int| 0 <= i < w.len() implies in_class(#[trigger] s[i], class) by {
        assert(s[i] == w[i]);
        assert(in_class(w[i], class));
    }
    assert(s[0] == w[0]);
    if x.len() > 0 {
        assert(s[w.len() as int] == x[0]);
    }
    lemma_run_len_is(s, class, w.len() as int);
    assert(s.skip(w.len() as int) =~= x);
    assert(s.take(w.len() as int) =~= w);
}

proof fn lemma_digits_then(d: Seq<char>, x: Seq<char>)
    requires
        is_digits(d),
        ends_level(x),
    ensures
        digit_cut(d + x) == Some((x, d)),
{
    let s = d + x;
    assert forall|i: int| 0 <= i < d.len() implies in_class(#[trigger] s[i], CharClass::Digit) by {
        assert(s[i] == d[i]);
        assert(in_class(d[i], CharClass::Digit));
    }
    if x.len() > 0 {
        assert(s[d.len() as int] == x[0]);
    }
    lemma_run_len_is(s, CharClass::Digit, d.len() as int);
    assert(s.skip(d.len() as int) =~= x);
    assert(s.take(d.len() as int) =~= d);
}

/// A number that starts a level is not taken for a name or the wildcard.
proof fn lemma_digits_is_no_word(d: Seq<char>, mode: CaseMode)
    requires
        is_digits(d),
    ensures
        name_cut(d, mode) is None,
{
    assert(in_class(d[0], CharClass::Digit));
    if wildcard_text().is_prefix_of(d) {
        assert(d.subrange(0, 1)[0] == wildcard_text()[0]);
    }
}

/// Where the keyword matches at the front of a name, the name is at least as
/// long; where the name is the keyword, the keyword matches all of it.
proof fn lemma_keyword_on_word(w: Seq<char>, x: Seq<char>, mode: CaseMode)
    requires
        is_word(w, mode),
        ends_level(x),
    ensures
        keyword_cut(w + x, mode) is Some ==> w.len() >= 8 && keyword_cut(w + x, mode) == Some(
            cut_at(w + x, 8),
        ),
        is_keyword(w, mode) <==> w.len() == 8 && keyword_cut(w + x, mode) is Some,
        is_keyword(w, mode) ==> keyword_cut(w + x, mode) == Some((x, w)),
{
    lemma_keyword_letters();
    let s = w + x;
    let k = keyword_text();
    assert forall|i: int| 0 <= i < w.len() implies s[i] == w[i] by {}
    match mode {
        CaseMode::Strict => {
            if k.is_prefix_of(s) {
                if w.len() < 8 {
                    assert(s.subrange(0, 8)[w.len() as int] == k[w.len() as int]);
                    assert(s[w.len() as int] == x[0]);
                }
                if w.len() == 8 {
                    assert(w =~= s.subrange(0, 8));
                }
            }
            if w == k {
                assert(s.subrange(0, 8) =~= k);
                assert(s.skip(8) =~= x);
                assert(s.take(8) =~= w);
            }
        },
        CaseMode::Relaxed => {
            if matches_no_case(k, s) {
                if w.len() < 8 {
                    assert(s[w.len() as int] == x[0]);
                    assert(ascii_lower(s[w.len() as int]) == ascii_lower(k[w.len() as int]));
                }
                if w.len() == 8 {
                    assert forall|i: int| 0 <= i < 8 implies ascii_lower(#[trigger] w[i])
                        == ascii_lower(k[i]) by {
                        assert(ascii_lower(s[i]) == ascii_lower(k[i]));
                    }
                }
            }
            if is_keyword(w, mode) {
                assert forall|i: int| 0 <= i < 8 implies ascii_lower(#[trigger] s[i])
                    == ascii_lower(k[i]) by {
                    assert(ascii_lower(w[i]) == ascii_lower(k[i]));
                }
                assert(s.skip(8) =~= x);
                assert(s.take(8) =~= w);
            }
        },
    }
}

/// An input that starts with a name is none of the forms that start with a
/// delimiter.
proof fn lemma_no_leading_dot_forms(s: Seq<char>, mode: CaseMode)
    requires
        s.len() == 0 || s[0] != '.',
    ensures
        rel_shot_form(s) is None,
        rel_seq_shot_form(s, mode) is None,
        rel_seq_rel_form(s, mode) is None,
        rel_seq_form(s, mode) is None,
{
    lemma_no_dot(s);
}

/// A show on its own is read as that show and nothing else.
pub proof fn lemma_show_alone(s: Seq<char>, mode: CaseMode)
    requires
        is_show_text(s, mode),
    ensures
        recognize(s, mode) == Some(seq![token_of(s)]),
        parsed(s, mode) == Ok::<Levels, ErrorView>(
            Levels { show: token_of(s), sequence: None, shot: None },
        ),
        is_word(s, mode) ==> token_of(s) == Token::Term(s),
{
    let e = Seq::<char>::empty();
    assert(s + e =~= s);
    if is_word(s, mode) {
        lemma_word_then(s, e, mode);
        lemma_word_is_term(s, mode);
        assert(s[0] != '.');
    } else {
        assert(s[0] == '%');
        assert(s.subrange(0, 1) =~= wildcard_text());
        assert(s.skip(1) =~= e);
        assert(s.take(1) =~= s);
        assert(tag_cut(wildcard_text(), s) == Some((e, s)));
    }
    assert(show_cut(s, mode) == Some((e, s)));
    lemma_no_leading_dot_forms(s, mode);
    lemma_no_dot(e);
    assert(shot_form(s, mode) is None);
    assert(show_rel_shot_form(s, mode) is None);
    assert(show_seq_rel_form(s, mode) is None);
    assert(seq_form(s, mode) is None);
    assert(show_rel_seq_form(s, mode) is None);
    assert(show_form(s, mode) == Some((e, seq![token_of(s)])));
}

/// A show and a sequence, both names, are read as the two of them.
proof fn lemma_show_sequence(show: Seq<char>, sequence: Seq<char>, mode: CaseMode)
    requires
        is_word(show, mode),
        is_word(sequence, mode),
    ensures
        recognize(show + dot_text() + sequence, mode) == Some(
            seq![Token::Term(show), Token::Term(sequence)],
        ),
{
    let e = Seq::<char>::empty();
    let x1 = dot_text() + sequence;
    let s = show + x1;
    assert(s =~= show + dot_text() + sequence);
    assert(sequence + e =~= sequence);
    assert(x1[0] == '.');
    assert(x1[1] == sequence[0]);
    lemma_word_is_term(show, mode);
    lemma_word_is_term(sequence, mode);
    lemma_word_then(show, x1, mode);
    assert(s[0] == show[0]);
    lemma_no_leading_dot_forms(s, mode);
    lemma_after_dot(sequence);
    lemma_word_then(sequence, e, mode);
    lemma_keyword_on_word(sequence, e, mode);
    lemma_no_dot(e);
    assert(seq_cut(x1, mode) == Some((e, sequence)));
    assert(shot_cut(e) is None);
    if keyword_cut(sequence, mode) is Some {
        let r = sequence.skip(8);
        if r.len() > 0 {
            assert(r[0] == sequence[8]);
            assert(in_class(sequence[8], word_class(mode)));
        }
        lemma_no_dot(r);
        assert(assetdev_shot_cut(r, mode) is None);
    }
    assert(shot_form(s, mode) is None);
    if dots_text().is_prefix_of(x1) {
        assert(x1.subrange(0, 2)[1] == dots_text()[1]);
    }
    assert(show_rel_shot_form(s, mode) is None);
    assert(show_seq_rel_form(s, mode) is None);
    assert(seq_form(s, mode) == Some((e, seq![Token::Term(show), Token::Term(sequence)])));
}

/// Show, sequence and shot, all names or a number where the grammar asks for
/// one, are read as the three of them.
proof fn lemma_show_sequence_shot(
    show: Seq<char>,
    sequence: Seq<char>,
    shot: Seq<char>,
    mode: CaseMode,
)
    requires
        is_word(show, mode),
        is_word(sequence, mode),
        is_digits(shot) || (is_keyword(sequence, mode) && is_word(shot, mode)),
    ensures
        recognize(show + dot_text() + sequence + dot_text() + shot, mode) == Some(
            seq![Token::Term(show), Token::Term(sequence), Token::Term(shot)],
        ),
{
    let e = Seq::<char>::empty();
    let x2 = dot_text() + shot;
    let x1 = dot_text() + (sequence + x2);
    let s = show + x1;
    let want = seq![Token::Term(show), Token::Term(sequence), Token::Term(shot)];
    assert(s =~= show + dot_text() + sequence + dot_text() + shot);
    assert(shot + e =~= shot);
    assert(x1[0] == '.');
    assert(x2[0] == '.');
    lemma_word_is_term(show, mode);
    lemma_word_is_term(sequence, mode);
    lemma_word_then(show, x1, mode);
    assert(s[0] == show[0]);
    lemma_no_leading_dot_forms(s, mode);
    lemma_after_dot(sequence + x2);
    lemma_after_dot(shot);
    lemma_word_then(sequence, x2, mode);
    lemma_keyword_on_word(sequence, x2, mode);
    assert(show_cut(s, mode) == Some((x1, show)));
    assert(seq_cut(x1, mode) == Some((x2, sequence)));
    assert(assetdev_seq_cut(x1, mode) == keyword_cut(sequence + x2, mode));
    if is_digits(shot) {
        lemma_digits_is_term(shot);
        lemma_digits_then(shot, e);
        lemma_digits_is_no_word(shot, mode);
        assert(shot_cut(x2) == Some((e, shot)));
        if keyword_cut(sequence + x2, mode) is Some {
            let r = (sequence + x2).skip(8);
            if sequence.len() > 8 {
                assert(r[0] == sequence[8]);
                assert(in_class(sequence[8], word_class(mode)));
                lemma_no_dot(r);
            } else {
                assert(r =~= x2);
                assert(assetdev_shot_cut(x2, mode) is None);
            }
            assert(assetdev_shot_cut(r, mode) is None);
        }
        assert(shot_form(s, mode) == Some((e, want)));
    } else {
        lemma_word_is_term(shot, mode);
        lemma_word_then(shot, e, mode);
        assert(keyword_cut(sequence + x2, mode) == Some((x2, sequence)));
        assert(assetdev_shot_cut(x2, mode) == Some((e, shot)));
        assert(shot_form(s, mode) == Some((e, want)));
    }
}

/// Rendering and parsing are inverse on names: the dotted notation of a
/// levelspec made of names that the grammar accepts is read back as that
/// levelspec.
pub proof fn lemma_round_trip(v: Levels, mode: CaseMode)
    requires
        v.wf(),
        is_named(v, mode),
    ensures
        parsed(v.text(), mode) == Ok::<Levels, ErrorView>(v),
{
    let show = v.show->Term_0;
    match (v.sequence, v.shot) {
        (Some(sequence), Some(shot)) => {
            lemma_show_sequence_shot(show, sequence->Term_0, shot->Term_0, mode);
        },
        (Some(sequence), None) => {
            lemma_show_sequence(show, sequence->Term_0, mode);
        },
        (None, _) => {
            lemma_show_alone(show, mode);
        },
    }
}

/// The names of a token are ASCII text.
pub open spec fn is_ascii_token(t: Token) -> bool {
    t matches Token::Term(name) ==> is_ascii_text(name)
}

/// The names of a levelspec are ASCII text.
pub open spec fn is_ascii_levels(v: Levels) -> bool {
    &&& is_ascii_token(v.show)
    &&& v.sequence matches Some(t) ==> is_ascii_token(t)
    &&& v.shot matches Some(t) ==> is_ascii_token(t)
}

/// Upper-casing is idempotent on ASCII names: a second pass changes nothing.
pub proof fn lemma_upper_idempotent_on_ascii(v: Levels)
    requires
        is_ascii_levels(v),
    ensures
        v.upper().upper() == v.upper(),
        is_ascii_levels(v.upper()),
{
    if let Token::Term(name) = v.show {
        lemma_upper_text_idempotent(name);
    }
    if let Some(Token::Term(name)) = v.sequence {
        lemma_upper_text_idempotent(name);
    }
    if let Some(Token::Term(name)) = v.shot {
        lemma_upper_text_idempotent(name);
    }
}

/// Upper-casing leaves wildcards and elided levels alone, so it changes
/// neither which levels are present nor whether the levelspec is concrete.
pub proof fn lemma_upper_keeps_shape(v: Levels)
    ensures
        v.upper().wf() == v.wf(),
        v.upper().is_concrete() == v.is_concrete(),
        v.upper().tokens().len() == v.tokens().len(),
{
}

/// A levelspec is read from the levels that are present, in order.
pub proof fn lemma_levels_of_tokens(v: Levels)
    requires
        v.wf(),
    ensures
        levels_of(v.tokens()) == v,
{
}

/// A token as the recognizer yields it: elided, the wildcard, or a name or
/// number of the grammar.
pub open spec fn is_level_token(t: Token, mode: CaseMode) -> bool {
    t matches Token::Term(name) ==> is_word(name, mode) || is_digits(name)
}

/// The text of one level as the recognizer cuts it out.
pub open spec fn is_level_text(text: Seq<char>, mode: CaseMode) -> bool {
    is_word(text, mode) || is_digits(text) || text == wildcard_text()
}

/// A cut splits its input: in front what the piece steps over, then the
/// text of the level, then the rest.
pub open spec fn splits(
    s: Seq<char>,
    front: Seq<char>,
    found: Option<(Seq<char>, Seq<char>)>,
    mode: CaseMode,
) -> bool {
    found matches Some((rest, text)) ==> s == front + text + rest && is_level_text(text, mode)
}

/// What a form found accounts for the input: the notation of its tokens,
/// then the rest, and every token is one of the grammar.
pub open spec fn accounts_for(s: Seq<char>, found: Option<(Seq<char>, Seq<Token>)>, mode: CaseMode)
    -> bool {
    found matches Some((rest, tokens)) ==> {
        &&& 1 <= tokens.len() <= 3
        &&& levels_of(tokens).text() + rest == s
        &&& forall|i: int| 0 <= i < tokens.len() ==> is_level_token(#[trigger] tokens[i], mode)
    }
}

proof fn lemma_level_text_token(text: Seq<char>, mode: CaseMode)
    requires
        is_level_text(text, mode),
    ensures
        is_level_token(token_of(text), mode),
        token_of(text).text() == text,
{
}

proof fn lemma_leaf_cuts_split(s: Seq<char>, mode: CaseMode)
    ensures
        splits(s, Seq::empty(), word_cut(s, mode), mode),
        splits(s, Seq::empty(), digit_cut(s), mode),
        splits(s, Seq::empty(), tag_cut(wildcard_text(), s), mode),
        splits(s, Seq::empty(), keyword_cut(s, mode), mode),
        splits(s, Seq::empty(), name_cut(s, mode), mode),
{
    let e = Seq::<char>::empty();
    if let Some((rest, text)) = word_cut(s, mode) {
        lemma_run_len_props(s, word_class(mode));
        assert(text[0] == s[0]);
        assert(s =~= e + text + rest);
    }
    if let Some((rest, text)) = digit_cut(s) {
        lemma_run_len_props(s, CharClass::Digit);
        assert(s =~= e + text + rest);
    }
    if let Some((rest, text)) = tag_cut(wildcard_text(), s) {
        assert(text =~= wildcard_text());
        assert(s =~= e + text + rest);
    }
    if let Some((rest, text)) = keyword_cut(s, mode) {
        lemma_keyword_letters();
        let k = keyword_text();
        assert(s =~= e + text + rest);
        assert forall|i: int| 0 <= i < text.len() implies in_class(
            #[trigger] text[i],
            word_class(mode),
        ) by {
            assert(text[i] == s[i]);
            assert(is_letter(k[i], CaseMode::Strict));
            match mode {
                CaseMode::Strict => {
                    assert(s.subrange(0, 8)[i] == k[i]);
                },
                CaseMode::Relaxed => {
                    assert(ascii_lower(s[i]) == ascii_lower(k[i]));
                },
            }
        }
        assert(text[0] == s[0]);
        assert(in_class(text[0], word_class(mode)));
        assert(is_letter(text[0], mode)) by {
            assert(is_letter(k[0], CaseMode::Strict));
            match mode {
                CaseMode::Strict => {
                    assert(s.subrange(0, 8)[0] == k[0]);
                },
                CaseMode::Relaxed => {
                    assert(ascii_lower(s[0]) == ascii_lower(k[0]));
                },
            }
        }
    }
}

proof fn lemma_after_dot_splits(s: Seq<char>)
    ensures
        after_dot(s) matches Some(rest) ==> s == dot_text() + rest,
        tag_cut(dot_text(), s) matches Some((rest, _)) ==> s == dot_text() + rest,
        tag_cut(dots_text(), s) matches Some((rest, _)) ==> s == dot_text() + dot_text() + rest,
{
    if let Some((rest, text)) = tag_cut(dot_text(), s) {
        assert(text =~= dot_text());
        assert(s =~= dot_text() + rest);
    }
    if let Some((rest, text)) = tag_cut(dots_text(), s) {
        assert(text =~= dots_text());
        assert(s =~= dot_text() + dot_text() + rest);
    }
}

proof fn lemma_piece_cuts_split(s: Seq<char>, mode: CaseMode)
    ensures
        splits(s, Seq::empty(), show_cut(s, mode), mode),
        splits(s, dot_text(), seq_cut(s, mode), mode),
        splits(s, dot_text(), shot_cut(s), mode),
        splits(s, dot_text(), assetdev_seq_cut(s, mode), mode),
        splits(s, dot_text(), assetdev_shot_cut(s, mode), mode),
        splits(s, dot_text() + dot_text(), rel_shot_cut(s), mode),
{
    let e = Seq::<char>::empty();
    lemma_leaf_cuts_split(s, mode);
    lemma_after_dot_splits(s);
    if let Some(r) = after_dot(s) {
        lemma_leaf_cuts_split(r, mode);
        lemma_after_dot_splits(r);
        if let Some((rest, text)) = name_cut(r, mode) {
            assert(s =~= dot_text() + text + rest);
        }
        if let Some((rest, text)) = shot_cut(s) {
            assert(s =~= dot_text() + text + rest);
        }
        if let Some((rest, text)) = keyword_cut(r, mode) {
            assert(s =~= dot_text() + text + rest);
        }
        if let Some(r2) = after_dot(r) {
            lemma_leaf_cuts_split(r2, mode);
            if let Some((rest, text)) = rel_shot_cut(s) {
                assert(s =~= dot_text() + dot_text() + text + rest);
            }
        }
    }
}

proof fn lemma_rel_shot_form_accounts(s: Seq<char>, mode: CaseMode)
    ensures
        accounts_for(s, rel_shot_form(s), mode),
{
    let d = dot_text();
    lemma_piece_cuts_split(s, mode);
    if let Some((rest, tokens)) = rel_shot_form(s) {
        let shot = rel_shot_cut(s)->Some_0.1;
        lemma_level_text_token(shot, mode);
        assert(levels_of(tokens).text() + rest =~= d + d + shot + rest);
    }
}

/// The forms `.SEQ.SHOT`, `.SEQ.` and `.SEQ` behind one way of reading the
/// sequence.
proof fn lemma_rel_seq_accounts(
    s: Seq<char>,
    found: Option<(Seq<char>, Seq<char>)>,
    mode: CaseMode,
)
    requires
        splits(s, dot_text(), found, mode),
    ensures
        found matches Some((r1, sequence)) ==> {
            &&& accounts_for(s, Some((r1, seq![Token::Relative, token_of(sequence)])), mode)
            &&& tag_cut(dot_text(), r1) matches Some((r2, _)) ==> accounts_for(
                s,
                Some((r2, seq![Token::Relative, token_of(sequence), Token::Relative])),
                mode,
            )
            &&& shot_cut(r1) matches Some((r2, shot)) ==> accounts_for(
                s,
                Some((r2, seq![Token::Relative, token_of(sequence), token_of(shot)])),
                mode,
            )
            &&& assetdev_shot_cut(r1, mode) matches Some((r2, shot)) ==> accounts_for(
                s,
                Some((r2, seq![Token::Relative, token_of(sequence), token_of(shot)])),
                mode,
            )
        },
{
    let e = Seq::<char>::empty();
    let d = dot_text();
    if let Some((r1, sequence)) = found {
        lemma_level_text_token(sequence, mode);
        lemma_piece_cuts_split(r1, mode);
        lemma_after_dot_splits(r1);
        assert(e + d + sequence + r1 =~= d + sequence + r1);
        if let Some((r2, shot)) = shot_cut(r1) {
            lemma_level_text_token(shot, mode);
            assert(e + d + sequence + d + shot + r2 =~= d + sequence + (d + shot + r2));
        }
        if let Some((r2, shot)) = assetdev_shot_cut(r1, mode) {
            lemma_level_text_token(shot, mode);
            assert(e + d + sequence + d + shot + r2 =~= d + sequence + (d + shot + r2));
        }
        if let Some((r2, _)) = tag_cut(d, r1) {
            assert(e + d + sequence + d + e + r2 =~= d + sequence + (d + r2));
        }
    }
}

proof fn lemma_rel_forms_account(s: Seq<char>, mode: CaseMode)
    ensures
        accounts_for(s, rel_seq_shot_form(s, mode), mode),
        accounts_for(s, rel_seq_rel_form(s, mode), mode),
        accounts_for(s, rel_seq_form(s, mode), mode),
{
    lemma_piece_cuts_split(s, mode);
    lemma_rel_seq_accounts(s, seq_cut(s, mode), mode);
    lemma_rel_seq_accounts(s, assetdev_seq_cut(s, mode), mode);
}

/// The forms that begin with a show and go on with a sequence, behind one
/// way of reading the sequence.
proof fn lemma_show_seq_accounts(
    s: Seq<char>,
    show: Seq<char>,
    r0: Seq<char>,
    found: Option<(Seq<char>, Seq<char>)>,
    mode: CaseMode,
)
    requires
        s == show + r0,
        is_level_text(show, mode),
        splits(r0, dot_text(), found, mode),
    ensures
        found matches Some((r1, sequence)) ==> {
            &&& accounts_for(s, Some((r1, seq![token_of(show), token_of(sequence)])), mode)
            &&& tag_cut(dot_text(), r1) matches Some((r2, _)) ==> accounts_for(
                s,
                Some((r2, seq![token_of(show), token_of(sequence), Token::Relative])),
                mode,
            )
            &&& shot_cut(r1) matches Some((r2, shot)) ==> accounts_for(
                s,
                Some((r2, seq![token_of(show), token_of(sequence), token_of(shot)])),
                mode,
            )
            &&& assetdev_shot_cut(r1, mode) matches Some((r2, shot)) ==> accounts_for(
                s,
                Some((r2, seq![token_of(show), token_of(sequence), token_of(shot)])),
                mode,
            )
        },
{
    let e = Seq::<char>::empty();
    let d = dot_text();
    lemma_level_text_token(show, mode);
    if let Some((r1, sequence)) = found {
        lemma_level_text_token(sequence, mode);
        lemma_piece_cuts_split(r1, mode);
        lemma_after_dot_splits(r1);
        assert(show + d + sequence + r1 =~= show + (d + sequence + r1));
        if let Some((r2, shot)) = shot_cut(r1) {
            lemma_level_text_token(shot, mode);
            assert(show + d + sequence + d + shot + r2 =~= show + (d + sequence + (d + shot + r2)));
        }
        if let Some((r2, shot)) = assetdev_shot_cut(r1, mode) {
            lemma_level_text_token(shot, mode);
            assert(show + d + sequence + d + shot + r2 =~= show + (d + sequence + (d + shot + r2)));
        }
        if let Some((r2, _)) = tag_cut(d, r1) {
            assert(show + d + sequence + d + e + r2 =~= show + (d + sequence + (d + r2)));
        }
    }
}

proof fn lemma_show_only_forms_account(s: Seq<char>, mode: CaseMode)
    ensures
        accounts_for(s, show_rel_shot_form(s, mode), mode),
        accounts_for(s, show_rel_seq_form(s, mode), mode),
        accounts_for(s, show_form(s, mode), mode),
{
    let e = Seq::<char>::empty();
    let d = dot_text();
    lemma_piece_cuts_split(s, mode);
    if let Some((r0, show)) = show_cut(s, mode) {
        lemma_level_text_token(show, mode);
        lemma_after_dot_splits(r0);
        assert(e + show + r0 =~= show + r0);
        if let Some((r, _)) = tag_cut(dots_text(), r0) {
            assert(show + d + e + d + e + r =~= show + (d + d + r));
        }
        if let Some((r, _)) = tag_cut(d, r0) {
            assert(show + d + e + r =~= show + (d + r));
        }
    }
}

proof fn lemma_show_seq_forms_account(s: Seq<char>, mode: CaseMode)
    ensures
        accounts_for(s, shot_form(s, mode), mode),
        accounts_for(s, show_seq_rel_form(s, mode), mode),
        accounts_for(s, seq_form(s, mode), mode),
{
    let e = Seq::<char>::empty();
    lemma_piece_cuts_split(s, mode);
    if let Some((r0, show)) = show_cut(s, mode) {
        assert(e + show + r0 =~= show + r0);
        lemma_piece_cuts_split(r0, mode);
        lemma_show_seq_accounts(s, show, r0, seq_cut(r0, mode), mode);
        lemma_show_seq_accounts(s, show, r0, assetdev_seq_cut(r0, mode), mode);
    }
}

/// Each form accounts for the input it matched, and so does the first that
/// matches.
proof fn lemma_forms_account(s: Seq<char>, mode: CaseMode)
    ensures
        accounts_for(s, first_form(s, mode), mode),
{
    lemma_rel_shot_form_accounts(s, mode);
    lemma_rel_forms_account(s, mode);
    lemma_show_only_forms_account(s, mode);
    lemma_show_seq_forms_account(s, mode);
}

/// Parsing and rendering are inverse on what the grammar accepts: a
/// levelspec that was read from an input renders as that input, letter for
/// letter, and so is read back from its own notation. Its names are names
/// and numbers of the grammar, so they are ASCII text, and upper-casing it
/// twice is upper-casing it once.
pub proof fn lemma_parse_then_render(s: Seq<char>, mode: CaseMode)
    ensures
        parsed(s, mode) matches Ok(v) ==> {
            &&& v.wf()
            &&& v.text() == s
            &&& parsed(v.text(), mode) == Ok::<Levels, ErrorView>(v)
            &&& v.upper().upper() == v.upper()
            &&& is_level_token(v.show, mode)
            &&& v.sequence matches Some(t) ==> is_level_token(t, mode)
            &&& v.shot matches Some(t) ==> is_level_token(t, mode)
            &&& is_ascii_levels(v)
        },
{
    lemma_forms_account(s, mode);
    if let Some(tokens) = recognize(s, mode) {
        let v = levels_of(tokens);
        assert(accounts_for(s, first_form(s, mode), mode));
        assert(v.text() + Seq::<char>::empty() =~= v.text());
        assert(is_level_token(tokens[0], mode));
        lemma_level_token_is_ascii(v.show, mode);
        if tokens.len() >= 2 {
            assert(is_level_token(tokens[1], mode));
            lemma_level_token_is_ascii(tokens[1], mode);
        }
        if tokens.len() >= 3 {
            assert(is_level_token(tokens[2], mode));
            lemma_level_token_is_ascii(tokens[2], mode);
        }
        lemma_upper_idempotent_on_ascii(v);
    }
}

/// A character that the notation can hold in `mode`: a letter that the mode
/// admits, a digit, the delimiter or the wildcard.
pub open spec fn is_notation_char(c: char, mode: CaseMode) -> bool {
    in_class(c, word_class(mode)) || c == '.' || c == '%'
}

pub open spec fn is_notation_text(s: Seq<char>, mode: CaseMode) -> bool {
    forall|i: int| 0 <= i < s.len() ==> is_notation_char(#[trigger] s[i], mode)
}

proof fn lemma_level_token_text(t: Token, mode: CaseMode)
    requires
        is_level_token(t, mode),
    ensures
        is_notation_text(t.text(), mode),
{
    let text = t.text();
    assert forall|i: int| 0 <= i < text.len() implies is_notation_char(#[trigger] text[i], mode) by {
        match t {
            Token::Term(name) => {
                if is_word(name, mode) {
                    assert(in_class(name[i], word_class(mode)));
                } else {
                    assert(in_class(name[i], CharClass::Digit));
                }
            },
            _ => {},
        }
    }
}

/// An input with a character that the notation cannot hold is no levelspec:
/// a space, an underscore, a letter of the wrong case and the like are
/// rejected wherever they stand.
pub proof fn lemma_rejects_foreign_characters(s: Seq<char>, mode: CaseMode, i: int)
    requires
        0 <= i < s.len(),
        !is_notation_char(s[i], mode),
    ensures
        parsed(s, mode) == Err::<Levels, ErrorView>(
            ErrorView::ParseError(parse_failure_text(s)),
        ),
{
    lemma_parse_then_render(s, mode);
    if let Ok(v) = parsed(s, mode) {
        let d = dot_text();
        lemma_level_token_text(v.show, mode);
        assert(is_notation_text(d, mode));
        match (v.sequence, v.shot) {
            (Some(sequence), Some(shot)) => {
                lemma_level_token_text(sequence, mode);
                lemma_level_token_text(shot, mode);
                assert(is_notation_text(v.show.text() + d + sequence.text() + d + shot.text(), mode));
            },
            (Some(sequence), None) => {
                lemma_level_token_text(sequence, mode);
                assert(is_notation_text(v.show.text() + d + sequence.text(), mode));
            },
            (None, _) => {},
        }
        assert(is_notation_char(s[i], mode));
    }
}

proof fn lemma_level_token_is_ascii(t: Token, mode: CaseMode)
    requires
        is_level_token(t, mode),
    ensures
        is_ascii_token(t),
{
    if let Token::Term(name) = t {
        assert forall|i: int| 0 <= i < name.len() implies is_ascii_char(#[trigger] name[i]) by {
            if is_word(name, mode) {
                assert(in_class(name[i], word_class(mode)));
            } else {
                assert(in_class(name[i], CharClass::Digit));
            }
        }
    }
}

} // verus!
