//! Character classes and the leaf recognizers of the levelspec grammar.
//!
//! Every recognizer looks at the front of its input and either cuts it in two,
//! the matched text and the rest, or declines. The spec functions in this
//! module say where the cut falls; the executable recognizers are proved, or
//! for the ones that `nom` provides declared, to cut there.

use vstd::prelude::*;
use vstd::string::*;

verus! {

/// How letters are matched: `Strict` accepts upper case only, `Relaxed`
/// accepts either case and compares keywords without regard to case.
#[derive(Clone, Copy, Debug, PartialEq, Eq, Structural)]
pub enum CaseMode {
    Strict,
    Relaxed,
}

/// The sets of characters that a run may be made of. All of them lie within
/// ASCII.
#[derive(Clone, Copy, Debug, PartialEq, Eq, Structural)]
pub enum CharClass {
    Digit,
    Lower,
    Upper,
    Alpha,
    LowerOrDigit,
    UpperOrDigit,
    AlphaOrDigit,
}

pub open spec fn is_digit(c: char) -> bool {
    '0' <= c && c <= '9'
}

pub open spec fn is_upper(c: char) -> bool {
    'A' <= c && c <= 'Z'
}

pub open spec fn is_lower(c: char) -> bool {
    'a' <= c && c <= 'z'
}

pub open spec fn in_class(c: char, class: CharClass) -> bool {
    match class {
        CharClass::Digit => is_digit(c),
        CharClass::Lower => is_lower(c),
        CharClass::Upper => is_upper(c),
        CharClass::Alpha => is_lower(c) || is_upper(c),
        CharClass::LowerOrDigit => is_lower(c) || is_digit(c),
        CharClass::UpperOrDigit => is_upper(c) || is_digit(c),
        CharClass::AlphaOrDigit => is_lower(c) || is_upper(c) || is_digit(c),
    }
}

/// The letters that `mode` admits.
pub open spec fn letter_class(mode: CaseMode) -> CharClass {
    match mode {
        CaseMode::Strict => CharClass::Upper,
        CaseMode::Relaxed => CharClass::Alpha,
    }
}

/// The letters that `mode` admits, and the digits.
pub open spec fn word_class(mode: CaseMode) -> CharClass {
    match mode {
        CaseMode::Strict => CharClass::UpperOrDigit,
        CaseMode::Relaxed => CharClass::AlphaOrDigit,
    }
}

/// A letter that `mode` admits.
pub open spec fn is_letter(c: char, mode: CaseMode) -> bool {
    is_upper(c) || (mode == CaseMode::Relaxed && is_lower(c))
}

/// Every character of the first class belongs to the second.
pub open spec fn class_within(inner: CharClass, outer: CharClass) -> bool {
    forall|c: char| in_class(c, inner) ==> in_class(c, outer)
}

/// The length of the longest prefix of `s` made of characters of `class`.
pub open spec fn run_len(s: Seq<char>, class: CharClass) -> nat
    decreases s.len(),
{
    if s.len() > 0 && in_class(s[0], class) {
        1 + run_len(s.skip(1), class)
    } else {
        0
    }
}

/// Case-sensitive tests on a character, for bytes and characters alike.
pub trait AsCharCaseSensitive: Sized {
    /// The character that the value stands for.
    spec fn character(self) -> char;

    /// Is it a lower-case letter?
    fn is_alpha_lower(self) -> (r: bool)
        ensures
            r == is_lower(self.character()),
    ;

    /// Is it an upper-case letter?
    fn is_alpha_upper(self) -> (r: bool)
        ensures
            r == is_upper(self.character()),
    ;

    /// Is it a lower-case letter or a digit?
    fn is_alphanum_lower(self) -> (r: bool)
        ensures
            r == (is_lower(self.character()) || is_digit(self.character())),
    ;

    /// Is it an upper-case letter or a digit?
    fn is_alphanum_upper(self) -> (r: bool)
        ensures
            r == (is_upper(self.character()) || is_digit(self.character())),
    ;
}

impl AsCharCaseSensitive for u8 {
    open spec fn character(self) -> char {
        self as char
    }

    fn is_alpha_lower(self) -> (r: bool) {
        self >= 0x61 && self <= 0x7A
    }

    fn is_alpha_upper(self) -> (r: bool) {
        self >= 0x41 && self <= 0x5A
    }

    fn is_alphanum_lower(self) -> (r: bool) {
        self.is_alpha_lower() || (self >= 0x30 && self <= 0x39)
    }

    fn is_alphanum_upper(self) -> (r: bool) {
        self.is_alpha_upper() || (self >= 0x30 && self <= 0x39)
    }
}

impl<'a> AsCharCaseSensitive for &'a u8 {
    open spec fn character(self) -> char {
        *self as char
    }

    fn is_alpha_lower(self) -> (r: bool) {
        *self >= 0x61 && *self <= 0x7A
    }

    fn is_alpha_upper(self) -> (r: bool) {
        *self >= 0x41 && *self <= 0x5A
    }

    fn is_alphanum_lower(self) -> (r: bool) {
        self.is_alpha_lower() || (*self >= 0x30 && *self <= 0x39)
    }

    fn is_alphanum_upper(self) -> (r: bool) {
        self.is_alpha_upper() || (*self >= 0x30 && *self <= 0x39)
    }
}

impl AsCharCaseSensitive for char {
    open spec fn character(self) -> char {
        self
    }

    fn is_alpha_lower(self) -> (r: bool) {
        'a' <= self && self <= 'z'
    }

    fn is_alpha_upper(self) -> (r: bool) {
        'A' <= self && self <= 'Z'
    }

    fn is_alphanum_lower(self) -> (r: bool) {
        self.is_alpha_lower() || ('0' <= self && self <= '9')
    }

    fn is_alphanum_upper(self) -> (r: bool) {
        self.is_alpha_upper() || ('0' <= self && self <= '9')
    }
}

impl<'a> AsCharCaseSensitive for &'a char {
    open spec fn character(self) -> char {
        *self
    }

    fn is_alpha_lower(self) -> (r: bool) {
        'a' <= *self && *self <= 'z'
    }

    fn is_alpha_upper(self) -> (r: bool) {
        'A' <= *self && *self <= 'Z'
    }

    fn is_alphanum_lower(self) -> (r: bool) {
        self.is_alpha_lower() || ('0' <= *self && *self <= '9')
    }

    fn is_alphanum_upper(self) -> (r: bool) {
        self.is_alpha_upper() || ('0' <= *self && *self <= '9')
    }
}

/// Tests whether `c` belongs to `class`.
pub fn char_in_class(c: char, class: CharClass) -> (r: bool)
    ensures
        r == in_class(c, class),
{
    match class {
        CharClass::Digit => '0' <= c && c <= '9',
        CharClass::Lower => c.is_alpha_lower(),
        CharClass::Upper => c.is_alpha_upper(),
        CharClass::Alpha => c.is_alpha_lower() || c.is_alpha_upper(),
        CharClass::LowerOrDigit => c.is_alphanum_lower(),
        CharClass::UpperOrDigit => c.is_alphanum_upper(),
        CharClass::AlphaOrDigit => c.is_alphanum_lower() || c.is_alphanum_upper(),
    }
}

/// Tests whether `c` lies outside `class`: where a run of the class ends.
pub fn char_outside_class(c: char, class: CharClass) -> (r: bool)
    ensures
        r == !in_class(c, class),
{
    !char_in_class(c, class)
}

/// What a recognizer yields in contracts: the rest of the input, then the
/// matched text.
pub open spec fn cut_view(r: Option<(&str, &str)>) -> Option<(Seq<char>, Seq<char>)> {
    match r {
        Some((rest, text)) => Some((rest@, text@)),
        None => None,
    }
}

/// Cuts `s` after its first `n` characters.
pub open spec fn cut_at(s: Seq<char>, n: int) -> (Seq<char>, Seq<char>) {
    (s.skip(n), s.take(n))
}

/// A literal pattern matches where the input begins with it.
pub open spec fn tag_cut(pattern: Seq<char>, s: Seq<char>) -> Option<(Seq<char>, Seq<char>)> {
    if pattern.is_prefix_of(s) {
        Some(cut_at(s, pattern.len() as int))
    } else {
        None
    }
}

/// The lower-case partner of an ASCII capital; every other character itself.
pub open spec fn ascii_lower(c: char) -> char {
    if is_upper(c) {
        ((c as u32) + 32) as char
    } else {
        c
    }
}

/// An ASCII letter other than `i` and `k`: a letter that no character outside
/// ASCII shares a lower-case form with.
pub open spec fn is_plain_letter(c: char) -> bool {
    (is_upper(c) || is_lower(c)) && ascii_lower(c) != 'i' && ascii_lower(c) != 'k'
}

pub open spec fn all_plain_letters(s: Seq<char>) -> bool {
    forall|i: int| 0 <= i < s.len() ==> is_plain_letter(#[trigger] s[i])
}

/// The input begins with `pattern`, up to the case of ASCII letters.
pub open spec fn matches_no_case(pattern: Seq<char>, s: Seq<char>) -> bool {
    &&& pattern.len() <= s.len()
    &&& forall|i: int|
        0 <= i < pattern.len() ==> ascii_lower(#[trigger] s[i]) == ascii_lower(pattern[i])
}

/// A pattern of letters matched without regard to case.
pub open spec fn tag_no_case_cut(pattern: Seq<char>, s: Seq<char>) -> Option<
    (Seq<char>, Seq<char>),
> {
    if matches_no_case(pattern, s) {
        Some(cut_at(s, pattern.len() as int))
    } else {
        None
    }
}

/// A run of `class`, as long as it gets, of at least `least` characters.
pub open spec fn run_cut(s: Seq<char>, class: CharClass, least: nat) -> Option<
    (Seq<char>, Seq<char>),
> {
    let n = run_len(s, class);
    if n < least {
        None
    } else {
        Some(cut_at(s, n as int))
    }
}

/// One or more decimal digits, as many as there are.
pub open spec fn digit_cut(s: Seq<char>) -> Option<(Seq<char>, Seq<char>)> {
    run_cut(s, CharClass::Digit, 1)
}

/// A character of `first`, then characters of `rest` for as long as they
/// last.
pub open spec fn word_cut_in(s: Seq<char>, first: CharClass, rest: CharClass) -> Option<
    (Seq<char>, Seq<char>),
> {
    if s.len() > 0 && in_class(s[0], first) {
        Some(cut_at(s, run_len(s, rest) as int))
    } else {
        None
    }
}

/// A letter followed by as many letters and digits as there are.
pub open spec fn word_cut(s: Seq<char>, mode: CaseMode) -> Option<(Seq<char>, Seq<char>)> {
    word_cut_in(s, letter_class(mode), word_class(mode))
}

/// Every character of `s` belongs to `class`.
pub open spec fn all_in_class(s: Seq<char>, class: CharClass) -> bool {
    forall|i: int| 0 <= i < s.len() ==> in_class(#[trigger] s[i], class)
}

/// `s` is a name: a letter that `mode` admits, then letters and digits only.
pub open spec fn is_word(s: Seq<char>, mode: CaseMode) -> bool {
    s.len() > 0 && is_letter(s[0], mode) && all_in_class(s, word_class(mode))
}

/// `s` is one or more decimal digits.
pub open spec fn is_digits(s: Seq<char>) -> bool {
    s.len() > 0 && all_in_class(s, CharClass::Digit)
}

/// A run ends at `n` when the first `n` characters belong to the class and the
/// next one, if there is one, does not.
pub proof fn lemma_run_len_is(s: Seq<char>, class: CharClass, n: int)
    requires
        0 <= n <= s.len(),
        forall|i: int| 0 <= i < n ==> in_class(#[trigger] s[i], class),
        n == s.len() || !in_class(s[n], class),
    ensures
        run_len(s, class) == n,
    decreases n,
{
    if n > 0 {
        let t = s.skip(1);
        assert forall|i: int| 0 <= i < n - 1 implies in_class(#[trigger] t[i], class) by {
            assert(t[i] == s[i + 1]);
        }
        if n < s.len() {
            assert(t[n - 1] == s[n]);
        }
        lemma_run_len_is(t, class, n - 1);
    }
}

/// A run never outgrows its input, is made of the class, and stops only at
/// the end or before a character outside the class.
pub proof fn lemma_run_len_props(s: Seq<char>, class: CharClass)
    ensures
        run_len(s, class) <= s.len(),
        all_in_class(s.take(run_len(s, class) as int), class),
        run_len(s, class) == s.len() || !in_class(s[run_len(s, class) as int], class),
    decreases s.len(),
{
    if s.len() > 0 && in_class(s[0], class) {
        let t = s.skip(1);
        lemma_run_len_props(t, class);
        let n = run_len(s, class) as int;
        assert forall|i: int| 0 <= i < n implies in_class(#[trigger] s.take(n)[i], class) by {
            if i > 0 {
                assert(s.take(n)[i] == t.take(n - 1)[i - 1]);
            }
        }
        if n < s.len() {
            assert(s[n] == t[n - 1]);
        }
    }
}

/// `nom::bytes::complete::tag` on string slices. It succeeds where the input
/// begins with the pattern, and then hands back the input behind the pattern
/// and the part of the input that matched it.
#[verifier::external_body]
pub(crate) fn tag<'a>(pattern: &str, input: &'a str) -> (r: Option<(&'a str, &'a str)>)
    ensures
        cut_view(r) == tag_cut(pattern@, input@),
{
    let res: nom::IResult<&'a str, &'a str> = nom::bytes::complete::tag(pattern)(input);
    res.ok()
}

/// `nom::bytes::complete::tag_no_case` on string slices. It walks pattern and
/// input together, comparing the lower-case forms that `char::to_lowercase`
/// gives, and on success cuts the input at the pattern's length in bytes. The
/// pattern is held to letters that only their own two ASCII cases fold to, so
/// the characters that match are ASCII and the cut falls between characters.
#[verifier::external_body]
pub(crate) fn tag_no_case<'a>(pattern: &str, input: &'a str) -> (r: Option<(&'a str, &'a str)>)
    requires
        all_plain_letters(pattern@),
    ensures
        cut_view(r) == tag_no_case_cut(pattern@, input@),
{
    let res: nom::IResult<&'a str, &'a str> = nom::bytes::complete::tag_no_case(pattern)(input);
    res.ok()
}

/// `nom::character::complete::digit1` on a string slice. It takes the ASCII
/// digits at the front of the input, all of them, and fails where there is
/// none.
#[verifier::external_body]
pub(crate) fn digit1<'a>(input: &'a str) -> (r: Option<(&'a str, &'a str)>)
    ensures
        cut_view(r) == digit_cut(input@),
{
    let res: nom::IResult<&'a str, &'a str> = nom::character::complete::digit1(input);
    res.ok()
}

/// `nom::InputTakeAtPosition::split_at_position_complete` on a string slice,
/// with the end of a run of `class` as the position: it cuts the input before
/// the first character outside the class, or at the end where there is none.
/// It always succeeds; the matched text may be empty.
#[verifier::external_body]
pub(crate) fn split_at_position_complete<'a>(input: &'a str, class: CharClass) -> (r: Option<
    (&'a str, &'a str),
>)
    ensures
        cut_view(r) == run_cut(input@, class, 0),
{
    let res: nom::IResult<&'a str, &'a str> = nom::InputTakeAtPosition::split_at_position_complete(
        &input,
        |c: char| char_outside_class(c, class),
    );
    res.ok()
}

/// `nom::InputTakeAtPosition::split_at_position1_complete` on a string
/// slice, with the end of a run of `class` as the position: as above, but it
/// fails where the run is empty.
#[verifier::external_body]
pub(crate) fn split_at_position1_complete<'a>(input: &'a str, class: CharClass) -> (r: Option<
    (&'a str, &'a str),
>)
    ensures
        cut_view(r) == run_cut(input@, class, 1),
{
    let res: nom::IResult<&'a str, &'a str> = nom::InputTakeAtPosition::split_at_position1_complete(
        &input,
        |c: char| char_outside_class(c, class),
        nom::error::ErrorKind::Alpha,
    );
    res.ok()
}

/// Takes one or more lower-case letters.
pub fn loweralpha1<'a>(input: &'a str) -> (r: Option<(&'a str, &'a str)>)
    ensures
        cut_view(r) == run_cut(input@, CharClass::Lower, 1),
{
    split_at_position1_complete(input, CharClass::Lower)
}

/// Takes one or more lower-case letters and digits.
pub fn loweralphanum1<'a>(input: &'a str) -> (r: Option<(&'a str, &'a str)>)
    ensures
        cut_view(r) == run_cut(input@, CharClass::LowerOrDigit, 1),
{
    split_at_position1_complete(input, CharClass::LowerOrDigit)
}

/// Takes the lower-case letters at the front, if any.
pub fn loweralpha0<'a>(input: &'a str) -> (r: Option<(&'a str, &'a str)>)
    ensures
        cut_view(r) == run_cut(input@, CharClass::Lower, 0),
        r is Some,
{
    split_at_position_complete(input, CharClass::Lower)
}

/// Takes the lower-case letters and digits at the front, if any.
pub fn loweralphanum0<'a>(input: &'a str) -> (r: Option<(&'a str, &'a str)>)
    ensures
        cut_view(r) == run_cut(input@, CharClass::LowerOrDigit, 0),
        r is Some,
{
    split_at_position_complete(input, CharClass::LowerOrDigit)
}

/// Takes one or more upper-case letters.
pub fn upperalpha1<'a>(input: &'a str) -> (r: Option<(&'a str, &'a str)>)
    ensures
        cut_view(r) == run_cut(input@, CharClass::Upper, 1),
{
    split_at_position1_complete(input, CharClass::Upper)
}

/// Takes one or more upper-case letters and digits.
pub fn upperalphanum1<'a>(input: &'a str) -> (r: Option<(&'a str, &'a str)>)
    ensures
        cut_view(r) == run_cut(input@, CharClass::UpperOrDigit, 1),
{
    split_at_position1_complete(input, CharClass::UpperOrDigit)
}

/// Takes the upper-case letters at the front, if any.
pub fn upperalpha0<'a>(input: &'a str) -> (r: Option<(&'a str, &'a str)>)
    ensures
        cut_view(r) == run_cut(input@, CharClass::Upper, 0),
        r is Some,
{
    split_at_position_complete(input, CharClass::Upper)
}

/// Takes the upper-case letters and digits at the front, if any.
pub fn upperalphanum0<'a>(input: &'a str) -> (r: Option<(&'a str, &'a str)>)
    ensures
        cut_view(r) == run_cut(input@, CharClass::UpperOrDigit, 0),
        r is Some,
{
    split_at_position_complete(input, CharClass::UpperOrDigit)
}

/// A run of letters followed by a run of letters and digits is one run of
/// letters and digits that begins with a letter.
proof fn lemma_two_runs(s: Seq<char>, first: CharClass, rest: CharClass)
    requires
        class_within(first, rest),
        run_len(s, first) >= 1,
    ensures
        run_len(s, rest) == run_len(s, first) + run_len(s.skip(run_len(s, first) as int), rest),
        in_class(s[0], first),
{
    let n1 = run_len(s, first) as int;
    let t = s.skip(n1);
    let n2 = run_len(t, rest) as int;
    lemma_run_len_props(s, first);
    lemma_run_len_props(t, rest);
    assert forall|i: int| 0 <= i < n1 + n2 implies in_class(#[trigger] s[i], rest) by {
        if i < n1 {
            assert(s.take(n1)[i] == s[i]);
            assert(in_class(s.take(n1)[i], first));
        } else {
            assert(t.take(n2)[i - n1] == s[i]);
            assert(in_class(t.take(n2)[i - n1], rest));
        }
    }
    if n1 + n2 < s.len() {
        assert(t[n2] == s[n1 + n2]);
    }
    lemma_run_len_is(s, rest, n1 + n2);
    assert(s.take(n1)[0] == s[0]);
}

/// Recognizes one or more characters of `first` followed by characters of
/// `rest`, and hands back the two runs as one text.
fn letters_then_run<'a>(input: &'a str, first: CharClass, rest: CharClass) -> (r: Option<
    (&'a str, &'a str),
>)
    requires
        class_within(first, rest),
    ensures
        cut_view(r) == word_cut_in(input@, first, rest),
{
    match split_at_position1_complete(input, first) {
        Some((after_letters, _)) => match split_at_position_complete(after_letters, rest) {
            Some((behind, _)) => {
                proof {
                    lemma_two_runs(input@, first, rest);
                    lemma_run_len_props(input@, rest);
                }
                let n = input.unicode_len() - behind.unicode_len();
                assert(behind@ =~= input@.skip(n as int));
                Some((behind, input.substring_char(0, n)))
            },
            None => None,
        },
        None => None,
    }
}

/// Recognizes a letter of either case followed by letters and digits, as
/// many as there are.
pub fn alpha_alphanum<'a>(input: &'a str) -> (r: Option<(&'a str, &'a str)>)
    ensures
        cut_view(r) == word_cut(input@, CaseMode::Relaxed),
{
    letters_then_run(input, CharClass::Alpha, CharClass::AlphaOrDigit)
}

/// Recognizes an upper-case letter followed by upper-case letters and
/// digits, as many as there are.
pub fn alpha_alphanum_upper<'a>(input: &'a str) -> (r: Option<(&'a str, &'a str)>)
    ensures
        cut_view(r) == word_cut(input@, CaseMode::Strict),
{
    letters_then_run(input, CharClass::Upper, CharClass::UpperOrDigit)
}

/// Recognizes a lower-case letter followed by lower-case letters and digits,
/// as many as there are.
pub fn alpha_alphanum_lower<'a>(input: &'a str) -> (r: Option<(&'a str, &'a str)>)
    ensures
        cut_view(r) == word_cut_in(input@, CharClass::Lower, CharClass::LowerOrDigit),
{
    letters_then_run(input, CharClass::Lower, CharClass::LowerOrDigit)
}

} // verus!
