//! Freeing a flat file of the line breaks that stand inside its fields.
//!
//! Two of the files carry raw line breaks inside a field, which a reader of
//! lines would take for the end of a row. Each of the two has its own way of
//! telling such a break from a real end of row. In the comments file a break
//! inside a field is a match of a pattern, which takes the white space
//! before the break with it; in the file of special condition codes a break
//! is told by the character before it, and that character stays. Either way
//! the break gives way to one space.

use crate::text::{chars_of, string_of};
use vstd::prelude::*;

verus! {

/// The embedded break of the comments file: any run of white space that
/// ends in carriage return, carriage return, line feed.
pub const COMMENT_BREAK: &'static str = "\\s*\\r\\r\\n";

/// What takes the place of an embedded break.
pub const BREAK_REPLACEMENT: &'static str = " ";

/// Why a text could not be normalised.
#[derive(Clone, Copy, Debug, PartialEq, Eq, Structural)]
pub enum NormalizeError {
    /// The pattern engine refused the pattern.
    Pattern,
}

/// `regex::Error`, the reason why the pattern engine refuses a pattern. It
/// is carried through unopened.
#[verifier::external_type_specification]
#[verifier::external_body]
pub struct ExRegexError(regex::Error);

/// The text that `regex::Regex::replace_all` makes of `text` for the regex
/// that `regex::Regex::new` compiles from `pattern`, given `replacement` as
/// a text: every match gives way to the replacement, in which the engine
/// reads `$` and a name or number as the text of that group of the match.
/// `None` where `new` refuses the pattern.
pub uninterp spec fn replaced_all(pattern: Seq<char>, text: Seq<char>, replacement: Seq<char>) -> Option<
    Seq<char>,
>;

/// Compiles `pattern` with `regex::Regex::new` and rewrites `text` with
/// `regex::Regex::replace_all`. The answer is the rewritten text, or the
/// engine's error where it refuses the pattern; it depends on the three
/// texts alone.
#[verifier::external_body]
fn replace_all(pattern: &str, text: &str, replacement: &str) -> (r: Result<String, regex::Error>)
    ensures
        r is Ok <==> replaced_all(pattern@, text@, replacement@) is Some,
        r is Ok ==> replaced_all(pattern@, text@, replacement@) == Some(r->Ok_0@),
{
    match regex::Regex::new(pattern) {
        Ok(re) => Ok(re.replace_all(text, replacement).into_owned()),
        Err(e) => Err(e),
    }
}

/// What normalising by `pattern` makes of `text`.
pub open spec fn normal_form(pattern: Seq<char>, text: Seq<char>) -> Result<Seq<char>, NormalizeError> {
    match replaced_all(pattern, text, BREAK_REPLACEMENT@) {
        Some(t) => Ok(t),
        None => Err(NormalizeError::Pattern),
    }
}

/// The outcome of a normalisation, with the text as its characters.
pub open spec fn normalized(r: Result<String, NormalizeError>) -> Result<Seq<char>, NormalizeError> {
    match r {
        Ok(t) => Ok(t@),
        Err(e) => Err(e),
    }
}

/// Puts one space in the place of every match of `pattern` in `text`. The
/// replacement holds no `$`, so it is put in as it stands.
pub fn normalize(pattern: &str, text: &str) -> (r: Result<String, NormalizeError>)
    ensures
        normalized(r) == normal_form(pattern@, text@),
{
    match replace_all(pattern, text, BREAK_REPLACEMENT) {
        Ok(t) => Ok(t),
        Err(_) => Err(NormalizeError::Pattern),
    }
}

/// The comments file with one space in the place of every embedded break.
pub fn normalize_comments(text: &str) -> (r: Result<String, NormalizeError>)
    ensures
        normalized(r) == normal_form(COMMENT_BREAK@, text@),
{
    normalize(COMMENT_BREAK, text)
}

/// Whether a row of the file of special condition codes may end in `c`:
/// every row ends in `R`, `P`, `T` or `|`, and then carriage return and line
/// feed.
pub open spec fn ends_row(c: char) -> bool {
    c == 'R' || c == 'P' || c == 'T' || c == '|'
}

/// A line feed at `i` that stands inside a field: it follows a character
/// that is no carriage return.
pub open spec fn line_feed_inside(text: Seq<char>, i: int) -> bool {
    0 < i < text.len() && text[i] == '\n' && text[i - 1] != '\r'
}

/// A carriage return with line feed at `i` that stands inside a field: it
/// follows a character in which no row ends.
pub open spec fn line_end_inside(text: Seq<char>, i: int) -> bool {
    0 < i && i + 1 < text.len() && text[i] == '\r' && text[i + 1] == '\n' && !ends_row(
        text[i - 1],
    )
}

/// The text from `from` on, with one space in the place of every line break
/// that stands inside a field and every other character as it is.
pub open spec fn joined_from(text: Seq<char>, from: int) -> Seq<char>
    decreases text.len() - from,
{
    if from < 0 || from >= text.len() {
        Seq::empty()
    } else if line_end_inside(text, from) {
        seq![' '] + joined_from(text, from + 2)
    } else if line_feed_inside(text, from) {
        seq![' '] + joined_from(text, from + 1)
    } else {
        seq![text[from]] + joined_from(text, from + 1)
    }
}

/// The file of special condition codes freed of its embedded line breaks:
/// every line feed that follows anything but a carriage return, and every
/// carriage return with line feed that follows anything but `R`, `P`, `T`
/// or `|`, has become one space; every other character stands as it did,
/// the one before the break too.
pub open spec fn condition_codes_joined(text: Seq<char>) -> Seq<char> {
    joined_from(text, 0)
}

/// The file of special condition codes with one space in the place of every
/// embedded break. No character but the break itself is changed or lost, and
/// no embedded break is left in what comes out.
pub fn normalize_condition_codes(text: &str) -> (r: String)
    ensures
        r@ == condition_codes_joined(text@),
        unbroken(r@),
{
    let chars = chars_of(text);
    let mut out: Vec<char> = Vec::new();
    let mut i: usize = 0;
    while i < chars.len()
        invariant
            i <= chars.len(),
            out@ + joined_from(chars@, i as int) == joined_from(chars@, 0),
        decreases chars.len() - i,
    {
        let ghost before = out@;
        let c = chars[i];
        if i > 0 && c == '\r' && chars.len() - i > 1 && chars[i + 1] == '\n' && !row_end(
            chars[i - 1],
        ) {
            out.push(' ');
            proof {
                assert(out@ + joined_from(chars@, i + 2) =~= before + joined_from(chars@, i as int));
            }
            i += 2;
        } else if i > 0 && c == '\n' && chars[i - 1] != '\r' {
            out.push(' ');
            proof {
                assert(out@ + joined_from(chars@, i + 1) =~= before + joined_from(chars@, i as int));
            }
            i += 1;
        } else {
            out.push(c);
            proof {
                assert(out@ + joined_from(chars@, i + 1) =~= before + joined_from(chars@, i as int));
            }
            i += 1;
        }
    }
    proof {
        assert(out@ + joined_from(chars@, i as int) =~= out@);
        lemma_normal_form_unbroken(chars@);
    }
    string_of(&out)
}

/// Whether a row of the file of special condition codes may end in `c`.
pub fn row_end(c: char) -> (b: bool)
    ensures
        b == ends_row(c),
{
    c == 'R' || c == 'P' || c == 'T' || c == '|'
}

/// No line break of the text stands inside a field.
pub open spec fn unbroken(text: Seq<char>) -> bool {
    &&& forall|i: int| !#[trigger] line_feed_inside(text, i)
    &&& forall|i: int| !#[trigger] line_end_inside(text, i)
}

/// From `from` on, a text without embedded breaks is its own normal form.
pub proof fn lemma_unbroken_from(text: Seq<char>, from: int)
    requires
        unbroken(text),
        0 <= from <= text.len(),
    ensures
        joined_from(text, from) == text.skip(from),
    decreases text.len() - from,
{
    if from < text.len() {
        lemma_unbroken_from(text, from + 1);
        assert(!line_feed_inside(text, from) && !line_end_inside(text, from));
        assert(seq![text[from]] + text.skip(from + 1) =~= text.skip(from));
    } else {
        assert(text.skip(from) =~= Seq::<char>::empty());
    }
}

/// A file without embedded breaks stays as it is: only a break inside a
/// field is ever touched.
pub proof fn lemma_unbroken_stays(text: Seq<char>)
    requires
        unbroken(text),
    ensures
        condition_codes_joined(text) == text,
{
    lemma_unbroken_from(text, 0);
    assert(text.skip(0) =~= text);
}

/// A text with the character that stands before it, if one does.
pub open spec fn after(before: Option<char>, text: Seq<char>) -> Seq<char> {
    match before {
        Some(c) => seq![c] + text,
        None => text,
    }
}

/// The character `before` may stand before what the normal form makes of
/// the text from `from` on: it is the character of the text before `from`,
/// or the space that took the place of a line feed there.
pub open spec fn stands_before(text: Seq<char>, from: int, before: Option<char>) -> bool {
    if from == 0 {
        before is None
    } else {
        before is Some && (before->0 == text[from - 1] || (before->0 == ' ' && text[from - 1]
            == '\n'))
    }
}

/// From `start` on, no line break of the text stands inside a field.
pub open spec fn unbroken_from(text: Seq<char>, start: int) -> bool {
    &&& forall|i: int| start <= i ==> !#[trigger] line_feed_inside(text, i)
    &&& forall|i: int| start <= i ==> !#[trigger] line_end_inside(text, i)
}

/// What the normal form makes of the text from `from` on holds no embedded
/// break, whatever stands before it.
pub proof fn lemma_joined_unbroken(text: Seq<char>, from: int, before: Option<char>)
    requires
        0 <= from <= text.len(),
        stands_before(text, from, before),
    ensures
        unbroken_from(
            after(before, joined_from(text, from)),
            if before is Some {
                1
            } else {
                0
            },
        ),
    decreases text.len() - from,
{
    let offset: int = if before is Some {
        1
    } else {
        0
    };
    let whole = after(before, joined_from(text, from));
    if from < text.len() {
        let next = if line_end_inside(text, from) {
            from + 2
        } else {
            from + 1
        };
        let first = if line_end_inside(text, from) || line_feed_inside(text, from) {
            ' '
        } else {
            text[from]
        };
        let rest = joined_from(text, next);
        lemma_joined_unbroken(text, next, Some(first));
        let tail = after(Some(first), rest);
        assert(joined_from(text, from) =~= seq![first] + rest);
        assert(whole.len() == offset + tail.len());
        assert forall|i: int| offset <= i < whole.len() implies whole[i] == tail[i - offset] by {}
        if rest.len() > 0 {
            assert(next < text.len());
            assert(rest[0] == '\n' ==> text[next] == '\n');
        }
        assert forall|i: int| offset <= i implies !#[trigger] line_feed_inside(whole, i) by {
            if offset < i < whole.len() {
                assert(!line_feed_inside(tail, i - offset));
                assert(whole[i] == tail[i - offset]);
                assert(whole[i - 1] == tail[i - offset - 1]);
            }
        }
        assert forall|i: int| offset <= i implies !#[trigger] line_end_inside(whole, i) by {
            if offset < i && i + 1 < whole.len() {
                assert(!line_end_inside(tail, i - offset));
                assert(whole[i] == tail[i - offset]);
                assert(whole[i - 1] == tail[i - offset - 1]);
                assert(whole[i + 1] == tail[i - offset + 1]);
            } else if i == offset && i + 1 < whole.len() && offset == 1 {
                assert(whole[i] == first);
                assert(whole[i + 1] == rest[0]);
                assert(whole[0] == before->0);
            }
        }
    } else {
        assert(joined_from(text, from) =~= Seq::<char>::empty());
    }
}

/// A break takes nothing with it: where a break follows a character that
/// is itself no part of a break, the normal form keeps that character and
/// puts one space behind it.
pub proof fn lemma_break_keeps_character(text: Seq<char>, i: int)
    requires
        line_feed_inside(text, i) || line_end_inside(text, i),
        !line_feed_inside(text, i - 1),
        !line_end_inside(text, i - 1),
    ensures
        joined_from(text, i - 1) == seq![text[i - 1], ' '] + joined_from(
            text,
            if line_end_inside(text, i) {
                i + 2
            } else {
                i + 1
            },
        ),
{
    let next = if line_end_inside(text, i) {
        i + 2
    } else {
        i + 1
    };
    assert(joined_from(text, i) == seq![' '] + joined_from(text, next));
    assert(joined_from(text, i - 1) == seq![text[i - 1]] + joined_from(text, i));
    assert(seq![text[i - 1]] + (seq![' '] + joined_from(text, next)) =~= seq![text[i - 1], ' ']
        + joined_from(text, next));
}

/// The normal form holds no embedded break: what is handed to the reader of
/// lines has a line feed only after a carriage return, and a carriage
/// return with line feed only after a character in which a row ends.
pub proof fn lemma_normal_form_unbroken(text: Seq<char>)
    ensures
        unbroken(condition_codes_joined(text)),
{
    lemma_joined_unbroken(text, 0, None);
}

/// Normalising is idempotent: a normal form is its own normal form.
pub proof fn lemma_normal_form_idempotent(text: Seq<char>)
    ensures
        condition_codes_joined(condition_codes_joined(text)) == condition_codes_joined(text),
{
    lemma_normal_form_unbroken(text);
    lemma_unbroken_stays(condition_codes_joined(text));
}

} // verus!
