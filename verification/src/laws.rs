use vstd::prelude::*;

use crate::lexer::TokenKind;
use crate::lexer::digit_run_end;
use crate::lexer::is_numeric_char;
use crate::lexer::is_whitespace_char;
use crate::lexer::scan_end;
use crate::lexer::scan_kind;
use crate::lexer::scan_lexeme;
use crate::lexer::skip_ws_from;

verus! {

/// Skipping whitespace stays inside the source, passes over whitespace
/// characters only, and stops exactly at the first character that is not
/// whitespace.
pub proof fn lemma_skip_ws_from_properties(s: Seq<char>, i: int)
    requires
        0 <= i <= s.len(),
    ensures
        i <= skip_ws_from(s, i) <= s.len(),
        forall|k: int| i <= k < skip_ws_from(s, i) ==> is_whitespace_char(#[trigger] s[k]),
        skip_ws_from(s, i) < s.len() ==> !is_whitespace_char(s[skip_ws_from(s, i)]),
    decreases s.len() - i,
{
    if i < s.len() && is_whitespace_char(s[i]) {
        lemma_skip_ws_from_properties(s, i + 1);
    }
}

/// A digit run stays inside the source, covers numeric characters only, and
/// ends exactly at the first character that is not numeric.
pub proof fn lemma_digit_run_end_properties(s: Seq<char>, i: int)
    requires
        0 <= i <= s.len(),
    ensures
        i <= digit_run_end(s, i) <= s.len(),
        forall|k: int| i <= k < digit_run_end(s, i) ==> is_numeric_char(#[trigger] s[k]),
        digit_run_end(s, i) < s.len() ==> !is_numeric_char(s[digit_run_end(s, i)]),
    decreases s.len() - i,
{
    if i < s.len() && is_numeric_char(s[i]) {
        lemma_digit_run_end_properties(s, i + 1);
    }
}

/// A source consisting solely of whitespace scans to `EndOfFile` with an
/// empty lexeme on the first call, with the whole source consumed.
pub proof fn lemma_whitespace_only_source_scans_to_end(s: Seq<char>)
    requires
        forall|k: int| 0 <= k < s.len() ==> is_whitespace_char(#[trigger] s[k]),
    ensures
        scan_kind(s, 0) == TokenKind::EndOfFile,
        scan_lexeme(s, 0) == Seq::<char>::empty(),
        scan_end(s, 0) == s.len(),
{
    lemma_skip_ws_from_properties(s, 0);
}

/// The empty source scans to `EndOfFile` with an empty lexeme on the first
/// call.
pub proof fn lemma_empty_source_scans_to_end()
    ensures
        scan_kind(Seq::<char>::empty(), 0) == TokenKind::EndOfFile,
        scan_lexeme(Seq::<char>::empty(), 0) == Seq::<char>::empty(),
        scan_end(Seq::<char>::empty(), 0) == 0,
{
}

/// End of input is terminal and repeatable: a scan that returns `EndOfFile`
/// leaves the cursor at the end of the source, and a scan from there returns
/// `EndOfFile` again, with an empty lexeme and the cursor unmoved.
pub proof fn lemma_end_of_file_is_idempotent(s: Seq<char>, pos: int)
    requires
        0 <= pos <= s.len(),
        scan_kind(s, pos) == TokenKind::EndOfFile,
    ensures
        scan_end(s, pos) == s.len(),
        scan_kind(s, scan_end(s, pos)) == TokenKind::EndOfFile,
        scan_lexeme(s, scan_end(s, pos)) == Seq::<char>::empty(),
        scan_end(s, scan_end(s, pos)) == s.len(),
{
    lemma_skip_ws_from_properties(s, pos);
}

/// An `Integer` token captures a maximal digit run: its lexeme is exactly
/// the contiguous span of the source from the first character after the
/// skipped whitespace up to the first character that is not numeric (or the
/// end of the source), with at least one digit, every character of it
/// numeric, and nothing truncated.
pub proof fn lemma_integer_token_is_maximal_digit_run(s: Seq<char>, pos: int)
    requires
        0 <= pos <= s.len(),
        scan_kind(s, pos) == TokenKind::Integer,
    ensures
        pos <= skip_ws_from(s, pos) < scan_end(s, pos) <= s.len(),
        scan_lexeme(s, pos) == s.subrange(skip_ws_from(s, pos), scan_end(s, pos)),
        scan_lexeme(s, pos).len() >= 1,
        forall|k: int|
            skip_ws_from(s, pos) <= k < scan_end(s, pos) ==> is_numeric_char(#[trigger] s[k]),
        scan_end(s, pos) == s.len() || !is_numeric_char(s[scan_end(s, pos)]),
{
    lemma_skip_ws_from_properties(s, pos);
    let j = skip_ws_from(s, pos);
    lemma_digit_run_end_properties(s, j + 1);
}

/// A `+` character yields exactly one `Plus` token whose lexeme is `+`
/// itself, and consumes exactly that one character.
pub proof fn lemma_plus_consumes_one_char(s: Seq<char>, pos: int)
    requires
        0 <= pos <= s.len(),
        skip_ws_from(s, pos) < s.len(),
        s[skip_ws_from(s, pos)] == '+',
    ensures
        scan_kind(s, pos) == TokenKind::Plus,
        scan_lexeme(s, pos) == seq!['+'],
        scan_end(s, pos) == skip_ws_from(s, pos) + 1,
{
}

/// A character that is neither whitespace, `+`, nor numeric yields exactly
/// one `Error` token with the fixed lexeme `error`, and consumes exactly
/// that one character: the next scan resumes immediately after it.
pub proof fn lemma_error_consumes_one_char(s: Seq<char>, pos: int)
    requires
        0 <= pos <= s.len(),
        skip_ws_from(s, pos) < s.len(),
        s[skip_ws_from(s, pos)] != '+',
        !is_numeric_char(s[skip_ws_from(s, pos)]),
    ensures
        scan_kind(s, pos) == TokenKind::Error,
        scan_lexeme(s, pos) == seq!['e', 'r', 'r', 'o', 'r'],
        scan_end(s, pos) == skip_ws_from(s, pos) + 1,
{
}

/// Every position a scan can rest at lies on a digit-run boundary: it does
/// not fall strictly between two numeric characters.
pub open spec fn splits_no_digit_run(s: Seq<char>, p: int) -> bool {
    p <= 0 || p >= s.len() || !is_numeric_char(s[p - 1]) || !is_numeric_char(s[p])
}

/// A hypothesis on the source that holds of every real text, since the
/// Unicode number categories contain neither `+` nor any character with the
/// `White_Space` property: no numeric character of the source is `+` or
/// whitespace.
pub open spec fn numeric_chars_not_plus_or_whitespace(s: Seq<char>) -> bool {
    forall|k: int|
        0 <= k < s.len() && is_numeric_char(#[trigger] s[k]) ==> s[k] != '+' && !is_whitespace_char(
            s[k],
        )
}

/// A scan always makes progress before end of input, and never stops strictly
/// inside a digit run: starting from a digit-run boundary, the cursor comes to
/// rest on a digit-run boundary again. Together with
/// `lemma_integer_token_is_maximal_run_of_source`, this shows by induction
/// over the calls that a scan session started at the beginning of the source
/// turns each maximal digit run into exactly one token.
pub proof fn lemma_scan_does_not_split_runs(s: Seq<char>, pos: int)
    requires
        0 <= pos <= s.len(),
        numeric_chars_not_plus_or_whitespace(s),
        splits_no_digit_run(s, pos),
        scan_kind(s, pos) != TokenKind::EndOfFile,
    ensures
        pos < scan_end(s, pos) <= s.len(),
        splits_no_digit_run(s, scan_end(s, pos)),
{
    lemma_skip_ws_from_properties(s, pos);
    let j = skip_ws_from(s, pos);
    if scan_kind(s, pos) == TokenKind::Integer {
        lemma_digit_run_end_properties(s, j + 1);
    }
}

/// An `Integer` token scanned from a digit-run boundary captures a run that
/// is maximal in the whole source: its lexeme is bounded on both sides by a
/// non-numeric character or an edge of the input.
pub proof fn lemma_integer_token_is_maximal_run_of_source(s: Seq<char>, pos: int)
    requires
        0 <= pos <= s.len(),
        numeric_chars_not_plus_or_whitespace(s),
        splits_no_digit_run(s, pos),
        scan_kind(s, pos) == TokenKind::Integer,
    ensures
        scan_lexeme(s, pos) == s.subrange(skip_ws_from(s, pos), scan_end(s, pos)),
        skip_ws_from(s, pos) == 0 || !is_numeric_char(s[skip_ws_from(s, pos) - 1]),
        scan_end(s, pos) == s.len() || !is_numeric_char(s[scan_end(s, pos)]),
{
    lemma_integer_token_is_maximal_digit_run(s, pos);
    lemma_skip_ws_from_properties(s, pos);
}

/// Whitespace between tokens never itself produces a token and is never the
/// start of a lexeme: a scan passes over whitespace characters only, every
/// token's content begins at the first character that is not whitespace, and
/// a lexeme drawn from the source (an integer literal's) holds numeric
/// characters alone.
pub proof fn lemma_whitespace_yields_no_token(s: Seq<char>, pos: int)
    requires
        0 <= pos <= s.len(),
    ensures
        forall|k: int| pos <= k < skip_ws_from(s, pos) ==> is_whitespace_char(#[trigger] s[k]),
        skip_ws_from(s, pos) < s.len() ==> !is_whitespace_char(s[skip_ws_from(s, pos)]),
        scan_kind(s, pos) != TokenKind::EndOfFile ==> skip_ws_from(s, pos) < scan_end(s, pos),
        scan_kind(s, pos) == TokenKind::Integer ==> forall|k: int|
            skip_ws_from(s, pos) <= k < scan_end(s, pos) ==> is_numeric_char(#[trigger] s[k]),
        numeric_chars_not_plus_or_whitespace(s) && scan_kind(s, pos) == TokenKind::Integer
            ==> forall|k: int|
            skip_ws_from(s, pos) <= k < scan_end(s, pos) ==> !is_whitespace_char(#[trigger] s[k]),
{
    lemma_skip_ws_from_properties(s, pos);
    if scan_kind(s, pos) == TokenKind::Integer {
        lemma_integer_token_is_maximal_digit_run(s, pos);
    }
}

} // verus!
