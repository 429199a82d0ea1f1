//! DDL clean-up: removal of `EDITIONABLE` and of quotes around simple
//! identifiers in code (never inside literals, comments or double quotes),
//! upper-casing of SQL keywords outside literals and comments,
//! trailing-whitespace and blank-line normalisation, and a single final
//! newline.

use vstd::prelude::*;

use crate::keywords::{is_keyword, is_keyword_chars};
use crate::text::{
    ascii_upper, char_is_ascii_alphabetic, char_is_ascii_alphanumeric, chars_to_ascii_upper,
    chars_trim, chars_trim_end, is_ascii_alphabetic, is_ascii_alphanumeric, is_ascii_digit,
    is_ascii_upper, is_whitespace, lemma_split_segments_len, lemma_trim_end_prefix,
    lemma_trim_start_suffix, seq_ascii_upper, split_segments, str_chars,
    string_from_chars, trim, trim_end, trim_start,
};

verus! {

broadcast use vstd::string::group_string_axioms;

/// Options of [`sanitize_ddl`].
#[derive(Debug, Clone, Copy, PartialEq, Eq)]
pub struct SanitizeOptions {
    /// Keep double quotes around identifiers instead of removing the quotes
    /// of simple upper-case identifiers.
    pub keep_quotes: bool,
}

// ---------------------------------------------------------------------------
// Keyword normalisation
// ---------------------------------------------------------------------------

/// A character that can begin a word.
pub open spec fn is_word_start(c: char) -> bool {
    is_ascii_alphabetic(c) || c == '_'
}

/// A character that can continue a word.
pub open spec fn is_word_continue(c: char) -> bool {
    is_ascii_alphanumeric(c) || c == '_' || c == '$' || c == '#'
}

fn char_is_word_start(c: char) -> (r: bool)
    ensures
        r == is_word_start(c),
{
    char_is_ascii_alphabetic(c) || c == '_'
}

fn char_is_word_continue(c: char) -> (r: bool)
    ensures
        r == is_word_continue(c),
{
    char_is_ascii_alphanumeric(c) || c == '_' || c == '$' || c == '#'
}

/// Number of characters of a single-quoted literal that follow its opening
/// quote, up to and including the closing quote; a doubled quote `''` is an
/// escaped quote inside the literal. An unterminated literal runs to the end.
pub open spec fn single_quoted_len(r: Seq<char>) -> nat
    decreases r.len(),
{
    if r.len() == 0 {
        0
    } else if r[0] == '\'' {
        if r.len() > 1 && r[1] == '\'' {
            2 + single_quoted_len(r.skip(2))
        } else {
            1
        }
    } else {
        1 + single_quoted_len(r.skip(1))
    }
}

/// Number of characters up to and including the first `stop`, or all of `r`
/// when `stop` does not occur.
pub open spec fn until_len(r: Seq<char>, stop: char) -> nat
    decreases r.len(),
{
    if r.len() == 0 {
        0
    } else if r[0] == stop {
        1
    } else {
        1 + until_len(r.skip(1), stop)
    }
}

/// Number of characters of a block comment that follow its opening `/*`, up
/// to and including the first `*/` (whose `*` is not the opening one), or all
/// of `r` when the comment is unterminated. `prev` is the character before
/// `r[0]` as far as the search for `*/` is concerned.
pub open spec fn block_comment_len(r: Seq<char>, prev: char) -> nat
    decreases r.len(),
{
    if r.len() == 0 {
        0
    } else if prev == '*' && r[0] == '/' {
        1
    } else {
        1 + block_comment_len(r.skip(1), r[0])
    }
}

/// Number of word-continuing characters at the start of `r`.
pub open spec fn word_rest_len(r: Seq<char>) -> nat
    decreases r.len(),
{
    if r.len() > 0 && is_word_continue(r[0]) {
        1 + word_rest_len(r.skip(1))
    } else {
        0
    }
}

/// Length of the lexical unit at the start of a non-empty `s`: a
/// single-quoted literal, a double-quoted identifier, a `--` comment through
/// its newline, a `/* */` comment, a word, or one other character.
pub open spec fn token_len(s: Seq<char>) -> nat
    recommends
        s.len() > 0,
{
    if s[0] == '\'' {
        1 + single_quoted_len(s.skip(1))
    } else if s[0] == '"' {
        1 + until_len(s.skip(1), '"')
    } else if s[0] == '-' && s.len() > 1 && s[1] == '-' {
        2 + until_len(s.skip(2), '\n')
    } else if s[0] == '/' && s.len() > 1 && s[1] == '*' {
        2 + block_comment_len(s.skip(2), '\0')
    } else if is_word_start(s[0]) {
        1 + word_rest_len(s.skip(1))
    } else {
        1
    }
}

/// What normalisation writes for the lexical unit at the start of `s`: a word
/// whose upper-case form is a keyword is written in upper case, every other
/// unit is copied unchanged.
pub open spec fn token_output(s: Seq<char>) -> Seq<char>
    recommends
        s.len() > 0,
{
    let w = s.take(token_len(s) as int);
    if is_word_start(s[0]) && is_keyword(seq_ascii_upper(w)) {
        seq_ascii_upper(w)
    } else {
        w
    }
}

proof fn lemma_single_quoted_len(r: Seq<char>)
    ensures
        single_quoted_len(r) <= r.len(),
    decreases r.len(),
{
    if r.len() > 0 {
        if r[0] == '\'' {
            if r.len() > 1 && r[1] == '\'' {
                lemma_single_quoted_len(r.skip(2));
            }
        } else {
            lemma_single_quoted_len(r.skip(1));
        }
    }
}

proof fn lemma_until_len(r: Seq<char>, stop: char)
    ensures
        until_len(r, stop) <= r.len(),
    decreases r.len(),
{
    if r.len() > 0 && r[0] != stop {
        lemma_until_len(r.skip(1), stop);
    }
}

proof fn lemma_block_comment_len(r: Seq<char>, prev: char)
    ensures
        block_comment_len(r, prev) <= r.len(),
    decreases r.len(),
{
    if r.len() > 0 && !(prev == '*' && r[0] == '/') {
        lemma_block_comment_len(r.skip(1), r[0]);
    }
}

proof fn lemma_word_rest_len(r: Seq<char>)
    ensures
        word_rest_len(r) <= r.len(),
        forall|j: int| 0 <= j < word_rest_len(r) ==> is_word_continue(#[trigger] r[j]),
        word_rest_len(r) == r.len() || !is_word_continue(r[word_rest_len(r) as int]),
    decreases r.len(),
{
    if r.len() > 0 && is_word_continue(r[0]) {
        lemma_word_rest_len(r.skip(1));
        assert forall|j: int| 0 <= j < word_rest_len(r) implies is_word_continue(#[trigger] r[j]) by {
            if j > 0 {
                assert(r[j] == r.skip(1)[j - 1]);
            }
        }
    }
}

/// Every lexical unit is non-empty and lies within the input.
pub proof fn lemma_token_len(s: Seq<char>)
    requires
        s.len() > 0,
    ensures
        1 <= token_len(s) <= s.len(),
        token_output(s).len() == token_len(s),
{
    lemma_single_quoted_len(s.skip(1));
    lemma_until_len(s.skip(1), '"');
    if s.len() > 1 {
        lemma_until_len(s.skip(2), '\n');
        lemma_block_comment_len(s.skip(2), '\0');
    }
    lemma_word_rest_len(s.skip(1));
}

/// The result of keyword normalisation of `s`: the outputs of its lexical
/// units, in order.
pub open spec fn normalize_keywords_spec(s: Seq<char>) -> Seq<char>
    decreases s.len(),
{
    if s.len() == 0 {
        Seq::empty()
    } else {
        proof {
            lemma_token_len(s);
        }
        token_output(s) + normalize_keywords_spec(s.skip(token_len(s) as int))
    }
}

fn scan_single_quoted(v: &Vec<char>, start: usize) -> (j: usize)
    requires
        start <= v.len(),
    ensures
        start <= j <= v.len(),
        j - start == single_quoted_len(v@.skip(start as int)),
{
    let n = v.len();
    let mut j = start;
    while j < n
        invariant
            n == v.len(),
            start <= j <= n,
            single_quoted_len(v@.skip(start as int)) == (j - start) + single_quoted_len(
                v@.skip(j as int),
            ),
        decreases n - j,
    {
        let c = v[j];
        if c == '\'' {
            if j + 1 < n && v[j + 1] == '\'' {
                assert(v@.skip(j as int).skip(2) == v@.skip(j + 2));
                j = j + 2;
            } else {
                return j + 1;
            }
        } else {
            assert(v@.skip(j as int).skip(1) == v@.skip(j + 1));
            j = j + 1;
        }
    }
    j
}

fn scan_until(v: &Vec<char>, start: usize, stop: char) -> (j: usize)
    requires
        start <= v.len(),
    ensures
        start <= j <= v.len(),
        j - start == until_len(v@.skip(start as int), stop),
{
    let n = v.len();
    let mut j = start;
    while j < n
        invariant
            n == v.len(),
            start <= j <= n,
            until_len(v@.skip(start as int), stop) == (j - start) + until_len(
                v@.skip(j as int),
                stop,
            ),
        decreases n - j,
    {
        if v[j] == stop {
            return j + 1;
        }
        assert(v@.skip(j as int).skip(1) == v@.skip(j + 1));
        j = j + 1;
    }
    j
}

fn scan_block_comment(v: &Vec<char>, start: usize) -> (j: usize)
    requires
        start <= v.len(),
    ensures
        start <= j <= v.len(),
        j - start == block_comment_len(v@.skip(start as int), '\0'),
{
    let n = v.len();
    let mut j = start;
    let mut prev = '\0';
    while j < n
        invariant
            n == v.len(),
            start <= j <= n,
            block_comment_len(v@.skip(start as int), '\0') == (j - start) + block_comment_len(
                v@.skip(j as int),
                prev,
            ),
        decreases n - j,
    {
        let c = v[j];
        if prev == '*' && c == '/' {
            return j + 1;
        }
        assert(v@.skip(j as int).skip(1) == v@.skip(j + 1));
        prev = c;
        j = j + 1;
    }
    j
}

fn scan_word_rest(v: &Vec<char>, start: usize) -> (j: usize)
    requires
        start <= v.len(),
    ensures
        start <= j <= v.len(),
        j - start == word_rest_len(v@.skip(start as int)),
{
    let n = v.len();
    let mut j = start;
    while j < n && char_is_word_continue(v[j])
        invariant
            n == v.len(),
            start <= j <= n,
            word_rest_len(v@.skip(start as int)) == (j - start) + word_rest_len(
                v@.skip(j as int),
            ),
        decreases n - j,
    {
        assert(v@.skip(j as int).skip(1) == v@.skip(j + 1));
        j = j + 1;
    }
    j
}

/// End of the lexical unit that starts at `i`.
fn token_end(v: &Vec<char>, i: usize) -> (j: usize)
    requires
        i < v.len(),
    ensures
        i < j <= v.len(),
        j - i == token_len(v@.skip(i as int)),
{
    let ghost s = v@.skip(i as int);
    proof {
        lemma_token_len(s);
        assert(v@.skip(i as int).skip(1) == v@.skip(i + 1));
    }
    let n = v.len();
    let c = v[i];
    if c == '\'' {
        scan_single_quoted(v, i + 1)
    } else if c == '"' {
        scan_until(v, i + 1, '"')
    } else if c == '-' && i + 1 < n && v[i + 1] == '-' {
        assert(v@.skip(i as int).skip(2) == v@.skip(i + 2));
        scan_until(v, i + 2, '\n')
    } else if c == '/' && i + 1 < n && v[i + 1] == '*' {
        assert(v@.skip(i as int).skip(2) == v@.skip(i + 2));
        scan_block_comment(v, i + 2)
    } else if char_is_word_start(c) {
        scan_word_rest(v, i + 1)
    } else {
        i + 1
    }
}

/// Upper-cases the SQL keywords of `input`, leaving single-quoted literals,
/// double-quoted identifiers, `--` comments and `/* */` comments untouched.
pub fn normalize_keywords(input: &str) -> (out: String)
    ensures
        out@ == normalize_keywords_spec(input@),
{
    let v = str_chars(input);
    let n = v.len();
    let mut out: Vec<char> = Vec::new();
    let mut i: usize = 0;
    assert(v@.skip(0) == v@);
    while i < n
        invariant
            n == v.len(),
            i <= n,
            normalize_keywords_spec(v@) == out@ + normalize_keywords_spec(v@.skip(i as int)),
        decreases n - i,
    {
        let j = token_end(&v, i);
        let ghost s = v@.skip(i as int);
        let ghost out_before = out@;
        let mut unit: Vec<char> = Vec::new();
        for k in i..j
            invariant
                i <= j <= n,
                n == v.len(),
                unit@ == v@.subrange(i as int, k as int),
        {
            unit.push(v[k]);
            assert(v@.subrange(i as int, k + 1) == v@.subrange(i as int, k as int).push(
                v@[k as int],
            ));
        }
        assert(unit@ == s.take(token_len(s) as int));
        if char_is_word_start(v[i]) {
            let mut upper = chars_to_ascii_upper(&unit);
            if is_keyword_chars(&upper) {
                out.append(&mut upper);
            } else {
                out.append(&mut unit);
            }
        } else {
            out.append(&mut unit);
        }
        assert(out@ == out_before + token_output(s));
        assert(s.skip(token_len(s) as int) == v@.skip(j as int));
        i = j;
    }
    assert(v@.skip(n as int) == Seq::<char>::empty());
    string_from_chars(&out)
}


proof fn lemma_ascii_upper_idempotent(c: char)
    ensures
        ascii_upper(ascii_upper(c)) == ascii_upper(c),
{
}

/// Keyword normalisation only changes the case of ASCII letters: the output
/// has the input's length and agrees with it up to ASCII case.
pub proof fn lemma_normalize_changes_case_only(s: Seq<char>)
    ensures
        normalize_keywords_spec(s).len() == s.len(),
        forall|i: int|
            0 <= i < s.len() ==> ascii_upper(#[trigger] normalize_keywords_spec(s)[i]) == ascii_upper(
                s[i],
            ),
    decreases s.len(),
{
    if s.len() > 0 {
        lemma_token_len(s);
        let k = token_len(s) as int;
        let rest = s.skip(k);
        lemma_normalize_changes_case_only(rest);
        let out = token_output(s);
        let n = normalize_keywords_spec(s);
        assert(n == out + normalize_keywords_spec(rest));
        assert forall|i: int| 0 <= i < s.len() implies ascii_upper(#[trigger] n[i]) == ascii_upper(
            s[i],
        ) by {
            if i < k {
                assert(n[i] == out[i]);
                lemma_ascii_upper_idempotent(s[i]);
            } else {
                assert(n[i] == normalize_keywords_spec(rest)[i - k]);
                assert(rest[i - k] == s[i]);
            }
        }
    }
}

proof fn lemma_single_quoted_body(body: Seq<char>, rest: Seq<char>)
    requires
        forall|i: int| 0 <= i < body.len() ==> body[i] != '\'',
        rest.len() == 0 || rest[0] != '\'',
    ensures
        single_quoted_len(body + seq!['\''] + rest) == body.len() + 1,
    decreases body.len(),
{
    let r = body + seq!['\''] + rest;
    if body.len() == 0 {
        assert(r[0] == '\'');
        if r.len() > 1 {
            assert(r[1] == rest[0]);
        }
    } else {
        assert(r[0] == body[0]);
        assert(r.skip(1) == body.skip(1) + seq!['\''] + rest);
        lemma_single_quoted_body(body.skip(1), rest);
    }
}

proof fn lemma_until_body(body: Seq<char>, stop: char, rest: Seq<char>)
    requires
        forall|i: int| 0 <= i < body.len() ==> body[i] != stop,
    ensures
        until_len(body + seq![stop] + rest, stop) == body.len() + 1,
    decreases body.len(),
{
    let r = body + seq![stop] + rest;
    if body.len() == 0 {
        assert(r[0] == stop);
    } else {
        assert(r[0] == body[0]);
        assert(r.skip(1) == body.skip(1) + seq![stop] + rest);
        lemma_until_body(body.skip(1), stop, rest);
    }
}

/// Whether `*/` starts at position `i` of `s`.
pub open spec fn closes_comment_at(s: Seq<char>, i: int) -> bool {
    s[i] == '*' && s[i + 1] == '/'
}

proof fn lemma_block_comment_body(body: Seq<char>, prev: char, rest: Seq<char>)
    requires
        forall|i: int| 0 <= i < body.len() - 1 ==> !#[trigger] closes_comment_at(body, i),
        !(prev == '*' && body.len() > 0 && body[0] == '/'),
    ensures
        block_comment_len(body + seq!['*', '/'] + rest, prev) == body.len() + 2,
    decreases body.len(),
{
    let r = body + seq!['*', '/'] + rest;
    if body.len() == 0 {
        assert(r[0] == '*');
        assert(r.skip(1)[0] == '/');
        assert(r.skip(1).len() > 0);
        assert(block_comment_len(r.skip(1), '*') == 1);
        assert(block_comment_len(r, prev) == 1 + block_comment_len(r.skip(1), r[0]));
    } else {
        assert(r[0] == body[0]);
        assert(r.skip(1) == body.skip(1) + seq!['*', '/'] + rest);
        assert forall|i: int| 0 <= i < body.skip(1).len() - 1 implies !#[trigger] closes_comment_at(
            body.skip(1),
            i,
        ) by {
            assert(!closes_comment_at(body, i + 1));
        }
        if body.len() > 1 {
            assert(!closes_comment_at(body, 0));
        }
        lemma_block_comment_body(body.skip(1), body[0], rest);
        assert(!(prev == '*' && r[0] == '/'));
        assert(block_comment_len(r, prev) == 1 + block_comment_len(r.skip(1), r[0]));
    }
}

proof fn lemma_word_rest(w: Seq<char>, rest: Seq<char>)
    requires
        forall|i: int| 0 <= i < w.len() ==> is_word_continue(#[trigger] w[i]),
        rest.len() == 0 || !is_word_continue(rest[0]),
    ensures
        word_rest_len(w + rest) == w.len(),
    decreases w.len(),
{
    let r = w + rest;
    if w.len() > 0 {
        assert(r[0] == w[0]);
        assert(r.skip(1) == w.skip(1) + rest);
        lemma_word_rest(w.skip(1), rest);
    } else {
        assert(r == rest);
    }
}

/// A single-quoted literal (without inner quotes) is copied unchanged and
/// normalisation resumes after it.
pub proof fn lemma_normalize_keeps_single_quoted(body: Seq<char>, rest: Seq<char>)
    requires
        forall|i: int| 0 <= i < body.len() ==> body[i] != '\'',
        rest.len() == 0 || rest[0] != '\'',
    ensures
        normalize_keywords_spec(seq!['\''] + body + seq!['\''] + rest) == seq!['\''] + body
            + seq!['\''] + normalize_keywords_spec(rest),
{
    let lit = seq!['\''] + body + seq!['\''];
    let s = lit + rest;
    assert(s[0] == '\'');
    assert(s.skip(1) == body + seq!['\''] + rest);
    lemma_single_quoted_body(body, rest);
    assert(s.take(lit.len() as int) == lit);
    assert(s.skip(lit.len() as int) == rest);
}

/// A double-quoted identifier is copied unchanged and normalisation resumes
/// after it.
pub proof fn lemma_normalize_keeps_double_quoted(body: Seq<char>, rest: Seq<char>)
    requires
        forall|i: int| 0 <= i < body.len() ==> body[i] != '"',
    ensures
        normalize_keywords_spec(seq!['"'] + body + seq!['"'] + rest) == seq!['"'] + body + seq![
            '"',
        ] + normalize_keywords_spec(rest),
{
    let lit = seq!['"'] + body + seq!['"'];
    let s = lit + rest;
    assert(s[0] == '"');
    assert(s.skip(1) == body + seq!['"'] + rest);
    lemma_until_body(body, '"', rest);
    assert(s.take(lit.len() as int) == lit);
    assert(s.skip(lit.len() as int) == rest);
}

/// A `--` comment is copied unchanged through its newline.
pub proof fn lemma_normalize_keeps_line_comment(body: Seq<char>, rest: Seq<char>)
    requires
        forall|i: int| 0 <= i < body.len() ==> body[i] != '\n',
    ensures
        normalize_keywords_spec(seq!['-', '-'] + body + seq!['\n'] + rest) == seq!['-', '-']
            + body + seq!['\n'] + normalize_keywords_spec(rest),
{
    let lit = seq!['-', '-'] + body + seq!['\n'];
    let s = lit + rest;
    assert(s[0] == '-' && s[1] == '-');
    assert(s.skip(2) == body + seq!['\n'] + rest);
    lemma_until_body(body, '\n', rest);
    assert(s.take(lit.len() as int) == lit);
    assert(s.skip(lit.len() as int) == rest);
}

/// A `/* */` comment (with no `*/` inside) is copied unchanged.
pub proof fn lemma_normalize_keeps_block_comment(body: Seq<char>, rest: Seq<char>)
    requires
        forall|i: int| 0 <= i < body.len() - 1 ==> !#[trigger] closes_comment_at(body, i),
    ensures
        normalize_keywords_spec(seq!['/', '*'] + body + seq!['*', '/'] + rest) == seq!['/', '*']
            + body + seq!['*', '/'] + normalize_keywords_spec(rest),
{
    let lit = seq!['/', '*'] + body + seq!['*', '/'];
    let s = lit + rest;
    assert(s[0] == '/' && s[1] == '*');
    assert(s.skip(2) == body + seq!['*', '/'] + rest);
    lemma_block_comment_body(body, '\0', rest);
    assert(s.take(lit.len() as int) == lit);
    assert(s.skip(lit.len() as int) == rest);
}

/// A whole word is written in upper case when its upper-case form is a
/// keyword and unchanged otherwise; normalisation resumes after it.
pub proof fn lemma_normalize_word(w: Seq<char>, rest: Seq<char>)
    requires
        w.len() > 0,
        is_word_start(w[0]),
        forall|i: int| 0 <= i < w.len() ==> is_word_continue(#[trigger] w[i]),
        rest.len() == 0 || !is_word_continue(rest[0]),
    ensures
        normalize_keywords_spec(w + rest) == (if is_keyword(seq_ascii_upper(w)) {
            seq_ascii_upper(w)
        } else {
            w
        }) + normalize_keywords_spec(rest),
{
    let s = w + rest;
    assert(s[0] == w[0]);
    assert(s.skip(1) == w.skip(1) + rest);
    assert forall|i: int| 0 <= i < w.skip(1).len() implies is_word_continue(#[trigger] w.skip(1)[i]) by {
        assert(w.skip(1)[i] == w[i + 1]);
    }
    lemma_word_rest(w.skip(1), rest);
    assert(s.take(w.len() as int) == w);
    assert(s.skip(w.len() as int) == rest);
}

// ---------------------------------------------------------------------------
// Line handling
// ---------------------------------------------------------------------------

/// The lines of `s` as `str::lines` yields them: the newline-separated
/// pieces, without a final empty piece after a trailing newline.
pub open spec fn text_lines(s: Seq<char>) -> Seq<Seq<char>> {
    if s.len() == 0 {
        Seq::empty()
    } else if s.last() == '\n' {
        split_segments(s, '\n').drop_last()
    } else {
        split_segments(s, '\n')
    }
}

/// Every line of `ls` followed by a newline, concatenated.
pub open spec fn newline_terminated(ls: Seq<Seq<char>>) -> Seq<char>
    decreases ls.len(),
{
    if ls.len() == 0 {
        Seq::empty()
    } else {
        newline_terminated(ls.drop_last()) + ls.last() + seq!['\n']
    }
}

/// The lines of `ls` joined with `'\n'` between consecutive lines.
pub open spec fn join_lines(ls: Seq<Seq<char>>) -> Seq<char> {
    if ls.len() == 0 {
        Seq::empty()
    } else {
        newline_terminated(ls.drop_last()) + ls.last()
    }
}

/// Every line with its trailing whitespace removed.
pub open spec fn trim_line_ends(ls: Seq<Seq<char>>) -> Seq<Seq<char>> {
    ls.map_values(|l: Seq<char>| trim_end(l))
}

/// The lines of `s`, each without trailing whitespace, joined with `'\n'`.
pub open spec fn trim_trailing_whitespace_spec(s: Seq<char>) -> Seq<char> {
    join_lines(trim_line_ends(text_lines(s)))
}

proof fn lemma_trim_line_ends_push(ls: Seq<Seq<char>>, l: Seq<char>)
    ensures
        trim_line_ends(ls.push(l)) == trim_line_ends(ls).push(trim_end(l)),
{
    assert(trim_line_ends(ls.push(l)) =~= trim_line_ends(ls).push(trim_end(l)));
}

proof fn lemma_trim_line_ends_drop_last(ls: Seq<Seq<char>>)
    requires
        ls.len() > 0,
    ensures
        trim_line_ends(ls).drop_last() == trim_line_ends(ls.drop_last()),
        trim_line_ends(ls).last() == trim_end(ls.last()),
{
    assert(trim_line_ends(ls).drop_last() =~= trim_line_ends(ls.drop_last()));
}

/// Removes trailing whitespace from every line of `input`; the lines are
/// joined with `'\n'` and a final newline of `input` is dropped, as
/// `str::lines` does.
pub fn trim_trailing_whitespace(input: &str) -> (out: String)
    ensures
        out@ == trim_trailing_whitespace_spec(input@),
        no_trailing_whitespace(out@),
{
    proof {
        lemma_trim_trailing_whitespace_clean(input@);
    }
    let v = str_chars(input);
    let n = v.len();
    let mut done: Vec<char> = Vec::new();
    let mut line: Vec<char> = Vec::new();
    for i in 0..n
        invariant
            n == v.len(),
            split_segments(v@.take(i as int), '\n').len() >= 1,
            line@ == split_segments(v@.take(i as int), '\n').last(),
            done@ == newline_terminated(
                trim_line_ends(split_segments(v@.take(i as int), '\n').drop_last()),
            ),
    {
        let ghost p = split_segments(v@.take(i as int), '\n');
        assert(v@.take(i + 1).drop_last() == v@.take(i as int));
        let c = v[i];
        if c == '\n' {
            let ghost done_before = done@;
            let mut trimmed = chars_trim_end(&line);
            done.append(&mut trimmed);
            done.push('\n');
            proof {
                let q = split_segments(v@.take(i + 1), '\n');
                assert(q == p.push(Seq::empty()));
                assert(q.drop_last() == p);
                assert(p == p.drop_last().push(p.last()));
                lemma_trim_line_ends_push(p.drop_last(), p.last());
                let t = trim_line_ends(p.drop_last());
                let tp = t.push(trim_end(p.last()));
                assert(tp.drop_last() == t);
                assert(trim_line_ends(p) == tp);
                assert(newline_terminated(tp) == newline_terminated(t) + trim_end(p.last())
                    + seq!['\n']);
                assert(done@ == done_before + trim_end(p.last()) + seq!['\n']);
            }
            line = Vec::new();
        } else {
            line.push(c);
            proof {
                let q = split_segments(v@.take(i + 1), '\n');
                assert(q.drop_last() =~= p.drop_last());
            }
        }
    }
    assert(v@.take(n as int) == v@);
    let ghost segs = split_segments(v@, '\n');
    let mut last = chars_trim_end(&line);
    if n > 0 && v[n - 1] == '\n' {
        proof {
            lemma_split_segments_len(v@, '\n');
            let lines = segs.drop_last();
            lemma_trim_line_ends_drop_last(lines);
            assert(lines == lines.drop_last().push(lines.last()));
            lemma_trim_line_ends_push(lines.drop_last(), lines.last());
            assert(trim_line_ends(lines) == trim_line_ends(lines.drop_last()).push(
                trim_end(lines.last()),
            ));
        }
        let ghost before = done@;
        done.pop();
        assert(done@ == before.drop_last());
        assert(done@ =~= trim_trailing_whitespace_spec(v@));
    } else {
        proof {
            lemma_trim_line_ends_drop_last(segs);
        }
        done.append(&mut last);
        assert(done@ =~= trim_trailing_whitespace_spec(v@));
    }
    string_from_chars(&done)
}

/// No character of `t` other than a newline is whitespace at the end of a
/// line: every such character is followed, on the same line, by another
/// character.
pub open spec fn no_trailing_whitespace(t: Seq<char>) -> bool {
    forall|i: int|
        0 <= i < t.len() && is_whitespace(#[trigger] t[i]) && t[i] != '\n' ==> i + 1 < t.len()
            && t[i + 1] != '\n'
}

/// A line without newlines whose last character is not whitespace.
spec fn is_clean_line(l: Seq<char>) -> bool {
    &&& forall|i: int| 0 <= i < l.len() ==> #[trigger] l[i] != '\n'
    &&& l.len() == 0 || !is_whitespace(l.last())
}

proof fn lemma_segments_have_no_separator(s: Seq<char>, sep: char)
    ensures
        forall|k: int, i: int|
            0 <= k < split_segments(s, sep).len() && 0 <= i < split_segments(s, sep)[k].len()
                ==> #[trigger] split_segments(s, sep)[k][i] != sep,
    decreases s.len(),
{
    lemma_split_segments_len(s, sep);
    if s.len() > 0 {
        lemma_segments_have_no_separator(s.drop_last(), sep);
        lemma_split_segments_len(s.drop_last(), sep);
        let p = split_segments(s.drop_last(), sep);
        let q = split_segments(s, sep);
        assert forall|k: int, i: int| 0 <= k < q.len() && 0 <= i < q[k].len() implies #[trigger] q[k][i]
            != sep by {
            if s.last() != sep && k == p.len() - 1 {
                if i < p.last().len() {
                    assert(q[k][i] == p[k][i]);
                }
            } else if k < p.len() {
                assert(q[k] == p[k]);
            }
        }
    }
}

proof fn lemma_clean_join(ls: Seq<Seq<char>>)
    requires
        forall|k: int| 0 <= k < ls.len() ==> is_clean_line(#[trigger] ls[k]),
    ensures
        no_trailing_whitespace(newline_terminated(ls)),
        ls.len() > 0 ==> no_trailing_whitespace(join_lines(ls)),
    decreases ls.len(),
{
    if ls.len() > 0 {
        let init = ls.drop_last();
        let l = ls.last();
        assert(is_clean_line(ls[ls.len() - 1]));
        lemma_clean_join(init);
        let a = newline_terminated(init);
        let x = a + l;
        assert forall|i: int| 0 <= i < x.len() - 1 && is_whitespace(#[trigger] x[i]) && x[i] != '\n'
            implies x[i + 1] != '\n' by {
            if i < a.len() {
                if i + 1 >= a.len() {
                    assert(a[a.len() - 1] == '\n') by {
                        if init.len() > 0 {
                            assert(a == newline_terminated(init.drop_last()) + init.last() + seq!['\n']);
                        }
                    }
                }
                assert(x[i] == a[i]);
                assert(x[i + 1] == a[i + 1]);
            } else {
                assert(x[i] == l[i - a.len()]);
                assert(x[i + 1] == l[i + 1 - a.len()]);
            }
        }
        assert forall|i: int| 0 <= i < x.len() && is_whitespace(#[trigger] x[i]) && x[i] != '\n'
            implies i + 1 < x.len() && x[i + 1] != '\n' by {
            if i == x.len() - 1 {
                if i < a.len() {
                    assert(a.len() > 0 ==> a[a.len() - 1] == '\n') by {
                        if init.len() > 0 {
                            assert(a == newline_terminated(init.drop_last()) + init.last() + seq!['\n']);
                        }
                    }
                } else {
                    assert(x[i] == l.last());
                }
            }
        }
        assert(join_lines(ls) == x);
        let y = x + seq!['\n'];
        assert(newline_terminated(ls) == y);
        assert forall|i: int| 0 <= i < y.len() && is_whitespace(#[trigger] y[i]) && y[i] != '\n'
            implies i + 1 < y.len() && y[i + 1] != '\n' by {
            assert(y[i] == x[i]);
            if i + 1 < x.len() {
                assert(y[i + 1] == x[i + 1]);
            }
        }
    }
}

/// After trailing-whitespace removal no line ends in whitespace.
pub proof fn lemma_trim_trailing_whitespace_clean(s: Seq<char>)
    ensures
        no_trailing_whitespace(trim_trailing_whitespace_spec(s)),
{
    let lines = text_lines(s);
    lemma_segments_have_no_separator(s, '\n');
    lemma_split_segments_len(s, '\n');
    let trimmed = trim_line_ends(lines);
    assert forall|k: int| 0 <= k < trimmed.len() implies is_clean_line(#[trigger] trimmed[k]) by {
        let l = lines[k];
        assert(l == split_segments(s, '\n')[k]);
        lemma_trim_end_prefix(l);
        assert forall|i: int| 0 <= i < trimmed[k].len() implies #[trigger] trimmed[k][i] != '\n' by {
            assert(trimmed[k][i] == l[i]);
            assert(split_segments(s, '\n')[k][i] != '\n');
        }
    }
    lemma_clean_join(trimmed);
}

// ---------------------------------------------------------------------------
// Final newline
// ---------------------------------------------------------------------------

/// `s` without its leading byte-order marks (`U+FEFF`), however many.
pub open spec fn strip_leading_boms(s: Seq<char>) -> Seq<char>
    decreases s.len(),
{
    if s.len() > 0 && s[0] == '\u{feff}' {
        strip_leading_boms(s.drop_first())
    } else {
        s
    }
}

/// `s` without leading byte-order marks and surrounding whitespace, followed
/// by exactly one newline.
pub open spec fn ensure_final_newline_spec(s: Seq<char>) -> Seq<char> {
    trim(strip_leading_boms(s)).push('\n')
}

proof fn lemma_strip_leading_boms_skip(s: Seq<char>, k: int)
    requires
        0 <= k <= s.len(),
        k == s.len() || s[k] != '\u{feff}',
        forall|j: int| 0 <= j < k ==> #[trigger] s[j] == '\u{feff}',
    ensures
        strip_leading_boms(s) == s.skip(k),
    decreases s.len(),
{
    if k > 0 {
        assert(s.drop_first().skip(k - 1) == s.skip(k));
        assert forall|j: int| 0 <= j < k - 1 implies #[trigger] s.drop_first()[j] == '\u{feff}' by {
            assert(s.drop_first()[j] == s[j + 1]);
        }
        lemma_strip_leading_boms_skip(s.drop_first(), k - 1);
    } else {
        assert(s.skip(0) == s);
    }
}

/// Removes leading byte-order marks, trims surrounding whitespace, and ends
/// the text with a single newline.
pub fn ensure_final_newline(input: &str) -> (out: String)
    ensures
        out@ == ensure_final_newline_spec(input@),
{
    let v = str_chars(input);
    let n = v.len();
    let mut k: usize = 0;
    while k < n && v[k] == '\u{feff}'
        invariant
            n == v.len(),
            k <= n,
            forall|j: int| 0 <= j < k ==> #[trigger] v@[j] == '\u{feff}',
        decreases n - k,
    {
        k = k + 1;
    }
    proof {
        lemma_strip_leading_boms_skip(v@, k as int);
    }
    let mut rest: Vec<char> = Vec::new();
    for i in k..n
        invariant
            n == v.len(),
            k <= n,
            rest@ == v@.subrange(k as int, i as int),
    {
        rest.push(v[i]);
        assert(v@.subrange(k as int, i + 1) == v@.subrange(k as int, i as int).push(v@[i as int]));
    }
    assert(rest@ == v@.skip(k as int));
    let mut out = chars_trim(&rest);
    out.push('\n');
    string_from_chars(&out)
}

// ---------------------------------------------------------------------------
// The whole clean-up
// ---------------------------------------------------------------------------

/// Matches `EDITIONABLE` or `NONEDITIONABLE`, in any case, as a word with the
/// whitespace around it.
pub const EDITIONABLE_PATTERN: &'static str = r"(?i)\s+\b(?:NON)?EDITIONABLE\b\s+";

/// Matches a double-quoted simple upper-case identifier, capturing the name.
pub const SIMPLE_QUOTED_IDENTIFIER_PATTERN: &'static str = r#""([A-Z][A-Z0-9_$#]*)""#;

/// Matches a run of three or more newlines.
pub const EXCESSIVE_BLANK_LINES_PATTERN: &'static str = r"\n{3,}";

/// Replacement text that keeps only the first capture group.
pub const FIRST_CAPTURE: &'static str = "${1}";

/// A character of a simple identifier after its first letter.
pub open spec fn is_identifier_char(c: char) -> bool {
    is_ascii_upper(c) || is_ascii_digit(c) || c == '_' || c == '$' || c == '#'
}

/// Number of simple-identifier characters at the start of `s`.
pub open spec fn identifier_run_len(s: Seq<char>) -> nat
    decreases s.len(),
{
    if s.len() > 0 && is_identifier_char(s[0]) {
        1 + identifier_run_len(s.skip(1))
    } else {
        0
    }
}

/// Length of the quoted simple identifier `"NAME"` at the start of `s`
/// (`NAME` an upper-case letter followed by simple-identifier characters), or
/// 0 when none starts there.
pub open spec fn simple_quoted_len(s: Seq<char>) -> nat {
    let k = identifier_run_len(s.skip(1));
    if s.len() >= 3 && s[0] == '"' && is_ascii_upper(s[1]) && 1 + k < s.len() && s[1 + k as int] == '"' {
        k + 2
    } else {
        0
    }
}

proof fn lemma_identifier_run_len(s: Seq<char>)
    ensures
        identifier_run_len(s) <= s.len(),
    decreases s.len(),
{
    if s.len() > 0 && is_identifier_char(s[0]) {
        lemma_identifier_run_len(s.skip(1));
    }
}

/// `s` with the quotes of every quoted simple identifier removed, scanning
/// from the left: what replacing each match of
/// [`SIMPLE_QUOTED_IDENTIFIER_PATTERN`] by its capture gives.
pub open spec fn unquote_simple_identifiers(s: Seq<char>) -> Seq<char>
    decreases s.len(),
{
    if s.len() == 0 {
        Seq::empty()
    } else if simple_quoted_len(s) > 0 {
        s.subrange(1, simple_quoted_len(s) - 1) + unquote_simple_identifiers(
            s.skip(simple_quoted_len(s) as int),
        )
    } else {
        seq![s[0]] + unquote_simple_identifiers(s.skip(1))
    }
}

/// Number of newlines at the start of `s`.
pub open spec fn newline_run_len(s: Seq<char>) -> nat
    decreases s.len(),
{
    if s.len() > 0 && s[0] == '\n' {
        1 + newline_run_len(s.skip(1))
    } else {
        0
    }
}

/// The newline run at the start of `s` lies within `s`, holds only newlines
/// and is maximal.
pub proof fn lemma_newline_run_len(s: Seq<char>)
    ensures
        newline_run_len(s) <= s.len(),
        forall|j: int| 0 <= j < newline_run_len(s) ==> #[trigger] s[j] == '\n',
        newline_run_len(s) < s.len() ==> s[newline_run_len(s) as int] != '\n',
    decreases s.len(),
{
    if s.len() > 0 && s[0] == '\n' {
        lemma_newline_run_len(s.skip(1));
        assert forall|j: int| 0 <= j < newline_run_len(s) implies #[trigger] s[j] == '\n' by {
            if j > 0 {
                assert(s[j] == s.skip(1)[j - 1]);
            }
        }
        if newline_run_len(s) < s.len() {
            assert(s[newline_run_len(s) as int] == s.skip(1)[newline_run_len(s.skip(1)) as int]);
        }
    }
}

/// `s` with every run of three or more newlines replaced by two newlines:
/// what replacing each match of [`EXCESSIVE_BLANK_LINES_PATTERN`] by
/// `"\n\n"` gives.
pub open spec fn collapse_blank_lines(s: Seq<char>) -> Seq<char>
    decreases s.len(),
{
    if s.len() == 0 {
        Seq::empty()
    } else if s[0] == '\n' {
        proof {
            lemma_newline_run_len(s);
        }
        let k = newline_run_len(s);
        (if k >= 3 {
            seq!['\n', '\n']
        } else {
            s.take(k as int)
        }) + collapse_blank_lines(s.skip(k as int))
    } else {
        seq![s[0]] + collapse_blank_lines(s.skip(1))
    }
}

/// The word `EDITIONABLE` in upper case.
pub open spec fn editionable_word() -> Seq<char> {
    seq!['E', 'D', 'I', 'T', 'I', 'O', 'N', 'A', 'B', 'L', 'E']
}

/// Whether `EDITIONABLE`, in any ASCII case, occurs in `s`. Every match of
/// [`EDITIONABLE_PATTERN`] contains such an occurrence: its letters fold only
/// to their ASCII upper- and lower-case forms.
pub open spec fn has_editionable_word(s: Seq<char>) -> bool {
    exists|i: int|
        0 <= i && i + 11 <= s.len() && #[trigger] seq_ascii_upper(s.subrange(i, i + 11))
            == editionable_word()
}

/// A part of a text without `EDITIONABLE` has none either.
pub proof fn lemma_no_editionable_subrange(s: Seq<char>, a: int, b: int)
    requires
        0 <= a <= b <= s.len(),
        !has_editionable_word(s),
    ensures
        !has_editionable_word(s.subrange(a, b)),
{
    let t = s.subrange(a, b);
    assert forall|i: int| 0 <= i && i + 11 <= t.len() implies #[trigger] seq_ascii_upper(
        t.subrange(i, i + 11),
    ) != editionable_word() by {
        assert(t.subrange(i, i + 11) == s.subrange(a + i, a + i + 11));
        assert(seq_ascii_upper(s.subrange(a + i, a + i + 11)) != editionable_word());
    }
}

/// Number of whitespace characters at the start of `s`.
pub open spec fn whitespace_run_len(s: Seq<char>) -> nat
    decreases s.len(),
{
    if s.len() > 0 && is_whitespace(s[0]) {
        1 + whitespace_run_len(s.skip(1))
    } else {
        0
    }
}

/// The whitespace run at the start of `s` lies within `s` and is maximal.
pub proof fn lemma_whitespace_run_len(s: Seq<char>)
    ensures
        whitespace_run_len(s) <= s.len(),
        forall|j: int| 0 <= j < whitespace_run_len(s) ==> is_whitespace(#[trigger] s[j]),
        whitespace_run_len(s) < s.len() ==> !is_whitespace(s[whitespace_run_len(s) as int]),
    decreases s.len(),
{
    if s.len() > 0 && is_whitespace(s[0]) {
        lemma_whitespace_run_len(s.skip(1));
        assert forall|j: int| 0 <= j < whitespace_run_len(s) implies is_whitespace(#[trigger] s[j]) by {
            if j > 0 {
                assert(s[j] == s.skip(1)[j - 1]);
            }
        }
        if whitespace_run_len(s) < s.len() {
            assert(s[whitespace_run_len(s) as int] == s.skip(1)[whitespace_run_len(s.skip(1)) as int]);
        }
    }
}

/// Whether `s` starts with the upper-case word `w` in any ASCII case.
pub open spec fn starts_with_word(s: Seq<char>, w: Seq<char>) -> bool {
    w.len() <= s.len() && seq_ascii_upper(s.take(w.len() as int)) == w
}

/// The word `NONEDITIONABLE` in upper case.
pub open spec fn non_editionable_word() -> Seq<char> {
    seq!['N', 'O', 'N'] + editionable_word()
}

/// Length of the word that a match of [`EDITIONABLE_PATTERN`] can take at
/// the start of `r`: `NONEDITIONABLE` (preferred) or `EDITIONABLE`, in any
/// ASCII case and followed by whitespace; 0 when neither is there.
pub open spec fn editionable_word_len(r: Seq<char>) -> nat {
    if starts_with_word(r, non_editionable_word()) && whitespace_run_len(r.skip(14)) > 0 {
        14
    } else if starts_with_word(r, editionable_word()) && whitespace_run_len(r.skip(11)) > 0 {
        11
    } else {
        0
    }
}

/// Length of the match of [`EDITIONABLE_PATTERN`] at the start of `s`, or 0
/// when none starts there: a whitespace run taken whole, the word, and the
/// following whitespace run taken whole (`\s` is Unicode `White_Space`, the
/// letters fold only to their ASCII cases, and both `\b` hold between
/// whitespace and a letter).
pub open spec fn editionable_match_len(s: Seq<char>) -> nat {
    let a = whitespace_run_len(s);
    let w = editionable_word_len(s.skip(a as int));
    if a > 0 && w > 0 {
        a + w + whitespace_run_len(s.skip((a + w) as int))
    } else {
        0
    }
}

/// A match lies within `s`.
pub proof fn lemma_editionable_match_len(s: Seq<char>)
    ensures
        editionable_match_len(s) <= s.len(),
{
    let a = whitespace_run_len(s);
    lemma_whitespace_run_len(s);
    let r = s.skip(a as int);
    let w = editionable_word_len(r);
    if a > 0 && w > 0 {
        assert(w <= r.len());
        assert(r.skip(w as int) == s.skip((a + w) as int));
        lemma_whitespace_run_len(s.skip((a + w) as int));
    }
}

/// `s` with every match of [`EDITIONABLE_PATTERN`] replaced by one space,
/// scanning from the left.
pub open spec fn remove_editionable(s: Seq<char>) -> Seq<char>
    decreases s.len(),
{
    if s.len() == 0 {
        Seq::empty()
    } else {
        proof {
            lemma_editionable_match_len(s);
        }
        let m = editionable_match_len(s);
        if m > 0 {
            seq![' '] + remove_editionable(s.skip(m as int))
        } else {
            seq![s[0]] + remove_editionable(s.skip(1))
        }
    }
}

proof fn lemma_no_match_without_word(s: Seq<char>)
    requires
        !has_editionable_word(s),
    ensures
        editionable_match_len(s) == 0,
{
    let a = whitespace_run_len(s) as int;
    lemma_whitespace_run_len(s);
    let r = s.skip(a);
    let w = editionable_word_len(r);
    if a > 0 && w > 0 {
        if w == 14 {
            let u = seq_ascii_upper(r.take(14));
            let i = a + 3;
            assert(u.subrange(3, 14) =~= seq_ascii_upper(s.subrange(i, i + 11)));
            assert(non_editionable_word().subrange(3, 14) =~= editionable_word());
            assert(seq_ascii_upper(s.subrange(i, i + 11)) == editionable_word());
            assert(i + 11 <= s.len());
            assert(has_editionable_word(s));
        } else {
            assert(r.take(11) =~= s.subrange(a, a + 11));
            assert(seq_ascii_upper(s.subrange(a, a + 11)) == editionable_word());
            assert(a + 11 <= s.len());
            assert(has_editionable_word(s));
        }
    }
}

/// A text without `EDITIONABLE`, in any case, has no match to remove.
pub proof fn lemma_remove_editionable_without_word(s: Seq<char>)
    requires
        !has_editionable_word(s),
    ensures
        remove_editionable(s) == s,
    decreases s.len(),
{
    if s.len() > 0 {
        lemma_no_match_without_word(s);
        lemma_no_editionable_subrange(s, 1, s.len() as int);
        assert(s.subrange(1, s.len() as int) == s.skip(1));
        lemma_remove_editionable_without_word(s.skip(1));
        assert(seq![s[0]] + s.skip(1) == s);
    }
}

/// The regular expressions of the clean-up, each with its replacement.
pub open spec fn is_sanitizer_regex(pattern: Seq<char>, replacement: Seq<char>) -> bool {
    ||| pattern == EDITIONABLE_PATTERN@ && replacement == " "@
    ||| pattern == SIMPLE_QUOTED_IDENTIFIER_PATTERN@ && replacement == FIRST_CAPTURE@
    ||| pattern == EXCESSIVE_BLANK_LINES_PATTERN@ && replacement == "\n\n"@
}

/// Replaces every non-overlapping match of `pattern` in `haystack`.
///
/// Trusted: `regex::Regex::new(pattern)` followed by
/// `regex::Regex::replace_all(haystack, replacement)`, which replaces the
/// leftmost-first matches from left to right. The contract states the result
/// for each clean-up pattern with its replacement: `EDITIONABLE` or
/// `NONEDITIONABLE` between whitespace runs replaced by one space; quoted
/// simple identifiers replaced by their capture; runs of three or more
/// newlines replaced by two. These patterns are valid regular expressions, so
/// compilation succeeds.
#[verifier::external_body]
fn regex_replace_all(pattern: &str, haystack: &str, replacement: &str) -> (out: String)
    requires
        is_sanitizer_regex(pattern@, replacement@),
    ensures
        pattern@ == EDITIONABLE_PATTERN@ && replacement@ == " "@ ==> out@ == remove_editionable(
            haystack@,
        ),
        pattern@ == SIMPLE_QUOTED_IDENTIFIER_PATTERN@ && replacement@ == FIRST_CAPTURE@ ==> out@
            == unquote_simple_identifiers(haystack@),
        pattern@ == EXCESSIVE_BLANK_LINES_PATTERN@ && replacement@ == "\n\n"@ ==> out@
            == collapse_blank_lines(haystack@),
{
    regex::Regex::new(pattern).unwrap().replace_all(haystack, replacement).into_owned()
}

/// Whether a single-quoted literal or a comment starts at `s`: text that
/// clean-up keeps as written.
pub open spec fn starts_kept_unit(s: Seq<char>) -> bool {
    s.len() > 0 && (s[0] == '\'' || (s[0] == '-' && s.len() > 1 && s[1] == '-') || (s[0] == '/'
        && s.len() > 1 && s[1] == '*'))
}

/// Number of characters before the first newline of `r`, or all of `r`.
pub open spec fn line_rest_len(r: Seq<char>) -> nat
    decreases r.len(),
{
    if r.len() == 0 || r[0] == '\n' {
        0
    } else {
        1 + line_rest_len(r.skip(1))
    }
}

proof fn lemma_line_rest_len(r: Seq<char>)
    ensures
        line_rest_len(r) <= r.len(),
    decreases r.len(),
{
    if r.len() > 0 && r[0] != '\n' {
        lemma_line_rest_len(r.skip(1));
    }
}

/// Length of the kept unit at the start of `s`: a single-quoted literal or a
/// block comment as keyword normalisation reads it, or a `--` comment up to
/// its newline, which belongs to the code that follows.
pub open spec fn kept_len(s: Seq<char>) -> nat {
    if s.len() > 1 && s[0] == '-' && s[1] == '-' {
        2 + line_rest_len(s.skip(2))
    } else {
        token_len(s)
    }
}

/// A kept unit is non-empty and lies within `s`.
pub proof fn lemma_kept_len(s: Seq<char>)
    requires
        s.len() > 0,
    ensures
        1 <= kept_len(s) <= s.len(),
{
    lemma_token_len(s);
    if s.len() > 1 {
        lemma_line_rest_len(s.skip(2));
    }
}

/// Whether a double-quoted identifier starts at `s`.
pub open spec fn starts_quoted_unit(s: Seq<char>) -> bool {
    s.len() > 0 && s[0] == '"'
}

/// Whether a unit of code (a word, whitespace or punctuation) starts at `s`.
pub open spec fn starts_code_unit(s: Seq<char>) -> bool {
    s.len() > 0 && !starts_kept_unit(s) && !starts_quoted_unit(s)
}

/// Length of the run of code units at the start of `s`: the text up to the
/// next literal, comment or quoted identifier.
pub open spec fn code_run_len(s: Seq<char>) -> nat
    decreases s.len(),
{
    if starts_code_unit(s) {
        proof {
            lemma_token_len(s);
        }
        token_len(s) + code_run_len(s.skip(token_len(s) as int))
    } else {
        0
    }
}

/// A run of code lies within `s`, and is non-empty where code starts.
pub proof fn lemma_code_run_len(s: Seq<char>)
    ensures
        code_run_len(s) <= s.len(),
        starts_code_unit(s) ==> code_run_len(s) >= 1,
    decreases s.len(),
{
    if starts_code_unit(s) {
        lemma_token_len(s);
        lemma_code_run_len(s.skip(token_len(s) as int));
    }
}

/// The text after clean-up of its code: in every run of code (newlines that
/// end `--` comments included), `EDITIONABLE`/`NONEDITIONABLE` is removed,
/// and unless quotes are kept, the quotes of quoted simple identifiers are
/// removed; single-quoted literals, comment text and the text inside double
/// quotes stay as written.
pub open spec fn unquoted_ddl(s: Seq<char>, keep_quotes: bool) -> Seq<char>
    decreases s.len(),
{
    if s.len() == 0 {
        Seq::empty()
    } else {
        proof {
            lemma_token_len(s);
            lemma_kept_len(s);
            lemma_code_run_len(s);
        }
        let t = token_len(s) as int;
        if starts_kept_unit(s) {
            s.take(kept_len(s) as int) + unquoted_ddl(s.skip(kept_len(s) as int), keep_quotes)
        } else if starts_quoted_unit(s) {
            (if keep_quotes {
                s.take(t)
            } else {
                unquote_simple_identifiers(s.take(t))
            }) + unquoted_ddl(s.skip(t), keep_quotes)
        } else {
            let k = code_run_len(s) as int;
            remove_editionable(s.take(k)) + unquoted_ddl(s.skip(k), keep_quotes)
        }
    }
}

/// Keyword normalisation followed by trailing-whitespace removal.
pub open spec fn normalized_lines(s: Seq<char>) -> Seq<char> {
    trim_trailing_whitespace_spec(normalize_keywords_spec(s))
}

/// The result of [`sanitize_ddl`].
pub open spec fn sanitize_ddl_spec(input: Seq<char>, options: SanitizeOptions) -> Seq<char> {
    ensure_final_newline_spec(
        collapse_blank_lines(normalized_lines(unquoted_ddl(input, options.keep_quotes))),
    )
}

/// No three newlines in a row: at most one blank line between lines.
pub open spec fn no_triple_newline(t: Seq<char>) -> bool {
    forall|i: int|
        0 <= i && i + 2 < t.len() ==> !(#[trigger] t[i] == '\n' && t[i + 1] == '\n' && t[i + 2]
            == '\n')
}

/// The characters of `v` from `a` up to `b`.
fn chars_between(v: &Vec<char>, a: usize, b: usize) -> (r: Vec<char>)
    requires
        a <= b <= v.len(),
    ensures
        r@ == v@.subrange(a as int, b as int),
{
    let mut r: Vec<char> = Vec::new();
    for k in a..b
        invariant
            a <= b <= v.len(),
            r@ == v@.subrange(a as int, k as int),
    {
        r.push(v[k]);
        assert(v@.subrange(a as int, k + 1) == v@.subrange(a as int, k as int).push(v@[k as int]));
    }
    r
}

fn starts_kept_at(v: &Vec<char>, i: usize) -> (r: bool)
    requires
        i < v.len(),
    ensures
        r == starts_kept_unit(v@.skip(i as int)),
{
    let n = v.len();
    let c = v[i];
    c == '\'' || (c == '-' && i + 1 < n && v[i + 1] == '-') || (c == '/' && i + 1 < n && v[i + 1]
        == '*')
}

/// Applies a regular expression of the clean-up to the characters `text` and
/// appends the result to `out`.
fn append_replaced(out: &mut Vec<char>, pattern: &str, text: &Vec<char>, replacement: &str)
    requires
        is_sanitizer_regex(pattern@, replacement@),
    ensures
        pattern@ == EDITIONABLE_PATTERN@ && replacement@ == " "@ ==> final(out)@ == old(out)@
            + remove_editionable(text@),
        pattern@ == SIMPLE_QUOTED_IDENTIFIER_PATTERN@ && replacement@ == FIRST_CAPTURE@
            ==> final(out)@ == old(out)@ + unquote_simple_identifiers(text@),
{
    let s = string_from_chars(text);
    let r = regex_replace_all(pattern, s.as_str(), replacement);
    let mut rv = str_chars(r.as_str());
    out.append(&mut rv);
}

/// The end of the kept unit that starts at `i`.
fn kept_end(v: &Vec<char>, i: usize) -> (j: usize)
    requires
        i < v.len(),
        starts_kept_unit(v@.skip(i as int)),
    ensures
        i < j <= v.len(),
        j - i == kept_len(v@.skip(i as int)),
{
    let n = v.len();
    let ghost s = v@.skip(i as int);
    if v[i] == '-' {
        let mut j = i + 2;
        assert(s.skip(2) == v@.skip(j as int));
        while j < n && v[j] != '\n'
            invariant
                n == v.len(),
                i + 2 <= j <= n,
                line_rest_len(s.skip(2)) == (j - i - 2) + line_rest_len(v@.skip(j as int)),
            decreases n - j,
        {
            assert(v@.skip(j as int).skip(1) == v@.skip(j + 1));
            j = j + 1;
        }
        proof {
            if j < n {
                assert(v@.skip(j as int)[0] == '\n');
            }
        }
        j
    } else {
        proof {
            lemma_token_len(s);
        }
        token_end(v, i)
    }
}

/// Removes `EDITIONABLE`/`NONEDITIONABLE` from the code of `input` and,
/// unless `keep_quotes`, the quotes of quoted simple identifiers; literals,
/// comments and the text inside double quotes are kept as written.
pub fn clean_code(input: &str, keep_quotes: bool) -> (out: String)
    ensures
        out@ == unquoted_ddl(input@, keep_quotes),
        !has_editionable_word(input@) && (keep_quotes || !input@.contains('"')) ==> out@
            == input@,
{
    let v = str_chars(input);
    let n = v.len();
    let mut out: Vec<char> = Vec::new();
    let mut i: usize = 0;
    assert(v@.skip(0) == v@);
    while i < n
        invariant
            n == v.len(),
            i <= n,
            unquoted_ddl(v@, keep_quotes) == out@ + unquoted_ddl(v@.skip(i as int), keep_quotes),
        decreases n - i,
    {
        let ghost s = v@.skip(i as int);
        proof {
            lemma_token_len(s);
            lemma_code_run_len(s);
        }
        if starts_kept_at(&v, i) {
            let j = kept_end(&v, i);
            let mut unit = chars_between(&v, i, j);
            assert(unit@ == s.take(j - i));
            assert(s.skip(j - i) == v@.skip(j as int));
            out.append(&mut unit);
            i = j;
        } else if v[i] == '"' {
            let j = token_end(&v, i);
            let mut unit = chars_between(&v, i, j);
            assert(unit@ == s.take(j - i));
            assert(s.skip(j - i) == v@.skip(j as int));
            if keep_quotes {
                out.append(&mut unit);
            } else {
                append_replaced(&mut out, SIMPLE_QUOTED_IDENTIFIER_PATTERN, &unit, FIRST_CAPTURE);
            }
            i = j;
        } else {
            let mut j = i;
            while j < n && !starts_kept_at(&v, j) && v[j] != '"'
                invariant
                    n == v.len(),
                    i <= j <= n,
                    code_run_len(s) == (j - i) + code_run_len(v@.skip(j as int)),
                decreases n - j,
            {
                let ghost t = v@.skip(j as int);
                let k = token_end(&v, j);
                assert(t.skip(k - j) == v@.skip(k as int));
                j = k;
            }
            if j < n {
                assert(!starts_code_unit(v@.skip(j as int)));
            } else {
                assert(v@.skip(j as int).len() == 0);
            }
            let code = chars_between(&v, i, j);
            assert(code@ == s.take(j - i));
            assert(s.skip(j - i) == v@.skip(j as int));
            append_replaced(&mut out, EDITIONABLE_PATTERN, &code, " ");
            i = j;
        }
    }
    assert(v@.skip(n as int) == Seq::<char>::empty());
    proof {
        if !has_editionable_word(input@) && (keep_quotes || !input@.contains('"')) {
            lemma_clean_code_without_changes(input@, keep_quotes);
        }
    }
    string_from_chars(&out)
}

/// Cleans DDL text: in code (outside single-quoted literals, comments and
/// double quotes) drops `EDITIONABLE`/`NONEDITIONABLE` and, unless
/// `options.keep_quotes`, removes the quotes of simple upper-case
/// identifiers; upper-cases keywords outside literals and comments; removes
/// trailing whitespace; collapses runs of blank lines to one; and ends the
/// text with a single newline.
pub fn sanitize_ddl(input: &str, options: SanitizeOptions) -> (out: String)
    ensures
        out@ == sanitize_ddl_spec(input@, options),
        out@.len() >= 1,
        out@.last() == '\n',
        out@.len() == 1 || !is_whitespace(out@[out@.len() - 2]),
        out@.len() == 1 || !is_whitespace(out@[0]),
        no_triple_newline(out@),
        no_trailing_whitespace(out@),
        !has_editionable_word(input@) && (options.keep_quotes || !input@.contains('"')) ==> out@
            == ensure_final_newline_spec(collapse_blank_lines(normalized_lines(input@))),
{
    let unquoted = clean_code(input, options.keep_quotes);
    let normalized = normalize_keywords(unquoted.as_str());
    let trimmed = trim_trailing_whitespace(normalized.as_str());
    let collapsed = regex_replace_all(EXCESSIVE_BLANK_LINES_PATTERN, trimmed.as_str(), "\n\n");
    let out = ensure_final_newline(collapsed.as_str());
    proof {
        lemma_final_newline_single(collapsed@);
        lemma_collapse_no_triple_newline(trimmed@);
        lemma_collapse_keeps_line_ends(trimmed@);
        lemma_final_newline_keeps_lines(collapsed@);
    }
    out
}

/// The text that [`ensure_final_newline`] produces ends with one newline and
/// no other trailing whitespace, and starts with no whitespace.
pub proof fn lemma_final_newline_single(s: Seq<char>)
    ensures
        ensure_final_newline_spec(s).len() >= 1,
        ensure_final_newline_spec(s).last() == '\n',
        ensure_final_newline_spec(s).len() == 1 || !is_whitespace(
            ensure_final_newline_spec(s)[ensure_final_newline_spec(s).len() - 2],
        ),
        ensure_final_newline_spec(s).len() == 1 || !is_whitespace(ensure_final_newline_spec(s)[0]),
{
    let u = trim_start(strip_leading_boms(s));
    let t = trim(strip_leading_boms(s));
    lemma_trim_start_suffix(strip_leading_boms(s));
    lemma_trim_end_prefix(u);
    assert(ensure_final_newline_spec(s) == t.push('\n'));
    if t.len() > 0 {
        assert(t.push('\n')[t.len() - 1] == t.last());
        assert(t[0] == u[0]);
        assert(t.push('\n')[0] == t[0]);
    }
}


proof fn lemma_collapse_first(s: Seq<char>)
    requires
        s.len() > 0,
    ensures
        collapse_blank_lines(s).len() > 0,
        collapse_blank_lines(s)[0] == s[0],
{
    if s[0] == '\n' {
        lemma_newline_run_len(s);
        let k = newline_run_len(s);
        let p = if k >= 3 {
            seq!['\n', '\n']
        } else {
            s.take(k as int)
        };
        assert(collapse_blank_lines(s) == p + collapse_blank_lines(s.skip(k as int)));
        assert(p[0] == '\n');
    } else {
        assert(collapse_blank_lines(s) == seq![s[0]] + collapse_blank_lines(s.skip(1)));
    }
}

/// After blank-line collapsing no three newlines follow each other.
pub proof fn lemma_collapse_no_triple_newline(s: Seq<char>)
    ensures
        no_triple_newline(collapse_blank_lines(s)),
    decreases s.len(),
{
    if s.len() > 0 {
        let (p, rest) = if s[0] == '\n' {
            lemma_newline_run_len(s);
            let k = newline_run_len(s);
            (
                if k >= 3 {
                    seq!['\n', '\n']
                } else {
                    s.take(k as int)
                },
                s.skip(k as int),
            )
        } else {
            (seq![s[0]], s.skip(1))
        };
        let c = collapse_blank_lines(rest);
        let x = collapse_blank_lines(s);
        assert(x == p + c);
        lemma_collapse_no_triple_newline(rest);
        if rest.len() > 0 {
            lemma_collapse_first(rest);
        }
        assert(p.len() <= 2);
        assert(s[0] == '\n' ==> (rest.len() == 0 || rest[0] != '\n'));
        assert forall|i: int| 0 <= i && i + 2 < x.len() implies !(#[trigger] x[i] == '\n' && x[i
            + 1] == '\n' && x[i + 2] == '\n') by {
            if i >= p.len() {
                assert(x[i] == c[i - p.len()]);
                assert(x[i + 1] == c[i + 1 - p.len()]);
                assert(x[i + 2] == c[i + 2 - p.len()]);
            } else if s[0] == '\n' {
                assert(x[p.len() as int] == c[0]);
            } else {
                if i == 0 {
                    assert(x[0] == s[0]);
                }
            }
        }
    }
}

/// Blank-line collapsing keeps lines free of trailing whitespace.
pub proof fn lemma_collapse_keeps_line_ends(s: Seq<char>)
    requires
        no_trailing_whitespace(s),
    ensures
        no_trailing_whitespace(collapse_blank_lines(s)),
    decreases s.len(),
{
    if s.len() > 0 {
        let k: int = if s[0] == '\n' {
            lemma_newline_run_len(s);
            newline_run_len(s) as int
        } else {
            1
        };
        let p = if s[0] == '\n' {
            if k >= 3 {
                seq!['\n', '\n']
            } else {
                s.take(k)
            }
        } else {
            seq![s[0]]
        };
        let rest = s.skip(k);
        let c = collapse_blank_lines(rest);
        let x = collapse_blank_lines(s);
        assert(x == p + c);
        assert forall|i: int|
            0 <= i < rest.len() && is_whitespace(#[trigger] rest[i]) && rest[i] != '\n' implies i
            + 1 < rest.len() && rest[i + 1] != '\n' by {
            assert(rest[i] == s[i + k]);
            assert(is_whitespace(s[i + k]));
            if i + 1 < rest.len() {
                assert(rest[i + 1] == s[i + k + 1]);
            }
        }
        lemma_collapse_keeps_line_ends(rest);
        assert forall|i: int|
            0 <= i < x.len() && is_whitespace(#[trigger] x[i]) && x[i] != '\n' implies i + 1
            < x.len() && x[i + 1] != '\n' by {
            if i >= p.len() {
                assert(x[i] == c[i - p.len()]);
                if i + 1 < x.len() {
                    assert(x[i + 1] == c[i + 1 - p.len()]);
                }
            } else if s[0] == '\n' {
                assert(x[i] == p[i]);
                assert(p[i] == '\n');
            } else {
                assert(i == 0);
                assert(x[0] == s[0]);
                assert(is_whitespace(s[0]));
                assert(1 < s.len() && s[1] != '\n');
                assert(rest[0] == s[1]);
                lemma_collapse_first(rest);
                assert(x[1] == c[0]);
            }
        }
    }
}

proof fn lemma_strip_leading_boms_suffix(s: Seq<char>) -> (k: int)
    ensures
        0 <= k <= s.len(),
        strip_leading_boms(s) == s.skip(k),
    decreases s.len(),
{
    if s.len() > 0 && s[0] == '\u{feff}' {
        let k = lemma_strip_leading_boms_suffix(s.drop_first());
        assert(s.drop_first().skip(k) == s.skip(k + 1));
        k + 1
    } else {
        assert(s.skip(0) == s);
        0
    }
}

/// Ending the text with a single newline keeps it free of triple newlines and
/// of trailing whitespace on its lines.
pub proof fn lemma_final_newline_keeps_lines(s: Seq<char>)
    ensures
        no_triple_newline(s) ==> no_triple_newline(ensure_final_newline_spec(s)),
        no_trailing_whitespace(s) ==> no_trailing_whitespace(ensure_final_newline_spec(s)),
{
    let k = lemma_strip_leading_boms_suffix(s);
    let b = strip_leading_boms(s);
    let u = trim_start(b);
    let t = trim(b);
    lemma_trim_start_suffix(b);
    lemma_trim_end_prefix(u);
    let off = k + (b.len() - u.len());
    assert forall|j: int| 0 <= j < t.len() implies #[trigger] t[j] == s[off + j] by {
        assert(t[j] == u[j]);
        assert(u[j] == b[b.len() - u.len() + j]);
        assert(b[b.len() - u.len() + j] == s[k + b.len() - u.len() + j]);
    }
    let x = ensure_final_newline_spec(s);
    assert(x == t.push('\n'));
    assert(x[t.len() as int] == '\n');
    assert(t.len() > 0 ==> !is_whitespace(t[t.len() - 1]));
    if no_triple_newline(s) {
        assert forall|i: int| 0 <= i && i + 2 < x.len() implies !(#[trigger] x[i] == '\n' && x[i
            + 1] == '\n' && x[i + 2] == '\n') by {
            assert(x[i] == t[i]);
            assert(x[i + 1] == t[i + 1]);
            if i + 2 < t.len() {
                assert(x[i + 2] == t[i + 2]);
                assert(t[i] == s[off + i]);
                assert(t[i + 1] == s[off + i + 1]);
                assert(t[i + 2] == s[off + i + 2]);
            } else {
                assert(i + 1 == t.len() - 1);
            }
        }
    }
    if no_trailing_whitespace(s) {
        assert forall|i: int| 0 <= i < x.len() && is_whitespace(#[trigger] x[i]) && x[i] != '\n'
            implies i + 1 < x.len() && x[i + 1] != '\n' by {
            assert(i < t.len());
            assert(x[i] == t[i]);
            assert(i != t.len() - 1);
            assert(t[i] == s[off + i]);
            assert(t[i + 1] == s[off + i + 1]);
            assert(x[i + 1] == t[i + 1]);
        }
    }
}


/// Clean-up keeps a single-quoted literal (without inner quotes) as written
/// and resumes after it.
pub proof fn lemma_clean_keeps_single_quoted(body: Seq<char>, rest: Seq<char>, keep_quotes: bool)
    requires
        forall|i: int| 0 <= i < body.len() ==> body[i] != '\'',
        rest.len() == 0 || rest[0] != '\'',
    ensures
        unquoted_ddl(seq!['\''] + body + seq!['\''] + rest, keep_quotes) == seq!['\''] + body
            + seq!['\''] + unquoted_ddl(rest, keep_quotes),
{
    let lit = seq!['\''] + body + seq!['\''];
    let s = lit + rest;
    assert(s[0] == '\'');
    assert(s.skip(1) == body + seq!['\''] + rest);
    lemma_single_quoted_body(body, rest);
    assert(s.take(lit.len() as int) == lit);
    assert(s.skip(lit.len() as int) == rest);
}

/// Clean-up keeps the text of a `--` comment as written; its newline
/// belongs to the code that follows.
pub proof fn lemma_clean_keeps_line_comment(body: Seq<char>, rest: Seq<char>, keep_quotes: bool)
    requires
        forall|i: int| 0 <= i < body.len() ==> body[i] != '\n',
    ensures
        unquoted_ddl(seq!['-', '-'] + body + seq!['\n'] + rest, keep_quotes) == seq!['-', '-']
            + body + unquoted_ddl(seq!['\n'] + rest, keep_quotes),
{
    let lit = seq!['-', '-'] + body;
    let s = lit + seq!['\n'] + rest;
    assert(s[0] == '-' && s[1] == '-');
    assert(s.skip(2) == body + seq!['\n'] + rest);
    lemma_line_rest_body(body, rest);
    assert(s.take(lit.len() as int) == lit);
    assert(s.skip(lit.len() as int) == seq!['\n'] + rest);
}

/// Clean-up keeps a `/* */` comment (with no `*/` inside) as written.
pub proof fn lemma_clean_keeps_block_comment(body: Seq<char>, rest: Seq<char>, keep_quotes: bool)
    requires
        forall|i: int| 0 <= i < body.len() - 1 ==> !#[trigger] closes_comment_at(body, i),
    ensures
        unquoted_ddl(seq!['/', '*'] + body + seq!['*', '/'] + rest, keep_quotes) == seq!['/', '*']
            + body + seq!['*', '/'] + unquoted_ddl(rest, keep_quotes),
{
    let lit = seq!['/', '*'] + body + seq!['*', '/'];
    let s = lit + rest;
    assert(s[0] == '/' && s[1] == '*');
    assert(s.skip(2) == body + seq!['*', '/'] + rest);
    lemma_block_comment_body(body, '\0', rest);
    assert(s.take(lit.len() as int) == lit);
    assert(s.skip(lit.len() as int) == rest);
}

/// With quotes kept, clean-up keeps a double-quoted identifier as written.
pub proof fn lemma_clean_keeps_quoted_identifier(body: Seq<char>, rest: Seq<char>)
    requires
        forall|i: int| 0 <= i < body.len() ==> body[i] != '"',
    ensures
        unquoted_ddl(seq!['"'] + body + seq!['"'] + rest, true) == seq!['"'] + body + seq!['"']
            + unquoted_ddl(rest, true),
{
    let lit = seq!['"'] + body + seq!['"'];
    let s = lit + rest;
    assert(s[0] == '"');
    assert(s.skip(1) == body + seq!['"'] + rest);
    lemma_until_body(body, '"', rest);
    assert(s.take(lit.len() as int) == lit);
    assert(s.skip(lit.len() as int) == rest);
}

proof fn lemma_identifier_run(name: Seq<char>, rest: Seq<char>)
    requires
        forall|i: int| 0 <= i < name.len() ==> is_identifier_char(#[trigger] name[i]),
        rest.len() == 0 || !is_identifier_char(rest[0]),
    ensures
        identifier_run_len(name + rest) == name.len(),
    decreases name.len(),
{
    let r = name + rest;
    if name.len() > 0 {
        assert(r[0] == name[0]);
        assert(r.skip(1) == name.skip(1) + rest);
        assert forall|i: int| 0 <= i < name.skip(1).len() implies is_identifier_char(
            #[trigger] name.skip(1)[i],
        ) by {
            assert(name.skip(1)[i] == name[i + 1]);
        }
        lemma_identifier_run(name.skip(1), rest);
    } else {
        assert(r == rest);
    }
}

/// Unless quotes are kept, clean-up writes a quoted simple identifier
/// (`"NAME"`, an upper-case letter followed by upper-case letters, digits,
/// `_`, `$` or `#`) without its quotes.
pub proof fn lemma_clean_unquotes_simple_identifier(name: Seq<char>, rest: Seq<char>)
    requires
        name.len() > 0,
        is_ascii_upper(name[0]),
        forall|i: int| 0 <= i < name.len() ==> is_identifier_char(#[trigger] name[i]),
    ensures
        unquoted_ddl(seq!['"'] + name + seq!['"'] + rest, false) == name + unquoted_ddl(
            rest,
            false,
        ),
{
    let u = seq!['"'] + name + seq!['"'];
    let s = u + rest;
    assert forall|i: int| 0 <= i < name.len() implies name[i] != '"' by {
        assert(is_identifier_char(name[i]));
    }
    assert(s[0] == '"');
    assert(s.skip(1) == name + seq!['"'] + rest);
    lemma_until_body(name, '"', rest);
    assert(s.take(u.len() as int) == u);
    assert(s.skip(u.len() as int) == rest);
    assert(u.skip(1) == name + seq!['"']);
    lemma_identifier_run(name, seq!['"']);
    assert(u[1] == name[0]);
    assert(u[1 + name.len() as int] == '"');
    assert(simple_quoted_len(u) == u.len());
    assert(u.subrange(1, u.len() - 1) == name);
    assert(u.skip(u.len() as int) == Seq::<char>::empty());
    assert(unquote_simple_identifiers(u) == name + unquote_simple_identifiers(Seq::empty()));
}


/// Text without three newlines in a row is left unchanged by blank-line
/// collapsing.
pub proof fn lemma_collapse_keeps_collapsed(s: Seq<char>)
    requires
        no_triple_newline(s),
    ensures
        collapse_blank_lines(s) == s,
    decreases s.len(),
{
    if s.len() > 0 {
        let k: int = if s[0] == '\n' {
            lemma_newline_run_len(s);
            newline_run_len(s) as int
        } else {
            1
        };
        if s[0] == '\n' && k >= 3 {
            assert(s[0] == '\n' && s[1] == '\n' && s[2] == '\n');
        }
        let rest = s.skip(k);
        assert forall|i: int| 0 <= i && i + 2 < rest.len() implies !(#[trigger] rest[i] == '\n'
            && rest[i + 1] == '\n' && rest[i + 2] == '\n') by {
            assert(rest[i] == s[i + k]);
            assert(rest[i + 1] == s[i + k + 1]);
            assert(rest[i + 2] == s[i + k + 2]);
        }
        lemma_collapse_keeps_collapsed(rest);
        if s[0] == '\n' {
            assert(s.take(k) + rest == s);
        } else {
            assert(seq![s[0]] + rest == s);
        }
    }
}

/// Blank-line collapsing is idempotent.
pub proof fn lemma_collapse_idempotent(s: Seq<char>)
    ensures
        collapse_blank_lines(collapse_blank_lines(s)) == collapse_blank_lines(s),
{
    lemma_collapse_no_triple_newline(s);
    lemma_collapse_keeps_collapsed(collapse_blank_lines(s));
}

/// Ending a text with a single newline is idempotent for text without
/// byte-order marks.
pub proof fn lemma_final_newline_idempotent(s: Seq<char>)
    requires
        forall|i: int| 0 <= i < s.len() ==> #[trigger] s[i] != '\u{feff}',
    ensures
        ensure_final_newline_spec(ensure_final_newline_spec(s)) == ensure_final_newline_spec(s),
{
    let k = lemma_strip_leading_boms_suffix(s);
    if k > 0 {
        assert(s.skip(k).len() < s.len());
        assert(s[0] == '\u{feff}') by {
            assert(strip_leading_boms(s) == strip_leading_boms(s.drop_first()));
        }
    }
    assert(k == 0 ==> s.skip(0) == s);
    let b = strip_leading_boms(s);
    let u = trim_start(b);
    let t = trim(b);
    lemma_trim_start_suffix(b);
    lemma_trim_end_prefix(u);
    let y = ensure_final_newline_spec(s);
    assert(y == t.push('\n'));
    assert(t.len() > 0 ==> t[0] == u[0]);
    assert(t.len() > 0 ==> t[0] == b[b.len() - u.len()]);
    assert(t.len() > 0 ==> t[0] == s[k + b.len() - u.len()]);
    assert(y[0] != '\u{feff}');
    assert(strip_leading_boms(y) == y);
    if t.len() > 0 {
        assert(!is_whitespace(y[0]));
        assert(trim_start(y) == y);
        assert(y.drop_last() == t);
        assert(is_whitespace(y.last()));
        assert(trim_end(y) == trim_end(t));
        assert(t.len() > 0 && !is_whitespace(t.last()));
        assert(trim_end(t) == t);
    } else {
        assert(is_whitespace(y[0]));
        assert(y.drop_first().len() == 0);
        assert(trim_start(y) == trim_start(y.drop_first()));
        assert(trim_start(y) == Seq::<char>::empty());
    }
}


/// Clean-up changes nothing in a text without `EDITIONABLE` (in any case)
/// when quotes are kept or the text has no double quote.
pub proof fn lemma_clean_code_without_changes(s: Seq<char>, keep_quotes: bool)
    requires
        !has_editionable_word(s),
        keep_quotes || !s.contains('"'),
    ensures
        unquoted_ddl(s, keep_quotes) == s,
    decreases s.len(),
{
    if s.len() > 0 {
        lemma_token_len(s);
        lemma_kept_len(s);
        lemma_code_run_len(s);
        if starts_quoted_unit(s) && !keep_quotes {
            assert(s.contains('"')) by {
                assert(s[0] == '"');
            }
        }
        let l: int = if starts_kept_unit(s) {
            kept_len(s) as int
        } else if starts_quoted_unit(s) {
            token_len(s) as int
        } else {
            code_run_len(s) as int
        };
        let rest = s.skip(l);
        lemma_no_editionable_subrange(s, l, s.len() as int);
        assert(s.subrange(l, s.len() as int) == rest);
        if !keep_quotes && rest.contains('"') {
            let j = choose|j: int| 0 <= j < rest.len() && rest[j] == '"';
            assert(s[l + j] == '"');
        }
        lemma_clean_code_without_changes(rest, keep_quotes);
        if !starts_kept_unit(s) && !starts_quoted_unit(s) {
            lemma_no_editionable_subrange(s, 0, l);
            assert(s.subrange(0, l) == s.take(l));
            lemma_remove_editionable_without_word(s.take(l));
        }
        assert(s.take(l) + rest == s);
    }
}

proof fn lemma_line_rest_body(body: Seq<char>, rest: Seq<char>)
    requires
        forall|i: int| 0 <= i < body.len() ==> body[i] != '\n',
    ensures
        line_rest_len(body + seq!['\n'] + rest) == body.len(),
    decreases body.len(),
{
    let r = body + seq!['\n'] + rest;
    if body.len() == 0 {
        assert(r[0] == '\n');
    } else {
        assert(r[0] == body[0]);
        assert(r.skip(1) == body.skip(1) + seq!['\n'] + rest);
        lemma_line_rest_body(body.skip(1), rest);
    }
}


/// Removing `EDITIONABLE` does not depend on keeping quotes: on a text
/// without double quotes, clean-up gives the same result whether quotes are
/// kept or not.
pub proof fn lemma_clean_code_editionable_ignores_keep_quotes(s: Seq<char>)
    requires
        !s.contains('"'),
    ensures
        unquoted_ddl(s, true) == unquoted_ddl(s, false),
    decreases s.len(),
{
    if s.len() > 0 {
        lemma_token_len(s);
        lemma_kept_len(s);
        lemma_code_run_len(s);
        if starts_quoted_unit(s) {
            assert(s.contains('"')) by {
                assert(s[0] == '"');
            }
        }
        let l: int = if starts_kept_unit(s) {
            kept_len(s) as int
        } else {
            code_run_len(s) as int
        };
        let rest = s.skip(l);
        if rest.contains('"') {
            let j = choose|j: int| 0 <= j < rest.len() && rest[j] == '"';
            assert(s[l + j] == '"');
        }
        lemma_clean_code_editionable_ignores_keep_quotes(rest);
    }
}

/// In code, `EDITIONABLE` or `NONEDITIONABLE` (in any case) between
/// whitespace runs is replaced by one space, and the scan resumes after the
/// second run.
pub proof fn lemma_remove_editionable_word(
    w1: Seq<char>,
    word: Seq<char>,
    w2: Seq<char>,
    rest: Seq<char>,
)
    requires
        w1.len() > 0,
        w2.len() > 0,
        forall|i: int| 0 <= i < w1.len() ==> is_whitespace(#[trigger] w1[i]),
        forall|i: int| 0 <= i < w2.len() ==> is_whitespace(#[trigger] w2[i]),
        seq_ascii_upper(word) == editionable_word() || seq_ascii_upper(word)
            == non_editionable_word(),
        rest.len() == 0 || !is_whitespace(rest[0]),
    ensures
        remove_editionable(w1 + word + w2 + rest) == seq![' '] + remove_editionable(rest),
{
    let s = w1 + word + w2 + rest;
    assert(seq_ascii_upper(word).len() == word.len());
    assert(word.len() == 11 || word.len() == 14);
    assert(seq_ascii_upper(word)[0] == ascii_upper(word[0]));
    assert(ascii_upper(word[0]) == 'E' || ascii_upper(word[0]) == 'N');
    assert(!is_whitespace(word[0]));
    assert((word + w2 + rest)[0] == word[0]);
    lemma_whitespace_prefix(w1, word + w2 + rest);
    assert(w1 + (word + w2 + rest) == s);
    assert(s.skip(w1.len() as int) == word + w2 + rest);
    let r = word + w2 + rest;
    assert(r.take(word.len() as int) == word);
    lemma_whitespace_prefix(w2, rest);
    assert(r.skip(word.len() as int) == w2 + rest);
    if word.len() == 14 {
        assert(r.take(14) == word);
        assert(starts_with_word(r, non_editionable_word()));
    } else {
        assert(r.take(11) == word);
        assert(starts_with_word(r, editionable_word()));
        assert(!starts_with_word(r, non_editionable_word())) by {
            if starts_with_word(r, non_editionable_word()) {
                assert(seq_ascii_upper(r.take(14))[11] == editionable_word()[8]);
                assert(seq_ascii_upper(r.take(14))[11] == ascii_upper(r[11]));
                assert(r[11] == w2[0]);
                assert(is_whitespace(w2[0]));
            }
        }
    }
    assert(editionable_word_len(r) == word.len());
    assert(s.skip((w1.len() + word.len()) as int) == w2 + rest);
    assert(editionable_match_len(s) == w1.len() + word.len() + w2.len());
    assert(s.skip((w1.len() + word.len() + w2.len()) as int) == rest);
}

proof fn lemma_whitespace_prefix(w: Seq<char>, rest: Seq<char>)
    requires
        forall|i: int| 0 <= i < w.len() ==> is_whitespace(#[trigger] w[i]),
        rest.len() == 0 || !is_whitespace(rest[0]),
    ensures
        whitespace_run_len(w + rest) == w.len(),
    decreases w.len(),
{
    let s = w + rest;
    if w.len() > 0 {
        assert(s[0] == w[0]);
        assert(s.skip(1) == w.skip(1) + rest);
        assert forall|i: int| 0 <= i < w.skip(1).len() implies is_whitespace(#[trigger] w.skip(1)[i]) by {
            assert(w.skip(1)[i] == w[i + 1]);
        }
        lemma_whitespace_prefix(w.skip(1), rest);
    } else {
        assert(s == rest);
    }
}

} // verus!
