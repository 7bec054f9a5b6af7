//! The lexer: what it produces, stated over the characters of the source, and
//! the function that produces it.
//!
//! Whitespace (space, tab, carriage return, newline) separates tokens. A letter
//! or `_` starts a word of letters, digits and `_`, which is a keyword or an
//! identifier; a digit starts a decimal integer (one too large for `i64` is an
//! unknown token); `"` starts a string literal that ends at the next `"` (a `"`
//! that is never closed is an unknown token); `==`, `!=`, `<=`, `>=` are read
//! before their first character alone; any other character that starts no
//! token is an unknown token. The list ends with `EOF`.
use crate::lexer::{tokens_view, Span, SpecToken, Token};
use crate::text::push_char;
use vstd::prelude::*;

verus! {

broadcast use vstd::string::group_string_axioms;

/// The characters of a string, in order.
pub fn chars_of(s: &str) -> (r: Vec<char>)
    ensures
        r@ == s@,
{
    let mut v: Vec<char> = Vec::new();
    for c in it: s.chars()
        invariant
            v@ == it.seq().take(it.index() as int),
    {
        v.push(c);
        assert(v@ =~= it.seq().take(it.index() + 1));
    }
    v
}

pub open spec fn is_space(c: char) -> bool {
    c == ' ' || c == '\t' || c == '\n' || c == '\r'
}

pub open spec fn is_digit(c: char) -> bool {
    '0' <= c && c <= '9'
}

pub open spec fn is_word_start(c: char) -> bool {
    ('a' <= c && c <= 'z') || ('A' <= c && c <= 'Z') || c == '_'
}

pub open spec fn is_word_char(c: char) -> bool {
    is_word_start(c) || is_digit(c)
}

/// How many word characters follow from position `i` on.
pub open spec fn word_run(cs: Seq<char>, i: int) -> nat
    decreases cs.len() - i,
{
    if 0 <= i < cs.len() && is_word_char(cs[i]) {
        1 + word_run(cs, i + 1)
    } else {
        0
    }
}

/// How many digits follow from position `i` on.
pub open spec fn digit_run(cs: Seq<char>, i: int) -> nat
    decreases cs.len() - i,
{
    if 0 <= i < cs.len() && is_digit(cs[i]) {
        1 + digit_run(cs, i + 1)
    } else {
        0
    }
}

/// How many characters other than `"` follow from position `i` on.
pub open spec fn text_run(cs: Seq<char>, i: int) -> nat
    decreases cs.len() - i,
{
    if 0 <= i < cs.len() && cs[i] != '"' {
        1 + text_run(cs, i + 1)
    } else {
        0
    }
}

/// The value of a string of decimal digits.
pub open spec fn digits_value(ds: Seq<char>) -> nat
    decreases ds.len(),
{
    if ds.len() == 0 {
        0
    } else {
        digits_value(ds.drop_last()) * 10 + ((ds.last() as u32) - ('0' as u32)) as nat
    }
}

/// The keyword that a word spells, or the identifier it names.
pub open spec fn word_token(w: Seq<char>) -> SpecToken {
    if w == "domain"@ { SpecToken::Domain }
    else if w == "system"@ { SpecToken::System }
    else if w == "environment"@ { SpecToken::Environment }
    else if w == "deploy"@ { SpecToken::Deploy }
    else if w == "scope"@ { SpecToken::Scope }
    else if w == "capability"@ { SpecToken::Capability }
    else if w == "state"@ { SpecToken::State }
    else if w == "goal"@ { SpecToken::Goal }
    else if w == "transition"@ { SpecToken::Transition }
    else if w == "priority"@ { SpecToken::Priority }
    else if w == "target"@ { SpecToken::Target }
    else if w == "strategy"@ { SpecToken::Strategy }
    else if w == "slice"@ { SpecToken::Slice }
    else if w == "step"@ { SpecToken::Step }
    else if w == "to"@ { SpecToken::To }
    else if w == "start"@ { SpecToken::Start }
    else if w == "send"@ { SpecToken::Send }
    else if w == "send_high"@ { SpecToken::SendHigh }
    else if w == "if"@ { SpecToken::If }
    else if w == "while"@ { SpecToken::While }
    else if w == "true"@ { SpecToken::True }
    else if w == "false"@ { SpecToken::False }
    else { SpecToken::Identifier(w) }
}

/// The token of one character that can stand alone.
pub open spec fn single(c: char) -> SpecToken {
    if c == '{' { SpecToken::LBrace }
    else if c == '}' { SpecToken::RBrace }
    else if c == '(' { SpecToken::LParen }
    else if c == ')' { SpecToken::RParen }
    else if c == ':' { SpecToken::Colon }
    else if c == ',' { SpecToken::Comma }
    else if c == '+' { SpecToken::Plus }
    else if c == '-' { SpecToken::Minus }
    else if c == '*' { SpecToken::Asterisk }
    else if c == '/' { SpecToken::Slash }
    else if c == '%' { SpecToken::Modulo }
    else if c == '=' { SpecToken::Equal }
    else if c == '<' { SpecToken::LessThan }
    else if c == '>' { SpecToken::GreaterThan }
    else { SpecToken::Unknown(c) }
}

/// The token that starts at position `i` (not whitespace) and how many characters it spans.
pub open spec fn scan(cs: Seq<char>, i: int) -> (SpecToken, nat) {
    let c = cs[i];
    let followed_by_eq = i + 1 < cs.len() && cs[i + 1] == '=';
    if is_word_start(c) {
        let n = word_run(cs, i);
        (word_token(cs.subrange(i, i + n)), n)
    } else if is_digit(c) {
        let n = digit_run(cs, i);
        let v = digits_value(cs.subrange(i, i + n));
        if v <= i64::MAX {
            (SpecToken::IntLiteral(v as i64), n)
        } else {
            (SpecToken::Unknown(c), n)
        }
    } else if c == '"' {
        let n = text_run(cs, i + 1);
        if i + 1 + n < cs.len() {
            (SpecToken::StringLiteral(cs.subrange(i + 1, i + 1 + n)), n + 2)
        } else {
            (SpecToken::Unknown(c), 1)
        }
    } else if c == '=' && followed_by_eq {
        (SpecToken::EqualEqual, 2)
    } else if c == '!' && followed_by_eq {
        (SpecToken::NotEqual, 2)
    } else if c == '<' && followed_by_eq {
        (SpecToken::LTEqual, 2)
    } else if c == '>' && followed_by_eq {
        (SpecToken::GTEqual, 2)
    } else {
        (single(c), 1)
    }
}

/// The number of bytes of a character in UTF-8.
pub open spec fn char_width(c: char) -> nat {
    if (c as u32) <= 0x7F {
        1
    } else if (c as u32) <= 0x7FF {
        2
    } else if (c as u32) <= 0xFFFF {
        3
    } else {
        4
    }
}

/// The number of bytes of a character sequence in UTF-8.
pub open spec fn byte_len(s: Seq<char>) -> nat
    decreases s.len(),
{
    if s.len() == 0 {
        0
    } else {
        byte_len(s.drop_last()) + char_width(s.last())
    }
}

/// The (1-based) line and column just after a character sequence.
pub open spec fn line_col(s: Seq<char>) -> (nat, nat)
    decreases s.len(),
{
    if s.len() == 0 {
        (1, 1)
    } else {
        let (l, c) = line_col(s.drop_last());
        if s.last() == '\n' {
            (l + 1, 1)
        } else {
            (l, c + 1)
        }
    }
}

/// The span of the `n` characters from position `i`.
pub open spec fn span_of(cs: Seq<char>, i: int, n: int) -> Span {
    Span {
        offset: byte_len(cs.take(i)) as usize,
        len: byte_len(cs.subrange(i, i + n)) as usize,
        line: line_col(cs.take(i)).0 as usize,
        column: line_col(cs.take(i)).1 as usize,
    }
}

/// The tokens of the source from position `i` on, ending with `EOF`.
pub open spec fn lex_from(cs: Seq<char>, i: int) -> Seq<(SpecToken, Span)>
    decreases cs.len() - i,
{
    if i < 0 || i >= cs.len() {
        seq![(SpecToken::EOF, span_of(cs, cs.len() as int, 0))]
    } else if is_space(cs[i]) {
        lex_from(cs, i + 1)
    } else {
        let (t, n) = scan(cs, i);
        if n == 0 || i + n > cs.len() {
            seq![(SpecToken::EOF, span_of(cs, cs.len() as int, 0))]
        } else {
            seq![(t, span_of(cs, i, n as int))] + lex_from(cs, i + n)
        }
    }
}

/// The tokens of a source text.
pub open spec fn lex_spec(cs: Seq<char>) -> Seq<(SpecToken, Span)> {
    lex_from(cs, 0)
}

// Facts about the definitions above.

/// No scanned token is `EOF`: that token only ends the list.
pub proof fn lemma_scan_not_eof(cs: Seq<char>, i: int)
    requires
        0 <= i < cs.len(),
    ensures
        !(scan(cs, i).0 is EOF),
{
}

/// The tokens from any position end with `EOF`, which occurs nowhere else.
pub proof fn lemma_lex_from_ends_with_eof(cs: Seq<char>, i: int)
    ensures
        lex_from(cs, i).len() > 0,
        lex_from(cs, i).last().0 is EOF,
        forall|k: int| 0 <= k < lex_from(cs, i).len() - 1 ==> !(#[trigger] lex_from(cs, i)[k].0 is EOF),
    decreases cs.len() - i,
{
    if i < 0 || i >= cs.len() {
    } else if is_space(cs[i]) {
        lemma_lex_from_ends_with_eof(cs, i + 1);
    } else {
        let (t, n) = scan(cs, i);
        if n == 0 || i + n > cs.len() {
        } else {
            lemma_scan_not_eof(cs, i);
            lemma_lex_from_ends_with_eof(cs, i + n);
            let rest = lex_from(cs, i + n);
            assert(lex_from(cs, i) == seq![(t, span_of(cs, i, n as int))] + rest);
            assert forall|k: int| 0 <= k < lex_from(cs, i).len() - 1 implies !(#[trigger] lex_from(cs, i)[k].0 is EOF) by {
                if k > 0 {
                    assert(lex_from(cs, i)[k] == rest[k - 1]);
                }
            }
        }
    }
}

/// The token list of a source ends with `EOF` and holds no other `EOF`; in
/// particular it is never empty.
pub proof fn lemma_lex_ends_with_eof(cs: Seq<char>)
    ensures
        lex_spec(cs).len() > 0,
        lex_spec(cs).last().0 is EOF,
        forall|k: int| 0 <= k < lex_spec(cs).len() - 1 ==> !(#[trigger] lex_spec(cs)[k].0 is EOF),
{
    lemma_lex_from_ends_with_eof(cs, 0);
}

/// `byte_len` adds up over concatenation.
pub proof fn lemma_byte_len_concat(a: Seq<char>, b: Seq<char>)
    ensures
        byte_len(a + b) == byte_len(a) + byte_len(b),
    decreases b.len(),
{
    if b.len() == 0 {
        assert(a + b =~= a);
    } else {
        lemma_byte_len_concat(a, b.drop_last());
        assert((a + b).drop_last() =~= a + b.drop_last());
    }
}

/// A prefix has no more bytes than the whole.
pub proof fn lemma_byte_len_prefix(s: Seq<char>, k: int)
    requires
        0 <= k <= s.len(),
    ensures
        byte_len(s.take(k)) <= byte_len(s),
        byte_len(s.take(k)) + byte_len(s.skip(k)) == byte_len(s),
{
    lemma_byte_len_concat(s.take(k), s.skip(k));
    assert(s.take(k) + s.skip(k) =~= s);
}

/// The width of a character is the length of its UTF-8 encoding.
pub proof fn lemma_char_width(c: char)
    ensures
        char_width(c) == vstd::utf8::encode_scalar(c as u32).len(),
{
    vstd::utf8::char_is_scalar(c);
}

/// `byte_len` is the length of the UTF-8 encoding.
pub proof fn lemma_byte_len_utf8(s: Seq<char>)
    ensures
        byte_len(s) == vstd::utf8::encode_utf8(s).len(),
    decreases s.len(),
{
    if s.len() > 0 {
        lemma_byte_len_utf8(s.drop_first());
        lemma_char_width(s[0]);
        lemma_byte_len_concat(seq![s[0]], s.drop_first());
        assert(seq![s[0]] + s.drop_first() =~= s);
        assert(seq![s[0]].drop_last() =~= Seq::<char>::empty());
        assert(byte_len(seq![s[0]]) == char_width(s[0])) by {
            let one = seq![s[0]];
            assert(one.len() == 1);
            assert(one.last() == s[0]);
            assert(byte_len(one.drop_last()) == 0);
        }
        assert(vstd::utf8::encode_utf8(s).len() == vstd::utf8::encode_scalar(s[0] as u32).len()
            + vstd::utf8::encode_utf8(s.drop_first()).len());
    }
}

/// Line and column never exceed one more than the number of characters.
pub proof fn lemma_line_col_bound(s: Seq<char>)
    ensures
        line_col(s).0 <= s.len() + 1,
        line_col(s).1 <= s.len() + 1,
        line_col(s).0 >= 1,
        line_col(s).1 >= 1,
    decreases s.len(),
{
    if s.len() > 0 {
        lemma_line_col_bound(s.drop_last());
    }
}

/// A longer prefix has at least as many bytes.
pub proof fn lemma_byte_len_prefixes(s: Seq<char>, i: int, j: int)
    requires
        0 <= i <= j <= s.len(),
    ensures
        byte_len(s.take(i)) <= byte_len(s.take(j)),
        byte_len(s.take(i)) + byte_len(s.subrange(i, j)) == byte_len(s.take(j)),
{
    lemma_byte_len_concat(s.take(i), s.subrange(i, j));
    assert(s.take(i) + s.subrange(i, j) =~= s.take(j));
}

/// Whether each span of `ts` starts at or after `lo` and ends by `hi`, and
/// each ends before the next one starts.
pub open spec fn spans_in_order(ts: Seq<(SpecToken, Span)>, lo: int, hi: int) -> bool {
    &&& forall|k: int| 0 <= k < ts.len() ==> lo <= (#[trigger] ts[k]).1.offset && ts[k].1.offset + ts[k].1.len <= hi
    &&& forall|a: int, b: int| 0 <= a < b < ts.len() ==> (#[trigger] ts[a]).1.offset + ts[a].1.len <= (#[trigger] ts[b]).1.offset
}

/// The tokens from position `i` on lie, in order, between the bytes before
/// `i` and the end of the source.
pub proof fn lemma_lex_from_spans(cs: Seq<char>, i: int)
    requires
        0 <= i <= cs.len(),
        byte_len(cs) <= usize::MAX,
    ensures
        spans_in_order(lex_from(cs, i), byte_len(cs.take(i)) as int, byte_len(cs) as int),
    decreases cs.len() - i,
{
    lemma_byte_len_prefixes(cs, i, cs.len() as int);
    assert(cs.take(cs.len() as int) =~= cs);
    if i >= cs.len() {
        lemma_byte_len_prefixes(cs, cs.len() as int, cs.len() as int);
    } else if is_space(cs[i]) {
        lemma_lex_from_spans(cs, i + 1);
        lemma_byte_len_prefixes(cs, i, i + 1);
    } else {
        let (t, n) = scan(cs, i);
        if n == 0 || i + n > cs.len() {
            lemma_byte_len_prefixes(cs, cs.len() as int, cs.len() as int);
        } else {
            lemma_lex_from_spans(cs, i + n);
            lemma_byte_len_prefixes(cs, i, i + n);
            lemma_byte_len_prefixes(cs, i + n, cs.len() as int);
            let rest = lex_from(cs, i + n);
            let ts = lex_from(cs, i);
            assert(ts == seq![(t, span_of(cs, i, n as int))] + rest);
            assert(ts[0].1.offset + ts[0].1.len == byte_len(cs.take(i + n)));
            assert forall|k: int| 0 <= k < ts.len() implies byte_len(cs.take(i)) <= (#[trigger] ts[k]).1.offset
                && ts[k].1.offset + ts[k].1.len <= byte_len(cs) by {
                if k > 0 {
                    assert(ts[k] == rest[k - 1]);
                }
            }
            assert forall|a: int, b: int| 0 <= a < b < ts.len() implies (#[trigger] ts[a]).1.offset + ts[a].1.len
                <= (#[trigger] ts[b]).1.offset by {
                assert(ts[b] == rest[b - 1]);
                if a > 0 {
                    assert(ts[a] == rest[a - 1]);
                }
            }
        }
    }
}

/// The spans of a source's tokens lie within its bytes, in source order and
/// without overlapping.
pub proof fn lemma_lex_spans_in_order(cs: Seq<char>)
    requires
        byte_len(cs) <= usize::MAX,
    ensures
        spans_in_order(lex_spec(cs), 0, byte_len(cs) as int),
{
    lemma_lex_from_spans(cs, 0);
    assert(cs.take(0) =~= Seq::<char>::empty());
}

fn width(c: char) -> (r: usize)
    ensures
        r == char_width(c),
{
    let u = c as u32;
    if u <= 0x7F {
        1
    } else if u <= 0x7FF {
        2
    } else if u <= 0xFFFF {
        3
    } else {
        4
    }
}

/// Moves a position (byte offset, line, column) over the characters `cs[i..j]`.
fn advance_position(cs: &Vec<char>, i: usize, j: usize, pos: (usize, usize, usize)) -> (r: (usize, usize, usize))
    requires
        i <= j <= cs@.len(),
        cs@.len() < usize::MAX,
        byte_len(cs@) <= usize::MAX,
        pos.0 == byte_len(cs@.take(i as int)),
        (pos.1 as nat, pos.2 as nat) == line_col(cs@.take(i as int)),
    ensures
        r.0 == byte_len(cs@.take(j as int)),
        (r.1 as nat, r.2 as nat) == line_col(cs@.take(j as int)),
{
    let (mut offset, mut line, mut column) = pos;
    let mut k = i;
    while k < j
        invariant
            i <= k <= j <= cs@.len(),
            cs@.len() < usize::MAX,
            byte_len(cs@) <= usize::MAX,
            offset == byte_len(cs@.take(k as int)),
            (line as nat, column as nat) == line_col(cs@.take(k as int)),
        decreases j - k,
    {
        proof {
            assert(cs@.take(k + 1).drop_last() =~= cs@.take(k as int));
            lemma_byte_len_prefix(cs@, k + 1);
            lemma_line_col_bound(cs@.take(k as int));
        }
        let c = cs[k];
        offset = offset + width(c);
        if c == '\n' {
            line = line + 1;
            column = 1;
        } else {
            column = column + 1;
        }
        k = k + 1;
    }
    (offset, line, column)
}

/// The keyword that a word spells, or the identifier it names.
fn word_token_of(w: String) -> (r: Token)
    ensures
        r@ == word_token(w@),
{
    let s = w.as_str();
    if crate::text::str_eq(s, "domain") { Token::Domain }
    else if crate::text::str_eq(s, "system") { Token::System }
    else if crate::text::str_eq(s, "environment") { Token::Environment }
    else if crate::text::str_eq(s, "deploy") { Token::Deploy }
    else if crate::text::str_eq(s, "scope") { Token::Scope }
    else if crate::text::str_eq(s, "capability") { Token::Capability }
    else if crate::text::str_eq(s, "state") { Token::State }
    else if crate::text::str_eq(s, "goal") { Token::Goal }
    else if crate::text::str_eq(s, "transition") { Token::Transition }
    else if crate::text::str_eq(s, "priority") { Token::Priority }
    else if crate::text::str_eq(s, "target") { Token::Target }
    else if crate::text::str_eq(s, "strategy") { Token::Strategy }
    else if crate::text::str_eq(s, "slice") { Token::Slice }
    else if crate::text::str_eq(s, "step") { Token::Step }
    else if crate::text::str_eq(s, "to") { Token::To }
    else if crate::text::str_eq(s, "start") { Token::Start }
    else if crate::text::str_eq(s, "send") { Token::Send }
    else if crate::text::str_eq(s, "send_high") { Token::SendHigh }
    else if crate::text::str_eq(s, "if") { Token::If }
    else if crate::text::str_eq(s, "while") { Token::While }
    else if crate::text::str_eq(s, "true") { Token::True }
    else if crate::text::str_eq(s, "false") { Token::False }
    else { Token::Identifier(w) }
}

/// The string of the characters `cs[i..j]`.
fn text_between(cs: &Vec<char>, i: usize, j: usize) -> (r: String)
    requires
        i <= j <= cs@.len(),
    ensures
        r@ == cs@.subrange(i as int, j as int),
{
    let mut s = String::new();
    let mut k = i;
    while k < j
        invariant
            i <= k <= j <= cs@.len(),
            s@ == cs@.subrange(i as int, k as int),
        decreases j - k,
    {
        push_char(&mut s, cs[k]);
        assert(s@ =~= cs@.subrange(i as int, k + 1));
        k = k + 1;
    }
    s
}

fn is_word_start_char(c: char) -> (r: bool)
    ensures
        r == is_word_start(c),
{
    ('a' <= c && c <= 'z') || ('A' <= c && c <= 'Z') || c == '_'
}

fn is_digit_char(c: char) -> (r: bool)
    ensures
        r == is_digit(c),
{
    '0' <= c && c <= '9'
}

/// A word: a keyword or an identifier.
fn scan_word(cs: &Vec<char>, i: usize) -> (r: (Token, usize))
    requires
        i < cs@.len(),
        is_word_start(cs@[i as int]),
    ensures
        r.0@ == word_token(cs@.subrange(i as int, i + word_run(cs@, i as int))),
        r.1 == word_run(cs@, i as int),
        i + r.1 <= cs@.len(),
{
    let mut j = i;
    while j < cs.len() && (is_word_start_char(cs[j]) || is_digit_char(cs[j]))
        invariant
            i <= j <= cs@.len(),
            word_run(cs@, i as int) == (j - i) + word_run(cs@, j as int),
        decreases cs@.len() - j,
    {
        j = j + 1;
    }
    let w = text_between(cs, i, j);
    (word_token_of(w), j - i)
}

/// A decimal integer, or an unknown token when it does not fit in `i64`.
fn scan_number(cs: &Vec<char>, i: usize) -> (r: (Token, usize))
    requires
        i < cs@.len(),
        is_digit(cs@[i as int]),
    ensures
        (r.0@, r.1 as nat) == scan(cs@, i as int),
        i + r.1 <= cs@.len(),
{
    let mut j = i;
    let mut value: u64 = 0;
    let mut big = false;
    while j < cs.len() && is_digit_char(cs[j])
        invariant
            i <= j <= cs@.len(),
            digit_run(cs@, i as int) == (j - i) + digit_run(cs@, j as int),
            !big ==> value == digits_value(cs@.subrange(i as int, j as int)),
            !big ==> value <= i64::MAX,
            big ==> digits_value(cs@.subrange(i as int, j as int)) > i64::MAX,
        decreases cs@.len() - j,
    {
        let d = (cs[j] as u32 - '0' as u32) as u64;
        assert(cs@.subrange(i as int, j + 1).drop_last() =~= cs@.subrange(i as int, j as int));
        if !big {
            if value > (9223372036854775807u64 - d) / 10 {
                assert(value * 10 + d > 9223372036854775807u64) by (nonlinear_arith)
                    requires
                        value > (9223372036854775807u64 - d) / 10,
                        d <= 9,
                ;
                big = true;
            } else {
                assert(value * 10 + d <= 9223372036854775807u64) by (nonlinear_arith)
                    requires
                        value <= (9223372036854775807u64 - d) / 10,
                        d <= 9,
                ;
                value = value * 10 + d;
            }
        }
        j = j + 1;
    }
    if big {
        (Token::Unknown(cs[i]), j - i)
    } else {
        (Token::IntLiteral(value as i64), j - i)
    }
}

/// A string literal, or an unknown token for a quote that is never closed.
fn scan_text(cs: &Vec<char>, i: usize) -> (r: (Token, usize))
    requires
        i < cs@.len(),
        cs@.len() < usize::MAX,
        cs@[i as int] == '"',
    ensures
        (r.0@, r.1 as nat) == scan(cs@, i as int),
        i + r.1 <= cs@.len(),
{
    let mut j = i + 1;
    while j < cs.len() && cs[j] != '"'
        invariant
            i + 1 <= j <= cs@.len(),
            text_run(cs@, i + 1) == (j - i - 1) + text_run(cs@, j as int),
        decreases cs@.len() - j,
    {
        j = j + 1;
    }
    if j < cs.len() {
        (Token::StringLiteral(text_between(cs, i + 1, j)), j - i + 1)
    } else {
        (Token::Unknown('"'), 1)
    }
}

/// The token that starts at position `i` and how many characters it spans.
fn scan_at(cs: &Vec<char>, i: usize) -> (r: (Token, usize))
    requires
        i < cs@.len(),
        cs@.len() < usize::MAX,
        !is_space(cs@[i as int]),
    ensures
        (r.0@, r.1 as nat) == scan(cs@, i as int),
        1 <= r.1,
        i + r.1 <= cs@.len(),
{
    let c = cs[i];
    let followed_by_eq = i + 1 < cs.len() && cs[i + 1] == '=';
    if is_word_start_char(c) {
        scan_word(cs, i)
    } else if is_digit_char(c) {
        scan_number(cs, i)
    } else if c == '"' {
        scan_text(cs, i)
    } else if c == '=' && followed_by_eq {
        (Token::EqualEqual, 2)
    } else if c == '!' && followed_by_eq {
        (Token::NotEqual, 2)
    } else if c == '<' && followed_by_eq {
        (Token::LTEqual, 2)
    } else if c == '>' && followed_by_eq {
        (Token::GTEqual, 2)
    } else {
        let t = if c == '{' { Token::LBrace }
        else if c == '}' { Token::RBrace }
        else if c == '(' { Token::LParen }
        else if c == ')' { Token::RParen }
        else if c == ':' { Token::Colon }
        else if c == ',' { Token::Comma }
        else if c == '+' { Token::Plus }
        else if c == '-' { Token::Minus }
        else if c == '*' { Token::Asterisk }
        else if c == '/' { Token::Slash }
        else if c == '%' { Token::Modulo }
        else if c == '=' { Token::Equal }
        else if c == '<' { Token::LessThan }
        else if c == '>' { Token::GreaterThan }
        else { Token::Unknown(c) };
        (t, 1)
    }
}

/// Splits source text into tokens, each with its span, ending with `EOF`.
pub fn lex(source: &str) -> (r: Vec<(Token, Span)>)
    requires
        source@.len() < usize::MAX,
    ensures
        tokens_view(r@) == lex_spec(source@),
{
    let cs = chars_of(source);
    let n = cs.len();
    let total = source.as_bytes().len();
    proof {
        lemma_byte_len_utf8(cs@);
    }
    let mut out: Vec<(Token, Span)> = Vec::new();
    let mut i: usize = 0;
    let mut pos: (usize, usize, usize) = (0, 1, 1);
    assert(cs@.take(0) =~= Seq::<char>::empty());
    assert(tokens_view(out@) + lex_from(cs@, 0) =~= lex_from(cs@, 0));
    while i < n
        invariant
            n == cs@.len(),
            n < usize::MAX,
            i <= n,
            byte_len(cs@) == total,
            pos.0 == byte_len(cs@.take(i as int)),
            (pos.1 as nat, pos.2 as nat) == line_col(cs@.take(i as int)),
            tokens_view(out@) + lex_from(cs@, i as int) == lex_from(cs@, 0),
        decreases n - i,
    {
        let c = cs[i];
        if c == ' ' || c == '\t' || c == '\n' || c == '\r' {
            pos = advance_position(&cs, i, i + 1, pos);
            i = i + 1;
        } else {
            let (t, len) = scan_at(&cs, i);
            let end = advance_position(&cs, i, i + len, pos);
            proof {
                lemma_byte_len_concat(cs@.take(i as int), cs@.subrange(i as int, i + len));
                assert(cs@.take(i as int) + cs@.subrange(i as int, i + len) =~= cs@.take(i + len));
            }
            let span = Span { offset: pos.0, len: end.0 - pos.0, line: pos.1, column: pos.2 };
            let ghost before = tokens_view(out@);
            out.push((t, span));
            assert(tokens_view(out@) =~= before.push((t@, span)));
            assert(tokens_view(out@) + lex_from(cs@, i + len) =~= before + (seq![(t@, span)] + lex_from(cs@, i + len)));
            pos = end;
            i = i + len;
        }
    }
    let eof = Span { offset: pos.0, len: 0, line: pos.1, column: pos.2 };
    let ghost before = tokens_view(out@);
    out.push((Token::EOF, eof));
    proof {
        assert(cs@.take(n as int) =~= cs@);
        assert(cs@.subrange(n as int, n as int) =~= Seq::<char>::empty());
        assert(tokens_view(out@) =~= before.push((SpecToken::EOF, eof)));
        assert(tokens_view(out@) =~= before + lex_from(cs@, n as int));
    }
    out
}

} // verus!
