//! The small JSON dialect that tokens' claims and revocation records are written
//! in: string literals escaped as serde_json escapes them, and unsigned decimal
//! integers. Each reader is the exact inverse of its writer.
use crate::text::{chars_of, push_char};
use vstd::prelude::*;

verus! {

/// The lowercase hexadecimal digit of `n < 16`.
pub open spec fn hex_digit(n: u32) -> char {
    if n < 10 {
        (48 + n) as u8 as char
    } else {
        (87 + n) as u8 as char
    }
}

pub open spec fn is_hex(c: char) -> bool {
    ('0' <= c && c <= '9') || ('a' <= c && c <= 'f')
}

pub open spec fn hex_value(c: char) -> u32 {
    if c <= '9' {
        (c as u32 - 48) as u32
    } else {
        (c as u32 - 87) as u32
    }
}

/// A control character that has no short escape, so is written `\u00XY`.
pub open spec fn needs_unicode_escape(v: int) -> bool {
    v < 0x20 && v != 8 && v != 9 && v != 10 && v != 12 && v != 13
}

/// How one character is written inside a JSON string literal.
pub open spec fn escape_char(c: char) -> Seq<char> {
    if c == '"' {
        seq!['\\', '"']
    } else if c == '\\' {
        seq!['\\', '\\']
    } else if c == '\u{8}' {
        seq!['\\', 'b']
    } else if c == '\u{c}' {
        seq!['\\', 'f']
    } else if c == '\n' {
        seq!['\\', 'n']
    } else if c == '\r' {
        seq!['\\', 'r']
    } else if c == '\t' {
        seq!['\\', 't']
    } else if (c as u32) < 0x20 {
        seq!['\\', 'u', '0', '0', hex_digit((c as u32) / 16), hex_digit((c as u32) % 16)]
    } else {
        seq![c]
    }
}

/// The escaped body of a JSON string literal.
pub open spec fn escape_seq(s: Seq<char>) -> Seq<char>
    decreases s.len(),
{
    if s.len() == 0 {
        Seq::empty()
    } else {
        escape_seq(s.drop_last()) + escape_char(s.last())
    }
}

/// The JSON string literal that holds `s`.
pub open spec fn quoted(s: Seq<char>) -> Seq<char> {
    seq!['"'] + escape_seq(s) + seq!['"']
}

/// The length of the escape sequence that starts at `t[i] == '\\'`; 0 when it
/// is not one `escape_char` writes.
pub open spec fn escape_len_at(t: Seq<char>, i: int) -> int {
    if i + 1 >= t.len() {
        0
    } else {
        let e = t[i + 1];
        if e == '"' || e == '\\' || e == 'b' || e == 'f' || e == 'n' || e == 'r' || e == 't' {
            2
        } else if e == 'u' && i + 5 < t.len() && t[i + 2] == '0' && t[i + 3] == '0' && is_hex(
            t[i + 4],
        ) && is_hex(t[i + 5]) && needs_unicode_escape(hex_value(t[i + 4]) * 16 + hex_value(t[i + 5])) {
            6
        } else {
            0
        }
    }
}

/// The character that the escape sequence at `t[i]` stands for.
pub open spec fn escaped_at(t: Seq<char>, i: int) -> char {
    let e = t[i + 1];
    if e == 'b' {
        '\u{8}'
    } else if e == 'f' {
        '\u{c}'
    } else if e == 'n' {
        '\n'
    } else if e == 'r' {
        '\r'
    } else if e == 't' {
        '\t'
    } else if e == 'u' {
        (hex_value(t[i + 4]) * 16 + hex_value(t[i + 5])) as u8 as char
    } else {
        e
    }
}

/// Reads the rest of a string literal whose opening quote precedes `t[i]`:
/// the characters it holds and the position after its closing quote.
pub open spec fn parse_str_body(t: Seq<char>, i: int) -> Option<(Seq<char>, int)>
    decreases t.len() - i,
{
    if i < 0 || i >= t.len() {
        None
    } else if t[i] == '"' {
        Some((Seq::empty(), i + 1))
    } else if t[i] == '\\' {
        let n = escape_len_at(t, i);
        if n == 0 {
            None
        } else {
            match parse_str_body(t, i + n) {
                None => None,
                Some((s, k)) => Some((seq![escaped_at(t, i)] + s, k)),
            }
        }
    } else if (t[i] as u32) < 0x20 {
        None
    } else {
        match parse_str_body(t, i + 1) {
            None => None,
            Some((s, k)) => Some((seq![t[i]] + s, k)),
        }
    }
}

/// Reads a string literal starting at `t[i]`.
pub open spec fn parse_str(t: Seq<char>, i: int) -> Option<(Seq<char>, int)> {
    if 0 <= i < t.len() && t[i] == '"' {
        parse_str_body(t, i + 1)
    } else {
        None
    }
}

pub open spec fn is_digit(c: char) -> bool {
    '0' <= c && c <= '9'
}

pub open spec fn digit_char(d: nat) -> char {
    (48 + d) as u8 as char
}

/// The decimal numeral of `n`.
pub open spec fn decimal(n: nat) -> Seq<char>
    decreases n,
{
    if n < 10 {
        seq![digit_char(n)]
    } else {
        decimal(n / 10).push(digit_char(n % 10))
    }
}

/// The number that a run of digits denotes.
pub open spec fn digits_value(s: Seq<char>) -> nat
    decreases s.len(),
{
    if s.len() == 0 {
        0
    } else {
        digits_value(s.drop_last()) * 10 + (s.last() as u32 - 48) as nat
    }
}

/// The end of the run of digits that starts at `t[i]`.
pub open spec fn digits_end(t: Seq<char>, i: int) -> int
    decreases t.len() - i,
{
    if 0 <= i < t.len() && is_digit(t[i]) {
        digits_end(t, i + 1)
    } else {
        i
    }
}

/// Reads an unsigned integer that fits in 64 bits, written without leading
/// zeros, starting at `t[i]`.
pub open spec fn parse_num(t: Seq<char>, i: int) -> Option<(nat, int)> {
    let e = digits_end(t, i);
    if e <= i {
        None
    } else if t[i] == '0' && e > i + 1 {
        None
    } else if digits_value(t.subrange(i, e)) > u64::MAX {
        None
    } else {
        Some((digits_value(t.subrange(i, e)), e))
    }
}

/// `lit` stands in `t` at position `i`.
pub open spec fn lit_at(t: Seq<char>, i: int, lit: Seq<char>) -> bool {
    0 <= i && i + lit.len() <= t.len() && t.subrange(i, i + lit.len()) == lit
}

// ---------------------------------------------------------------------------
// Lemmas
pub proof fn lemma_escape_concat(a: Seq<char>, b: Seq<char>)
    ensures
        escape_seq(a + b) == escape_seq(a) + escape_seq(b),
    decreases b.len(),
{
    if b.len() == 0 {
        assert(a + b == a);
    } else {
        lemma_escape_concat(a, b.drop_last());
        assert((a + b).drop_last() == a + b.drop_last());
        assert((a + b).last() == b.last());
    }
}

pub proof fn lemma_escape_front(s: Seq<char>)
    requires
        s.len() > 0,
    ensures
        escape_seq(s) == escape_char(s[0]) + escape_seq(s.drop_first()),
{
    lemma_escape_concat(seq![s[0]], s.drop_first());
    assert(seq![s[0]] + s.drop_first() == s);
    assert(seq![s[0]].drop_last() == Seq::<char>::empty());
    assert(escape_seq(seq![s[0]]) == escape_char(s[0])) by {
        assert(escape_seq(Seq::<char>::empty()) == Seq::<char>::empty());
    }
}

proof fn lemma_escape_char_read(t: Seq<char>, i: int, c: char)
    requires
        0 <= i,
        i + escape_char(c).len() <= t.len(),
        t.subrange(i, i + escape_char(c).len()) == escape_char(c),
    ensures
        escape_char(c).len() == 1 ==> t[i] == c && t[i] != '"' && t[i] != '\\' && (t[i] as u32) >= 0x20,
        escape_char(c).len() > 1 ==> t[i] == '\\' && escape_len_at(t, i) == escape_char(c).len()
            && escaped_at(t, i) == c,
{
    let e = escape_char(c);
    assert forall|k: int| 0 <= k < e.len() implies t[i + k] == e[k] by {
        assert(t.subrange(i, i + e.len())[k] == t[i + k]);
    }
    assert(t[i] == e[0]);
    if (c as u32) < 0x20 && c != '\u{8}' && c != '\u{c}' && c != '\n' && c != '\r' && c != '\t' {
        let v = c as u32;
        assert(needs_unicode_escape(v as int));
        assert(hex_value(hex_digit(v / 16)) == v / 16);
        assert(hex_value(hex_digit(v % 16)) == v % 16);
        assert((v / 16) * 16 + v % 16 == v);
        assert(((v as u8) as char) == c);
    }
}

/// Reading the body of a written string literal gives back its characters.
pub proof fn lemma_str_body_round_trip(pre: Seq<char>, s: Seq<char>, rest: Seq<char>)
    ensures
        parse_str_body(pre + escape_seq(s) + seq!['"'] + rest, pre.len() as int) == Some(
            (s, (pre.len() + escape_seq(s).len() + 1) as int),
        ),
    decreases s.len(),
{
    let t = pre + escape_seq(s) + seq!['"'] + rest;
    let i = pre.len() as int;
    if s.len() == 0 {
        assert(escape_seq(s) == Seq::<char>::empty());
        assert(t[i] == '"');
        assert(s == Seq::<char>::empty());
    } else {
        let c = s[0];
        let s1 = s.drop_first();
        lemma_escape_front(s);
        let pre1 = pre + escape_char(c);
        assert(t == pre1 + escape_seq(s1) + seq!['"'] + rest);
        lemma_str_body_round_trip(pre1, s1, rest);
        assert(t.subrange(i, i + escape_char(c).len()) == escape_char(c));
        lemma_escape_char_read(t, i, c);
        assert(seq![c] + s1 == s);
    }
}

/// Reading a written string literal gives back its characters.
pub proof fn lemma_str_round_trip(pre: Seq<char>, s: Seq<char>, rest: Seq<char>)
    ensures
        parse_str(pre + quoted(s) + rest, pre.len() as int) == Some(
            (s, (pre.len() + quoted(s).len()) as int),
        ),
{
    let t = pre + quoted(s) + rest;
    let pre1 = pre + seq!['"'];
    assert(t == pre1 + escape_seq(s) + seq!['"'] + rest);
    lemma_str_body_round_trip(pre1, s, rest);
    assert(t[pre.len() as int] == '"');
}

proof fn lemma_decimal_digits(n: nat)
    ensures
        decimal(n).len() >= 1,
        forall|k: int| 0 <= k < decimal(n).len() ==> is_digit(#[trigger] decimal(n)[k]),
        digits_value(decimal(n)) == n,
        decimal(n).len() > 1 ==> decimal(n)[0] != '0',
        n >= 10 ==> decimal(n).len() > 1,
    decreases n,
{
    if n >= 10 {
        lemma_decimal_digits(n / 10);
        assert(decimal(n)[0] == decimal(n / 10)[0]);
        if n / 10 < 10 {
            assert(decimal(n / 10)[0] == digit_char(n / 10));
            assert((digit_char(n / 10) as u32) == 48 + n / 10);
        }
        let d = decimal(n);
        assert(d.drop_last() == decimal(n / 10));
        assert(d.last() == digit_char(n % 10));
        assert((digit_char(n % 10) as u32 - 48) as nat == n % 10);
        assert(digits_value(d) == digits_value(d.drop_last()) * 10 + (d.last() as u32 - 48) as nat);
        assert((n / 10) * 10 + n % 10 == n);
    } else {
        assert(decimal(n)[0] == digit_char(n));
        assert(decimal(n).drop_last() == Seq::<char>::empty());
        assert(decimal(n).last() == digit_char(n));
        assert((digit_char(n) as u32 - 48) as nat == n);
        assert(digits_value(decimal(n)) == digits_value(decimal(n).drop_last()) * 10 + (decimal(n).last() as u32 - 48) as nat);
        assert(digits_value(Seq::<char>::empty()) == 0);
    }
}

proof fn lemma_digits_end(t: Seq<char>, i: int, e: int)
    requires
        0 <= i <= e <= t.len(),
        forall|k: int| i <= k < e ==> is_digit(t[k]),
        e == t.len() || !is_digit(t[e]),
    ensures
        digits_end(t, i) == e,
    decreases e - i,
{
    if i < e {
        lemma_digits_end(t, i + 1, e);
    }
}

/// A prefix of a run of digits denotes no more than the whole run.
pub proof fn lemma_digits_value_prefix(s: Seq<char>, k: int)
    requires
        0 <= k <= s.len(),
    ensures
        digits_value(s.take(k)) <= digits_value(s),
    decreases s.len() - k,
{
    if k < s.len() {
        lemma_digits_value_prefix(s, k + 1);
        assert(s.take(k + 1).drop_last() == s.take(k));
    } else {
        assert(s.take(k) == s);
    }
}

/// Reading a written numeral gives back its number.
pub proof fn lemma_num_round_trip(pre: Seq<char>, n: u64, rest: Seq<char>)
    requires
        rest.len() > 0,
        !is_digit(rest[0]),
    ensures
        parse_num(pre + decimal(n as nat) + rest, pre.len() as int) == Some(
            (n as nat, (pre.len() + decimal(n as nat).len()) as int),
        ),
{
    let d = decimal(n as nat);
    let t = pre + d + rest;
    let i = pre.len() as int;
    let e = i + d.len();
    lemma_decimal_digits(n as nat);
    assert forall|k: int| i <= k < e implies is_digit(t[k]) by {
        assert(t[k] == d[k - i]);
    }
    assert(t[e] == rest[0]);
    lemma_digits_end(t, i, e);
    assert(t.subrange(i, e) == d);
}

/// A literal followed by a string literal, read at the position of the first.
pub proof fn lemma_lit_str_step(p: Seq<char>, lit: Seq<char>, s: Seq<char>, rest: Seq<char>)
    ensures
        lit_at(p + (lit + (quoted(s) + rest)), p.len() as int, lit),
        parse_str(p + (lit + (quoted(s) + rest)), (p.len() + lit.len()) as int) == Some(
            (s, (p.len() + lit.len() + quoted(s).len()) as int),
        ),
        p + (lit + (quoted(s) + rest)) == (p + lit + quoted(s)) + rest,
{
    let t = p + (lit + (quoted(s) + rest));
    assert(t == (p + lit) + quoted(s) + rest);
    assert(t.subrange(p.len() as int, (p.len() + lit.len()) as int) == lit);
    lemma_str_round_trip(p + lit, s, rest);
}

/// A literal followed by a numeral, read at the position of the first.
pub proof fn lemma_lit_num_step(p: Seq<char>, lit: Seq<char>, n: u64, rest: Seq<char>)
    requires
        rest.len() > 0,
        !is_digit(rest[0]),
    ensures
        lit_at(p + (lit + (decimal(n as nat) + rest)), p.len() as int, lit),
        parse_num(p + (lit + (decimal(n as nat) + rest)), (p.len() + lit.len()) as int) == Some(
            (n as nat, (p.len() + lit.len() + decimal(n as nat).len()) as int),
        ),
        p + (lit + (decimal(n as nat) + rest)) == (p + lit + decimal(n as nat)) + rest,
{
    let t = p + (lit + (decimal(n as nat) + rest));
    assert(t == (p + lit) + decimal(n as nat) + rest);
    assert(t.subrange(p.len() as int, (p.len() + lit.len()) as int) == lit);
    lemma_num_round_trip(p + lit, n, rest);
}

/// `t` from `a` to its end is `t` from `a` to `b` followed by `t` from `b` on.
pub proof fn lemma_split_tail(t: Seq<char>, a: int, b: int)
    requires
        0 <= a <= b <= t.len(),
    ensures
        t.subrange(a, t.len() as int) == t.subrange(a, b) + t.subrange(b, t.len() as int),
{
    assert(t.subrange(a, t.len() as int) == t.subrange(a, b) + t.subrange(b, t.len() as int));
}

proof fn lemma_escape_read_canonical(t: Seq<char>, i: int)
    requires
        0 <= i < t.len(),
        t[i] == '\\',
        escape_len_at(t, i) > 0,
    ensures
        i + escape_len_at(t, i) <= t.len(),
        t.subrange(i, i + escape_len_at(t, i)) == escape_char(escaped_at(t, i)),
{
    let n = escape_len_at(t, i);
    let c = escaped_at(t, i);
    let e = t[i + 1];
    if e == 'u' && n == 6 {
        let h = t[i + 4];
        let l = t[i + 5];
        let v = (hex_value(h) * 16 + hex_value(l)) as u32;
        assert(hex_value(l) < 16);
        assert(hex_value(h) < 16);
        assert(v / 16 == hex_value(h));
        assert(v % 16 == hex_value(l));
        assert(hex_digit(hex_value(h)) == h);
        assert(hex_digit(hex_value(l)) == l);
        assert(c as u32 == v);
        assert(escape_char(c) == seq!['\\', 'u', '0', '0', h, l]);
        assert(t.subrange(i, i + 6) == seq!['\\', 'u', '0', '0', h, l]);
    } else {
        assert(t.subrange(i, i + 2) == seq!['\\', e]);
    }
}

/// The body of a string literal that `parse_str_body` reads is exactly the
/// escaped text of what it yields, followed by the closing quote.
pub proof fn lemma_str_body_canonical(t: Seq<char>, i: int)
    ensures
        parse_str_body(t, i) matches Some((s, k)) ==> i < k <= t.len() && t.subrange(i, k) == escape_seq(s)
            + seq!['"'],
    decreases t.len() - i,
{
    if 0 <= i < t.len() {
        if t[i] == '"' {
            assert(escape_seq(Seq::<char>::empty()) == Seq::<char>::empty());
            assert(t.subrange(i, i + 1) == seq!['"']);
        } else if t[i] == '\\' {
            let n = escape_len_at(t, i);
            if n > 0 {
                lemma_str_body_canonical(t, i + n);
                if let Some((s1, k)) = parse_str_body(t, i + n) {
                    let c = escaped_at(t, i);
                    let s = seq![c] + s1;
                    lemma_escape_read_canonical(t, i);
                    lemma_escape_front(s);
                    assert(s[0] == c);
                    assert(s.drop_first() == s1);
                    assert(t.subrange(i, k) == t.subrange(i, i + n) + t.subrange(i + n, k));
                }
            }
        } else if (t[i] as u32) >= 0x20 {
            lemma_str_body_canonical(t, i + 1);
            if let Some((s1, k)) = parse_str_body(t, i + 1) {
                let c = t[i];
                let s = seq![c] + s1;
                lemma_escape_front(s);
                assert(s[0] == c);
                assert(s.drop_first() == s1);
                assert(escape_char(c) == seq![c]);
                assert(t.subrange(i, k) == seq![c] + t.subrange(i + 1, k));
            }
        }
    }
}

/// A string literal that `parse_str` reads is exactly the literal that
/// `quoted` writes for what it yields.
pub proof fn lemma_str_canonical(t: Seq<char>, i: int)
    ensures
        parse_str(t, i) matches Some((s, k)) ==> i < k <= t.len() && t.subrange(i, k) == quoted(s),
{
    if 0 <= i < t.len() && t[i] == '"' {
        lemma_str_body_canonical(t, i + 1);
        if let Some((s, k)) = parse_str(t, i) {
            assert(t.subrange(i, k) == seq!['"'] + t.subrange(i + 1, k));
        }
    }
}

proof fn lemma_digits_run(t: Seq<char>, i: int)
    requires
        0 <= i <= t.len(),
    ensures
        i <= digits_end(t, i) <= t.len(),
        forall|k: int| i <= k < digits_end(t, i) ==> is_digit(t[k]),
    decreases t.len() - i,
{
    if i < t.len() && is_digit(t[i]) {
        lemma_digits_run(t, i + 1);
    }
}

proof fn lemma_decimal_of_digits(s: Seq<char>)
    requires
        s.len() >= 1,
        forall|k: int| 0 <= k < s.len() ==> is_digit(#[trigger] s[k]),
        s.len() == 1 || s[0] != '0',
    ensures
        decimal(digits_value(s)) == s,
    decreases s.len(),
{
    let d = (s.last() as u32 - 48) as nat;
    assert(is_digit(s[s.len() - 1]));
    assert(digit_char(d) == s.last());
    if s.len() == 1 {
        assert(s.drop_last() == Seq::<char>::empty());
        assert(digits_value(Seq::<char>::empty()) == 0);
        assert(digits_value(s) == digits_value(s.drop_last()) * 10 + d);
        assert(digits_value(s) == d);
        assert(decimal(d) == seq![s.last()]);
        assert(s == seq![s.last()]);
    } else {
        let s1 = s.drop_last();
        assert(s1[0] == s[0]);
        assert forall|k: int| 0 <= k < s1.len() implies is_digit(#[trigger] s1[k]) by {
            assert(s1[k] == s[k]);
        }
        lemma_decimal_of_digits(s1);
        lemma_digits_value_prefix(s1, 1);
        assert(s1.take(1).drop_last() == Seq::<char>::empty());
        assert(is_digit(s1[0]));
        assert(digits_value(s1.take(1)) >= 1);
        let v = digits_value(s);
        assert(v == digits_value(s1) * 10 + d);
        assert(v >= 10);
        assert(v / 10 == digits_value(s1) && v % 10 == d) by (nonlinear_arith)
            requires
                v == digits_value(s1) * 10 + d,
                d < 10,
        ;
        assert(s1.push(s.last()) == s);
    }
}

/// A number that `parse_num` reads is written exactly as `decimal` writes it.
pub proof fn lemma_num_canonical(t: Seq<char>, i: int)
    ensures
        parse_num(t, i) matches Some((n, k)) ==> i < k <= t.len() && t.subrange(i, k) == decimal(n),
{
    if let Some((n, k)) = parse_num(t, i) {
        lemma_digits_end_ge(t, i);
        if i < 0 || i > t.len() {
            assert(digits_end(t, i) == i);
        } else {
            lemma_digits_run(t, i);
            let run = t.subrange(i, k);
            assert forall|j: int| 0 <= j < run.len() implies is_digit(#[trigger] run[j]) by {
                assert(run[j] == t[i + j]);
            }
            assert(run[0] == t[i]);
            lemma_decimal_of_digits(run);
        }
    }
}

// ---------------------------------------------------------------------------
// Writers
fn hex_char(n: u32) -> (c: char)
    requires
        n < 16,
    ensures
        c == hex_digit(n),
{
    if n < 10 {
        (48 + n as u8) as char
    } else {
        (87 + n as u8) as char
    }
}

/// Appends the JSON string literal holding `s`.
pub fn push_quoted(out: &mut String, s: &str)
    ensures
        final(out)@ == old(out)@ + quoted(s@),
{
    let cs = chars_of(s);
    push_char(out, '"');
    let ghost start = out@;
    let mut i: usize = 0;
    while i < cs.len()
        invariant
            0 <= i <= cs@.len(),
            cs@ == s@,
            out@ == start + escape_seq(cs@.take(i as int)),
        decreases cs@.len() - i,
    {
        let c = cs[i];
        let ghost before = out@;
        if c == '"' {
            push_char(out, '\\');
            push_char(out, '"');
        } else if c == '\\' {
            push_char(out, '\\');
            push_char(out, '\\');
        } else if c == '\u{8}' {
            push_char(out, '\\');
            push_char(out, 'b');
        } else if c == '\u{c}' {
            push_char(out, '\\');
            push_char(out, 'f');
        } else if c == '\n' {
            push_char(out, '\\');
            push_char(out, 'n');
        } else if c == '\r' {
            push_char(out, '\\');
            push_char(out, 'r');
        } else if c == '\t' {
            push_char(out, '\\');
            push_char(out, 't');
        } else if (c as u32) < 0x20 {
            push_char(out, '\\');
            push_char(out, 'u');
            push_char(out, '0');
            push_char(out, '0');
            push_char(out, hex_char((c as u32) / 16));
            push_char(out, hex_char((c as u32) % 16));
        } else {
            push_char(out, c);
        }
        assert(out@ == before + escape_char(c));
        assert(cs@.take(i + 1).drop_last() == cs@.take(i as int));
        assert(cs@.take(i + 1).last() == c);
        i = i + 1;
    }
    assert(cs@.take(cs@.len() as int) == cs@);
    push_char(out, '"');
}

/// Appends the decimal numeral of `n`.
pub fn push_decimal(out: &mut String, n: u64)
    ensures
        final(out)@ == old(out)@ + decimal(n as nat),
    decreases n,
{
    if n >= 10 {
        push_decimal(out, n / 10);
    }
    let d: u8 = (n % 10) as u8;
    push_char(out, (48 + d) as char);
}

// ---------------------------------------------------------------------------
// Readers
/// The position after `lit` when it stands in `t` at position `i`.
pub fn match_lit(t: &Vec<char>, i: usize, lit: &str) -> (r: Option<usize>)
    ensures
        match r {
            Some(j) => lit_at(t@, i as int, lit@) && j == i + lit@.len(),
            None => !lit_at(t@, i as int, lit@),
        },
{
    let l = chars_of(lit);
    if i > t.len() || l.len() > t.len() - i {
        return None;
    }
    let mut k: usize = 0;
    while k < l.len()
        invariant
            l@ == lit@,
            i as int + l@.len() <= t.len() as int,
            0 <= k <= l@.len(),
            forall|j: int| 0 <= j < k ==> t@[i + j] == l@[j],
        decreases l@.len() - k,
    {
        if t[i + k] != l[k] {
            assert(t@.subrange(i as int, i + l@.len())[k as int] != l@[k as int]);
            return None;
        }
        k = k + 1;
    }
    assert(t@.subrange(i as int, i + l@.len()) == l@);
    Some(i + l.len())
}

fn hex_val(c: char) -> (r: u32)
    requires
        is_hex(c),
    ensures
        r == hex_value(c),
        r < 16,
{
    if c <= '9' {
        (c as u32) - 48
    } else {
        (c as u32) - 87
    }
}

fn is_hex_exec(c: char) -> (r: bool)
    ensures
        r == is_hex(c),
{
    ('0' <= c && c <= '9') || ('a' <= c && c <= 'f')
}

/// Reads a string literal starting at `t[i]`.
pub fn read_str(t: &Vec<char>, i: usize) -> (r: Option<(Vec<char>, usize)>)
    ensures
        match (r, parse_str(t@, i as int)) {
            (None, None) => true,
            (Some((s, k)), Some((u, j))) => s@ == u && k == j,
            _ => false,
        },
{
    if i >= t.len() || t[i] != '"' {
        return None;
    }
    let mut acc: Vec<char> = Vec::new();
    let mut p: usize = i + 1;
    while p < t.len()
        invariant
            i < p <= t@.len(),
            parse_str(t@, i as int) == match parse_str_body(t@, p as int) {
                None => None,
                Some((s, k)) => Some((acc@ + s, k)),
            },
        decreases t@.len() - p,
    {
        let c = t[p];
        if c == '"' {
            assert(acc@ + Seq::<char>::empty() == acc@);
            return Some((acc, p + 1));
        } else if c == '\\' {
            if p + 1 >= t.len() {
                return None;
            }
            let e = t[p + 1];
            if e == '"' || e == '\\' || e == 'b' || e == 'f' || e == 'n' || e == 'r' || e == 't' {
                let d = if e == 'b' {
                    '\u{8}'
                } else if e == 'f' {
                    '\u{c}'
                } else if e == 'n' {
                    '\n'
                } else if e == 'r' {
                    '\r'
                } else if e == 't' {
                    '\t'
                } else {
                    e
                };
                assert(d == escaped_at(t@, p as int));
                proof {
                    assert forall|s: Seq<char>| #[trigger] (acc@.push(d) + s) == acc@ + (seq![d] + s) by {
                    }
                }
                acc.push(d);
                p = p + 2;
            } else if e == 'u' && t.len() - p > 5 && t[p + 2] == '0' && t[p + 3] == '0'
                && is_hex_exec(t[p + 4]) && is_hex_exec(t[p + 5]) && {
                let v: u32 = hex_val(t[p + 4]) * 16 + hex_val(t[p + 5]);
                v < 0x20 && v != 8 && v != 9 && v != 10 && v != 12 && v != 13
            } {
                let v: u32 = hex_val(t[p + 4]) * 16 + hex_val(t[p + 5]);
                let d = (v as u8) as char;
                assert(d == escaped_at(t@, p as int));
                proof {
                    assert forall|s: Seq<char>| #[trigger] (acc@.push(d) + s) == acc@ + (seq![d] + s) by {
                    }
                }
                acc.push(d);
                p = p + 6;
            } else {
                return None;
            }
        } else if (c as u32) < 0x20 {
            return None;
        } else {
            proof {
                assert forall|s: Seq<char>| #[trigger] (acc@.push(c) + s) == acc@ + (seq![c] + s) by {
                }
            }
            acc.push(c);
            p = p + 1;
        }
    }
    None
}

/// Reads an unsigned integer that fits in 64 bits starting at `t[i]`.
pub fn read_num(t: &Vec<char>, i: usize) -> (r: Option<(u64, usize)>)
    ensures
        match (r, parse_num(t@, i as int)) {
            (None, None) => true,
            (Some((v, k)), Some((w, j))) => v == w && k == j,
            _ => false,
        },
{
    let mut v: u64 = 0;
    let mut p: usize = i;
    while p < t.len() && '0' <= t[p] && t[p] <= '9'
        invariant
            i <= p <= t@.len() || (p == i && i > t@.len()),
            digits_end(t@, i as int) == digits_end(t@, p as int),
            p > i ==> v == digits_value(t@.subrange(i as int, p as int)),
            p == i ==> v == 0,
        decreases t@.len() - p,
    {
        let d = (t[p] as u32 - 48) as u64;
        proof {
            assert(digits_end(t@, p as int) == digits_end(t@, p + 1));
            assert(t@.subrange(i as int, p + 1).drop_last() == t@.subrange(i as int, p as int));
            assert(t@.subrange(i as int, p + 1).last() == t@[p as int]);
            assert(digits_value(t@.subrange(i as int, p + 1)) == digits_value(
                t@.subrange(i as int, p as int),
            ) * 10 + (t@[p as int] as u32 - 48) as nat);
            if p == i {
                assert(t@.subrange(i as int, p as int) == Seq::<char>::empty());
            }
        }
        if v > (u64::MAX - d) / 10 {
            proof {
                let e = digits_end(t@, i as int);
                lemma_digits_end_ge(t@, p + 1);
                let run = t@.subrange(i as int, e);
                assert(run.take(p + 1 - i) == t@.subrange(i as int, p + 1));
                assert(v * 10 + d > u64::MAX) by (nonlinear_arith)
                    requires
                        v > (u64::MAX - d) / 10,
                        d <= 9,
                ;
                lemma_digits_value_prefix(run, p + 1 - i);
            }
            return None;
        }
        v = v * 10 + d;
        p = p + 1;
    }
    if p == i {
        return None;
    }
    if p > i + 1 && t[i] == '0' {
        return None;
    }
    Some((v, p))
}

proof fn lemma_digits_end_ge(t: Seq<char>, i: int)
    ensures
        digits_end(t, i) >= i,
        0 <= i <= t.len() ==> digits_end(t, i) <= t.len(),
    decreases t.len() - i,
{
    if 0 <= i < t.len() && is_digit(t[i]) {
        lemma_digits_end_ge(t, i + 1);
    }
}

} // verus!
