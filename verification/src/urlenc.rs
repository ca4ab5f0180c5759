//! Percent-encoding of query parameter values, and the spec-level model of
//! the URLs the engine builds.
//!
//! A character in the unreserved set stands for itself; every other character
//! is written as one `%XY` triple per byte of its UTF-8 encoding, with
//! upper-case hexadecimal digits.

use vstd::prelude::*;

verus! {

/// The unreserved URL alphabet: these characters are never escaped.
pub open spec fn is_unreserved(c: char) -> bool {
    ('A' <= c && c <= 'Z') || ('a' <= c && c <= 'z') || ('0' <= c && c <= '9') || c == '-' || c
        == '.' || c == '_' || c == '~'
}

/// Upper-case hexadecimal digit for a value below 16.
pub open spec fn hex_char(n: u8) -> char {
    if n == 0 {
        '0'
    } else if n == 1 {
        '1'
    } else if n == 2 {
        '2'
    } else if n == 3 {
        '3'
    } else if n == 4 {
        '4'
    } else if n == 5 {
        '5'
    } else if n == 6 {
        '6'
    } else if n == 7 {
        '7'
    } else if n == 8 {
        '8'
    } else if n == 9 {
        '9'
    } else if n == 10 {
        'A'
    } else if n == 11 {
        'B'
    } else if n == 12 {
        'C'
    } else if n == 13 {
        'D'
    } else if n == 14 {
        'E'
    } else {
        'F'
    }
}

/// The UTF-8 bytes of the code point `cp`.
pub open spec fn utf8_bytes(cp: u32) -> Seq<u8> {
    if cp < 0x80 {
        seq![cp as u8]
    } else if cp < 0x800 {
        seq![(0xC0 + cp / 0x40) as u8, (0x80 + cp % 0x40) as u8]
    } else if cp < 0x10000 {
        seq![(0xE0 + cp / 0x1000) as u8, (0x80 + (cp / 0x40) % 0x40) as u8, (0x80 + cp % 0x40) as u8]
    } else {
        seq![
            (0xF0 + cp / 0x40000) as u8,
            (0x80 + (cp / 0x1000) % 0x40) as u8,
            (0x80 + (cp / 0x40) % 0x40) as u8,
            (0x80 + cp % 0x40) as u8,
        ]
    }
}

/// The `%XY` escape of one byte.
pub open spec fn pct_byte(b: u8) -> Seq<char> {
    seq!['%', hex_char(b / 16), hex_char(b % 16)]
}

/// The escapes of a sequence of bytes, concatenated.
pub open spec fn pct_bytes(bs: Seq<u8>) -> Seq<char>
    decreases bs.len(),
{
    if bs.len() == 0 {
        Seq::empty()
    } else {
        pct_bytes(bs.drop_last()) + pct_byte(bs.last())
    }
}

/// The encoding of one character.
pub open spec fn enc_char(c: char) -> Seq<char> {
    if is_unreserved(c) {
        seq![c]
    } else {
        pct_bytes(utf8_bytes(c as u32))
    }
}

/// The percent-encoding of a string of characters.
pub open spec fn enc(s: Seq<char>) -> Seq<char>
    decreases s.len(),
{
    if s.len() == 0 {
        Seq::empty()
    } else {
        enc(s.drop_last()) + enc_char(s.last())
    }
}

/// A string of unreserved characters passes through the encoder unchanged.
pub proof fn lemma_enc_unreserved_identity(s: Seq<char>)
    requires
        forall|i: int| 0 <= i < s.len() ==> is_unreserved(#[trigger] s[i]),
    ensures
        enc(s) == s,
    decreases s.len(),
{
    if s.len() == 0 {
        assert(enc(s) =~= s);
    } else {
        lemma_enc_unreserved_identity(s.drop_last());
        assert(enc_char(s.last()) == seq![s.last()]);
        assert(enc(s) =~= s);
    }
}

/// The scopes joined by single spaces, in the order given.
pub open spec fn join_spaces(scopes: Seq<Seq<char>>) -> Seq<char>
    decreases scopes.len(),
{
    if scopes.len() == 0 {
        Seq::empty()
    } else if scopes.len() == 1 {
        scopes.last()
    } else {
        join_spaces(scopes.drop_last()) + seq![' '] + scopes.last()
    }
}

/// Whether the base URL already carries a query part.
pub open spec fn has_query(s: Seq<char>) -> bool {
    exists|i: int| 0 <= i < s.len() && s[i] == '?'
}

/// The separator with which a query parameter is appended to `base`.
pub open spec fn query_sep(base: Seq<char>) -> Seq<char> {
    if has_query(base) {
        seq!['&']
    } else {
        seq!['?']
    }
}

fn hex_char_exec(n: u8) -> (c: char)
    requires
        n < 16,
    ensures
        c == hex_char(n),
{
    match n {
        0 => '0',
        1 => '1',
        2 => '2',
        3 => '3',
        4 => '4',
        5 => '5',
        6 => '6',
        7 => '7',
        8 => '8',
        9 => '9',
        10 => 'A',
        11 => 'B',
        12 => 'C',
        13 => 'D',
        14 => 'E',
        _ => 'F',
    }
}

fn push_pct_byte(out: &mut Vec<char>, b: u8)
    ensures
        final(out)@ == old(out)@ + pct_byte(b),
{
    out.push('%');
    out.push(hex_char_exec(b / 16));
    out.push(hex_char_exec(b % 16));
    assert(out@ =~= old(out)@ + pct_byte(b));
}

fn is_unreserved_exec(c: char) -> (r: bool)
    ensures
        r == is_unreserved(c),
{
    ('A' <= c && c <= 'Z') || ('a' <= c && c <= 'z') || ('0' <= c && c <= '9') || c == '-' || c
        == '.' || c == '_' || c == '~'
}

proof fn lemma_pct_bytes_singleton(b: u8)
    ensures
        pct_bytes(seq![b]) == pct_byte(b),
{
    assert(seq![b].drop_last() =~= Seq::<u8>::empty());
    assert(pct_bytes(Seq::<u8>::empty()) =~= Seq::<char>::empty());
    assert(pct_bytes(seq![b]) =~= pct_byte(b));
}

proof fn lemma_pct_bytes_push(bs: Seq<u8>, b: u8)
    ensures
        pct_bytes(bs.push(b)) == pct_bytes(bs) + pct_byte(b),
{
    assert(bs.push(b).len() != 0);
    assert(bs.push(b).drop_last() =~= bs);
    assert(bs.push(b).last() == b);
}

fn push_enc_char(out: &mut Vec<char>, c: char)
    ensures
        final(out)@ == old(out)@ + enc_char(c),
{
    if is_unreserved_exec(c) {
        out.push(c);
        assert(out@ =~= old(out)@ + enc_char(c));
    } else {
        let cp: u32 = c as u32;
        if cp < 0x80 {
            push_pct_byte(out, cp as u8);
            proof {
                assert(utf8_bytes(cp) =~= seq![cp as u8]);
                lemma_pct_bytes_singleton(cp as u8);
                assert(out@ =~= old(out)@ + enc_char(c));
            }
        } else if cp < 0x800 {
            assert(cp / 0x40 < 0x20 && cp % 0x40 < 0x40) by (nonlinear_arith)
                requires
                    cp < 0x800,
            ;
            let b0: u8 = (0xC0 + cp / 0x40) as u8;
            let b1: u8 = (0x80 + cp % 0x40) as u8;
            push_pct_byte(out, b0);
            push_pct_byte(out, b1);
            proof {
                assert(utf8_bytes(cp) =~= seq![b0].push(b1));
                lemma_pct_bytes_singleton(b0);
                lemma_pct_bytes_push(seq![b0], b1);
                assert(out@ =~= old(out)@ + enc_char(c));
            }
        } else if cp < 0x10000 {
            assert(cp / 0x1000 < 0x10 && (cp / 0x40) % 0x40 < 0x40 && cp % 0x40 < 0x40)
                by (nonlinear_arith)
                requires
                    cp < 0x10000,
            ;
            let b0: u8 = (0xE0 + cp / 0x1000) as u8;
            let b1: u8 = (0x80 + (cp / 0x40) % 0x40) as u8;
            let b2: u8 = (0x80 + cp % 0x40) as u8;
            push_pct_byte(out, b0);
            push_pct_byte(out, b1);
            push_pct_byte(out, b2);
            proof {
                assert(utf8_bytes(cp) =~= seq![b0].push(b1).push(b2));
                lemma_pct_bytes_singleton(b0);
                lemma_pct_bytes_push(seq![b0], b1);
                lemma_pct_bytes_push(seq![b0].push(b1), b2);
                assert(out@ =~= old(out)@ + enc_char(c));
            }
        } else {
            assert(cp / 0x40000 < 0x8 && (cp / 0x1000) % 0x40 < 0x40 && (cp / 0x40) % 0x40 < 0x40
                && cp % 0x40 < 0x40) by (nonlinear_arith)
                requires
                    cp < 0x200000,
            ;
            let b0: u8 = (0xF0 + cp / 0x40000) as u8;
            let b1: u8 = (0x80 + (cp / 0x1000) % 0x40) as u8;
            let b2: u8 = (0x80 + (cp / 0x40) % 0x40) as u8;
            let b3: u8 = (0x80 + cp % 0x40) as u8;
            push_pct_byte(out, b0);
            push_pct_byte(out, b1);
            push_pct_byte(out, b2);
            push_pct_byte(out, b3);
            proof {
                assert(utf8_bytes(cp) =~= seq![b0].push(b1).push(b2).push(b3));
                lemma_pct_bytes_singleton(b0);
                lemma_pct_bytes_push(seq![b0], b1);
                lemma_pct_bytes_push(seq![b0].push(b1), b2);
                lemma_pct_bytes_push(seq![b0].push(b1).push(b2), b3);
                assert(out@ =~= old(out)@ + enc_char(c));
            }
        }
    }
}

/// Relies on `str::chars` and `Iterator::collect`: the characters of the
/// string, in order.
#[verifier::external_body]
fn str_chars(s: &str) -> (r: Vec<char>)
    ensures
        r@ == s@,
{
    s.chars().collect()
}

/// Relies on `Iterator::collect` for `String`: the string made of exactly
/// the given characters, in order.
#[verifier::external_body]
fn chars_string(v: &Vec<char>) -> (r: String)
    ensures
        r@ == v@,
{
    v.iter().collect()
}

/// Append the percent-encoding of `s` to `out`.
pub fn push_encoded(out: &mut Vec<char>, s: &str)
    ensures
        final(out)@ == old(out)@ + enc(s@),
{
    let cs = str_chars(s);
    let n = cs.len();
    let mut i: usize = 0;
    while i < n
        invariant
            n == cs.len(),
            cs@ == s@,
            i <= n,
            out@ == old(out)@ + enc(s@.take(i as int)),
        decreases n - i,
    {
        push_enc_char(out, cs[i]);
        proof {
            assert(s@.take(i + 1).drop_last() =~= s@.take(i as int));
            assert(s@.take(i + 1).last() == s@[i as int]);
        }
        i = i + 1;
    }
    proof {
        assert(s@.take(n as int) =~= s@);
    }
}

/// Append the characters of `s` itself to `out`.
pub fn push_str_chars(out: &mut Vec<char>, s: &str)
    ensures
        final(out)@ == old(out)@ + s@,
{
    let cs = str_chars(s);
    let n = cs.len();
    let mut i: usize = 0;
    while i < n
        invariant
            n == cs.len(),
            cs@ == s@,
            i <= n,
            out@ == old(out)@ + s@.take(i as int),
        decreases n - i,
    {
        out.push(cs[i]);
        proof {
            assert(out@ =~= old(out)@ + s@.take(i + 1));
        }
        i = i + 1;
    }
    proof {
        assert(s@.take(n as int) =~= s@);
    }
}

/// The views of a sequence of strings.
pub open spec fn scope_views(s: Seq<String>) -> Seq<Seq<char>> {
    Seq::new(s.len(), |i: int| s[i]@)
}

/// Append the scopes joined by single spaces.
pub fn push_joined(out: &mut Vec<char>, scopes: &Vec<String>)
    ensures
        final(out)@ == old(out)@ + join_spaces(scope_views(scopes@)),
{
    let ghost views = scope_views(scopes@);
    let n = scopes.len();
    let mut i: usize = 0;
    while i < n
        invariant
            n == scopes.len(),
            views == scope_views(scopes@),
            i <= n,
            out@ == old(out)@ + join_spaces(views.take(i as int)),
        decreases n - i,
    {
        if i > 0 {
            out.push(' ');
        }
        push_str_chars(out, scopes[i].as_str());
        proof {
            assert(views.take(i + 1).drop_last() =~= views.take(i as int));
            assert(views.take(i + 1).last() == views[i as int]);
            if i == 0 {
                assert(join_spaces(views.take(1)) == views[0]);
                assert(out@ =~= old(out)@ + join_spaces(views.take(1)));
            } else {
                assert(out@ =~= old(out)@ + join_spaces(views.take(i + 1)));
            }
        }
        i = i + 1;
    }
    proof {
        assert(views.take(n as int) =~= views);
    }
}

/// Whether `s` contains a `?`, deciding how a query parameter is appended.
pub fn has_query_exec(s: &str) -> (r: bool)
    ensures
        r == has_query(s@),
{
    let cs = str_chars(s);
    let n = cs.len();
    let mut i: usize = 0;
    while i < n
        invariant
            n == cs.len(),
            cs@ == s@,
            i <= n,
            forall|j: int| 0 <= j < i ==> s@[j] != '?',
        decreases n - i,
    {
        if cs[i] == '?' {
            return true;
        }
        i = i + 1;
    }
    false
}

/// Append the query separator: `&` if `s` already has a query, else `?`.
pub fn push_query_sep(out: &mut Vec<char>, s: &str)
    ensures
        final(out)@ == old(out)@ + query_sep(s@),
{
    if has_query_exec(s) {
        out.push('&');
        assert(out@ =~= old(out)@ + query_sep(s@));
    } else {
        out.push('?');
        assert(out@ =~= old(out)@ + query_sep(s@));
    }
}

/// Turn the accumulated characters into a `String`.
pub fn finish(out: Vec<char>) -> (r: String)
    ensures
        r@ == out@,
{
    chars_string(&out)
}

} // verus!
