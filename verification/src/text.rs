//! Plain-text helpers the renderer is built on: trailing-whitespace
//! trimming, uniform line indentation, decimal formatting of integers,
//! and a substring-containment predicate.

use vstd::prelude::*;

verus! {

/// The characters treated as whitespace when a body is trimmed.
pub open spec fn is_ws(c: char) -> bool {
    c == ' ' || c == '\t' || c == '\r' || c == '\n'
}

/// `s` with its trailing whitespace removed.
pub open spec fn trim_end_spec(s: Seq<char>) -> Seq<char>
    decreases s.len(),
{
    if s.len() > 0 && is_ws(s.last()) {
        trim_end_spec(s.drop_last())
    } else {
        s
    }
}

fn is_ws_char(c: char) -> (b: bool)
    ensures
        b == is_ws(c),
{
    c == ' ' || c == '\t' || c == '\r' || c == '\n'
}

proof fn lemma_trim_end_step(s: Seq<char>, j: int)
    requires
        0 <= j < s.len(),
        is_ws(s[j]),
    ensures
        trim_end_spec(s.take(j + 1)) == trim_end_spec(s.take(j)),
{
    assert(s.take(j + 1).last() == s[j]);
    assert(s.take(j + 1).drop_last() =~= s.take(j));
}

/// Remove the trailing whitespace of `s`.
pub fn trim_end(s: &str) -> (r: String)
    ensures
        r@ == trim_end_spec(s@),
{
    let len: usize = s.unicode_len();
    let mut j: usize = len;
    proof {
        assert(s@.take(len as int) =~= s@);
    }
    while j > 0 && is_ws_char(s.get_char(j - 1))
        invariant
            j <= len,
            len == s@.len(),
            trim_end_spec(s@) == trim_end_spec(s@.take(j as int)),
        decreases j,
    {
        proof {
            lemma_trim_end_step(s@, j - 1);
        }
        j = j - 1;
    }
    let r = s.substring_char(0, j);
    proof {
        assert(s@.subrange(0, j as int) =~= s@.take(j as int));
        if j > 0 {
            assert(s@.take(j as int).last() == s@[j - 1]);
        }
        assert(trim_end_spec(s@.take(j as int)) == s@.take(j as int));
    }
    r.to_owned()
}

/// `s` rewritten so that `pad` follows every newline; together with the
/// leading `pad` of `indent_spec` this indents every line uniformly.
pub open spec fn indent_tail(s: Seq<char>, pad: Seq<char>) -> Seq<char>
    decreases s.len(),
{
    if s.len() == 0 {
        Seq::empty()
    } else {
        indent_tail(s.drop_last(), pad) + seq![s.last()]
            + (if s.last() == '\n' { pad } else { Seq::empty() })
    }
}

/// Every line of `s` prefixed with `pad`; empty text stays empty.
pub open spec fn indent_spec(s: Seq<char>, pad: Seq<char>) -> Seq<char> {
    if s.len() == 0 {
        Seq::empty()
    } else {
        pad + indent_tail(s, pad)
    }
}

/// Indenting is invisible exactly on empty text, and indented text
/// always begins with the pad.
pub proof fn lemma_indent_empty_iff(s: Seq<char>, pad: Seq<char>)
    ensures
        indent_spec(s, pad).len() == 0 <==> s.len() == 0,
        s.len() > 0 ==> indent_spec(s, pad).take(pad.len() as int) == pad,
    decreases s.len(),
{
    if s.len() > 0 {
        lemma_indent_tail_len(s, pad);
        assert((pad + indent_tail(s, pad)).take(pad.len() as int) =~= pad);
    }
}

proof fn lemma_indent_tail_len(s: Seq<char>, pad: Seq<char>)
    ensures
        indent_tail(s, pad).len() >= s.len(),
    decreases s.len(),
{
    if s.len() > 0 {
        lemma_indent_tail_len(s.drop_last(), pad);
    }
}

/// Prefix `pad` to every line of `s`; the empty text is returned unchanged.
pub fn indent(s: &str, pad: &str) -> (r: String)
    ensures
        r@ == indent_spec(s@, pad@),
{
    let mut out = String::new();
    let len: usize = s.unicode_len();
    if len == 0 {
        proof {
            assert(out@ =~= indent_spec(s@, pad@));
        }
        return out;
    }
    out.append(pad);
    let mut i: usize = 0;
    while i < len
        invariant
            i <= len,
            len == s@.len(),
            out@ == pad@ + indent_tail(s@.take(i as int), pad@),
        decreases len - i,
    {
        let c = s.get_char(i);
        let piece = s.substring_char(i, i + 1);
        out.append(piece);
        if c == '\n' {
            out.append(pad);
        }
        proof {
            assert(s@.take(i + 1).drop_last() =~= s@.take(i as int));
            assert(s@.take(i + 1).last() == s@[i as int]);
            assert(piece@ =~= seq![s@[i as int]]);
            assert(out@ =~= pad@ + indent_tail(s@.take(i + 1), pad@));
        }
        i = i + 1;
    }
    proof {
        assert(s@.take(len as int) =~= s@);
    }
    out
}

/// The decimal digit character for `d`.
pub open spec fn digit_char(d: nat) -> char {
    if d == 0 {
        '0'
    } else if d == 1 {
        '1'
    } else if d == 2 {
        '2'
    } else if d == 3 {
        '3'
    } else if d == 4 {
        '4'
    } else if d == 5 {
        '5'
    } else if d == 6 {
        '6'
    } else if d == 7 {
        '7'
    } else if d == 8 {
        '8'
    } else {
        '9'
    }
}

/// The decimal digits of `n`, most significant first.
pub open spec fn dec_nat(n: nat) -> Seq<char>
    decreases n,
{
    if n < 10 {
        seq![digit_char(n)]
    } else {
        dec_nat(n / 10).push(digit_char(n % 10))
    }
}

/// The decimal form of `i`, with a leading minus sign when negative.
pub open spec fn dec_int(i: int) -> Seq<char> {
    if i < 0 {
        seq!['-'] + dec_nat((-i) as nat)
    } else {
        dec_nat(i as nat)
    }
}

fn digit_str(d: u64) -> (r: &'static str)
    requires
        d < 10,
    ensures
        r@ == seq![digit_char(d as nat)],
{
    let r: &'static str = match d {
        0 => "0",
        1 => "1",
        2 => "2",
        3 => "3",
        4 => "4",
        5 => "5",
        6 => "6",
        7 => "7",
        8 => "8",
        _ => "9",
    };
    proof {
        reveal_strlit("0");
        reveal_strlit("1");
        reveal_strlit("2");
        reveal_strlit("3");
        reveal_strlit("4");
        reveal_strlit("5");
        reveal_strlit("6");
        reveal_strlit("7");
        reveal_strlit("8");
        reveal_strlit("9");
        assert(r@ =~= seq![digit_char(d as nat)]);
    }
    r
}

/// Write `n` in decimal.
pub fn dec_u64(n: u64) -> (r: String)
    ensures
        r@ == dec_nat(n as nat),
    decreases n,
{
    if n < 10 {
        digit_str(n).to_owned()
    } else {
        let mut r = dec_u64(n / 10);
        r.append(digit_str(n % 10));
        proof {
            assert(r@ =~= dec_nat((n / 10) as nat).push(digit_char((n % 10) as nat)));
        }
        r
    }
}

/// Write `i` in decimal, with a minus sign when negative.
pub fn dec_i64(i: i64) -> (r: String)
    ensures
        r@ == dec_int(i as int),
{
    if i < 0 {
        let mag: u64 = (-(i as i128)) as u64;
        let mut r = "-".to_owned();
        let digits = dec_u64(mag);
        r.append(digits.as_str());
        proof {
            reveal_strlit("-");
            assert(r@ =~= dec_int(i as int));
        }
        r
    } else {
        dec_u64(i as u64)
    }
}

/// `needle` occurs somewhere inside `hay`.
pub open spec fn contains_seq(hay: Seq<char>, needle: Seq<char>) -> bool {
    exists|i: int|
        0 <= i && i + needle.len() <= hay.len() && #[trigger] hay.subrange(i, i + needle.len())
            == needle
}

/// A concatenation contains its middle part.
pub proof fn lemma_concat_contains_middle(a: Seq<char>, x: Seq<char>, b: Seq<char>)
    ensures
        contains_seq(a + x + b, x),
{
    let h = a + x + b;
    assert(h.subrange(a.len() as int, a.len() + x.len() as int) =~= x);
}

} // verus!
