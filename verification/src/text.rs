//! Text primitives that the token codecs share: comparison and prefix
//! removal on string slices, proved over their UTF-8 bytes, and the decimal
//! rendering of integer codes.

use vstd::prelude::*;
use vstd::string::*;
use vstd::utf8::*;

verus! {

/// Encoding a concatenation is concatenating the encodings.
pub proof fn lemma_encode_utf8_concat(a: Seq<char>, b: Seq<char>)
    ensures
        encode_utf8(a + b) == encode_utf8(a) + encode_utf8(b),
    decreases a.len(),
{
    if a.len() == 0 {
        assert(a + b =~= b);
        assert(encode_utf8(a) + encode_utf8(b) =~= encode_utf8(b));
    } else {
        lemma_encode_utf8_concat(a.drop_first(), b);
        assert((a + b).drop_first() =~= a.drop_first() + b);
        assert((a + b)[0] == a[0]);
        assert(encode_utf8(a + b) =~= encode_utf8(a) + encode_utf8(b));
    }
}

/// A valid encoding that continues another valid encoding starts on a
/// character boundary of the whole.
pub proof fn lemma_boundary_after_prefix(head: Seq<u8>, tail: Seq<u8>)
    requires
        valid_utf8(head),
        valid_utf8(head + tail),
    ensures
        is_char_boundary(head + tail, head.len() as int),
    decreases head.len(),
{
    if head.len() != 0 {
        let whole = head + tail;
        let rest = pop_first_scalar(head);
        assert(length_of_first_scalar(whole) == length_of_first_scalar(head));
        assert(pop_first_scalar(whole) =~= rest + tail);
        lemma_boundary_after_prefix(rest, tail);
    }
}

/// Whether two string slices hold the same characters.
pub fn str_eq(a: &str, b: &str) -> (r: bool)
    ensures
        r == (a@ == b@),
{
    let x = a.as_bytes();
    let y = b.as_bytes();
    if x.len() != y.len() {
        return false;
    }
    let mut i: usize = 0;
    while i < x.len()
        invariant
            x@ == a.spec_bytes(),
            y@ == b.spec_bytes(),
            x@.len() == y@.len(),
            i <= x@.len(),
            forall|j: int| 0 <= j < i ==> x@[j] == y@[j],
        decreases x.len() - i,
    {
        if x[i] != y[i] {
            return false;
        }
        i += 1;
    }
    proof {
        assert(x@ =~= y@);
        encode_utf8_decode_utf8(a@);
        encode_utf8_decode_utf8(b@);
    }
    true
}

/// What follows `prefix` in `s`, where `s` begins with `prefix`.
pub fn strip_prefix<'a>(s: &'a str, prefix: &str) -> (r: Option<&'a str>)
    ensures
        match r {
            Some(rest) => s@ == prefix@ + rest@,
            None => !prefix@.is_prefix_of(s@),
        },
{
    let x = s.as_bytes();
    let p = prefix.as_bytes();
    proof {
        if prefix@.is_prefix_of(s@) {
            let tail = s@.subrange(prefix@.len() as int, s@.len() as int);
            assert(s@ =~= prefix@ + tail);
            lemma_encode_utf8_concat(prefix@, tail);
        }
    }
    if x.len() < p.len() {
        return None;
    }
    let mut i: usize = 0;
    while i < p.len()
        invariant
            x@ == s.spec_bytes(),
            p@ == prefix.spec_bytes(),
            p@.len() <= x@.len(),
            i <= p@.len(),
            forall|j: int| 0 <= j < i ==> x@[j] == p@[j],
            prefix@.is_prefix_of(s@) ==> p@.is_prefix_of(x@),
        decreases p.len() - i,
    {
        if x[i] != p[i] {
            return None;
        }
        i += 1;
    }
    let ghost n = p@.len() as int;
    proof {
        let after = x@.subrange(n, x@.len() as int);
        assert(x@ =~= p@ + after);
        encode_utf8_valid_utf8(s@);
        encode_utf8_valid_utf8(prefix@);
        lemma_boundary_after_prefix(p@, after);
    }
    let (_, rest) = s.split_at(p.len());
    proof {
        assert(x@.subrange(0, n) =~= p@);
        decode_utf8_split(x@, n);
        encode_utf8_decode_utf8(s@);
        encode_utf8_decode_utf8(prefix@);
        encode_utf8_decode_utf8(rest@);
    }
    Some(rest)
}

/// The message that turns `input` down: the input itself, then the reason.
pub fn rejection_message(input: &str, reason: &str) -> (e: String)
    ensures
        e@ == input@ + reason@,
{
    let mut e = input.to_owned();
    e.append(reason);
    e
}

/// Whether a character may stand in a canonical token: a lowercase letter,
/// a hyphen or an underscore.
pub open spec fn is_token_char(c: char) -> bool {
    ('a' <= c && c <= 'z') || c == '-' || c == '_'
}

/// Whether a string has the shape of a canonical token: not empty, and made
/// of lowercase letters, hyphens and underscores alone.
pub open spec fn is_token(s: Seq<char>) -> bool {
    s.len() > 0 && forall|i: int| 0 <= i < s.len() ==> is_token_char(#[trigger] s[i])
}

/// Whether `part` occurs in `whole` as a run of consecutive characters.
pub open spec fn occurs_in(part: Seq<char>, whole: Seq<char>) -> bool {
    exists|i: int|
        0 <= i <= whole.len() - part.len() && #[trigger] whole.subrange(i, i + part.len()) == part
}

/// The character of a decimal digit.
pub open spec fn digit_char(d: int) -> char {
    if d == 0 {
        '0'
    } else if d == 1 {
        '1'
    } else if d == 2 {
        '2'
    } else if d == 3 {
        '3'
    } else if d == 4 {
        '4'
    } else if d == 5 {
        '5'
    } else if d == 6 {
        '6'
    } else if d == 7 {
        '7'
    } else if d == 8 {
        '8'
    } else {
        '9'
    }
}

/// The decimal digits of a natural number, most significant first.
pub open spec fn decimal_nat(n: nat) -> Seq<char>
    decreases n,
{
    if n < 10 {
        seq![digit_char(n as int)]
    } else {
        decimal_nat(n / 10).push(digit_char((n % 10) as int))
    }
}

/// The decimal rendering of an integer: a minus sign where it is negative,
/// then the digits of its magnitude.
pub open spec fn decimal(n: int) -> Seq<char> {
    if n < 0 {
        seq!['-'] + decimal_nat((-n) as nat)
    } else {
        decimal_nat(n as nat)
    }
}

/// The one-character text of a decimal digit.
fn digit_str(d: u64) -> (s: &'static str)
    requires
        d < 10,
    ensures
        s@ == seq![digit_char(d as int)],
{
    proof {
        reveal_strlit("0");
        reveal_strlit("1");
        reveal_strlit("2");
        reveal_strlit("3");
        reveal_strlit("4");
        reveal_strlit("5");
        reveal_strlit("6");
        reveal_strlit("7");
        reveal_strlit("8");
        reveal_strlit("9");
    }
    let s = if d == 0 {
        "0"
    } else if d == 1 {
        "1"
    } else if d == 2 {
        "2"
    } else if d == 3 {
        "3"
    } else if d == 4 {
        "4"
    } else if d == 5 {
        "5"
    } else if d == 6 {
        "6"
    } else if d == 7 {
        "7"
    } else if d == 8 {
        "8"
    } else {
        "9"
    };
    assert(s@ =~= seq![digit_char(d as int)]);
    s
}

/// Appends the decimal digits of `n` to `out`.
fn push_decimal(out: &mut String, n: u64)
    ensures
        final(out)@ == old(out)@ + decimal_nat(n as nat),
    decreases n,
{
    if n >= 10 {
        push_decimal(out, n / 10);
    }
    out.append(digit_str(n % 10));
    assert(out@ =~= old(out)@ + decimal_nat(n as nat));
}

/// The decimal rendering of an integer code.
pub fn i32_to_string(n: i32) -> (s: String)
    ensures
        s@ == decimal(n as int),
{
    let mut out = String::new();
    if n < 0 {
        out.append("-");
        proof {
            reveal_strlit("-");
            assert(out@ =~= seq!['-']);
        }
        let wide: i64 = n as i64;
        let magnitude: u64 = (-wide) as u64;
        push_decimal(&mut out, magnitude);
    } else {
        push_decimal(&mut out, n as u64);
        assert(out@ =~= decimal_nat(n as nat));
    }
    out
}

} // verus!
