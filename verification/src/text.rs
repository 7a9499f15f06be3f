//! Text helpers shared by the pipeline and the status pages: decimal
//! notation for integers and the last path segment of a topic.

use vstd::prelude::*;
use vstd::string::*;
use vstd::utf8::encode_utf8_decode_utf8;

verus! {

/// The character that writes the digit `d`, for `0 <= d <= 9`.
pub open spec fn digit_char(d: int) -> char {
    if d == 0 {
        '0'
    } else if d == 1 {
        '1'
    } else if d == 2 {
        '2'
    } else if d == 3 {
        '3'
    } else if d == 4 {
        '4'
    } else if d == 5 {
        '5'
    } else if d == 6 {
        '6'
    } else if d == 7 {
        '7'
    } else if d == 8 {
        '8'
    } else {
        '9'
    }
}

/// Decimal notation of a natural number, most significant digit first,
/// without leading zeros (`0` is written "0").
pub open spec fn nat_decimal(n: nat) -> Seq<char>
    decreases n,
{
    if n < 10 {
        seq![digit_char(n as int)]
    } else {
        nat_decimal(n / 10).push(digit_char((n % 10) as int))
    }
}

/// Decimal notation of an integer: a minus sign in front of the digits of
/// a negative number, no sign otherwise.
pub open spec fn int_decimal(i: int) -> Seq<char> {
    if i < 0 {
        seq!['-'] + nat_decimal((-i) as nat)
    } else {
        nat_decimal(i as nat)
    }
}

/// Position of the last `/` in `s`, or `-1` where `s` holds none.
pub open spec fn last_slash(s: Seq<char>) -> int
    decreases s.len(),
{
    if s.len() == 0 {
        -1
    } else if s.last() == '/' {
        s.len() - 1
    } else {
        last_slash(s.drop_last())
    }
}

/// What follows the last `/` of `s`; the whole of `s` where it holds none.
pub open spec fn last_segment(s: Seq<char>) -> Seq<char> {
    s.subrange(last_slash(s) + 1, s.len() as int)
}

/// `last_slash` is the greatest position of a `/`: nothing after it is one.
pub proof fn lemma_last_slash(s: Seq<char>)
    ensures
        -1 <= last_slash(s) < s.len(),
        last_slash(s) >= 0 ==> s[last_slash(s)] == '/',
        forall|i: int| last_slash(s) < i < s.len() ==> s[i] != '/',
    decreases s.len(),
{
    if s.len() > 0 && s.last() != '/' {
        let head = s.drop_last();
        lemma_last_slash(head);
        assert forall|i: int| last_slash(s) < i < s.len() implies s[i] != '/' by {
            if i < head.len() {
                assert(head[i] == s[i]);
            }
        }
    }
}

/// The last segment holds no `/`, is a suffix of the text, and is either the
/// whole text or stands right behind a `/`.
pub proof fn lemma_last_segment(s: Seq<char>)
    ensures
        forall|i: int| 0 <= i < last_segment(s).len() ==> last_segment(s)[i] != '/',
        s == s.subrange(0, last_slash(s) + 1) + last_segment(s),
        last_slash(s) == -1 ==> last_segment(s) == s,
        last_slash(s) >= 0 ==> s[last_slash(s)] == '/',
{
    lemma_last_slash(s);
    assert(s =~= s.subrange(0, last_slash(s) + 1) + last_segment(s));
    if last_slash(s) == -1 {
        assert(last_segment(s) =~= s);
    }
}

/// One decimal digit as text.
fn digit_text(d: u8) -> (r: &'static str)
    requires
        d < 10,
    ensures
        r@ == seq![digit_char(d as int)],
{
    proof {
        reveal_strlit("0");
        reveal_strlit("1");
        reveal_strlit("2");
        reveal_strlit("3");
        reveal_strlit("4");
        reveal_strlit("5");
        reveal_strlit("6");
        reveal_strlit("7");
        reveal_strlit("8");
        reveal_strlit("9");
    }
    let r = if d == 0 {
        "0"
    } else if d == 1 {
        "1"
    } else if d == 2 {
        "2"
    } else if d == 3 {
        "3"
    } else if d == 4 {
        "4"
    } else if d == 5 {
        "5"
    } else if d == 6 {
        "6"
    } else if d == 7 {
        "7"
    } else if d == 8 {
        "8"
    } else {
        "9"
    };
    assert(r@ =~= seq![digit_char(d as int)]);
    r
}

/// Appends the decimal notation of `n` to `out`.
pub fn push_nat(out: &mut String, n: u64)
    ensures
        final(out)@ == old(out)@ + nat_decimal(n as nat),
    decreases n,
{
    if n >= 10 {
        push_nat(out, n / 10);
    }
    let d: u8 = (n % 10) as u8;
    out.append(digit_text(d));
    assert(out@ =~= old(out)@ + nat_decimal(n as nat));
}

/// Appends the decimal notation of `v` to `out`.
pub fn push_int(out: &mut String, v: i64)
    ensures
        final(out)@ == old(out)@ + int_decimal(v as int),
{
    if v < 0 {
        proof {
            reveal_strlit("-");
        }
        out.append("-");
        let magnitude: u64 = ((-(v + 1)) as u64) + 1;
        push_nat(out, magnitude);
        assert(out@ =~= old(out)@ + int_decimal(v as int));
    } else {
        push_nat(out, v as u64);
    }
}

/// The decimal notation of `v`.
pub fn int_to_string(v: i64) -> (r: String)
    ensures
        r@ == int_decimal(v as int),
{
    let mut out = String::new();
    push_int(&mut out, v);
    assert(out@ =~= int_decimal(v as int));
    out
}

/// The last path segment of `topic`: what follows its last `/`, or the
/// whole topic where it holds none. A topic that ends in `/` has an empty
/// last segment.
pub fn final_segment(topic: &str) -> (r: String)
    ensures
        r@ == last_segment(topic@),
{
    let n = topic.unicode_len();
    let mut i = n;
    assert(topic@.subrange(0, n as int) =~= topic@);
    while i > 0 && topic.get_char(i - 1) != '/'
        invariant
            i <= n,
            n == topic@.len(),
            last_slash(topic@) == last_slash(topic@.subrange(0, i as int)),
        decreases i,
    {
        proof {
            let head = topic@.subrange(0, i as int);
            assert(head.last() == topic@[i - 1]);
            assert(head.drop_last() =~= topic@.subrange(0, i - 1));
        }
        i = i - 1;
    }
    proof {
        let head = topic@.subrange(0, i as int);
        if i > 0 {
            assert(head.last() == topic@[i - 1]);
        }
        assert(last_slash(head) == i - 1);
    }
    String::from_str(topic.substring_char(i, n))
}

/// Whether two texts are the same, character for character.
pub fn text_eq(a: &str, b: &str) -> (r: bool)
    ensures
        r == (a@ == b@),
{
    let x = a.as_bytes();
    let y = b.as_bytes();
    proof {
        // Two texts with the same bytes decode to the same characters.
        encode_utf8_decode_utf8(a@);
        encode_utf8_decode_utf8(b@);
    }
    if x.len() != y.len() {
        return false;
    }
    let mut i: usize = 0;
    while i < x.len()
        invariant
            i <= x.len(),
            x.len() == y.len(),
            x@ == a.spec_bytes(),
            y@ == b.spec_bytes(),
            forall|j: int| 0 <= j < i ==> x@[j] == y@[j],
        decreases x.len() - i,
    {
        if x[i] != y[i] {
            return false;
        }
        i = i + 1;
    }
    assert(x@ =~= y@);
    true
}

} // verus!
