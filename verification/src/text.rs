//! Text helpers shared by the modules of the crate.

use vstd::prelude::*;
use vstd::string::StringExecFns;
use vstd::string::StringSliceAdditionalSpecFns;
use vstd::utf8::{
    char_u32_cast, encode_scalar, encode_utf8, encode_utf8_decode_utf8, encode_utf8_first_scalar,
};

verus! {

/// The concatenation of two strings.
pub fn concat(a: &str, b: &str) -> (r: String)
    ensures
        r@ == a@ + b@,
{
    let mut r = String::from_str(a);
    r.append(b);
    r
}

/// Whether two byte strings hold the same bytes.
pub fn bytes_equal(a: &[u8], b: &[u8]) -> (r: bool)
    ensures
        r == (a@ == b@),
{
    if a.len() != b.len() {
        return false;
    }
    let mut i: usize = 0;
    while i < a.len()
        invariant
            a.len() == b.len(),
            i <= a.len(),
            forall|j: int| 0 <= j < i ==> a@[j] == b@[j],
        decreases a.len() - i,
    {
        if a[i] != b[i] {
            return false;
        }
        i += 1;
    }
    assert(a@ =~= b@);
    true
}

/// Whether two strings hold the same text.
pub fn equal(a: &str, b: &str) -> (r: bool)
    ensures
        r == (a@ == b@),
{
    proof {
        encode_utf8_decode_utf8(a@);
        encode_utf8_decode_utf8(b@);
    }
    bytes_equal(a.as_bytes(), b.as_bytes())
}

/// Whether a byte string begins with another.
pub fn bytes_start_with(whole: &[u8], prefix: &[u8]) -> (r: bool)
    ensures
        r == prefix@.is_prefix_of(whole@),
{
    if prefix.len() > whole.len() {
        return false;
    }
    let mut i: usize = 0;
    while i < prefix.len()
        invariant
            prefix.len() <= whole.len(),
            i <= prefix.len(),
            forall|j: int| 0 <= j < i ==> prefix@[j] == whole@[j],
        decreases prefix.len() - i,
    {
        if prefix[i] != whole[i] {
            assert(whole@.subrange(0, prefix@.len() as int)[i as int] != prefix@[i as int]);
            return false;
        }
        i += 1;
    }
    assert(prefix@ =~= whole@.subrange(0, prefix@.len() as int));
    true
}

/// A text begins with another exactly where its UTF-8 bytes begin with the bytes of the
/// other.
pub proof fn prefix_of_text_is_prefix_of_bytes(prefix: Seq<char>, whole: Seq<char>)
    ensures
        prefix.is_prefix_of(whole) <==> encode_utf8(prefix).is_prefix_of(encode_utf8(whole)),
    decreases prefix.len(),
{
    let bp = encode_utf8(prefix);
    let bw = encode_utf8(whole);
    if prefix.len() == 0 {
        assert(bp =~= bw.subrange(0, 0));
        assert(prefix =~= whole.subrange(0, 0));
    } else {
        let head = encode_scalar(prefix[0] as u32);
        let first = head.len() as int;
        let rest_p = prefix.drop_first();
        assert(bp == head + encode_utf8(rest_p));
        assert(1 <= first <= 4);
        if whole.len() == 0 {
            assert(bw.len() == 0);
        } else {
            let rest_w = whole.drop_first();
            let head_w = encode_scalar(whole[0] as u32);
            assert(bw == head_w + encode_utf8(rest_w));
            assert(encode_utf8(rest_p) =~= bp.subrange(first, bp.len() as int));
            assert(encode_utf8(rest_w) =~= bw.subrange(head_w.len() as int, bw.len() as int));
            prefix_of_text_is_prefix_of_bytes(rest_p, rest_w);
            encode_utf8_first_scalar(prefix);
            encode_utf8_first_scalar(whole);
            if prefix.is_prefix_of(whole) {
                assert(prefix[0] == whole.subrange(0, prefix.len() as int)[0]);
                assert(rest_p =~= rest_w.subrange(0, rest_p.len() as int)) by {
                    assert forall|i: int| 0 <= i < rest_p.len() implies rest_p[i]
                        == rest_w.subrange(0, rest_p.len() as int)[i] by {
                        assert(prefix[i + 1] == whole.subrange(0, prefix.len() as int)[i + 1]);
                    }
                }
                assert(bp =~= bw.subrange(0, bp.len() as int)) by {
                    assert forall|i: int| 0 <= i < bp.len() implies bp[i] == bw[i] by {
                        if i >= first {
                            assert(encode_utf8(rest_p)[i - first] == encode_utf8(
                                rest_w,
                            ).subrange(0, encode_utf8(rest_p).len() as int)[i - first]);
                        }
                    }
                }
            }
            if bp.is_prefix_of(bw) {
                assert forall|i: int| 0 <= i < bp.len() implies bp[i] == bw[i] by {
                    assert(bp[i] == bw.subrange(0, bp.len() as int)[i]);
                }
                assert(bp[0] == bw[0]);
                assert(first == head_w.len());
                if first >= 2 {
                    assert(bp[1] == bw[1]);
                }
                if first >= 3 {
                    assert(bp[2] == bw[2]);
                }
                if first >= 4 {
                    assert(bp[3] == bw[3]);
                }
                assert(prefix[0] as u32 == whole[0] as u32);
                char_u32_cast(prefix[0], prefix[0] as u32);
                char_u32_cast(whole[0], whole[0] as u32);
                assert(prefix[0] == whole[0]);
                assert(encode_utf8(rest_p) =~= encode_utf8(rest_w).subrange(
                    0,
                    encode_utf8(rest_p).len() as int,
                )) by {
                    assert forall|i: int| 0 <= i < encode_utf8(rest_p).len() implies encode_utf8(
                        rest_p,
                    )[i] == encode_utf8(rest_w)[i] by {
                        assert(bp[i + first] == bw[i + first]);
                    }
                }
                assert(rest_p.is_prefix_of(rest_w));
                assert(prefix =~= whole.subrange(0, prefix.len() as int)) by {
                    assert forall|i: int| 0 <= i < prefix.len() implies prefix[i] == whole[i] by {
                        if i > 0 {
                            assert(rest_p[i - 1] == rest_w.subrange(0, rest_p.len() as int)[i
                                - 1]);
                        }
                    }
                }
            }
        }
    }
}

/// Whether a text begins with another.
pub fn starts_with(whole: &str, prefix: &str) -> (r: bool)
    ensures
        r == prefix@.is_prefix_of(whole@),
{
    proof {
        prefix_of_text_is_prefix_of_bytes(prefix@, whole@);
    }
    bytes_start_with(whole.as_bytes(), prefix.as_bytes())
}

/// The lexicographic order of byte strings: the first byte in which two strings differ
/// decides, and a string comes before every string that it is a proper beginning of.
pub open spec fn bytes_lt(a: Seq<u8>, b: Seq<u8>) -> bool
    decreases a.len(),
{
    if b.len() == 0 {
        false
    } else if a.len() == 0 {
        true
    } else if a[0] != b[0] {
        a[0] < b[0]
    } else {
        bytes_lt(a.drop_first(), b.drop_first())
    }
}

/// No byte string comes before itself.
pub proof fn bytes_lt_is_irreflexive(a: Seq<u8>)
    ensures
        !bytes_lt(a, a),
    decreases a.len(),
{
    if a.len() > 0 {
        bytes_lt_is_irreflexive(a.drop_first());
    }
}

/// Of two byte strings that differ, one comes before the other.
pub proof fn bytes_lt_is_total(a: Seq<u8>, b: Seq<u8>)
    ensures
        a == b || bytes_lt(a, b) || bytes_lt(b, a),
        !(bytes_lt(a, b) && bytes_lt(b, a)),
    decreases a.len(),
{
    if a.len() == 0 || b.len() == 0 {
        if a.len() == 0 && b.len() == 0 {
            assert(a =~= b);
        }
    } else if a[0] == b[0] {
        bytes_lt_is_total(a.drop_first(), b.drop_first());
        if a.drop_first() == b.drop_first() {
            assert(a =~= seq![a[0]] + a.drop_first());
            assert(b =~= seq![b[0]] + b.drop_first());
        }
    }
}

/// The order of byte strings is transitive.
pub proof fn bytes_lt_is_transitive(a: Seq<u8>, b: Seq<u8>, c: Seq<u8>)
    requires
        bytes_lt(a, b),
        bytes_lt(b, c),
    ensures
        bytes_lt(a, c),
    decreases a.len(),
{
    if a.len() > 0 && b.len() > 0 && c.len() > 0 {
        if a[0] == b[0] && b[0] == c[0] {
            bytes_lt_is_transitive(a.drop_first(), b.drop_first(), c.drop_first());
        }
    }
}

/// Whether a byte string comes before another in lexicographic order.
pub fn bytes_less(a: &[u8], b: &[u8]) -> (r: bool)
    ensures
        r == bytes_lt(a@, b@),
{
    let mut i: usize = 0;
    assert(a@.skip(0) =~= a@ && b@.skip(0) =~= b@);
    while i < a.len() && i < b.len()
        invariant
            i <= a.len(),
            i <= b.len(),
            bytes_lt(a@, b@) == bytes_lt(a@.skip(i as int), b@.skip(i as int)),
        decreases a.len() - i,
    {
        let ghost ra = a@.skip(i as int);
        let ghost rb = b@.skip(i as int);
        assert(ra[0] == a@[i as int] && rb[0] == b@[i as int]);
        assert(ra.drop_first() =~= a@.skip(i + 1) && rb.drop_first() =~= b@.skip(i + 1));
        if a[i] != b[i] {
            return a[i] < b[i];
        }
        i += 1;
    }
    i < b.len()
}

/// The character that stands for a decimal digit.
pub open spec fn digit(d: int) -> char {
    if d == 0 {
        '0'
    } else if d == 1 {
        '1'
    } else if d == 2 {
        '2'
    } else if d == 3 {
        '3'
    } else if d == 4 {
        '4'
    } else if d == 5 {
        '5'
    } else if d == 6 {
        '6'
    } else if d == 7 {
        '7'
    } else if d == 8 {
        '8'
    } else {
        '9'
    }
}

/// A natural number in decimal, most significant digit first, without leading zeros.
pub open spec fn decimal(n: nat) -> Seq<char>
    decreases n,
{
    if n < 10 {
        seq![digit(n as int)]
    } else {
        decimal(n / 10).push(digit((n % 10) as int))
    }
}

/// An integer in decimal, with a minus sign in front of a negative one.
pub open spec fn signed_decimal(n: int) -> Seq<char> {
    if n < 0 {
        seq!['-'] + decimal((-n) as nat)
    } else {
        decimal(n as nat)
    }
}

fn digit_text(d: u64) -> (text: &'static str)
    requires
        d < 10,
    ensures
        text@ == seq![digit(d as int)],
{
    proof {
        reveal_strlit("0");
        reveal_strlit("1");
        reveal_strlit("2");
        reveal_strlit("3");
        reveal_strlit("4");
        reveal_strlit("5");
        reveal_strlit("6");
        reveal_strlit("7");
        reveal_strlit("8");
        reveal_strlit("9");
    }
    let text = if d == 0 {
        "0"
    } else if d == 1 {
        "1"
    } else if d == 2 {
        "2"
    } else if d == 3 {
        "3"
    } else if d == 4 {
        "4"
    } else if d == 5 {
        "5"
    } else if d == 6 {
        "6"
    } else if d == 7 {
        "7"
    } else if d == 8 {
        "8"
    } else {
        "9"
    };
    assert(text@ =~= seq![digit(d as int)]);
    text
}

/// Writes a number in decimal.
pub fn to_decimal(n: u64) -> (text: String)
    ensures
        text@ == decimal(n as nat),
    decreases n,
{
    if n < 10 {
        String::from_str(digit_text(n))
    } else {
        let mut text = to_decimal(n / 10);
        text.append(digit_text(n % 10));
        text
    }
}

/// Writes an integer in decimal, with a minus sign in front of a negative one.
pub fn to_signed_decimal(n: i64) -> (text: String)
    ensures
        text@ == signed_decimal(n as int),
{
    if n < 0 {
        let magnitude: u64 = if n == i64::MIN {
            9_223_372_036_854_775_808u64
        } else {
            (-n) as u64
        };
        proof {
            reveal_strlit("-");
            assert("-"@ =~= seq!['-']);
        }
        let digits = to_decimal(magnitude);
        concat("-", digits.as_str())
    } else {
        to_decimal(n as u64)
    }
}

} // verus!
