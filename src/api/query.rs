//! Writing a value into a query string so that it stays one value.
use vstd::prelude::*;

verus! {

/// Whether `c` may stand in a query value as it is: a letter, a digit or one of `-._~`.
pub open spec fn is_unreserved(c: char) -> bool {
    ('a' <= c <= 'z') || ('A' <= c <= 'Z') || ('0' <= c <= '9') || c == '-' || c == '.' || c
        == '_' || c == '~'
}

/// The upper-case hexadecimal digit of `n`, for `n` below 16.
pub open spec fn hex_digit(n: int) -> char {
    seq!['0', '1', '2', '3', '4', '5', '6', '7', '8', '9', 'A', 'B', 'C', 'D', 'E', 'F'][n]
}

/// How `c` is written in a query value: as it is where it is unreserved or beyond ASCII (the
/// URL parser encodes those), else as `%` and the two hexadecimal digits of its code.
pub open spec fn encoded_char(c: char) -> Seq<char> {
    if is_unreserved(c) || (c as u32) >= 128 {
        seq![c]
    } else {
        seq!['%', hex_digit((c as u32) as int / 16), hex_digit((c as u32) as int % 16)]
    }
}

/// How `s` is written in a query value.
pub open spec fn query_encoded(s: Seq<char>) -> Seq<char>
    decreases s.len(),
{
    if s.len() == 0 {
        Seq::empty()
    } else {
        query_encoded(s.drop_last()) + encoded_char(s.last())
    }
}

/// Whether `c` separates the parts of a query string or ends it.
pub open spec fn is_query_delimiter(c: char) -> bool {
    c == '&' || c == '=' || c == '#' || c == '+' || c == ';'
}

/// Whether `c` may stand in a query value as it is.
fn unreserved(c: char) -> (r: bool)
    ensures
        r == is_unreserved(c),
{
    ('a' <= c && c <= 'z') || ('A' <= c && c <= 'Z') || ('0' <= c && c <= '9') || c == '-' || c
        == '.' || c == '_' || c == '~'
}

/// Writes `s` as a query value.
pub fn encode_query_value(s: &str) -> (r: String)
    ensures
        r@ == query_encoded(s@),
{
    let hex: &str = "0123456789ABCDEF";
    let percent: &str = "%";
    proof {
        reveal_strlit("0123456789ABCDEF");
        reveal_strlit("%");
        assert(hex@ =~= seq!['0', '1', '2', '3', '4', '5', '6', '7', '8', '9', 'A', 'B', 'C', 'D', 'E', 'F']);
    }
    let n = s.unicode_len();
    let mut r = String::new();
    let mut i: usize = 0;
    assert(s@.subrange(0, 0) =~= Seq::<char>::empty());
    while i < n
        invariant
            n == s@.len(),
            i <= n,
            hex@ =~= seq!['0', '1', '2', '3', '4', '5', '6', '7', '8', '9', 'A', 'B', 'C', 'D', 'E', 'F'],
            percent@ == seq!['%'],
            r@ == query_encoded(s@.subrange(0, i as int)),
        decreases n - i,
    {
        let c = s.get_char(i);
        let code = c as u32;
        let ghost before = r@;
        if unreserved(c) || code >= 128 {
            r.append(s.substring_char(i, i + 1));
            assert(s@.subrange(i as int, i + 1) =~= seq![c]);
        } else {
            let hi = (code / 16) as usize;
            let lo = (code % 16) as usize;
            r.append(percent);
            r.append(hex.substring_char(hi, hi + 1));
            r.append(hex.substring_char(lo, lo + 1));
            assert(hex@.subrange(hi as int, hi + 1) =~= seq![hex_digit(hi as int)]);
            assert(hex@.subrange(lo as int, lo + 1) =~= seq![hex_digit(lo as int)]);
        }
        assert(s@.subrange(0, i + 1).drop_last() =~= s@.subrange(0, i as int));
        assert(r@ =~= before + encoded_char(c));
        i = i + 1;
    }
    assert(s@.subrange(0, n as int) =~= s@);
    r
}

/// A value written with `encode_query_value` holds none of the characters that separate the
/// parts of a query string, so it reads back as one value.
pub proof fn lemma_encoded_has_no_delimiter(s: Seq<char>)
    ensures
        forall|i: int| 0 <= i < query_encoded(s).len() ==> !is_query_delimiter(#[trigger] query_encoded(s)[i]),
    decreases s.len(),
{
    if s.len() > 0 {
        lemma_encoded_has_no_delimiter(s.drop_last());
        let p = query_encoded(s.drop_last());
        let e = encoded_char(s.last());
        assert(forall|i: int| 0 <= i < e.len() ==> !is_query_delimiter(#[trigger] e[i]));
        assert forall|i: int| 0 <= i < query_encoded(s).len() implies !is_query_delimiter(
            #[trigger] query_encoded(s)[i],
        ) by {
            if i < p.len() {
                assert(query_encoded(s)[i] == p[i]);
            } else {
                assert(query_encoded(s)[i] == e[i - p.len()]);
            }
        }
    }
}

} // verus!
