use vstd::prelude::*;
use crate::hex::hex_digit;
use crate::hex::hex_digit_char;
use crate::text::push_char;

verus! {

/// Whether a character may stand unencoded in a URL query component: an
/// ASCII digit or letter, or one of the unreserved marks '-', '_', '.', '~'.
pub open spec fn query_safe(c: char) -> bool {
    ('0' <= c && c <= '9') || ('a' <= c && c <= 'z') || ('A' <= c && c <= 'Z')
        || c == '-' || c == '_' || c == '.' || c == '~'
}

/// The query-string rendering of one ASCII character: itself when safe,
/// otherwise a percent escape of its code point.
pub open spec fn encode_char(c: char) -> Seq<char> {
    if query_safe(c) {
        seq![c]
    } else {
        seq!['%', hex_digit(c as int / 16), hex_digit(c as int % 16)]
    }
}

/// The percent-encoded form of an ASCII character sequence.
pub open spec fn query_encode(s: Seq<char>) -> Seq<char>
    decreases s.len(),
{
    if s.len() == 0 {
        Seq::<char>::empty()
    } else {
        query_encode(s.drop_last()) + encode_char(s.last())
    }
}

/// Percent-encodes an ASCII string for use in a URL query component.
pub fn percent_encode_query(s: &str) -> (r: String)
    requires
        forall|k: int| 0 <= k < s@.len() ==> (#[trigger] s@[k] as int) < 128,
    ensures
        r@ == query_encode(s@),
{
    let n = s.unicode_len();
    let mut out = String::new();
    let mut i: usize = 0;
    while i < n
        invariant
            n == s@.len(),
            i <= n,
            forall|k: int| 0 <= k < s@.len() ==> (#[trigger] s@[k] as int) < 128,
            out@ == query_encode(s@.take(i as int)),
        decreases n - i,
    {
        let c = s.get_char(i);
        let v = c as u32;
        let safe = (48 <= v && v <= 57) || (97 <= v && v <= 122) || (65 <= v && v <= 90)
            || v == 45 || v == 95 || v == 46 || v == 126;
        assert(safe == query_safe(c));
        if safe {
            push_char(&mut out, c);
        } else {
            let b = v as u8;
            assert(b as int == c as int);
            push_char(&mut out, '%');
            push_char(&mut out, hex_digit_char(b / 16));
            push_char(&mut out, hex_digit_char(b % 16));
        }
        proof {
            let pre = s@.take(i as int);
            let cur = s@.take(i + 1int);
            assert(cur.drop_last() =~= pre);
            assert(cur.last() == s@[i as int]);
            assert(out@ =~= query_encode(cur));
        }
        i += 1;
    }
    proof {
        assert(s@.take(s@.len() as int) =~= s@);
    }
    out
}

} // verus!
