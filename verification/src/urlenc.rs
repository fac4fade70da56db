//! The query-string grammar of the loopback callback URL: splitting a
//! request target into path and query, percent-decoding, and looking up a
//! query parameter by name.

use vstd::prelude::*;

use crate::httpmsg::bytes_range;
use crate::httpmsg::clamped_find;
use crate::httpmsg::find_from;
use crate::httpmsg::lemma_find_from_at;

verus! {

pub const BYTE_PERCENT: u8 = 37;

pub const BYTE_PLUS: u8 = 43;

pub const BYTE_AMP: u8 = 38;

pub const BYTE_EQ: u8 = 61;

pub const BYTE_QMARK: u8 = 63;

pub open spec fn is_hex_byte(x: u8) -> bool {
    (48 <= x <= 57) || (97 <= x <= 102) || (65 <= x <= 70)
}

pub open spec fn hex_val(x: u8) -> nat {
    if 48 <= x <= 57 {
        (x - 48) as nat
    } else if 97 <= x <= 102 {
        (x - 87) as nat
    } else if 65 <= x <= 70 {
        (x - 55) as nat
    } else {
        0
    }
}

/// Percent-decoding as a form-encoded query component: `%XY` with two hex
/// digits becomes one byte, `+` becomes a space, and anything else passes
/// through unchanged.
pub open spec fn pct_decoded(b: Seq<u8>) -> Seq<u8>
    decreases b.len(),
{
    if b.len() == 0 {
        Seq::empty()
    } else if b[0] == BYTE_PERCENT && b.len() >= 3 && is_hex_byte(b[1]) && is_hex_byte(b[2]) {
        seq![(hex_val(b[1]) * 16 + hex_val(b[2])) as u8] + pct_decoded(b.skip(3))
    } else if b[0] == BYTE_PLUS {
        seq![32u8] + pct_decoded(b.skip(1))
    } else {
        seq![b[0]] + pct_decoded(b.skip(1))
    }
}

fn hex_digit_value(x: u8) -> (r: Option<u8>)
    ensures
        r is Some <==> is_hex_byte(x),
        r matches Option::Some(v) ==> v == hex_val(x),
{
    if 48 <= x && x <= 57 {
        Option::Some(x - 48)
    } else if 97 <= x && x <= 102 {
        Option::Some(x - 87)
    } else if 65 <= x && x <= 70 {
        Option::Some(x - 55)
    } else {
        Option::None
    }
}

/// Percent-decodes one query component.
pub fn percent_decode(b: &[u8]) -> (r: Vec<u8>)
    ensures
        r@ == pct_decoded(b@),
{
    let len = b.len();
    let mut out: Vec<u8> = Vec::new();
    let mut i: usize = 0;
    proof {
        assert(b@.skip(0) == b@);
    }
    while i < len
        invariant
            len == b@.len(),
            0 <= i <= len,
            out@ + pct_decoded(b@.skip(i as int)) == pct_decoded(b@),
        decreases len - i,
    {
        let ghost rest = b@.skip(i as int);
        let x = b[i];
        if x == BYTE_PERCENT && len - i > 2 {
            let h = hex_digit_value(b[i + 1]);
            let l = hex_digit_value(b[i + 2]);
            match (h, l) {
                (Option::Some(hv), Option::Some(lv)) => {
                    proof {
                        assert(rest[0] == BYTE_PERCENT);
                        assert(rest[1] == b@[i + 1]);
                        assert(rest[2] == b@[i + 2]);
                        assert(rest.skip(3) == b@.skip(i + 3));
                    }
                    out.push(hv * 16 + lv);
                    i += 3;
                },
                _ => {
                    proof {
                        assert(rest.skip(1) == b@.skip(i + 1));
                    }
                    out.push(x);
                    i += 1;
                },
            }
        } else if x == BYTE_PLUS {
            proof {
                assert(rest[0] == BYTE_PLUS);
                assert(rest.skip(1) == b@.skip(i + 1));
            }
            out.push(32);
            i += 1;
        } else {
            proof {
                assert(rest[0] == x);
                assert(rest.skip(1) == b@.skip(i + 1));
                if x == BYTE_PERCENT {
                    assert(!(rest.len() >= 3 && is_hex_byte(rest[1]) && is_hex_byte(rest[2])));
                }
            }
            out.push(x);
            i += 1;
        }
    }
    proof {
        assert(b@.skip(len as int) =~= Seq::<u8>::empty());
    }
    out
}

/// Splits a request target at the first `?` into path and query; a target
/// without `?` has an empty query.
pub open spec fn target_path(t: Seq<u8>) -> Seq<u8> {
    t.take(clamped_find(t, 0, |x: u8| x == BYTE_QMARK))
}

pub open spec fn target_query(t: Seq<u8>) -> Seq<u8> {
    let q = clamped_find(t, 0, |x: u8| x == BYTE_QMARK);
    if q >= t.len() {
        Seq::empty()
    } else {
        t.skip(q + 1)
    }
}

/// Splits a request target into its path and query parts.
pub fn split_target(t: &[u8]) -> (r: (Vec<u8>, Vec<u8>))
    ensures
        r.0@ == target_path(t@),
        r.1@ == target_query(t@),
{
    let len = t.len();
    let mut i: usize = 0;
    while i < len && t[i] != BYTE_QMARK
        invariant
            len == t@.len(),
            0 <= i <= len,
            forall|j: int| 0 <= j < i ==> !(t@[j] == BYTE_QMARK),
        decreases len - i,
    {
        i += 1;
    }
    proof {
        lemma_find_from_at(t@, 0, i as int, |x: u8| x == BYTE_QMARK);
    }
    let path = bytes_range(t, 0, i);
    let query = if i < len {
        bytes_range(t, i + 1, len)
    } else {
        Vec::new()
    };
    proof {
        if i < len {
            assert(query@ == t@.skip(i + 1));
        } else {
            assert(query@ =~= Seq::<u8>::empty());
        }
    }
    (path, query)
}

/// The decoded value of the first query pair whose decoded key equals
/// `name`, scanning `&`-separated pairs from position `i`; a pair without
/// `=` has an empty value.
pub open spec fn query_param_from(q: Seq<u8>, i: int, name: Seq<u8>) -> Option<Seq<u8>>
    decreases q.len() - i,
{
    if i < 0 || i >= q.len() {
        Option::None
    } else {
        let e = clamped_find(q, i, |x: u8| x == BYTE_AMP);
        let pair = q.subrange(i, e);
        let eq = clamped_find(pair, 0, |x: u8| x == BYTE_EQ);
        let key = pct_decoded(pair.take(eq));
        let value = if eq >= pair.len() {
            Seq::<u8>::empty()
        } else {
            pct_decoded(pair.skip(eq + 1))
        };
        if key == name {
            Option::Some(value)
        } else if e >= q.len() {
            Option::None
        } else {
            query_param_from(q, e + 1, name)
        }
    }
}

pub open spec fn query_param_spec(q: Seq<u8>, name: Seq<u8>) -> Option<Seq<u8>> {
    query_param_from(q, 0, name)
}

fn scan_amp(q: &[u8], start: usize) -> (r: usize)
    requires
        start <= q@.len(),
    ensures
        r == clamped_find(q@, start as int, |x: u8| x == BYTE_AMP),
        start <= r <= q@.len(),
{
    let len = q.len();
    let mut i: usize = start;
    while i < len && q[i] != BYTE_AMP
        invariant
            len == q@.len(),
            start <= i <= len,
            forall|j: int| start <= j < i ==> !(q@[j] == BYTE_AMP),
        decreases len - i,
    {
        i += 1;
    }
    proof {
        lemma_find_from_at(q@, start as int, i as int, |x: u8| x == BYTE_AMP);
    }
    i
}

fn scan_eq(q: &[u8], start: usize) -> (r: usize)
    requires
        start <= q@.len(),
    ensures
        r == clamped_find(q@, start as int, |x: u8| x == BYTE_EQ),
        start <= r <= q@.len(),
{
    let len = q.len();
    let mut i: usize = start;
    while i < len && q[i] != BYTE_EQ
        invariant
            len == q@.len(),
            start <= i <= len,
            forall|j: int| start <= j < i ==> !(q@[j] == BYTE_EQ),
        decreases len - i,
    {
        i += 1;
    }
    proof {
        lemma_find_from_at(q@, start as int, i as int, |x: u8| x == BYTE_EQ);
    }
    i
}

/// Compares two byte strings.
pub fn bytes_eq(a: &[u8], b: &[u8]) -> (r: bool)
    ensures
        r == (a@ == b@),
{
    if a.len() != b.len() {
        proof {
            assert(a@ != b@);
        }
        return false;
    }
    let len = a.len();
    let mut i: usize = 0;
    while i < len
        invariant
            len == a@.len() == b@.len(),
            0 <= i <= len,
            forall|j: int| 0 <= j < i ==> a@[j] == b@[j],
        decreases len - i,
    {
        if a[i] != b[i] {
            return false;
        }
        i += 1;
    }
    proof {
        assert(a@ =~= b@);
    }
    true
}

/// Looks up a query parameter by its decoded key and returns its decoded
/// value.
pub fn query_param(q: &[u8], name: &[u8]) -> (r: Option<Vec<u8>>)
    ensures
        match r {
            Option::Some(v) => query_param_spec(q@, name@) == Option::Some(v@),
            Option::None => query_param_spec(q@, name@) is None,
        },
{
    let len = q.len();
    let mut i: usize = 0;
    if len == 0 {
        return Option::None;
    }
    loop
        invariant_except_break
            len == q@.len(),
            0 <= i < len,
            query_param_spec(q@, name@) == query_param_from(q@, i as int, name@),
        ensures
            match query_param_spec(q@, name@) {
                Option::Some(_) => false,
                Option::None => true,
            },
        decreases len - i,
    {
        let e = scan_amp(q, i);
        let pair = bytes_range(q, i, e);
        let eq = scan_eq(pair.as_slice(), 0);
        let key_raw = bytes_range(pair.as_slice(), 0, eq);
        let key = percent_decode(key_raw.as_slice());
        let value: Vec<u8> = if eq >= pair.len() {
            Vec::new()
        } else {
            let value_raw = bytes_range(pair.as_slice(), eq + 1, pair.len());
            percent_decode(value_raw.as_slice())
        };
        proof {
            assert(pair@.take(eq as int) == key_raw@);
            if eq < pair@.len() {
                assert(pair@.skip(eq + 1) == pair@.subrange(eq + 1, pair@.len() as int));
            }
        }
        if bytes_eq(key.as_slice(), name) {
            return Option::Some(value);
        }
        if e >= len {
            break;
        }
        i = e + 1;
        if i >= len {
            proof {
                assert(query_param_from(q@, i as int, name@) is None);
            }
            break;
        }
    }
    Option::None
}

} // verus!
