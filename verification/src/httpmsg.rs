//! A minimal HTTP request reader for the bridge's loopback callback
//! listener: header/body framing with a hard size cap, request-line and
//! `Content-Length` parsing, and rendering of the fixed-form responses the
//! listener writes back. Everything works on plain bytes.

use vstd::prelude::*;

use crate::text::dec_string;
use crate::text::u64_to_string;
use vstd::string::StringSliceAdditionalSpecFns;

verus! {

pub const BYTE_CR: u8 = 13;

pub const BYTE_LF: u8 = 10;

pub const BYTE_SP: u8 = 32;

pub const BYTE_HTAB: u8 = 9;

pub const BYTE_COLON: u8 = 58;

/// Whitespace inside a header line: space, horizontal tab, carriage return.
pub open spec fn is_ws_byte(x: u8) -> bool {
    x == BYTE_SP || x == BYTE_HTAB || x == BYTE_CR
}

pub open spec fn is_lf_byte(x: u8) -> bool {
    x == BYTE_LF
}

/// The first position at or after `i` whose byte satisfies `p`, or the
/// length when none does.
pub open spec fn find_from(b: Seq<u8>, i: int, p: spec_fn(u8) -> bool) -> int
    decreases b.len() - i,
{
    if i < 0 || i >= b.len() {
        b.len() as int
    } else if p(b[i]) {
        i
    } else {
        find_from(b, i + 1, p)
    }
}

pub proof fn lemma_find_from_at(b: Seq<u8>, start: int, i: int, p: spec_fn(u8) -> bool)
    requires
        0 <= start <= i <= b.len(),
        forall|j: int| start <= j < i ==> !p(b[j]),
        i == b.len() || p(b[i]),
    ensures
        find_from(b, start, p) == i,
    decreases i - start,
{
    if start < i {
        lemma_find_from_at(b, start + 1, i, p);
    }
}

/// Copies `b[from..to]`.
pub fn bytes_range(b: &[u8], from: usize, to: usize) -> (r: Vec<u8>)
    requires
        from <= to <= b@.len(),
    ensures
        r@ == b@.subrange(from as int, to as int),
{
    let mut out: Vec<u8> = Vec::new();
    let mut i: usize = from;
    while i < to
        invariant
            from <= i <= to <= b@.len(),
            out@ == b@.subrange(from as int, i as int),
        decreases to - i,
    {
        out.push(b[i]);
        proof {
            assert(out@ =~= b@.subrange(from as int, i + 1));
        }
        i += 1;
    }
    out
}

/// Whether the four-byte header terminator sits at position `i`.
pub open spec fn terminator_at(b: Seq<u8>, i: int) -> bool {
    &&& 0 <= i
    &&& i + 4 <= b.len()
    &&& b[i] == BYTE_CR
    &&& b[i + 1] == BYTE_LF
    &&& b[i + 2] == BYTE_CR
    &&& b[i + 3] == BYTE_LF
}

/// Finds the end of the header block: the position just past the first
/// blank-line terminator.
pub fn find_header_end(b: &[u8]) -> (r: Option<usize>)
    ensures
        r matches Option::Some(e) ==> 4 <= e <= b@.len() && terminator_at(b@, e - 4) && (forall|
            j: int,
        | 0 <= j < e - 4 ==> !terminator_at(b@, j)),
        r is None ==> forall|j: int| 0 <= j < b@.len() ==> !terminator_at(b@, j),
{
    let len = b.len();
    if len < 4 {
        return Option::None;
    }
    let mut i: usize = 0;
    while i <= len - 4
        invariant
            len == b@.len(),
            4 <= len,
            0 <= i <= len - 3,
            forall|j: int| 0 <= j < i ==> !terminator_at(b@, j),
        decreases len - i,
    {
        if b[i] == BYTE_CR && b[i + 1] == BYTE_LF && b[i + 2] == BYTE_CR && b[i + 3] == BYTE_LF {
            return Option::Some(i + 4);
        }
        i += 1;
    }
    Option::None
}

/// The method and target tokens of the request line: the first two
/// whitespace-separated tokens of the first line. `None` when either is
/// missing.
pub open spec fn request_line_tokens(line: Seq<u8>) -> Option<(Seq<u8>, Seq<u8>)> {
    let ms = find_from(line, 0, |x: u8| !is_ws_byte(x));
    let me = find_from(line, ms, |x: u8| is_ws_byte(x));
    let ts = find_from(line, me, |x: u8| !is_ws_byte(x));
    let te = find_from(line, ts, |x: u8| is_ws_byte(x));
    if me > ms && te > ts {
        Option::Some((line.subrange(ms, me), line.subrange(ts, te)))
    } else {
        Option::None
    }
}

fn scan_not_ws(line: &[u8], start: usize) -> (r: usize)
    requires
        start <= line@.len(),
    ensures
        r == find_from(line@, start as int, |x: u8| !is_ws_byte(x)),
        start <= r <= line@.len(),
{
    let len = line.len();
    let mut i: usize = start;
    while i < len && is_ws_byte_exec(line[i])
        invariant
            len == line@.len(),
            start <= i <= len,
            forall|j: int| start <= j < i ==> !(!is_ws_byte(line@[j])),
        decreases len - i,
    {
        i += 1;
    }
    proof {
        lemma_find_from_at(line@, start as int, i as int, |x: u8| !is_ws_byte(x));
    }
    i
}

fn scan_ws(line: &[u8], start: usize) -> (r: usize)
    requires
        start <= line@.len(),
    ensures
        r == find_from(line@, start as int, |x: u8| is_ws_byte(x)),
        start <= r <= line@.len(),
{
    let len = line.len();
    let mut i: usize = start;
    while i < len && !is_ws_byte_exec(line[i])
        invariant
            len == line@.len(),
            start <= i <= len,
            forall|j: int| start <= j < i ==> !is_ws_byte(line@[j]),
        decreases len - i,
    {
        i += 1;
    }
    proof {
        lemma_find_from_at(line@, start as int, i as int, |x: u8| is_ws_byte(x));
    }
    i
}

fn is_ws_byte_exec(x: u8) -> (r: bool)
    ensures
        r == is_ws_byte(x),
{
    x == BYTE_SP || x == BYTE_HTAB || x == BYTE_CR
}

/// `find_from`, clamped into `[i, b.len()]` so it can serve as a measure in
/// recursive definitions.
pub open spec fn clamped_find(b: Seq<u8>, i: int, p: spec_fn(u8) -> bool) -> int {
    let e = find_from(b, i, p);
    if e < i {
        i
    } else if e > b.len() {
        b.len() as int
    } else {
        e
    }
}

/// A header line with its terminating carriage return removed.
pub open spec fn strip_cr(l: Seq<u8>) -> Seq<u8> {
    if l.len() > 0 && l.last() == BYTE_CR {
        l.drop_last()
    } else {
        l
    }
}

/// The lines of `b` from position `i` on, split at line feeds, each without
/// its carriage return; a trailing line feed ends the last line rather than
/// opening an empty one.
pub open spec fn lines_from(b: Seq<u8>, i: int) -> Seq<Seq<u8>>
    decreases b.len() - i,
{
    if i < 0 || i >= b.len() {
        Seq::empty()
    } else {
        let e = clamped_find(b, i, |x: u8| is_lf_byte(x));
        let line = strip_cr(b.subrange(i, e));
        if e >= b.len() {
            seq![line]
        } else {
            seq![line] + lines_from(b, e + 1)
        }
    }
}

/// The first line of a header block.
pub open spec fn first_line(b: Seq<u8>) -> Seq<u8> {
    strip_cr(b.subrange(0, clamped_find(b, 0, |x: u8| is_lf_byte(x))))
}

/// Reads the method and target of a request line.
pub fn parse_request_line(line: &[u8]) -> (r: Option<(Vec<u8>, Vec<u8>)>)
    ensures
        match r {
            Option::Some(pair) => request_line_tokens(line@) matches Option::Some(t) && pair.0@
                == t.0 && pair.1@ == t.1,
            Option::None => request_line_tokens(line@) is None,
        },
{
    let ms = scan_not_ws(line, 0);
    let me = scan_ws(line, ms);
    let ts = scan_not_ws(line, me);
    let te = scan_ws(line, ts);
    if me > ms && te > ts {
        let method = bytes_range(line, ms, me);
        let target = bytes_range(line, ts, te);
        Option::Some((method, target))
    } else {
        Option::None
    }
}

/// ASCII upper-case letters folded to lower case; all other bytes unchanged.
pub open spec fn lower_byte(x: u8) -> u8 {
    if 65 <= x <= 90 {
        (x + 32) as u8
    } else {
        x
    }
}

pub open spec fn bytes_eq_nocase(a: Seq<u8>, b: Seq<u8>) -> bool {
    a.len() == b.len() && forall|i: int| 0 <= i < a.len() ==> lower_byte(a[i]) == lower_byte(b[i])
}

pub open spec fn trim_front_bytes(s: Seq<u8>) -> Seq<u8>
    decreases s.len(),
{
    if s.len() == 0 {
        s
    } else if is_ws_byte(s[0]) {
        trim_front_bytes(s.drop_first())
    } else {
        s
    }
}

pub open spec fn trim_back_bytes(s: Seq<u8>) -> Seq<u8>
    decreases s.len(),
{
    if s.len() == 0 {
        s
    } else if is_ws_byte(s.last()) {
        trim_back_bytes(s.drop_last())
    } else {
        s
    }
}

pub open spec fn trim_bytes_spec(s: Seq<u8>) -> Seq<u8> {
    trim_back_bytes(trim_front_bytes(s))
}

proof fn lemma_trim_front_bytes_at(s: Seq<u8>, k: int)
    requires
        0 <= k <= s.len(),
        forall|i: int| 0 <= i < k ==> is_ws_byte(s[i]),
        k == s.len() || !is_ws_byte(s[k]),
    ensures
        trim_front_bytes(s) == s.skip(k),
    decreases k,
{
    if k == 0 {
        assert(s.skip(0) == s);
    } else {
        lemma_trim_front_bytes_at(s.drop_first(), k - 1);
        assert(s.drop_first().skip(k - 1) == s.skip(k));
    }
}

proof fn lemma_trim_back_bytes_at(s: Seq<u8>, k: int)
    requires
        0 <= k <= s.len(),
        forall|i: int| k <= i < s.len() ==> is_ws_byte(s[i]),
        k == 0 || !is_ws_byte(s[k - 1]),
    ensures
        trim_back_bytes(s) == s.take(k),
    decreases s.len() - k,
{
    if k == s.len() {
        assert(s.take(k) == s);
    } else {
        lemma_trim_back_bytes_at(s.drop_last(), k);
        assert(s.drop_last().take(k) == s.take(k));
    }
}

/// Copies `b` with leading and trailing whitespace removed.
pub fn trim_bytes(b: &[u8]) -> (r: Vec<u8>)
    ensures
        r@ == trim_bytes_spec(b@),
{
    let len = b.len();
    let mut start: usize = 0;
    while start < len && is_ws_byte_exec(b[start])
        invariant
            len == b@.len(),
            0 <= start <= len,
            forall|i: int| 0 <= i < start ==> is_ws_byte(b@[i]),
        decreases len - start,
    {
        start += 1;
    }
    let mut end: usize = len;
    while end > start && is_ws_byte_exec(b[end - 1])
        invariant
            len == b@.len(),
            start <= end <= len,
            forall|i: int| end <= i < len ==> is_ws_byte(b@[i]),
        decreases end,
    {
        end -= 1;
    }
    proof {
        lemma_trim_front_bytes_at(b@, start as int);
        let t = b@.skip(start as int);
        lemma_trim_back_bytes_at(t, end - start);
        assert(t.take(end - start) == b@.subrange(start as int, end as int));
    }
    bytes_range(b, start, end)
}

pub open spec fn is_digit_byte(x: u8) -> bool {
    48 <= x <= 57
}

pub open spec fn all_digit_bytes(s: Seq<u8>) -> bool {
    forall|i: int| 0 <= i < s.len() ==> is_digit_byte(s[i])
}

/// The number denoted by a string of digit bytes, most significant first.
pub open spec fn dec_value_bytes(s: Seq<u8>) -> nat
    decreases s.len(),
{
    if s.len() == 0 {
        0
    } else {
        dec_value_bytes(s.drop_last()) * 10 + (s.last() - 48) as nat
    }
}

proof fn lemma_dec_bytes_take_succ(s: Seq<u8>, i: int)
    requires
        0 <= i < s.len(),
    ensures
        dec_value_bytes(s.take(i + 1)) == dec_value_bytes(s.take(i)) * 10 + (s[i] - 48) as nat,
{
    assert(s.take(i + 1).drop_last() == s.take(i));
    assert(s.take(i + 1).last() == s[i]);
}

proof fn lemma_dec_bytes_take_monotone(s: Seq<u8>, i: int)
    requires
        0 <= i <= s.len(),
        all_digit_bytes(s),
    ensures
        dec_value_bytes(s.take(i)) <= dec_value_bytes(s),
    decreases s.len() - i,
{
    if i == s.len() {
        assert(s.take(i) == s);
    } else {
        lemma_dec_bytes_take_succ(s, i);
        lemma_dec_bytes_take_monotone(s, i + 1);
    }
}

/// The digits of a decimal byte string: one leading plus sign (byte 43) is
/// allowed, as in std's unsigned parsing.
pub open spec fn digits_part_bytes(s: Seq<u8>) -> Seq<u8> {
    if s.len() > 0 && s[0] == 43 {
        s.drop_first()
    } else {
        s
    }
}

/// Reads an unsigned decimal number from bytes. Some exactly when the
/// input, after an optional leading plus sign, is one or more digits
/// denoting a value that fits in `usize`.
pub fn parse_usize_bytes(s: &[u8]) -> (r: Option<usize>)
    ensures
        r is Some <==> {
            let d = digits_part_bytes(s@);
            d.len() > 0 && all_digit_bytes(d) && dec_value_bytes(d) <= usize::MAX
        },
        r matches Option::Some(v) ==> v == dec_value_bytes(digits_part_bytes(s@)),
{
    let len = s.len();
    if len == 0 {
        return Option::None;
    }
    let start: usize = if s[0] == 43 {
        1
    } else {
        0
    };
    if start >= len {
        return Option::None;
    }
    let ghost d = digits_part_bytes(s@);
    proof {
        if start == 1 {
            assert(d == s@.skip(1));
        } else {
            assert(d == s@);
        }
    }
    let mut acc: usize = 0;
    let mut i: usize = start;
    while i < len
        invariant
            len == s@.len(),
            start <= i <= len,
            start < len,
            d == digits_part_bytes(s@),
            d.len() == len - start,
            forall|j: int| 0 <= j < d.len() ==> d[j] == s@[j + start],
            forall|j: int| 0 <= j < i - start ==> is_digit_byte(d[j]),
            acc == dec_value_bytes(d.take(i - start)),
        decreases len - i,
    {
        let x = s[i];
        proof {
            assert(d[i - start] == s@[i as int]);
        }
        if x < 48 || x > 57 {
            return Option::None;
        }
        let digit = (x - 48) as usize;
        proof {
            lemma_dec_bytes_take_succ(d, i - start);
        }
        let shifted = match acc.checked_mul(10) {
            Option::Some(v) => v,
            Option::None => {
                proof {
                    if all_digit_bytes(d) {
                        lemma_dec_bytes_take_monotone(d, i + 1 - start);
                    }
                }
                return Option::None;
            },
        };
        acc = match shifted.checked_add(digit) {
            Option::Some(v) => v,
            Option::None => {
                proof {
                    if all_digit_bytes(d) {
                        lemma_dec_bytes_take_monotone(d, i + 1 - start);
                    }
                }
                return Option::None;
            },
        };
        i += 1;
    }
    proof {
        assert(d.take(len - start) == d);
    }
    Option::Some(acc)
}

/// The `Content-Length` header name.
pub const CONTENT_LENGTH_NAME: [u8; 14] = [99, 111, 110, 116, 101, 110, 116, 45, 108, 101, 110,
    103, 116, 104];

/// The value a header line contributes to the content length: the line must
/// contain a colon, its name must equal `content-length` ignoring ASCII
/// case, and its value must be a decimal number that fits in `usize`.
pub open spec fn header_cl_value(line: Seq<u8>) -> Option<nat> {
    let c = clamped_find(line, 0, |x: u8| x == BYTE_COLON);
    if c >= line.len() {
        Option::None
    } else {
        let name = trim_bytes_spec(line.subrange(0, c));
        let value = digits_part_bytes(trim_bytes_spec(line.subrange(c + 1, line.len() as int)));
        if bytes_eq_nocase(name, CONTENT_LENGTH_NAME@) && value.len() > 0 && all_digit_bytes(value)
            && dec_value_bytes(value) <= usize::MAX {
            Option::Some(dec_value_bytes(value))
        } else {
            Option::None
        }
    }
}

/// The value of the first `Content-Length` line among `lines`, if any.
pub open spec fn cl_of_lines(lines: Seq<Seq<u8>>, i: int) -> Option<nat>
    decreases lines.len() - i,
{
    if i < 0 || i >= lines.len() {
        Option::None
    } else {
        match header_cl_value(lines[i]) {
            Option::Some(v) => Option::Some(v),
            Option::None => cl_of_lines(lines, i + 1),
        }
    }
}

/// The content length declared by a header block, if any line declares one.
pub open spec fn content_length_spec(headers: Seq<u8>) -> Option<nat> {
    cl_of_lines(lines_from(headers, 0), 0)
}

fn scan_lf(b: &[u8], start: usize) -> (r: usize)
    requires
        start <= b@.len(),
    ensures
        r == find_from(b@, start as int, |x: u8| is_lf_byte(x)),
        r == clamped_find(b@, start as int, |x: u8| is_lf_byte(x)),
        start <= r <= b@.len(),
        r < b@.len() ==> is_lf_byte(b@[r as int]),
        forall|j: int| start <= j < r ==> !is_lf_byte(b@[j]),
    decreases b@.len() - start,
{
    let len = b.len();
    let mut i: usize = start;
    while i < len && b[i] != BYTE_LF
        invariant
            len == b@.len(),
            start <= i <= len,
            forall|j: int| start <= j < i ==> !is_lf_byte(b@[j]),
        decreases len - i,
    {
        i += 1;
    }
    proof {
        lemma_find_from_at(b@, start as int, i as int, |x: u8| is_lf_byte(x));
    }
    i
}

fn scan_colon(b: &[u8], start: usize) -> (r: usize)
    requires
        start <= b@.len(),
    ensures
        r == clamped_find(b@, start as int, |x: u8| x == BYTE_COLON),
        start <= r <= b@.len(),
    decreases b@.len() - start,
{
    let len = b.len();
    let mut i: usize = start;
    while i < len && b[i] != BYTE_COLON
        invariant
            len == b@.len(),
            start <= i <= len,
            forall|j: int| start <= j < i ==> !(b@[j] == BYTE_COLON),
        decreases len - i,
    {
        i += 1;
    }
    proof {
        lemma_find_from_at(b@, start as int, i as int, |x: u8| x == BYTE_COLON);
    }
    i
}

fn eq_nocase(a: &[u8], b: &[u8]) -> (r: bool)
    ensures
        r == bytes_eq_nocase(a@, b@),
{
    if a.len() != b.len() {
        return false;
    }
    let len = a.len();
    let mut i: usize = 0;
    while i < len
        invariant
            len == a@.len() == b@.len(),
            0 <= i <= len,
            forall|j: int| 0 <= j < i ==> lower_byte(a@[j]) == lower_byte(b@[j]),
        decreases len - i,
    {
        let x = a[i];
        let y = b[i];
        let xl = if 65 <= x && x <= 90 {
            x + 32
        } else {
            x
        };
        let yl = if 65 <= y && y <= 90 {
            y + 32
        } else {
            y
        };
        if xl != yl {
            return false;
        }
        i += 1;
    }
    true
}

/// The content length a single header line declares, if it is a
/// `Content-Length` line with a readable value.
fn content_length_of_line(line: &[u8]) -> (r: Option<usize>)
    ensures
        match r {
            Option::Some(v) => header_cl_value(line@) == Option::Some(v as nat),
            Option::None => header_cl_value(line@) is None,
        },
{
    let c = scan_colon(line, 0);
    if c >= line.len() {
        return Option::None;
    }
    let name_raw = bytes_range(line, 0, c);
    let name = trim_bytes(name_raw.as_slice());
    let value_raw = bytes_range(line, c + 1, line.len());
    let value = trim_bytes(value_raw.as_slice());
    proof {
        assert(name_raw@ == line@.subrange(0, c as int));
        assert(value_raw@ == line@.subrange(c + 1, line@.len() as int));
    }
    let is_cl = {
        let expected: [u8; 14] = CONTENT_LENGTH_NAME;
        eq_nocase(name.as_slice(), expected.as_slice())
    };
    if !is_cl {
        return Option::None;
    }
    parse_usize_bytes(value.as_slice())
}

/// The views of a sequence of byte vectors.
pub open spec fn seq_views(v: Seq<Vec<u8>>) -> Seq<Seq<u8>> {
    Seq::new(v.len(), |i: int| v[i]@)
}

/// Splits a byte block into its lines.
pub fn split_lines(b: &[u8]) -> (r: Vec<Vec<u8>>)
    ensures
        seq_views(r@) == lines_from(b@, 0),
{
    let len = b.len();
    let mut out: Vec<Vec<u8>> = Vec::new();
    let mut i: usize = 0;
    proof {
        assert(seq_views(out@) =~= Seq::<Seq<u8>>::empty());
    }
    while i < len
        invariant
            len == b@.len(),
            0 <= i <= len,
            seq_views(out@) + lines_from(b@, i as int) == lines_from(b@, 0),
        decreases len - i,
    {
        let ghost prev = seq_views(out@);
        let e = scan_lf(b, i);
        let line_end = if e > i && b[e - 1] == BYTE_CR {
            e - 1
        } else {
            e
        };
        let line = bytes_range(b, i, line_end);
        proof {
            assert(line@ == strip_cr(b@.subrange(i as int, e as int)));
        }
        out.push(line);
        proof {
            assert(seq_views(out@) =~= prev + seq![line@]);
        }
        if e >= len {
            proof {
                assert(lines_from(b@, i as int) =~= seq![line@]);
            }
            i = len;
        } else {
            proof {
                assert(lines_from(b@, i as int) =~= seq![line@] + lines_from(b@, e + 1));
            }
            i = e + 1;
        }
    }
    proof {
        assert(lines_from(b@, len as int) =~= Seq::<Seq<u8>>::empty());
    }
    out
}

/// Reads the content length declared by a header block, the first
/// `Content-Length` line winning.
pub fn content_length_of(headers: &[u8]) -> (r: Option<usize>)
    ensures
        match r {
            Option::Some(v) => content_length_spec(headers@) == Option::Some(v as nat),
            Option::None => content_length_spec(headers@) is None,
        },
{
    let lines = split_lines(headers);
    let n = lines.len();
    let mut i: usize = 0;
    while i < n
        invariant
            n == lines@.len(),
            0 <= i <= n,
            seq_views(lines@) == lines_from(headers@, 0),
            cl_of_lines(seq_views(lines@), 0) == cl_of_lines(seq_views(lines@), i as int),
        decreases n - i,
    {
        let line = &lines[i];
        let found = content_length_of_line(line.as_slice());
        proof {
            assert(seq_views(lines@)[i as int] == lines@[i as int]@);
        }
        match found {
            Option::Some(v) => {
                return Option::Some(v);
            },
            Option::None => {
            },
        }
        i += 1;
    }
    Option::None
}

/// The position just past the first header terminator at or after `i`.
pub open spec fn header_end_from(d: Seq<u8>, i: int) -> Option<int>
    decreases d.len() - i,
{
    if i < 0 || i + 4 > d.len() {
        Option::None
    } else if terminator_at(d, i) {
        Option::Some(i + 4)
    } else {
        header_end_from(d, i + 1)
    }
}

proof fn lemma_header_end_from_found(d: Seq<u8>, start: int, i: int)
    requires
        0 <= start <= i,
        i + 4 <= d.len(),
        terminator_at(d, i),
        forall|j: int| start <= j < i ==> !terminator_at(d, j),
    ensures
        header_end_from(d, start) == Option::Some(i + 4),
    decreases i - start,
{
    if start < i {
        lemma_header_end_from_found(d, start + 1, i);
    }
}

proof fn lemma_header_end_from_none(d: Seq<u8>, start: int)
    requires
        0 <= start,
        forall|j: int| start <= j ==> !terminator_at(d, j),
    ensures
        header_end_from(d, start) is None,
    decreases d.len() - start,
{
    if start + 4 <= d.len() {
        lemma_header_end_from_none(d, start + 1);
    }
}

/// How a failed parse of a completed read is reported.
#[derive(Clone, Copy, PartialEq, Eq, Structural, Debug)]
pub enum HttpParseError {
    /// The data ended before a blank-line header terminator.
    MissingHeaders,
    /// The first line held no method and target tokens.
    BadRequestLine,
}

/// A parsed callback request: method and target from the request line, and
/// the `Content-Length`-bounded body.
#[derive(Debug)]
pub struct HttpRequest {
    pub method: Vec<u8>,
    pub target: Vec<u8>,
    pub body: Vec<u8>,
}

/// What parsing a fully read request yields: the method and target tokens of
/// the first header line, and the body capped at the declared content length
/// (an undeclared or zero length gives an empty body, and a body shorter
/// than declared is taken as it arrived).
pub open spec fn parsed_request_spec(d: Seq<u8>) -> Result<(Seq<u8>, Seq<u8>, Seq<u8>), HttpParseError> {
    match header_end_from(d, 0) {
        Option::None => Result::Err(HttpParseError::MissingHeaders),
        Option::Some(e) => {
            let head = d.take(e);
            match request_line_tokens(first_line(head)) {
                Option::None => Result::Err(HttpParseError::BadRequestLine),
                Option::Some(mt) => {
                    let cl: int = match content_length_spec(head) {
                        Option::Some(c) => c as int,
                        Option::None => 0,
                    };
                    let avail = d.len() - e;
                    let blen = if cl <= avail {
                        cl
                    } else {
                        avail as int
                    };
                    Result::Ok((mt.0, mt.1, d.subrange(e, e + blen)))
                },
            }
        },
    }
}

/// The hard cap on one callback request, headers and body together.
pub const MAX_CALLBACK_REQUEST_BYTES: usize = 256 * 1024;

/// Accumulates one callback connection's bytes as the listener reads them,
/// and decides when enough has arrived: first until the header terminator,
/// then until the declared content length is satisfied.
pub struct RequestReader {
    data: Vec<u8>,
}

impl RequestReader {
    pub closed spec fn data_spec(&self) -> Seq<u8> {
        self.data@
    }

    pub fn new() -> (r: RequestReader)
        ensures
            r.data_spec() == Seq::<u8>::empty(),
    {
        RequestReader { data: Vec::new() }
    }

    /// Appends one chunk read from the connection. Returns false when the
    /// accumulated request exceeds the hard cap; the call then fails rather
    /// than reading without bound.
    pub fn append_chunk(&mut self, chunk: &[u8]) -> (ok: bool)
        ensures
            final(self).data_spec() == old(self).data_spec() + chunk@,
            ok <==> final(self).data_spec().len() <= MAX_CALLBACK_REQUEST_BYTES,
    {
        self.data.extend_from_slice(chunk);
        self.data.len() <= MAX_CALLBACK_REQUEST_BYTES
    }

    /// Whether the header terminator has arrived.
    pub fn header_complete(&self) -> (r: bool)
        ensures
            r == (header_end_from(self.data_spec(), 0) is Some),
    {
        let found = find_header_end(self.data.as_slice());
        proof {
            match found {
                Option::Some(e) => {
                    lemma_header_end_from_found(self.data@, 0, e - 4);
                },
                Option::None => {
                    lemma_header_end_from_none(self.data@, 0);
                },
            }
        }
        found.is_some()
    }

    /// Whether the declared content length has arrived. False while the
    /// headers themselves are incomplete.
    pub fn body_complete(&self) -> (r: bool)
        ensures
            r == match header_end_from(self.data_spec(), 0) {
                Option::None => false,
                Option::Some(e) => {
                    let cl: int = match content_length_spec(self.data_spec().take(e)) {
                        Option::Some(c) => c as int,
                        Option::None => 0,
                    };
                    self.data_spec().len() - e >= cl
                },
            },
    {
        let found = find_header_end(self.data.as_slice());
        proof {
            match found {
                Option::Some(e) => {
                    lemma_header_end_from_found(self.data@, 0, e - 4);
                },
                Option::None => {
                    lemma_header_end_from_none(self.data@, 0);
                },
            }
        }
        match found {
            Option::None => false,
            Option::Some(e) => {
                let head = bytes_range(self.data.as_slice(), 0, e);
                proof {
                    assert(head@ == self.data@.take(e as int));
                }
                let cl = match content_length_of(head.as_slice()) {
                    Option::Some(c) => c,
                    Option::None => 0,
                };
                self.data.len() - e >= cl
            },
        }
    }

    /// Parses the accumulated request once reading has finished.
    pub fn finish(self) -> (r: Result<HttpRequest, HttpParseError>)
        ensures
            match r {
                Result::Ok(req) => parsed_request_spec(self.data_spec()) == Result::<
                    (Seq<u8>, Seq<u8>, Seq<u8>),
                    HttpParseError,
                >::Ok((req.method@, req.target@, req.body@)),
                Result::Err(e) => parsed_request_spec(self.data_spec()) == Result::<
                    (Seq<u8>, Seq<u8>, Seq<u8>),
                    HttpParseError,
                >::Err(e),
            },
    {
        let data = self.data;
        let found = find_header_end(data.as_slice());
        proof {
            match found {
                Option::Some(e) => {
                    lemma_header_end_from_found(data@, 0, e - 4);
                },
                Option::None => {
                    lemma_header_end_from_none(data@, 0);
                },
            }
        }
        let e = match found {
            Option::None => {
                return Result::Err(HttpParseError::MissingHeaders);
            },
            Option::Some(e) => e,
        };
        let head = bytes_range(data.as_slice(), 0, e);
        proof {
            assert(head@ == data@.take(e as int));
        }
        let lf = scan_lf(head.as_slice(), 0);
        let line_end = if lf > 0 && head[lf - 1] == BYTE_CR {
            lf - 1
        } else {
            lf
        };
        let line = bytes_range(head.as_slice(), 0, line_end);
        proof {
            assert(line@ == first_line(head@));
        }
        let (method, target) = match parse_request_line(line.as_slice()) {
            Option::None => {
                return Result::Err(HttpParseError::BadRequestLine);
            },
            Option::Some(mt) => mt,
        };
        let cl = match content_length_of(head.as_slice()) {
            Option::Some(c) => c,
            Option::None => 0,
        };
        let avail = data.len() - e;
        let blen = if cl <= avail {
            cl
        } else {
            avail
        };
        let body = bytes_range(data.as_slice(), e, e + blen);
        Result::Ok(HttpRequest { method, target, body })
    }
}

/// The response the listener writes for one callback request: a fixed header
/// shape around the status line and a short plain-text body.
pub open spec fn response_spec(status: Seq<char>, body: Seq<char>, body_byte_len: nat) -> Seq<
    char,
> {
    "HTTP/1.1 "@ + status
        + "\r\nContent-Type: text/plain; charset=utf-8\r\nAccess-Control-Allow-Origin: *\r\nAccess-Control-Allow-Headers: content-type\r\nContent-Length: "@
        + dec_string(body_byte_len) + "\r\nConnection: close\r\n\r\n"@ + body
}

/// Renders the listener's response for one callback request.
pub fn render_response(status_line: &str, body: &str) -> (r: String)
    ensures
        r@ == response_spec(status_line@, body@, (body.spec_bytes().len() as usize) as nat),
{
    let mut out = String::from_str("HTTP/1.1 ");
    out.append(status_line);
    out.append(
        "\r\nContent-Type: text/plain; charset=utf-8\r\nAccess-Control-Allow-Origin: *\r\nAccess-Control-Allow-Headers: content-type\r\nContent-Length: ",
    );
    let n = body.len();
    let len_text = u64_to_string(n as u64);
    out.append(len_text.as_str());
    out.append("\r\nConnection: close\r\n\r\n");
    out.append(body);
    out
}

} // verus!

