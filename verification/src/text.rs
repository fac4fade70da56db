//! Text normalization shared by every transcription provider: trimming,
//! whitespace collapsing, truncation of long response excerpts, and decimal
//! conversions used when building protocol strings.

use vstd::prelude::*;

verus! {

/// The whitespace characters recognized when trimming and collapsing
/// transcript text: ASCII space, tab, line feed and carriage return.
pub open spec fn is_space_char(c: char) -> bool {
    c == ' ' || c == '\t' || c == '\n' || c == '\r'
}

fn is_space(c: char) -> (r: bool)
    ensures
        r == is_space_char(c),
{
    c == ' ' || c == '\t' || c == '\n' || c == '\r'
}

/// Relies on std's String::push: appends exactly the given character.
#[verifier::external_body]
pub(crate) fn push_char(s: &mut String, c: char)
    ensures
        final(s)@ == old(s)@ + seq![c],
{
    s.push(c);
}

/// Relies on std's String::from_utf8: succeeds exactly on valid UTF-8 and
/// decodes it.
#[verifier::external_body]
pub fn string_from_utf8(bytes: Vec<u8>) -> (r: Option<String>)
    ensures
        r is Some <==> vstd::utf8::valid_utf8(bytes@),
        r matches Option::Some(s) ==> s@ == vstd::utf8::decode_utf8(bytes@),
{
    String::from_utf8(bytes).ok()
}

/// Relies on std's String::from_utf8_lossy: on valid UTF-8 it decodes
/// exactly; invalid sequences are replaced, of which nothing is assumed.
#[verifier::external_body]
pub fn string_from_utf8_lossy(bytes: &[u8]) -> (r: String)
    ensures
        vstd::utf8::valid_utf8(bytes@) ==> r@ == vstd::utf8::decode_utf8(bytes@),
{
    String::from_utf8_lossy(bytes).into_owned()
}

pub open spec fn trim_start_spec(s: Seq<char>) -> Seq<char>
    decreases s.len(),
{
    if s.len() == 0 {
        s
    } else if is_space_char(s[0]) {
        trim_start_spec(s.drop_first())
    } else {
        s
    }
}

pub open spec fn trim_end_spec(s: Seq<char>) -> Seq<char>
    decreases s.len(),
{
    if s.len() == 0 {
        s
    } else if is_space_char(s.last()) {
        trim_end_spec(s.drop_last())
    } else {
        s
    }
}

/// The string with leading and trailing whitespace removed.
pub open spec fn trimmed_spec(s: Seq<char>) -> Seq<char> {
    trim_end_spec(trim_start_spec(s))
}

proof fn lemma_trim_start_all_spaces_before(s: Seq<char>, k: int)
    requires
        0 <= k <= s.len(),
        forall|i: int| 0 <= i < k ==> is_space_char(s[i]),
        k == s.len() || !is_space_char(s[k]),
    ensures
        trim_start_spec(s) == s.skip(k),
    decreases k,
{
    if k == 0 {
        assert(s.skip(0) == s);
        if s.len() > 0 {
            assert(!is_space_char(s[0]));
        }
    } else {
        assert(is_space_char(s[0]));
        lemma_trim_start_all_spaces_before(s.drop_first(), k - 1);
        assert(s.drop_first().skip(k - 1) == s.skip(k));
    }
}

proof fn lemma_trim_end_all_spaces_after(s: Seq<char>, k: int)
    requires
        0 <= k <= s.len(),
        forall|i: int| k <= i < s.len() ==> is_space_char(s[i]),
        k == 0 || !is_space_char(s[k - 1]),
    ensures
        trim_end_spec(s) == s.take(k),
    decreases s.len() - k,
{
    if k == s.len() {
        if s.len() == 0 {
            assert(s.take(0) == s);
        } else {
            assert(!is_space_char(s.last()));
            assert(s.take(k) == s);
        }
    } else {
        assert(is_space_char(s.last()));
        lemma_trim_end_all_spaces_after(s.drop_last(), k);
        assert(s.drop_last().take(k) == s.take(k));
    }
}

/// Removes leading and trailing whitespace.
pub fn trim_str(s: &str) -> (r: String)
    ensures
        r@ == trimmed_spec(s@),
{
    let len = s.unicode_len();
    let mut start: usize = 0;
    while start < len && is_space(s.get_char(start))
        invariant
            len == s@.len(),
            0 <= start <= len,
            forall|i: int| 0 <= i < start ==> is_space_char(s@[i]),
        decreases len - start,
    {
        start += 1;
    }
    let mut end: usize = len;
    while end > start && is_space(s.get_char(end - 1))
        invariant
            len == s@.len(),
            start <= end <= len,
            forall|i: int| end <= i < len ==> is_space_char(s@[i]),
        decreases end,
    {
        end -= 1;
    }
    proof {
        lemma_trim_start_all_spaces_before(s@, start as int);
        let t = s@.skip(start as int);
        lemma_trim_end_all_spaces_after(t, end - start);
        assert(t.take(end - start) == s@.subrange(start as int, end as int));
    }
    let core = s.substring_char(start, end);
    String::from_str(core)
}

/// The collapsed remainder of `s` from position `i` on, where `emitted` says
/// whether a word was already written and `gap` whether whitespace was seen
/// since the last word character.
pub open spec fn collapse_from(s: Seq<char>, i: int, emitted: bool, gap: bool) -> Seq<char>
    decreases s.len() - i,
{
    if i < 0 || i >= s.len() {
        Seq::empty()
    } else if is_space_char(s[i]) {
        collapse_from(s, i + 1, emitted, true)
    } else {
        let sep: Seq<char> = if emitted && gap {
            seq![' ']
        } else {
            Seq::empty()
        };
        sep + seq![s[i]] + collapse_from(s, i + 1, true, false)
    }
}

/// Transcript text in normal form: no leading or trailing whitespace, and
/// every internal whitespace run collapsed to a single space.
pub open spec fn normalized_spec(s: Seq<char>) -> Seq<char> {
    collapse_from(s, 0, false, false)
}

/// Normalizes provider output before it is delivered: trims the ends and
/// collapses internal whitespace runs to single spaces.
pub fn normalize_transcript_text(s: &str) -> (r: String)
    ensures
        r@ == normalized_spec(s@),
{
    let len = s.unicode_len();
    let mut out = String::new();
    let mut i: usize = 0;
    let mut emitted = false;
    let mut gap = false;
    while i < len
        invariant
            len == s@.len(),
            0 <= i <= len,
            out@ + collapse_from(s@, i as int, emitted, gap) == normalized_spec(s@),
        decreases len - i,
    {
        let c = s.get_char(i);
        if is_space(c) {
            gap = true;
        } else {
            if emitted && gap {
                push_char(&mut out, ' ');
            }
            push_char(&mut out, c);
            emitted = true;
            gap = false;
        }
        i += 1;
    }
    out
}

/// `None` for an absent or whitespace-only string, otherwise the trimmed text.
pub fn normalize_optional_string(value: Option<String>) -> (r: Option<String>)
    ensures
        match value {
            Option::None => r is None,
            Option::Some(s) => {
                &&& (r is Some <==> trimmed_spec(s@).len() > 0)
                &&& (r matches Option::Some(t) ==> t@ == trimmed_spec(s@))
            },
        },
{
    match value {
        Option::None => Option::None,
        Option::Some(s) => {
            let t = trim_str(s.as_str());
            if t.as_str().unicode_len() == 0 {
                Option::None
            } else {
                Option::Some(t)
            }
        },
    }
}

/// How many characters of a response body are kept when it is used verbatim
/// as an error message.
pub const BODY_EXCERPT_CHARS: usize = 300;

/// The trimmed body, cut to at most `BODY_EXCERPT_CHARS` characters with an
/// ellipsis when longer.
pub open spec fn truncated_spec(s: Seq<char>) -> Seq<char> {
    let t = trimmed_spec(s);
    if t.len() <= 300 {
        t
    } else {
        t.take(300) + seq!['.', '.', '.']
    }
}

/// Cuts a response body down to a short excerpt fit for an error message.
pub fn truncate_response_body(value: &str) -> (r: String)
    ensures
        r@ == truncated_spec(value@),
{
    let t = trim_str(value);
    if t.as_str().unicode_len() <= BODY_EXCERPT_CHARS {
        t
    } else {
        let head = t.as_str().substring_char(0, BODY_EXCERPT_CHARS);
        let mut out = String::from_str(head);
        out.append("...");
        proof {
            reveal_strlit("...");
        }
        out
    }
}

pub open spec fn is_digit_char(c: char) -> bool {
    '0' <= c && c <= '9'
}

pub open spec fn digit_val(c: char) -> nat {
    (c as u32 - '0' as u32) as nat
}

pub open spec fn all_digits(s: Seq<char>) -> bool {
    forall|i: int| 0 <= i < s.len() ==> is_digit_char(s[i])
}

/// The number denoted by a digit string, most significant digit first.
pub open spec fn dec_value(s: Seq<char>) -> nat
    decreases s.len(),
{
    if s.len() == 0 {
        0
    } else {
        dec_value(s.drop_last()) * 10 + digit_val(s.last())
    }
}

proof fn lemma_dec_value_take_succ(s: Seq<char>, i: int)
    requires
        0 <= i < s.len(),
    ensures
        dec_value(s.take(i + 1)) == dec_value(s.take(i)) * 10 + digit_val(s[i]),
{
    assert(s.take(i + 1).drop_last() == s.take(i));
    assert(s.take(i + 1).last() == s[i]);
}

proof fn lemma_dec_value_take_monotone(s: Seq<char>, i: int)
    requires
        0 <= i <= s.len(),
        all_digits(s),
    ensures
        dec_value(s.take(i)) <= dec_value(s),
    decreases s.len() - i,
{
    if i == s.len() {
        assert(s.take(i) == s);
    } else {
        lemma_dec_value_take_succ(s, i);
        lemma_dec_value_take_monotone(s, i + 1);
    }
}

/// The digits of a decimal string: one leading plus sign is allowed, as in
/// std's unsigned parsing.
pub open spec fn dec_digits_part(s: Seq<char>) -> Seq<char> {
    if s.len() > 0 && s[0] == '+' {
        s.drop_first()
    } else {
        s
    }
}

/// Reads an unsigned decimal number. Returns the value exactly when the
/// string, after an optional leading plus sign, is one or more digits whose
/// value fits in a `u64`.
pub fn parse_u64(s: &str) -> (r: Option<u64>)
    ensures
        r is Some <==> {
            let d = dec_digits_part(s@);
            d.len() > 0 && all_digits(d) && dec_value(d) <= u64::MAX
        },
        r matches Option::Some(v) ==> v == dec_value(dec_digits_part(s@)),
{
    let len = s.unicode_len();
    if len == 0 {
        return Option::None;
    }
    let start: usize = if s.get_char(0) == '+' {
        1
    } else {
        0
    };
    if start >= len {
        return Option::None;
    }
    let ghost d = dec_digits_part(s@);
    proof {
        if start == 1 {
            assert(d == s@.skip(1));
        } else {
            assert(d == s@);
        }
    }
    let mut acc: u64 = 0;
    let mut i: usize = start;
    while i < len
        invariant
            len == s@.len(),
            start <= i <= len,
            start < len,
            d == dec_digits_part(s@),
            d.len() == len - start,
            forall|j: int| 0 <= j < d.len() ==> d[j] == s@[j + start],
            forall|j: int| 0 <= j < i - start ==> is_digit_char(d[j]),
            acc == dec_value(d.take(i - start)),
        decreases len - i,
    {
        let c = s.get_char(i);
        let code = c as u32;
        proof {
            assert(d[i - start] == s@[i as int]);
        }
        if code < '0' as u32 || code > '9' as u32 {
            return Option::None;
        }
        let digit = (code - '0' as u32) as u64;
        proof {
            lemma_dec_value_take_succ(d, i - start);
        }
        let shifted = match acc.checked_mul(10) {
            Option::Some(v) => v,
            Option::None => {
                proof {
                    if all_digits(d) {
                        lemma_dec_value_take_monotone(d, i + 1 - start);
                    }
                }
                return Option::None;
            },
        };
        acc = match shifted.checked_add(digit) {
            Option::Some(v) => v,
            Option::None => {
                proof {
                    if all_digits(d) {
                        lemma_dec_value_take_monotone(d, i + 1 - start);
                    }
                }
                return Option::None;
            },
        };
        i += 1;
    }
    proof {
        assert(d.take(len - start) == d);
    }
    Option::Some(acc)
}

/// The decimal digit string of `n`, most significant digit first.
pub open spec fn dec_string(n: nat) -> Seq<char>
    decreases n,
{
    if n < 10 {
        seq![digit_char(n)]
    } else {
        dec_string(n / 10) + seq![digit_char(n % 10)]
    }
}

pub open spec fn digit_char(d: nat) -> char {
    if d == 0 {
        '0'
    } else if d == 1 {
        '1'
    } else if d == 2 {
        '2'
    } else if d == 3 {
        '3'
    } else if d == 4 {
        '4'
    } else if d == 5 {
        '5'
    } else if d == 6 {
        '6'
    } else if d == 7 {
        '7'
    } else if d == 8 {
        '8'
    } else {
        '9'
    }
}

fn digit_to_char(d: u64) -> (c: char)
    requires
        d < 10,
    ensures
        c == digit_char(d as nat),
{
    if d == 0 {
        '0'
    } else if d == 1 {
        '1'
    } else if d == 2 {
        '2'
    } else if d == 3 {
        '3'
    } else if d == 4 {
        '4'
    } else if d == 5 {
        '5'
    } else if d == 6 {
        '6'
    } else if d == 7 {
        '7'
    } else if d == 8 {
        '8'
    } else {
        '9'
    }
}

/// Writes `n` in decimal.
pub fn u64_to_string(n: u64) -> (r: String)
    ensures
        r@ == dec_string(n as nat),
{
    let mut digits: Vec<char> = Vec::new();
    let mut rest: u64 = n;
    loop
        invariant_except_break
            dec_string(n as nat) == dec_string(rest as nat) + digits@.reverse(),
        ensures
            dec_string(n as nat) == digits@.reverse(),
        decreases rest,
    {
        let ghost prev = digits@;
        let d = rest % 10;
        digits.push(digit_to_char(d));
        proof {
            assert(digits@.reverse() =~= seq![digit_char(d as nat)] + prev.reverse());
        }
        if rest < 10 {
            break;
        }
        rest = rest / 10;
    }
    let mut out = String::new();
    let mut i: usize = digits.len();
    proof {
        assert(digits@.skip(i as int).reverse() =~= Seq::<char>::empty());
    }
    while i > 0
        invariant
            0 <= i <= digits@.len(),
            dec_string(n as nat) == digits@.reverse(),
            out@ == digits@.skip(i as int).reverse(),
        decreases i,
    {
        i -= 1;
        let c = digits[i];
        push_char(&mut out, c);
        proof {
            assert(digits@.skip(i + 1).reverse().push(digits@[i as int]) =~= digits@.skip(
                i as int,
            ).reverse());
        }
    }
    proof {
        assert(digits@.skip(0).reverse() == digits@.reverse());
    }
    out
}

} // verus!
