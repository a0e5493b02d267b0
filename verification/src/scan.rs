//! Byte-level scanning primitives shared by the AT response parsers:
//! substring search, whitespace and digit runs, and decimal values.

use vstd::prelude::*;

verus! {

/// ASCII whitespace, as the response grammars skip it.
pub open spec fn is_ws(b: u8) -> bool {
    b == 32 || b == 9 || b == 10 || b == 11 || b == 12 || b == 13
}

/// ASCII decimal digit.
pub open spec fn is_digit(b: u8) -> bool {
    48 <= b <= 57
}

/// The needle occurs in the haystack at position `i`.
pub open spec fn match_at(h: Seq<u8>, n: Seq<u8>, i: int) -> bool {
    &&& 0 <= i
    &&& i + n.len() <= h.len()
    &&& h.subrange(i, i + n.len() as int) == n
}

/// Position of the first occurrence of the needle at or after `i`.
pub open spec fn first_match_from(h: Seq<u8>, n: Seq<u8>, i: int) -> Option<int>
    decreases h.len() - i when 0 <= i <= h.len()
{
    if i + n.len() > h.len() {
        None
    } else if n.len() == 0 {
        Some(i)
    } else if h.subrange(i, i + n.len() as int) == n {
        Some(i)
    } else {
        first_match_from(h, n, i + 1)
    }
}

/// Where no occurrence exists at or after `i`, the search from `i` fails.
pub proof fn lemma_no_match_no_find(h: Seq<u8>, n: Seq<u8>, i: int)
    requires
        0 <= i <= h.len(),
        forall|j: int| i <= j ==> !match_at(h, n, j),
    ensures
        first_match_from(h, n, i) is None,
    decreases h.len() - i,
{
    if i + n.len() <= h.len() {
        assert(!match_at(h, n, i));
        if n.len() == 0 {
            assert(h.subrange(i, i) =~= n);
        } else {
            lemma_no_match_no_find(h, n, i + 1);
        }
    }
}

/// A successful search finds an occurrence, and the first one.
pub proof fn lemma_find_is_first(h: Seq<u8>, n: Seq<u8>, i: int)
    requires
        0 <= i <= h.len(),
        first_match_from(h, n, i) is Some,
    ensures
        match_at(h, n, first_match_from(h, n, i)->Some_0),
        i <= first_match_from(h, n, i)->Some_0,
        forall|j: int| i <= j < first_match_from(h, n, i)->Some_0 ==> !match_at(h, n, j),
    decreases h.len() - i,
{
    if i + n.len() > h.len() {
    } else if h.subrange(i, i + n.len() as int) == n {
    } else {
        if n.len() == 0 {
            assert(h.subrange(i, i) =~= n);
        }
        lemma_find_is_first(h, n, i + 1);
    }
}

/// Whether `needle` occurs at position `i` of `haystack`.
fn token_matches_at(haystack: &[u8], needle: &[u8], i: usize) -> (r: bool)
    requires
        i + needle.len() <= haystack.len(),
    ensures
        r == match_at(haystack@, needle@, i as int),
{
    let mut j: usize = 0;
    while j < needle.len()
        invariant
            i + needle.len() <= haystack.len(),
            0 <= j <= needle.len(),
            forall|k: int| 0 <= k < j ==> haystack@[i + k] == needle@[k],
        decreases needle.len() - j,
    {
        if haystack[i + j] != needle[j] {
            proof {
                let sub = haystack@.subrange(i as int, i + needle@.len() as int);
                assert(sub =~= needle@ ==> sub[j as int] == needle@[j as int]);
                assert(sub[j as int] == haystack@[i + j]);
            }
            return false;
        }
        j += 1;
    }
    proof {
        assert(haystack@.subrange(i as int, i + needle@.len() as int) =~= needle@);
    }
    true
}

/// Position of the first occurrence of `needle` in `haystack`, if any.
pub fn find_token(haystack: &[u8], needle: &[u8]) -> (r: Option<usize>)
    ensures
        match r {
            Some(i) => first_match_from(haystack@, needle@, 0) == Some(i as int),
            None => first_match_from(haystack@, needle@, 0) is None,
        },
{
    if needle.len() > haystack.len() {
        return None;
    }
    if needle.len() == 0 {
        proof {
            assert(haystack@.subrange(0, 0) =~= needle@);
        }
        return Some(0);
    }
    let end = haystack.len() - needle.len();
    let mut i: usize = 0;
    loop
        invariant
            1 <= needle.len() <= haystack.len(),
            end == haystack.len() - needle.len(),
            0 <= i <= end + 1,
            first_match_from(haystack@, needle@, 0) == first_match_from(
                haystack@,
                needle@,
                i as int,
            ),
        decreases end + 1 - i,
    {
        if i > end {
            return None;
        }
        if token_matches_at(haystack, needle, i) {
            return Some(i);
        }
        i += 1;
    }
}

/// Whether `needle` occurs anywhere in `haystack`.
pub open spec fn contains_token(h: Seq<u8>, n: Seq<u8>) -> bool {
    first_match_from(h, n, 0) is Some
}

/// Whether `needle` occurs anywhere in `haystack`.
pub fn has_token(haystack: &[u8], needle: &[u8]) -> (r: bool)
    ensures
        r == contains_token(haystack@, needle@),
{
    find_token(haystack, needle).is_some()
}

/// Position of the first occurrence of the byte `b` at or after `i`.
pub open spec fn first_byte_from(s: Seq<u8>, b: u8, i: int) -> Option<int>
    decreases s.len() - i when i <= s.len()
{
    if !(0 <= i < s.len()) {
        None
    } else if s[i] == b {
        Some(i)
    } else {
        first_byte_from(s, b, i + 1)
    }
}

/// A found byte lies in bounds at or after the start of the search.
pub proof fn lemma_first_byte_props(s: Seq<u8>, b: u8, i: int)
    requires
        0 <= i <= s.len(),
        first_byte_from(s, b, i) is Some,
    ensures
        i <= first_byte_from(s, b, i)->Some_0 < s.len(),
        s[first_byte_from(s, b, i)->Some_0] == b,
    decreases s.len() - i,
{
    if 0 <= i < s.len() && s[i] != b {
        lemma_first_byte_props(s, b, i + 1);
    }
}

/// Position of the first occurrence of `b` in `s` at or after `from`.
pub fn find_byte(s: &[u8], b: u8, from: usize) -> (r: Option<usize>)
    requires
        from <= s.len(),
    ensures
        match r {
            Some(i) => first_byte_from(s@, b, from as int) == Some(i as int),
            None => first_byte_from(s@, b, from as int) is None,
        },
{
    let mut i = from;
    loop
        invariant
            from <= i <= s.len(),
            first_byte_from(s@, b, from as int) == first_byte_from(s@, b, i as int),
        decreases s.len() - i,
    {
        if i >= s.len() {
            return None;
        }
        if s[i] == b {
            return Some(i);
        }
        i += 1;
    }
}

/// End of the whitespace run that starts at `i`.
pub open spec fn skip_ws_from(s: Seq<u8>, i: int) -> int
    decreases s.len() - i when i <= s.len()
{
    if 0 <= i < s.len() && is_ws(s[i]) {
        skip_ws_from(s, i + 1)
    } else {
        i
    }
}

/// Index just past the leading ASCII whitespace of `s` at `from`.
pub fn skip_whitespace(s: &[u8], from: usize) -> (r: usize)
    requires
        from <= s.len(),
    ensures
        r == skip_ws_from(s@, from as int),
        from <= r <= s.len(),
{
    let mut i = from;
    loop
        invariant
            from <= i <= s.len(),
            skip_ws_from(s@, from as int) == skip_ws_from(s@, i as int),
        decreases s.len() - i,
    {
        if i >= s.len() {
            return i;
        }
        let b = s[i];
        if !(b == 32 || b == 9 || b == 10 || b == 11 || b == 12 || b == 13) {
            return i;
        }
        i += 1;
    }
}

/// End of the decimal-digit run that starts at `i`.
pub open spec fn digit_run_end(s: Seq<u8>, i: int) -> int
    decreases s.len() - i when i <= s.len()
{
    if 0 <= i < s.len() && is_digit(s[i]) {
        digit_run_end(s, i + 1)
    } else {
        i
    }
}

/// A digit run stays in bounds and holds digits only.
pub proof fn lemma_digit_run_props(s: Seq<u8>, i: int)
    requires
        0 <= i <= s.len(),
    ensures
        i <= digit_run_end(s, i) <= s.len(),
        forall|k: int| i <= k < digit_run_end(s, i) ==> is_digit(s[k]),
    decreases s.len() - i,
{
    if 0 <= i < s.len() && is_digit(s[i]) {
        lemma_digit_run_props(s, i + 1);
    }
}

/// Value of the decimal digits `s[i..j]`.
pub open spec fn decimal_value(s: Seq<u8>, i: int, j: int) -> int
    decreases j - i,
{
    if i >= j {
        0
    } else {
        decimal_value(s, i, j - 1) * 10 + (s[j - 1] - 48)
    }
}

/// The value of a digit string is nonnegative.
pub proof fn lemma_decimal_value_nonneg(s: Seq<u8>, i: int, j: int)
    requires
        i <= j,
        forall|k: int| i <= k < j ==> is_digit(s[k]),
    ensures
        decimal_value(s, i, j) >= 0,
    decreases j - i,
{
    if i < j {
        lemma_decimal_value_nonneg(s, i, j - 1);
    }
}

/// Extending a digit string never shrinks its value.
pub proof fn lemma_decimal_value_monotone(s: Seq<u8>, i: int, m: int, j: int)
    requires
        i <= m <= j,
        forall|k: int| i <= k < j ==> is_digit(s[k]),
    ensures
        decimal_value(s, i, j) >= decimal_value(s, i, m),
    decreases j - m,
{
    if m < j {
        lemma_decimal_value_monotone(s, i, m, j - 1);
        lemma_decimal_value_nonneg(s, i, j - 1);
    }
}

/// Read the decimal-digit run at `from` as a value no larger than 255.
/// Returns the value and the end of the run; nothing when the run is empty
/// or its value exceeds 255.
pub fn parse_u8_run(s: &[u8], from: usize) -> (r: Option<(u8, usize)>)
    requires
        from <= s.len(),
    ensures
        match r {
            Some(p) => {
                &&& p.1 == digit_run_end(s@, from as int)
                &&& from < p.1 <= s.len()
                &&& p.0 == decimal_value(s@, from as int, p.1 as int)
            },
            None => {
                ||| digit_run_end(s@, from as int) == from
                ||| decimal_value(s@, from as int, digit_run_end(s@, from as int)) > 255
            },
        },
{
    let ghost run_end = digit_run_end(s@, from as int);
    proof {
        lemma_digit_run_props(s@, from as int);
    }
    let mut i = from;
    let mut acc: u32 = 0;
    loop
        invariant
            from <= i <= s.len(),
            forall|k: int| from <= k < i ==> is_digit(s@[k]),
            run_end == digit_run_end(s@, from as int),
            digit_run_end(s@, from as int) == digit_run_end(s@, i as int),
            acc == decimal_value(s@, from as int, i as int),
            acc <= 255,
        decreases s.len() - i,
    {
        let run_over = if i >= s.len() {
            true
        } else {
            let b = s[i];
            !(48 <= b && b <= 57)
        };
        if run_over {
            if i == from {
                return None;
            }
            return Some((acc as u8, i));
        }
        let d = s[i] - 48;
        acc = acc * 10 + (d as u32);
        i += 1;
        if acc > 255 {
            proof {
                lemma_digit_run_props(s@, i as int);
                lemma_decimal_value_monotone(s@, from as int, i as int, run_end);
            }
            return None;
        }
    }
}

/// Relies on core::str::from_utf8: it succeeds exactly when the bytes are
/// valid UTF-8, the property vstd states as `valid_utf8`.
#[verifier::external_body]
pub(crate) fn utf8_ok(bytes: &[u8]) -> (r: bool)
    ensures
        r == vstd::utf8::valid_utf8(bytes@),
{
    core::str::from_utf8(bytes).is_ok()
}

} // verus!
