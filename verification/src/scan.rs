//! Character-level scanning primitives for shader reflection: whitespace and
//! token runs, literal matching, digit runs and substring search.  Each
//! executable scanner is proved equal to a specification twin over the
//! source's character sequence.

use vstd::prelude::*;
use vstd::string::StrSliceExecFns;

verus! {

/// Whitespace as the reflection grammar understands it.
pub open spec fn is_space(c: char) -> bool {
    c == ' ' || c == '\t' || c == '\n' || c == '\r'
}

pub open spec fn is_digit(c: char) -> bool {
    '0' as u32 <= c as u32 && c as u32 <= '9' as u32
}

/// Characters allowed in a constant-buffer name: anything up to whitespace,
/// the opening brace of the body, or the colon before the register.
pub open spec fn is_buffer_name_char(c: char) -> bool {
    !is_space(c) && c != '{' && c != ':'
}

/// Characters allowed in a uniform's type token.
pub open spec fn is_type_char(c: char) -> bool {
    !is_space(c) && c != '/' && c != ';'
}

/// Characters allowed in a resource name.
pub open spec fn is_resource_name_char(c: char) -> bool {
    !is_space(c) && c != ';'
}

/// Position of the first non-whitespace character in `[i, end)`, or `end`.
pub open spec fn skip_spaces(s: Seq<char>, i: int, end: int) -> int
    decreases end - i,
{
    if i < 0 || i >= end {
        end
    } else if is_space(s[i]) {
        skip_spaces(s, i + 1, end)
    } else {
        i
    }
}

/// End of the run of buffer-name characters starting at `i`, capped at `end`.
pub open spec fn scan_buffer_name(s: Seq<char>, i: int, end: int) -> int
    decreases end - i,
{
    if i < 0 || i >= end {
        end
    } else if is_buffer_name_char(s[i]) {
        scan_buffer_name(s, i + 1, end)
    } else {
        i
    }
}

/// End of the run of type-token characters starting at `i`, capped at `end`.
pub open spec fn scan_type_token(s: Seq<char>, i: int, end: int) -> int
    decreases end - i,
{
    if i < 0 || i >= end {
        end
    } else if is_type_char(s[i]) {
        scan_type_token(s, i + 1, end)
    } else {
        i
    }
}

/// End of the run of resource-name characters starting at `i`, capped at `end`.
pub open spec fn scan_resource_name(s: Seq<char>, i: int, end: int) -> int
    decreases end - i,
{
    if i < 0 || i >= end {
        end
    } else if is_resource_name_char(s[i]) {
        scan_resource_name(s, i + 1, end)
    } else {
        i
    }
}

/// End of the run of decimal digits starting at `i`, capped at `end`.
pub open spec fn scan_digits(s: Seq<char>, i: int, end: int) -> int
    decreases end - i,
{
    if i < 0 || i >= end {
        end
    } else if is_digit(s[i]) {
        scan_digits(s, i + 1, end)
    } else {
        i
    }
}

/// Position of the first occurrence of `c` in `[i, end)`, or `end`.
pub open spec fn find_char(s: Seq<char>, i: int, end: int, c: char) -> int
    decreases end - i,
{
    if i < 0 || i >= end {
        end
    } else if s[i] == c {
        i
    } else {
        find_char(s, i + 1, end, c)
    }
}

/// Numeric value of the decimal digits `s[i..j)`.
pub open spec fn digits_val(s: Seq<char>, i: int, j: int) -> int
    decreases j - i,
{
    if j <= i {
        0
    } else {
        digits_val(s, i, j - 1) * 10 + (s[j - 1] as u32 - '0' as u32)
    }
}

/// The pattern `pat` occurs in `s` starting at position `i`.
pub open spec fn matches_at(s: Seq<char>, i: int, pat: Seq<char>) -> bool {
    0 <= i && i + pat.len() <= s.len() && s.subrange(i, i + pat.len()) == pat
}

/// `needle` occurs somewhere in `hay`.
pub open spec fn contains_seq(hay: Seq<char>, needle: Seq<char>) -> bool {
    exists|i: int| matches_at(hay, i, needle)
}

pub proof fn lemma_skip_spaces_bounds(s: Seq<char>, i: int, end: int)
    requires
        0 <= i <= end,
    ensures
        i <= skip_spaces(s, i, end) <= end,
    decreases end - i,
{
    if i < end && is_space(s[i]) {
        lemma_skip_spaces_bounds(s, i + 1, end);
    }
}

pub proof fn lemma_scan_buffer_name_bounds(s: Seq<char>, i: int, end: int)
    requires
        0 <= i <= end,
    ensures
        i <= scan_buffer_name(s, i, end) <= end,
    decreases end - i,
{
    if i < end && is_buffer_name_char(s[i]) {
        lemma_scan_buffer_name_bounds(s, i + 1, end);
    }
}

pub proof fn lemma_scan_type_token_bounds(s: Seq<char>, i: int, end: int)
    requires
        0 <= i <= end,
    ensures
        i <= scan_type_token(s, i, end) <= end,
    decreases end - i,
{
    if i < end && is_type_char(s[i]) {
        lemma_scan_type_token_bounds(s, i + 1, end);
    }
}

pub proof fn lemma_scan_resource_name_bounds(s: Seq<char>, i: int, end: int)
    requires
        0 <= i <= end,
    ensures
        i <= scan_resource_name(s, i, end) <= end,
    decreases end - i,
{
    if i < end && is_resource_name_char(s[i]) {
        lemma_scan_resource_name_bounds(s, i + 1, end);
    }
}

pub proof fn lemma_scan_digits_bounds(s: Seq<char>, i: int, end: int)
    requires
        0 <= i <= end,
    ensures
        i <= scan_digits(s, i, end) <= end,
    decreases end - i,
{
    if i < end && is_digit(s[i]) {
        lemma_scan_digits_bounds(s, i + 1, end);
    }
}

pub proof fn lemma_find_char_bounds(s: Seq<char>, i: int, end: int, c: char)
    requires
        0 <= i <= end,
    ensures
        i <= find_char(s, i, end, c) <= end,
    decreases end - i,
{
    if i < end && s[i] != c {
        lemma_find_char_bounds(s, i + 1, end, c);
    }
}

/// The characters of `s`, as a directly indexable vector.
pub fn str_to_chars(s: &str) -> (v: Vec<char>)
    ensures
        v@ == s@,
{
    let n = s.unicode_len();
    let mut v: Vec<char> = Vec::new();
    let mut i: usize = 0;
    while i < n
        invariant
            n == s@.len(),
            i <= n,
            v@ == s@.take(i as int),
        decreases n - i,
    {
        let c = s.get_char(i);
        v.push(c);
        proof {
            assert(v@ =~= s@.take(i as int + 1));
        }
        i = i + 1;
    }
    proof {
        assert(s@.take(n as int) =~= s@);
    }
    v
}

pub fn is_space_x(c: char) -> (r: bool)
    ensures
        r == is_space(c),
{
    c == ' ' || c == '\t' || c == '\n' || c == '\r'
}

pub fn is_digit_x(c: char) -> (r: bool)
    ensures
        r == is_digit(c),
{
    let v = c as u32;
    v >= '0' as u32 && v <= '9' as u32
}

pub fn skip_spaces_x(s: &Vec<char>, i: usize, end: usize) -> (r: usize)
    requires
        i <= end <= s@.len(),
    ensures
        r as int == skip_spaces(s@, i as int, end as int),
        i <= r <= end,
{
    let mut cur = i;
    while cur < end && is_space_x(s[cur])
        invariant
            i <= cur <= end,
            end <= s@.len(),
            skip_spaces(s@, i as int, end as int) == skip_spaces(s@, cur as int, end as int),
        decreases end - cur,
    {
        cur = cur + 1;
    }
    cur
}

pub fn scan_buffer_name_x(s: &Vec<char>, i: usize, end: usize) -> (r: usize)
    requires
        i <= end <= s@.len(),
    ensures
        r as int == scan_buffer_name(s@, i as int, end as int),
        i <= r <= end,
{
    let mut cur = i;
    while cur < end && !is_space_x(s[cur]) && s[cur] != '{' && s[cur] != ':'
        invariant
            i <= cur <= end,
            end <= s@.len(),
            scan_buffer_name(s@, i as int, end as int) == scan_buffer_name(
                s@,
                cur as int,
                end as int,
            ),
        decreases end - cur,
    {
        cur = cur + 1;
    }
    cur
}

pub fn scan_type_token_x(s: &Vec<char>, i: usize, end: usize) -> (r: usize)
    requires
        i <= end <= s@.len(),
    ensures
        r as int == scan_type_token(s@, i as int, end as int),
        i <= r <= end,
{
    let mut cur = i;
    while cur < end && !is_space_x(s[cur]) && s[cur] != '/' && s[cur] != ';'
        invariant
            i <= cur <= end,
            end <= s@.len(),
            scan_type_token(s@, i as int, end as int) == scan_type_token(
                s@,
                cur as int,
                end as int,
            ),
        decreases end - cur,
    {
        cur = cur + 1;
    }
    cur
}

pub fn scan_resource_name_x(s: &Vec<char>, i: usize, end: usize) -> (r: usize)
    requires
        i <= end <= s@.len(),
    ensures
        r as int == scan_resource_name(s@, i as int, end as int),
        i <= r <= end,
{
    let mut cur = i;
    while cur < end && !is_space_x(s[cur]) && s[cur] != ';'
        invariant
            i <= cur <= end,
            end <= s@.len(),
            scan_resource_name(s@, i as int, end as int) == scan_resource_name(
                s@,
                cur as int,
                end as int,
            ),
        decreases end - cur,
    {
        cur = cur + 1;
    }
    cur
}

pub fn scan_digits_x(s: &Vec<char>, i: usize, end: usize) -> (r: usize)
    requires
        i <= end <= s@.len(),
    ensures
        r as int == scan_digits(s@, i as int, end as int),
        i <= r <= end,
{
    let mut cur = i;
    while cur < end && is_digit_x(s[cur])
        invariant
            i <= cur <= end,
            end <= s@.len(),
            scan_digits(s@, i as int, end as int) == scan_digits(s@, cur as int, end as int),
        decreases end - cur,
    {
        cur = cur + 1;
    }
    cur
}

pub fn find_char_x(s: &Vec<char>, i: usize, end: usize, c: char) -> (r: usize)
    requires
        i <= end <= s@.len(),
    ensures
        r as int == find_char(s@, i as int, end as int, c),
        i <= r <= end,
{
    let mut cur = i;
    while cur < end && s[cur] != c
        invariant
            i <= cur <= end,
            end <= s@.len(),
            find_char(s@, i as int, end as int, c) == find_char(s@, cur as int, end as int, c),
        decreases end - cur,
    {
        cur = cur + 1;
    }
    cur
}

/// Parses the digit run `s[i..j)` as a `u32`; `None` when the value does not
/// fit.
pub fn parse_digits_u32(s: &Vec<char>, i: usize, j: usize) -> (r: Option<u32>)
    requires
        i <= j <= s@.len(),
        forall|k: int| i <= k < j ==> is_digit(#[trigger] s@[k]),
    ensures
        match r {
            Some(v) => digits_val(s@, i as int, j as int) == v as int,
            None => digits_val(s@, i as int, j as int) > u32::MAX as int,
        },
{
    let mut cur = i;
    let mut acc: u32 = 0;
    proof {
        lemma_digits_val_nonneg(s@, i as int, i as int);
    }
    while cur < j
        invariant
            i <= cur <= j,
            j <= s@.len(),
            forall|k: int| i <= k < j ==> is_digit(#[trigger] s@[k]),
            acc as int == digits_val(s@, i as int, cur as int),
        decreases j - cur,
    {
        let d: u32 = s[cur] as u32 - '0' as u32;
        proof {
            assert(is_digit(s@[cur as int]));
        }
        if acc > (u32::MAX - d) / 10 {
            proof {
                lemma_digits_val_monotonic(s@, i as int, cur as int + 1, j as int);
                assert(digits_val(s@, i as int, cur as int + 1) == acc as int * 10 + d);
                assert(acc as int * 10 + d > u32::MAX as int) by (nonlinear_arith)
                    requires
                        acc as int > (u32::MAX as int - d) / 10,
                        0 <= d < 10,
                        acc as int >= 0,
                ;
            }
            return None;
        }
        acc = acc * 10 + d;
        cur = cur + 1;
    }
    Some(acc)
}

pub proof fn lemma_digits_val_nonneg(s: Seq<char>, i: int, j: int)
    requires
        forall|k: int| i <= k < j ==> is_digit(#[trigger] s[k]),
    ensures
        digits_val(s, i, j) >= 0,
    decreases j - i,
{
    if j > i {
        lemma_digits_val_nonneg(s, i, j - 1);
    }
}

/// A longer digit run has at least the value of its prefix.
pub proof fn lemma_digits_val_monotonic(s: Seq<char>, i: int, j: int, k: int)
    requires
        i <= j <= k,
        forall|m: int| i <= m < k ==> is_digit(#[trigger] s[m]),
    ensures
        digits_val(s, i, k) >= digits_val(s, i, j),
    decreases k - j,
{
    lemma_digits_val_nonneg(s, i, j);
    if k > j {
        lemma_digits_val_monotonic(s, i, j, k - 1);
        lemma_digits_val_nonneg(s, i, k - 1);
        assert(digits_val(s, i, k) == digits_val(s, i, k - 1) * 10 + (s[k - 1] as u32 - '0' as u32));
        assert(digits_val(s, i, k - 1) * 10 >= digits_val(s, i, k - 1)) by (nonlinear_arith)
            requires
                digits_val(s, i, k - 1) >= 0,
        ;
    }
}

/// Whether `pat` occurs in `s` at position `i`.
pub fn matches_at_x(s: &Vec<char>, i: usize, pat: &Vec<char>) -> (r: bool)
    requires
        i <= s@.len(),
    ensures
        r == matches_at(s@, i as int, pat@),
{
    let m = pat.len();
    let n = s.len();
    if n - i < m {
        return false;
    }
    let mut j: usize = 0;
    while j < m
        invariant
            j <= m,
            m == pat@.len(),
            n == s@.len(),
            i + m <= n,
            forall|k: int| 0 <= k < j ==> s@[i + k] == pat@[k],
        decreases m - j,
    {
        if s[i + j] != pat[j] {
            proof {
                assert(s@.subrange(i as int, i as int + m as int)[j as int] == s@[i as int
                    + j as int]);
            }
            return false;
        }
        j = j + 1;
    }
    proof {
        assert(s@.subrange(i as int, i as int + m as int) =~= pat@);
    }
    true
}

/// Whether `needle` occurs anywhere in `hay`.
pub fn contains_chars(hay: &Vec<char>, needle: &Vec<char>) -> (r: bool)
    ensures
        r == contains_seq(hay@, needle@),
{
    let n = hay.len();
    if needle.len() == 0 {
        proof {
            assert(hay@.subrange(0, 0) =~= needle@);
            assert(matches_at(hay@, 0, needle@));
        }
        return true;
    }
    let mut i: usize = 0;
    while i < n
        invariant
            n == hay@.len(),
            i <= n,
            forall|k: int| 0 <= k < i ==> !matches_at(hay@, k, needle@),
        decreases n - i,
    {
        if matches_at_x(hay, i, needle) {
            return true;
        }
        i = i + 1;
    }
    proof {
        assert forall|k: int| !matches_at(hay@, k, needle@) by {
            if 0 <= k && k + needle@.len() <= hay@.len() {
                assert(k < hay@.len());
            }
        }
    }
    false
}

/// Whether `needle` occurs anywhere in `hay`, on string slices.
pub fn str_contains(hay: &str, needle: &str) -> (r: bool)
    ensures
        r == contains_seq(hay@, needle@),
{
    let h = str_to_chars(hay);
    let n = str_to_chars(needle);
    contains_chars(&h, &n)
}

} // verus!
