//! Character-level text primitives shared by the parsers.
//!
//! Text is modelled as `Seq<char>`. The executable functions work on a
//! character vector and describe their results as index ranges into it, so
//! that a caller can cut the answer out of the string it started from.

use vstd::prelude::*;

verus! {

/// Whether `c` carries the Unicode `White_Space` property.
pub open spec fn is_whitespace(c: char) -> bool {
    let n = c as u32;
    ||| 0x09 <= n <= 0x0D
    ||| n == 0x20
    ||| n == 0x85
    ||| n == 0xA0
    ||| n == 0x1680
    ||| 0x2000 <= n <= 0x200A
    ||| n == 0x2028
    ||| n == 0x2029
    ||| n == 0x202F
    ||| n == 0x205F
    ||| n == 0x3000
}

/// `s` without its leading whitespace.
pub open spec fn trim_start(s: Seq<char>) -> Seq<char>
    decreases s.len(),
{
    if s.len() > 0 && is_whitespace(s[0]) {
        trim_start(s.drop_first())
    } else {
        s
    }
}

/// `s` without its trailing whitespace.
pub open spec fn trim_end(s: Seq<char>) -> Seq<char>
    decreases s.len(),
{
    if s.len() > 0 && is_whitespace(s.last()) {
        trim_end(s.drop_last())
    } else {
        s
    }
}

/// `s` without leading and trailing whitespace.
pub open spec fn trim(s: Seq<char>) -> Seq<char> {
    trim_end(trim_start(s))
}

/// Whether `pattern` stands in `s` at index `i`.
pub open spec fn occurs_at(s: Seq<char>, pattern: Seq<char>, i: int) -> bool {
    &&& 0 <= i
    &&& i + pattern.len() <= s.len()
    &&& s.subrange(i, i + pattern.len()) == pattern
}

/// Index of the first occurrence of `pattern` in `s` at or after `from`.
pub open spec fn find_from(s: Seq<char>, pattern: Seq<char>, from: int) -> Option<int>
    decreases s.len() + 1 - from,
{
    if from < 0 || from + pattern.len() > s.len() {
        None
    } else if occurs_at(s, pattern, from) {
        Some(from)
    } else {
        find_from(s, pattern, from + 1)
    }
}

/// Index of the first occurrence of `pattern` in `s`.
pub open spec fn find(s: Seq<char>, pattern: Seq<char>) -> Option<int> {
    find_from(s, pattern, 0)
}

/// Whether `s` begins with `prefix`.
pub open spec fn starts_with(s: Seq<char>, prefix: Seq<char>) -> bool {
    occurs_at(s, prefix, 0)
}

/// Whether `pattern` occurs anywhere in `s`.
pub open spec fn contains(s: Seq<char>, pattern: Seq<char>) -> bool {
    find(s, pattern) is Some
}

/// `find_from` returns the least index at or after `from` where the pattern
/// stands, and `None` exactly when it stands at no such index.
pub proof fn lemma_find_from_is_first(s: Seq<char>, pattern: Seq<char>, from: int)
    requires
        0 <= from,
    ensures
        match find_from(s, pattern, from) {
            Some(i) => {
                &&& from <= i
                &&& occurs_at(s, pattern, i)
                &&& forall|j: int| from <= j < i ==> !occurs_at(s, pattern, j)
            },
            None => forall|j: int| from <= j ==> !occurs_at(s, pattern, j),
        },
    decreases s.len() + 1 - from,
{
    if from + pattern.len() > s.len() {
    } else if occurs_at(s, pattern, from) {
    } else {
        lemma_find_from_is_first(s, pattern, from + 1);
    }
}

/// `find` returns the least index where the pattern stands, and `None`
/// exactly when it stands nowhere.
pub proof fn lemma_find_is_first(s: Seq<char>, pattern: Seq<char>)
    ensures
        match find(s, pattern) {
            Some(i) => {
                &&& occurs_at(s, pattern, i)
                &&& forall|j: int| 0 <= j < i ==> !occurs_at(s, pattern, j)
            },
            None => forall|j: int| !occurs_at(s, pattern, j),
        },
{
    lemma_find_from_is_first(s, pattern, 0);
}

/// Trimming leaves no whitespace at either end, and changes nothing else:
/// the result is the stretch of `s` between its first and its last character
/// that is not whitespace.
pub proof fn lemma_trim_is_tight(s: Seq<char>)
    ensures
        trim(s).len() > 0 ==> !is_whitespace(trim(s)[0]) && !is_whitespace(trim(s).last()),
        exists|a: int, b: int|
            #![trigger s.subrange(a, b)]
            {
                &&& 0 <= a <= b <= s.len()
                &&& trim(s) == s.subrange(a, b)
                &&& forall|i: int| 0 <= i < a ==> is_whitespace(s[i])
                &&& forall|i: int| b <= i < s.len() ==> is_whitespace(s[i])
            },
{
    let a = lemma_trim_start_bounds(s);
    let t = s.subrange(a, s.len() as int);
    let b = lemma_trim_end_bounds(t);
    assert(t.subrange(0, b) == s.subrange(a, a + b));
    assert forall|i: int| a + b <= i < s.len() implies is_whitespace(s[i]) by {
        assert(t[i - a] == s[i]);
    }
    if trim(s).len() > 0 {
        assert(trim(s)[0] == t[0]);
    }
}

/// The index at which `trim_start` cuts.
proof fn lemma_trim_start_bounds(s: Seq<char>) -> (a: int)
    ensures
        0 <= a <= s.len(),
        trim_start(s) == s.subrange(a, s.len() as int),
        forall|i: int| 0 <= i < a ==> is_whitespace(s[i]),
        a < s.len() ==> !is_whitespace(s[a]),
    decreases s.len(),
{
    if s.len() > 0 && is_whitespace(s[0]) {
        let rest = s.drop_first();
        let a = lemma_trim_start_bounds(rest);
        assert(rest.subrange(a, rest.len() as int) == s.subrange(a + 1, s.len() as int));
        assert forall|i: int| 0 <= i < a + 1 implies is_whitespace(s[i]) by {
            if i > 0 {
                assert(rest[i - 1] == s[i]);
            }
        }
        a + 1
    } else {
        assert(s.subrange(0, s.len() as int) == s);
        0
    }
}

/// The index at which `trim_end` cuts.
proof fn lemma_trim_end_bounds(s: Seq<char>) -> (b: int)
    ensures
        0 <= b <= s.len(),
        trim_end(s) == s.subrange(0, b),
        forall|i: int| b <= i < s.len() ==> is_whitespace(s[i]),
        b > 0 ==> !is_whitespace(s[b - 1]),
    decreases s.len(),
{
    if s.len() > 0 && is_whitespace(s.last()) {
        let rest = s.drop_last();
        let b = lemma_trim_end_bounds(rest);
        assert(rest.subrange(0, b) == s.subrange(0, b));
        assert forall|i: int| b <= i < s.len() implies is_whitespace(s[i]) by {
            if i < s.len() - 1 {
                assert(rest[i] == s[i]);
            }
        }
        b
    } else {
        assert(s.subrange(0, s.len() as int) == s);
        s.len() as int
    }
}

/// Tests a character for the Unicode `White_Space` property.
pub fn char_is_whitespace(c: char) -> (b: bool)
    ensures
        b == is_whitespace(c),
{
    let n: u32 = c as u32;
    (0x09 <= n && n <= 0x0D) || n == 0x20 || n == 0x85 || n == 0xA0 || n == 0x1680 || (0x2000 <= n
        && n <= 0x200A) || n == 0x2028 || n == 0x2029 || n == 0x202F || n == 0x205F || n == 0x3000
}

/// Collects the characters of `s` into a vector.
pub fn chars_of(s: &str) -> (chars: Vec<char>)
    ensures
        chars@ == s@,
{
    let mut chars: Vec<char> = Vec::new();
    for c in it: s.chars()
        invariant
            chars@ == it.seq().take(it.index() as int),
            it.seq() == s@,
    {
        chars.push(c);
    }
    chars
}

/// Trims the stretch `start..end` of `chars`, returning the bounds of what is
/// left.
pub fn trim_range(chars: &Vec<char>, start: usize, end: usize) -> (range: (usize, usize))
    requires
        start <= end <= chars.len(),
    ensures
        start <= range.0 <= range.1 <= end,
        chars@.subrange(range.0 as int, range.1 as int) == trim(
            chars@.subrange(start as int, end as int),
        ),
{
    let mut a = start;
    while a < end && char_is_whitespace(chars[a])
        invariant
            start <= a <= end <= chars.len(),
            trim_start(chars@.subrange(start as int, end as int)) == trim_start(
                chars@.subrange(a as int, end as int),
            ),
        decreases end - a,
    {
        assert(chars@.subrange(a as int, end as int).drop_first() == chars@.subrange(
            a + 1,
            end as int,
        ));
        a += 1;
    }
    let mut b = end;
    while b > a && char_is_whitespace(chars[b - 1])
        invariant
            a <= b <= end <= chars.len(),
            trim_end(chars@.subrange(a as int, end as int)) == trim_end(
                chars@.subrange(a as int, b as int),
            ),
        decreases b - a,
    {
        assert(chars@.subrange(a as int, b as int).drop_last() == chars@.subrange(
            a as int,
            b - 1,
        ));
        b -= 1;
    }
    (a, b)
}

/// Tests whether `pattern` stands at index `at` of the stretch that ends at
/// `end`.
pub fn matches_at(chars: &Vec<char>, at: usize, end: usize, pattern: &Vec<char>) -> (found: bool)
    requires
        at <= end <= chars.len(),
    ensures
        found == occurs_at(chars@.subrange(at as int, end as int), pattern@, 0),
{
    let n = pattern.len();
    if n > end - at {
        return false;
    }
    let ghost window = chars@.subrange(at as int, end as int);
    let mut k: usize = 0;
    while k < n
        invariant
            k <= n == pattern.len(),
            at + n <= end <= chars.len(),
            window == chars@.subrange(at as int, end as int),
            forall|j: int| 0 <= j < k ==> window[j] == pattern@[j],
        decreases n - k,
    {
        if chars[at + k] != pattern[k] {
            assert(window.subrange(0, n as int)[k as int] != pattern@[k as int]);
            return false;
        }
        k += 1;
    }
    assert(window.subrange(0, n as int) =~= pattern@);
    true
}

/// Finds the first occurrence of `pattern` in the stretch `start..end` of
/// `chars`. The index returned counts from the beginning of `chars`.
pub fn find_in(chars: &Vec<char>, start: usize, end: usize, pattern: &Vec<char>) -> (found: Option<
    usize,
>)
    requires
        start <= end <= chars.len(),
    ensures
        match found {
            Some(i) => start <= i <= end && find(
                chars@.subrange(start as int, end as int),
                pattern@,
            ) == Some(i - start),
            None => find(chars@.subrange(start as int, end as int), pattern@) is None,
        },
{
    let ghost window = chars@.subrange(start as int, end as int);
    let mut i = start;
    while i <= end
        invariant
            start <= i <= end + 1,
            end <= chars.len(),
            window == chars@.subrange(start as int, end as int),
            find(window, pattern@) == find_from(window, pattern@, i - start),
        decreases end + 1 - i,
    {
        if matches_at(chars, i, end, pattern) {
            proof {
                let tail = chars@.subrange(i as int, end as int);
                assert(tail.subrange(0, pattern@.len() as int) == window.subrange(
                    i - start,
                    i - start + pattern@.len(),
                ));
            }
            return Some(i);
        }
        proof {
            let tail = chars@.subrange(i as int, end as int);
            if i - start + pattern@.len() <= window.len() {
                assert(tail.subrange(0, pattern@.len() as int) == window.subrange(
                    i - start,
                    i - start + pattern@.len(),
                ));
            }
        }
        if i == end {
            assert(find_from(window, pattern@, i - start + 1) is None);
            return None;
        }
        i += 1;
    }
    None
}

/// Whether `s` ends with `suffix`.
pub open spec fn ends_with(s: Seq<char>, suffix: Seq<char>) -> bool {
    occurs_at(s, suffix, s.len() - suffix.len())
}

/// Compares two strings character by character.
pub fn same_text(a: &str, b: &str) -> (same: bool)
    ensures
        same == (a@ == b@),
{
    let x = a.as_bytes();
    let y = b.as_bytes();
    proof {
        vstd::utf8::encode_utf8_decode_utf8(a@);
        vstd::utf8::encode_utf8_decode_utf8(b@);
    }
    if x.len() != y.len() {
        return false;
    }
    let n = x.len();
    let mut i: usize = 0;
    while i < n
        invariant
            i <= n,
            n == x@.len(),
            n == y@.len(),
            x@ == vstd::utf8::encode_utf8(a@),
            y@ == vstd::utf8::encode_utf8(b@),
            forall|j: int| 0 <= j < i ==> x@[j] == y@[j],
        decreases n - i,
    {
        if x[i] != y[i] {
            assert(x@[i as int] != y@[i as int]);
            assert(a@ != b@) by {
                if a@ == b@ {
                    assert(x@ == y@);
                }
            }
            return false;
        }
        i += 1;
    }
    assert(x@ =~= y@);
    true
}

/// Tests whether the stretch `start..end` of `chars` ends with `pattern`.
pub fn ends_with_in(chars: &Vec<char>, start: usize, end: usize, pattern: &Vec<char>) -> (found:
    bool)
    requires
        start <= end <= chars.len(),
    ensures
        found == ends_with(chars@.subrange(start as int, end as int), pattern@),
{
    let n = pattern.len();
    if n > end - start {
        return false;
    }
    let found = matches_at(chars, end - n, end, pattern);
    proof {
        let window = chars@.subrange(start as int, end as int);
        let tail = chars@.subrange(end - n, end as int);
        assert(tail.subrange(0, n as int) == window.subrange(window.len() - n, window.len() as int));
    }
    found
}

} // verus!
