//! Character-level helpers: search, decimal parsing and joining.
use vstd::prelude::*;
use vstd::std_specs::iter::IteratorSpec;

verus! {

/// The characters of a string slice, read in one pass.
pub fn chars_of(s: &str) -> (r: Vec<char>)
    ensures
        r@ == s@,
{
    let mut it = s.chars();
    let mut out: Vec<char> = Vec::new();
    loop
        invariant
            out@ + it.remaining() == s@,
        ensures
            out@ == s@,
        decreases s@.len() - out@.len(),
    {
        match it.next() {
            Some(c) => {
                out.push(c);
            },
            None => {
                assert(out@ + it.remaining() =~= out@);
                break;
            },
        }
    }
    out
}

/// Whether `c` occurs in `v[lo..hi]`.
pub fn contains_char(v: &Vec<char>, lo: usize, hi: usize, c: char) -> (r: bool)
    requires
        lo <= hi <= v@.len(),
    ensures
        r == v@.subrange(lo as int, hi as int).contains(c),
{
    let mut i: usize = lo;
    while i < hi
        invariant
            lo <= i <= hi <= v@.len(),
            !v@.subrange(lo as int, i as int).contains(c),
        decreases hi - i,
    {
        if v[i] == c {
            assert(v@.subrange(lo as int, hi as int)[i - lo] == c);
            return true;
        }
        assert(v@.subrange(lo as int, i + 1) =~= v@.subrange(lo as int, i as int).push(v@[i as int]));
        i = i + 1;
    }
    false
}

/// Position of the first `c` in `v`, if any.
pub fn find_char(v: &Vec<char>, c: char) -> (r: Option<usize>)
    ensures
        r is None <==> !v@.contains(c),
        r matches Some(i) ==> i < v@.len() && v@[i as int] == c && !v@.take(i as int).contains(c),
{
    let mut i: usize = 0;
    while i < v.len()
        invariant
            i <= v@.len(),
            !v@.take(i as int).contains(c),
        decreases v@.len() - i,
    {
        if v[i] == c {
            return Some(i);
        }
        assert(v@.take(i + 1) =~= v@.take(i as int).push(v@[i as int]));
        i = i + 1;
    }
    assert(v@.take(v@.len() as int) =~= v@);
    None
}

pub open spec fn is_digit(c: char) -> bool {
    48 <= (c as u32) && (c as u32) <= 57
}

pub open spec fn all_digits(s: Seq<char>) -> bool {
    forall|i: int| 0 <= i < s.len() ==> is_digit(#[trigger] s[i])
}

/// Decimal value of a run of digits.
pub open spec fn digits_value(s: Seq<char>) -> nat
    decreases s.len(),
{
    if s.len() == 0 {
        0
    } else {
        digits_value(s.drop_last()) * 10 + ((s.last() as u32) - 48) as nat
    }
}

/// The digits of an unsigned number as Rust writes it: one optional `+` first.
pub open spec fn unsigned_digits(s: Seq<char>) -> Seq<char> {
    if s.len() > 0 && s[0] == '+' {
        s.drop_first()
    } else {
        s
    }
}

/// What parsing `s` as an unsigned integer no larger than `max` gives:
/// one optional `+`, then at least one decimal digit and nothing else.
pub open spec fn parse_unsigned(s: Seq<char>, max: nat) -> Option<nat> {
    let d = unsigned_digits(s);
    if d.len() > 0 && all_digits(d) && digits_value(d) <= max {
        Some(digits_value(d))
    } else {
        None
    }
}

/// Appending digits never lowers a decimal value.
proof fn lemma_digits_grow(s: Seq<char>, i: int)
    requires
        0 <= i <= s.len(),
        all_digits(s),
    ensures
        digits_value(s.take(i)) <= digits_value(s),
    decreases s.len() - i,
{
    if i < s.len() {
        lemma_digits_grow(s, i + 1);
        assert(s.take(i + 1).drop_last() =~= s.take(i));
        assert(s.take(i + 1).last() == s[i]);
        assert(is_digit(s[i]));
    } else {
        assert(s.take(i) =~= s);
    }
}

/// Parses `v[lo..hi]` as an unsigned integer no larger than `max`.
pub fn parse_unsigned_range(v: &Vec<char>, lo: usize, hi: usize, max: u32) -> (r: Option<u32>)
    requires
        lo <= hi <= v@.len(),
    ensures
        r matches Some(x) ==> parse_unsigned(v@.subrange(lo as int, hi as int), max as nat) == Some(
            x as nat,
        ),
        r is None ==> parse_unsigned(v@.subrange(lo as int, hi as int), max as nat) is None,
{
    let ghost s = v@.subrange(lo as int, hi as int);
    let mut start = lo;
    if lo < hi && v[lo] == '+' {
        start = lo + 1;
    }
    let ghost d = v@.subrange(start as int, hi as int);
    assert(d =~= unsigned_digits(s));
    if start == hi {
        return None;
    }
    let mut acc: u32 = 0;
    let mut i: usize = start;
    while i < hi
        invariant
            lo <= start <= i <= hi <= v@.len(),
            s == v@.subrange(lo as int, hi as int),
            d == v@.subrange(start as int, hi as int),
            d == unsigned_digits(s),
            all_digits(d.take(i - start)),
            acc as nat == digits_value(d.take(i - start)),
            acc <= max,
        decreases hi - i,
    {
        let c = v[i];
        let cu = c as u32;
        if cu < 48 || cu > 57 {
            assert(d[i - start] == c && !is_digit(c));
            return None;
        }
        assert(d.take(i - start + 1).drop_last() =~= d.take(i - start));
        assert(d.take(i - start + 1).last() == c);
        assert(all_digits(d.take(i - start + 1)));
        let digit: u32 = cu - 48;
        if digit > max {
            proof {
                if all_digits(d) {
                    lemma_digits_grow(d, i - start + 1);
                }
            }
            return None;
        }
        if acc > (max - digit) / 10 {
            proof {
                assert(digits_value(d.take(i - start + 1)) > max as nat) by (nonlinear_arith)
                    requires
                        digits_value(d.take(i - start + 1)) == acc as nat * 10 + digit as nat,
                        acc > (max - digit) / 10,
                        digit <= max,
                ;
                if all_digits(d) {
                    lemma_digits_grow(d, i - start + 1);
                }
            }
            return None;
        }
        assert(acc * 10 + digit <= max) by (nonlinear_arith)
            requires
                acc <= (max - digit) / 10,
                digit <= max,
        ;
        acc = acc * 10 + digit;
        i = i + 1;
    }
    assert(d.take(hi - start) =~= d);
    Some(acc)
}

/// Whether `s` begins with `prefix`.
pub fn starts_with(s: &str, prefix: &str) -> (r: bool)
    ensures
        r == (prefix@.len() <= s@.len() && s@.take(prefix@.len() as int) == prefix@),
{
    let n = s.unicode_len();
    let m = prefix.unicode_len();
    if m > n {
        return false;
    }
    let mut i: usize = 0;
    while i < m
        invariant
            m <= n,
            n == s@.len(),
            m == prefix@.len(),
            i <= m,
            s@.take(i as int) == prefix@.take(i as int),
        decreases m - i,
    {
        if s.get_char(i) != prefix.get_char(i) {
            assert(s@.take(m as int)[i as int] != prefix@[i as int]);
            return false;
        }
        assert(s@.take(i + 1) =~= s@.take(i as int).push(s@[i as int]));
        assert(prefix@.take(i + 1) =~= prefix@.take(i as int).push(prefix@[i as int]));
        i = i + 1;
    }
    assert(prefix@.take(m as int) =~= prefix@);
    true
}

/// The strings of `parts` with `sep` between each two.
pub open spec fn joined(parts: Seq<Seq<char>>, sep: Seq<char>) -> Seq<char>
    decreases parts.len(),
{
    if parts.len() == 0 {
        seq![]
    } else if parts.len() == 1 {
        parts[0]
    } else {
        joined(parts.drop_last(), sep) + sep + parts.last()
    }
}

pub open spec fn string_views(v: Seq<String>) -> Seq<Seq<char>> {
    v.map_values(|s: String| s@)
}

/// Joins `parts` with `sep` between each two.
pub fn join(parts: &Vec<String>, sep: &str) -> (r: String)
    ensures
        r@ == joined(string_views(parts@), sep@),
{
    let mut out = String::new();
    let mut i: usize = 0;
    while i < parts.len()
        invariant
            i <= parts@.len(),
            out@ == joined(string_views(parts@.take(i as int)), sep@),
        decreases parts@.len() - i,
    {
        assert(string_views(parts@.take(i + 1)).drop_last() =~= string_views(parts@.take(i as int)));
        if i == 0 {
            out = parts[i].clone();
        } else {
            out = out.concat(sep);
            out = out.concat(parts[i].as_str());
        }
        i = i + 1;
    }
    assert(parts@.take(parts@.len() as int) =~= parts@);
    out
}

/// Whether `p` occurs in `s` as a contiguous run.
pub open spec fn has_sub(s: Seq<char>, p: Seq<char>) -> bool {
    exists|i: int| 0 <= i && i + p.len() <= s.len() && #[trigger] s.subrange(i, i + p.len()) == p
}

/// Whether `v[at..at + p.len()]` is `p`.
fn matches_at(v: &Vec<char>, p: &Vec<char>, at: usize) -> (r: bool)
    requires
        at + p@.len() <= v@.len(),
    ensures
        r == (v@.subrange(at as int, at + p@.len()) == p@),
{
    let n = v.len();
    let mut k: usize = 0;
    while k < p.len()
        invariant
            k <= p@.len(),
            n == v@.len(),
            at + p@.len() <= v@.len(),
            v@.subrange(at as int, at + k) == p@.take(k as int),
        decreases p@.len() - k,
    {
        if v[at + k] != p[k] {
            assert(v@.subrange(at as int, at + p@.len())[k as int] != p@[k as int]);
            return false;
        }
        assert(v@.subrange(at as int, at + k + 1) =~= v@.subrange(at as int, at + k).push(v@[at + k]));
        assert(p@.take(k + 1) =~= p@.take(k as int).push(p@[k as int]));
        k = k + 1;
    }
    assert(p@.take(p@.len() as int) =~= p@);
    true
}

/// Whether `pat` occurs in `s` (as `str::contains` with a string pattern).
pub fn contains_str(s: &str, pat: &str) -> (r: bool)
    ensures
        r == has_sub(s@, pat@),
{
    let v = chars_of(s);
    let p = chars_of(pat);
    if p.len() > v.len() {
        return false;
    }
    let last = v.len() - p.len();
    let mut at: usize = 0;
    while at < last
        invariant
            at <= last,
            last + p@.len() == v@.len(),
            v@ == s@,
            p@ == pat@,
            forall|i: int| 0 <= i < at ==> #[trigger] v@.subrange(i, i + p@.len()) != p@,
        decreases last - at,
    {
        if matches_at(&v, &p, at) {
            return true;
        }
        at = at + 1;
    }
    if matches_at(&v, &p, last) {
        return true;
    }
    false
}

/// What `str::to_lowercase` makes of a string.
pub uninterp spec fn lower_of(s: Seq<char>) -> Seq<char>;

/// Relies on `str::to_lowercase`: the lowercase mapping of each character;
/// the result depends on the characters alone.
#[verifier::external_body]
pub(crate) fn to_lower(s: &str) -> (r: String)
    ensures
        r@ == lower_of(s@),
{
    s.to_lowercase()
}

/// What `str::to_uppercase` makes of a string.
pub uninterp spec fn upper_of(s: Seq<char>) -> Seq<char>;

/// Relies on `str::to_uppercase`: the uppercase mapping of each character;
/// the result depends on the characters alone.
#[verifier::external_body]
pub(crate) fn to_upper(s: &str) -> (r: String)
    ensures
        r@ == upper_of(s@),
{
    s.to_uppercase()
}

/// Whether two strings hold the same characters.
pub fn str_eq(a: &str, b: &str) -> (r: bool)
    ensures
        r == (a@ == b@),
{
    let n = a.unicode_len();
    if n != b.unicode_len() {
        return false;
    }
    let mut i: usize = 0;
    while i < n
        invariant
            n == a@.len() == b@.len(),
            i <= n,
            forall|k: int| 0 <= k < i ==> a@[k] == b@[k],
        decreases n - i,
    {
        if a.get_char(i) != b.get_char(i) {
            return false;
        }
        i = i + 1;
    }
    assert(a@ =~= b@);
    true
}

/// `s` with every hyphen turned into an underscore.
pub open spec fn underscored(s: Seq<char>) -> Seq<char> {
    s.map_values(|c: char| if c == '-' { '_' } else { c })
}

/// Whether `a`, with hyphens read as underscores, is `b`.
pub fn eq_underscored(a: &str, b: &str) -> (r: bool)
    ensures
        r == (underscored(a@) == b@),
{
    let n = a.unicode_len();
    if n != b.unicode_len() {
        return false;
    }
    let mut i: usize = 0;
    while i < n
        invariant
            n == a@.len() == b@.len(),
            i <= n,
            forall|k: int| 0 <= k < i ==> underscored(a@)[k] == b@[k],
        decreases n - i,
    {
        let c = a.get_char(i);
        let c2 = if c == '-' {
            '_'
        } else {
            c
        };
        if c2 != b.get_char(i) {
            assert(underscored(a@)[i as int] != b@[i as int]);
            return false;
        }
        i = i + 1;
    }
    assert(underscored(a@) =~= b@);
    true
}

/// `p` occurs in `s` at position `i`.
pub open spec fn match_at(s: Seq<char>, p: Seq<char>, i: int) -> bool {
    0 <= i && i + p.len() <= s.len() && s.subrange(i, i + p.len()) == p
}

/// `i` is the first position where `p` occurs in `s`.
pub open spec fn first_match(s: Seq<char>, p: Seq<char>, i: int) -> bool {
    match_at(s, p, i) && forall|j: int| 0 <= j < i ==> !match_at(s, p, j)
}

/// `i` is the last position where `p` occurs in `s`.
pub open spec fn last_match(s: Seq<char>, p: Seq<char>, i: int) -> bool {
    match_at(s, p, i) && forall|j: int| i < j ==> !match_at(s, p, j)
}

/// Where `p` first occurs in `s` (as `str::find` counts, in characters).
pub open spec fn find_sub(s: Seq<char>, p: Seq<char>) -> Option<int> {
    if exists|i: int| first_match(s, p, i) {
        Some(choose|i: int| first_match(s, p, i))
    } else {
        None
    }
}

/// Where `p` last occurs in `s` (as `str::rfind` counts, in characters).
pub open spec fn rfind_sub(s: Seq<char>, p: Seq<char>) -> Option<int> {
    if exists|i: int| last_match(s, p, i) {
        Some(choose|i: int| last_match(s, p, i))
    } else {
        None
    }
}

proof fn lemma_find_sub_at(s: Seq<char>, p: Seq<char>, i: int)
    requires
        first_match(s, p, i),
    ensures
        find_sub(s, p) == Some(i),
{
    let j = choose|j: int| first_match(s, p, j);
    assert(first_match(s, p, j));
}

proof fn lemma_rfind_sub_at(s: Seq<char>, p: Seq<char>, i: int)
    requires
        last_match(s, p, i),
    ensures
        rfind_sub(s, p) == Some(i),
{
    let j = choose|j: int| last_match(s, p, j);
    assert(last_match(s, p, j));
}

/// Concatenation of two character lists.
pub fn concat_chars(a: &Vec<char>, b: &Vec<char>) -> (r: Vec<char>)
    ensures
        r@ == a@ + b@,
{
    let mut out = a.clone();
    let mut i: usize = 0;
    while i < b.len()
        invariant
            i <= b@.len(),
            out@ == a@ + b@.take(i as int),
        decreases b@.len() - i,
    {
        out.push(b[i]);
        i = i + 1;
        assert(out@ =~= a@ + b@.take(i as int));
    }
    assert(b@.take(b@.len() as int) =~= b@);
    out
}

/// Where `p` first occurs in `v[lo..hi]`, counted from `lo`.
pub fn find_in(v: &Vec<char>, lo: usize, hi: usize, p: &Vec<char>) -> (r: Option<usize>)
    requires
        lo <= hi <= v@.len(),
    ensures
        match r {
            Some(i) => find_sub(v@.subrange(lo as int, hi as int), p@) == Some(i as int),
            None => find_sub(v@.subrange(lo as int, hi as int), p@) is None,
        },
{
    let ghost s = v@.subrange(lo as int, hi as int);
    if p.len() > hi - lo {
        assert forall|j: int| !match_at(s, p@, j) by {}
        return None;
    }
    let last = hi - lo - p.len();
    let mut at: usize = 0;
    while at <= last
        invariant
            lo <= hi <= v@.len(),
            last + p@.len() == hi - lo,
            s == v@.subrange(lo as int, hi as int),
            forall|j: int| 0 <= j < at ==> !match_at(s, p@, j),
        decreases last + 1 - at,
    {
        let m = matches_at(v, p, lo + at);
        assert(s.subrange(at as int, at + p@.len()) =~= v@.subrange(lo + at, lo + at + p@.len()));
        if m {
            proof {
                lemma_find_sub_at(s, p@, at as int);
            }
            return Some(at);
        }
        if at == last {
            assert forall|j: int| !match_at(s, p@, j) by {}
            return None;
        }
        at = at + 1;
    }
    None
}

/// Where `p` last occurs in `v[lo..hi]`, counted from `lo`.
pub fn rfind_in(v: &Vec<char>, lo: usize, hi: usize, p: &Vec<char>) -> (r: Option<usize>)
    requires
        lo <= hi <= v@.len(),
    ensures
        match r {
            Some(i) => rfind_sub(v@.subrange(lo as int, hi as int), p@) == Some(i as int),
            None => rfind_sub(v@.subrange(lo as int, hi as int), p@) is None,
        },
{
    let ghost s = v@.subrange(lo as int, hi as int);
    if p.len() > hi - lo {
        assert forall|j: int| !match_at(s, p@, j) by {}
        return None;
    }
    let mut at: usize = hi - lo - p.len();
    loop
        invariant
            lo <= hi <= v@.len(),
            at + p@.len() <= hi - lo,
            s == v@.subrange(lo as int, hi as int),
            forall|j: int| at < j ==> !match_at(s, p@, j),
        decreases at,
    {
        let m = matches_at(v, p, lo + at);
        assert(s.subrange(at as int, at + p@.len()) =~= v@.subrange(lo + at, lo + at + p@.len()));
        if m {
            proof {
                lemma_rfind_sub_at(s, p@, at as int);
            }
            return Some(at);
        }
        if at == 0 {
            assert forall|j: int| !match_at(s, p@, j) by {}
            return None;
        }
        at = at - 1;
    }
}

} // verus!
