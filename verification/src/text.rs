//! Character-level text helpers shared by the URL resolver, the event
//! messages and the tabular renderer: ASCII trimming and lowercasing,
//! decimal rendering, and searching for suffixes and substrings.
use vstd::prelude::*;
use vstd::string::StrSliceExecFns;

verus! {

/// ASCII whitespace recognized by trimming.
pub open spec fn is_space(c: char) -> bool {
    c == ' ' || c == '\t' || c == '\n' || c == '\r'
}

/// ASCII lowercasing of a single character; other characters are unchanged.
pub open spec fn lower_char(c: char) -> char {
    if 'A' <= c && c <= 'Z' {
        (((c as u8) + 32) as u8) as char
    } else {
        c
    }
}

/// Leading whitespace removed.
pub open spec fn trim_start_spec(s: Seq<char>) -> Seq<char>
    decreases s.len(),
{
    if s.len() > 0 && is_space(s[0]) {
        trim_start_spec(s.drop_first())
    } else {
        s
    }
}

/// Trailing whitespace removed.
pub open spec fn trim_end_spec(s: Seq<char>) -> Seq<char>
    decreases s.len(),
{
    if s.len() > 0 && is_space(s[s.len() - 1]) {
        trim_end_spec(s.drop_last())
    } else {
        s
    }
}

/// Leading and trailing whitespace removed.
pub open spec fn trim_spec(s: Seq<char>) -> Seq<char> {
    trim_end_spec(trim_start_spec(s))
}

/// Every character lowercased.
pub open spec fn lower_spec(s: Seq<char>) -> Seq<char> {
    s.map_values(|c: char| lower_char(c))
}

fn is_space_char(c: char) -> (r: bool)
    ensures
        r == is_space(c),
{
    c == ' ' || c == '\t' || c == '\n' || c == '\r'
}

/// The characters of a string, in order.
pub fn str_to_chars(s: &str) -> (v: Vec<char>)
    ensures
        v@ == s@,
{
    let n = s.unicode_len();
    let mut v: Vec<char> = Vec::new();
    let mut i: usize = 0;
    while i < n
        invariant
            i <= n,
            n == s@.len(),
            v@ == s@.take(i as int),
        decreases n - i,
    {
        v.push(s.get_char(i));
        proof {
            assert(s@.take(i + 1 as int) =~= s@.take(i as int).push(s@[i as int]));
        }
        i += 1;
    }
    proof {
        assert(s@.take(n as int) =~= s@);
    }
    v
}

/// Relies on std's `FromIterator<char>` for `String`: collecting characters
/// yields a string holding exactly that character sequence.
#[verifier::external_body]
pub(crate) fn chars_to_string(v: &Vec<char>) -> (r: String)
    ensures
        r@ == v@,
{
    v.iter().collect()
}

pub fn trim_chars(v: &Vec<char>) -> (r: Vec<char>)
    ensures
        r@ == trim_spec(v@),
{
    let n = v.len();
    let mut start: usize = 0;
    while start < n && is_space_char(v[start])
        invariant
            start <= n,
            n == v@.len(),
            forall|j: int| 0 <= j < start ==> is_space(v@[j]),
        decreases n - start,
    {
        start += 1;
    }
    let mut end: usize = n;
    while end > start && is_space_char(v[end - 1])
        invariant
            start <= end <= n,
            n == v@.len(),
            forall|j: int| end <= j < n ==> is_space(v@[j]),
            forall|j: int| 0 <= j < start ==> is_space(v@[j]),
            start == n || !is_space(v@[start as int]),
        decreases end,
    {
        end -= 1;
    }
    let mut r: Vec<char> = Vec::new();
    let mut i: usize = start;
    while i < end
        invariant
            start <= i <= end <= n,
            n == v@.len(),
            r@ == v@.subrange(start as int, i as int),
        decreases end - i,
    {
        r.push(v[i]);
        proof {
            assert(v@.subrange(start as int, i + 1 as int) =~= v@.subrange(
                start as int,
                i as int,
            ).push(v@[i as int]));
        }
        i += 1;
    }
    proof {
        lemma_trim_start_skip(v@, start as int);
        lemma_trim_end_take(v@.skip(start as int), end - start as int);
        assert(v@.skip(start as int).take(end - start as int) =~= v@.subrange(
            start as int,
            end as int,
        ));
    }
    r
}

proof fn lemma_trim_start_skip(s: Seq<char>, i: int)
    requires
        0 <= i <= s.len(),
        forall|j: int| 0 <= j < i ==> is_space(s[j]),
        i == s.len() || !is_space(s[i]),
    ensures
        trim_start_spec(s) == s.skip(i),
    decreases i,
{
    if i == 0 {
        assert(s.skip(0) =~= s);
    } else {
        lemma_trim_start_skip(s.drop_first(), i - 1);
        assert(s.drop_first().skip(i - 1) =~= s.skip(i));
    }
}

proof fn lemma_trim_end_take(s: Seq<char>, k: int)
    requires
        0 <= k <= s.len(),
        forall|j: int| k <= j < s.len() ==> is_space(s[j]),
        k == 0 || !is_space(s[k - 1]),
    ensures
        trim_end_spec(s) == s.take(k),
    decreases s.len() - k,
{
    if k == s.len() {
        assert(s.take(k) =~= s);
    } else {
        assert(is_space(s[s.len() - 1]));
        lemma_trim_end_take(s.drop_last(), k);
        assert(s.drop_last().take(k) =~= s.take(k));
    }
}

pub fn lower_chars(v: &Vec<char>) -> (r: Vec<char>)
    ensures
        r@ == lower_spec(v@),
{
    let n = v.len();
    let mut r: Vec<char> = Vec::new();
    let mut i: usize = 0;
    while i < n
        invariant
            i <= n,
            n == v@.len(),
            r@ == lower_spec(v@.take(i as int)),
        decreases n - i,
    {
        let c = v[i];
        let lc: char = if 'A' <= c && c <= 'Z' {
            ((c as u8) + 32) as char
        } else {
            c
        };
        r.push(lc);
        proof {
            assert(lower_spec(v@.take(i + 1 as int)) =~= lower_spec(v@.take(i as int)).push(
                lower_char(v@[i as int]),
            ));
        }
        i += 1;
    }
    proof {
        assert(v@.take(n as int) =~= v@);
    }
    r
}

/// Appends the characters of `piece` to `out`.
pub fn append_chars(out: &mut Vec<char>, piece: &Vec<char>)
    ensures
        final (out)@ == old(out)@ + piece@,
{
    let n = piece.len();
    let mut i: usize = 0;
    while i < n
        invariant
            i <= n,
            n == piece@.len(),
            out@ == old(out)@ + piece@.take(i as int),
        decreases n - i,
    {
        out.push(piece[i]);
        proof {
            assert(old(out)@ + piece@.take(i + 1 as int) =~= (old(out)@ + piece@.take(
                i as int,
            )).push(piece@[i as int]));
        }
        i += 1;
    }
    proof {
        assert(piece@.take(n as int) =~= piece@);
    }
}

/// Appends the characters of `s` to `out`.
pub fn append_str(out: &mut Vec<char>, s: &str)
    ensures
        final (out)@ == old(out)@ + s@,
{
    let n = s.unicode_len();
    let mut i: usize = 0;
    while i < n
        invariant
            i <= n,
            n == s@.len(),
            out@ == old(out)@ + s@.take(i as int),
        decreases n - i,
    {
        out.push(s.get_char(i));
        proof {
            assert(old(out)@ + s@.take(i + 1 as int) =~= (old(out)@ + s@.take(i as int)).push(
                s@[i as int],
            ));
        }
        i += 1;
    }
    proof {
        assert(s@.take(n as int) =~= s@);
    }
}

/// `n` copies of `c`.
pub open spec fn repeat_char(c: char, n: int) -> Seq<char> {
    Seq::new(n as nat, |i: int| c)
}

/// Appends `k` copies of `c` to `out`.
pub fn push_repeat(out: &mut Vec<char>, c: char, k: usize)
    ensures
        final (out)@ == old(out)@ + repeat_char(c, k as int),
{
    let mut i: usize = 0;
    while i < k
        invariant
            i <= k,
            out@ == old(out)@ + repeat_char(c, i as int),
        decreases k - i,
    {
        out.push(c);
        proof {
            assert(old(out)@ + repeat_char(c, i + 1 as int) =~= (old(out)@ + repeat_char(
                c,
                i as int,
            )).push(c));
        }
        i += 1;
    }
}

/// The character for a decimal digit.
pub open spec fn dec_digit(d: int) -> char {
    if d == 0 {
        '0'
    } else if d == 1 {
        '1'
    } else if d == 2 {
        '2'
    } else if d == 3 {
        '3'
    } else if d == 4 {
        '4'
    } else if d == 5 {
        '5'
    } else if d == 6 {
        '6'
    } else if d == 7 {
        '7'
    } else if d == 8 {
        '8'
    } else {
        '9'
    }
}

/// The usual decimal rendering of a non-negative number, most significant
/// digit first, with no leading zeros (except for zero itself).
pub open spec fn dec_spec(n: int) -> Seq<char>
    recommends
        n >= 0,
    decreases n,
{
    if n < 10 {
        seq![dec_digit(n)]
    } else {
        dec_spec(n / 10).push(dec_digit(n % 10))
    }
}

fn digit_char(d: u64) -> (c: char)
    requires
        d < 10,
    ensures
        c == dec_digit(d as int),
{
    if d == 0 {
        '0'
    } else if d == 1 {
        '1'
    } else if d == 2 {
        '2'
    } else if d == 3 {
        '3'
    } else if d == 4 {
        '4'
    } else if d == 5 {
        '5'
    } else if d == 6 {
        '6'
    } else if d == 7 {
        '7'
    } else if d == 8 {
        '8'
    } else {
        '9'
    }
}

/// Appends the decimal rendering of `n` to `out`.
pub fn push_decimal(out: &mut Vec<char>, n: u64)
    ensures
        final (out)@ == old(out)@ + dec_spec(n as int),
    decreases n,
{
    if n >= 10 {
        push_decimal(out, n / 10);
    }
    let d = digit_char(n % 10);
    out.push(d);
    proof {
        if n >= 10 {
            assert(old(out)@ + dec_spec(n as int) =~= (old(out)@ + dec_spec(n as int / 10)).push(
                dec_digit(n as int % 10),
            ));
        } else {
            assert(old(out)@ + dec_spec(n as int) =~= old(out)@.push(dec_digit(n as int)));
        }
    }
}

/// Whether `s` ends with `suffix`.
pub open spec fn ends_with_spec(s: Seq<char>, suffix: Seq<char>) -> bool {
    s.len() >= suffix.len() && s.skip(s.len() - suffix.len()) == suffix
}

pub fn str_ends_with(s: &str, suffix: &str) -> (r: bool)
    ensures
        r == ends_with_spec(s@, suffix@),
{
    let n = s.unicode_len();
    let m = suffix.unicode_len();
    if m > n {
        return false;
    }
    let off = n - m;
    let mut i: usize = 0;
    while i < m
        invariant
            i <= m,
            m <= n,
            off == n - m,
            n == s@.len(),
            m == suffix@.len(),
            forall|j: int| 0 <= j < i ==> s@[off + j] == suffix@[j],
        decreases m - i,
    {
        if s.get_char(off + i) != suffix.get_char(i) {
            proof {
                assert(s@.skip(off as int)[i as int] != suffix@[i as int]);
            }
            return false;
        }
        i += 1;
    }
    proof {
        assert(s@.skip(off as int) =~= suffix@);
    }
    true
}

/// Whether `s` matches `needle` starting at position `i`.
pub open spec fn matches_at(s: Seq<char>, needle: Seq<char>, i: int) -> bool {
    0 <= i && i + needle.len() <= s.len() && s.subrange(i, i + needle.len()) == needle
}

/// Whether `needle` occurs anywhere in `s`.
pub open spec fn contains_spec(s: Seq<char>, needle: Seq<char>) -> bool {
    exists|i: int| matches_at(s, needle, i)
}

fn str_matches_at(s: &str, needle: &str, i: usize) -> (r: bool)
    requires
        i + needle@.len() <= s@.len(),
        s@.len() <= usize::MAX,
    ensures
        r == matches_at(s@, needle@, i as int),
{
    let m = needle.unicode_len();
    let mut j: usize = 0;
    while j < m
        invariant
            j <= m,
            m == needle@.len(),
            i + m <= s@.len(),
            s@.len() <= usize::MAX,
            forall|k: int| 0 <= k < j ==> s@[i + k] == needle@[k],
        decreases m - j,
    {
        if s.get_char(i + j) != needle.get_char(j) {
            proof {
                assert(s@.subrange(i as int, i + needle@.len())[j as int] != needle@[j as int]);
            }
            return false;
        }
        j += 1;
    }
    proof {
        assert(s@.subrange(i as int, i + needle@.len()) =~= needle@);
    }
    true
}

pub fn str_contains(s: &str, needle: &str) -> (r: bool)
    ensures
        r == contains_spec(s@, needle@),
{
    let n = s.unicode_len();
    let m = needle.unicode_len();
    if m > n {
        proof {
            assert(forall|i: int| !matches_at(s@, needle@, i));
        }
        return false;
    }
    if m == 0 {
        proof {
            assert(s@.subrange(0, 0) =~= needle@);
            assert(matches_at(s@, needle@, 0));
        }
        return true;
    }
    let mut i: usize = 0;
    while i <= n - m
        invariant
            0 <= i <= n - m + 1,
            0 < m <= n,
            n == s@.len(),
            m == needle@.len(),
            forall|k: int| 0 <= k < i ==> !matches_at(s@, needle@, k),
        decreases n - i,
    {
        if str_matches_at(s, needle, i) {
            return true;
        }
        i += 1;
    }
    proof {
        assert(forall|k: int| matches_at(s@, needle@, k) ==> 0 <= k <= n - m);
    }
    false
}

/// The part of `s` after its last `/`, or all of `s` when it has none.
pub open spec fn last_segment(s: Seq<char>) -> Seq<char>
    decreases s.len(),
{
    if s.len() == 0 {
        s
    } else if s[s.len() - 1] == '/' {
        Seq::empty()
    } else {
        last_segment(s.drop_last()).push(s[s.len() - 1])
    }
}

proof fn lemma_last_segment_skip(s: Seq<char>, i: int)
    requires
        -1 <= i < s.len(),
        i >= 0 ==> s[i] == '/',
        forall|j: int| i < j < s.len() ==> s[j] != '/',
    ensures
        last_segment(s) == s.skip(i + 1),
    decreases s.len(),
{
    if s.len() == 0 {
        assert(s.skip(0) =~= s);
    } else if i == s.len() - 1 {
        assert(s.skip(s.len() as int) =~= Seq::<char>::empty());
    } else {
        lemma_last_segment_skip(s.drop_last(), i);
        assert(s.drop_last().skip(i + 1) =~= s.skip(i + 1).drop_last());
        assert(s.skip(i + 1).drop_last().push(s[s.len() - 1]) =~= s.skip(i + 1));
    }
}

/// The final path segment of `url`: what follows the last `/`, or the whole
/// string when there is none.
pub fn url_filename(url: &str) -> (r: String)
    ensures
        r@ == last_segment(url@),
{
    let n = url.unicode_len();
    let mut cut: usize = n;
    while cut > 0 && url.get_char(cut - 1) != '/'
        invariant
            cut <= n,
            n == url@.len(),
            forall|j: int| cut <= j < n ==> url@[j] != '/',
        decreases cut,
    {
        cut -= 1;
    }
    let mut v: Vec<char> = Vec::new();
    let mut i: usize = cut;
    while i < n
        invariant
            cut <= i <= n,
            n == url@.len(),
            v@ == url@.subrange(cut as int, i as int),
        decreases n - i,
    {
        v.push(url.get_char(i));
        proof {
            assert(url@.subrange(cut as int, i + 1 as int) =~= url@.subrange(
                cut as int,
                i as int,
            ).push(url@[i as int]));
        }
        i += 1;
    }
    proof {
        lemma_last_segment_skip(url@, cut - 1);
        assert(url@.skip(cut as int) =~= url@.subrange(cut as int, n as int));
    }
    chars_to_string(&v)
}

} // verus!
