//! Lower-casing of the leading key of a front-matter line.
use vstd::prelude::*;
use crate::scan::{is_space, is_space_char};

verus! {

/// What `str::to_lowercase` makes of a sequence of characters.
pub uninterp spec fn lower_of(s: Seq<char>) -> Seq<char>;

/// Relies on `str::to_lowercase`: the result depends on the characters alone.
#[verifier::external_body]
fn lowercase(s: &str) -> (r: String)
    ensures
        r@ == lower_of(s@),
{
    s.to_lowercase()
}

/// The index of the first colon at or after `i`, or the length when none.
pub open spec fn colon_from(line: Seq<char>, i: int) -> int
    decreases line.len() - i,
{
    if i >= line.len() {
        line.len() as int
    } else if line[i] == ':' {
        i
    } else {
        colon_from(line, i + 1)
    }
}

/// The first index in `i..end` that holds no whitespace, or `end`.
pub open spec fn skip_space(line: Seq<char>, i: int, end: int) -> int
    decreases end - i,
{
    if i >= end {
        end
    } else if !is_space(line[i]) {
        i
    } else {
        skip_space(line, i + 1, end)
    }
}

/// `j` moved back over trailing whitespace, but not below `lo`.
pub open spec fn trim_back(line: Seq<char>, lo: int, j: int) -> int
    decreases j - lo,
{
    if j <= lo {
        lo
    } else if !is_space(line[j - 1]) {
        j
    } else {
        trim_back(line, lo, j - 1)
    }
}

/// The line holds a colon, so it has a key.
pub open spec fn has_key(line: Seq<char>) -> bool {
    colon_from(line, 0) < line.len()
}

/// Where the key starts: after the leading whitespace.
pub open spec fn key_start(line: Seq<char>) -> int {
    skip_space(line, 0, colon_from(line, 0))
}

/// Where the key ends: before the whitespace that precedes the first colon.
pub open spec fn key_end(line: Seq<char>) -> int {
    trim_back(line, key_start(line), colon_from(line, 0))
}

/// The key of a line: what precedes its first colon, trimmed of whitespace.
pub open spec fn key_of(line: Seq<char>) -> Seq<char> {
    line.subrange(key_start(line), key_end(line))
}

/// A line with its key lower-cased; a line without a colon is kept as is.
pub open spec fn normalized_line(line: Seq<char>) -> Seq<char> {
    if has_key(line) {
        line.subrange(0, key_start(line)) + lower_of(key_of(line)) + line.subrange(
            key_end(line),
            line.len() as int,
        )
    } else {
        line
    }
}

proof fn lemma_colon_bounds(line: Seq<char>, i: int)
    requires
        0 <= i,
    ensures
        i <= colon_from(line, i) <= line.len() || (i > line.len() && colon_from(line, i)
            == line.len()),
        colon_from(line, i) < line.len() ==> line[colon_from(line, i)] == ':',
    decreases line.len() - i,
{
    if i < line.len() && line[i] != ':' {
        lemma_colon_bounds(line, i + 1);
    }
}

proof fn lemma_skip_bounds(line: Seq<char>, i: int, end: int)
    requires
        i <= end,
    ensures
        i <= skip_space(line, i, end) <= end,
    decreases end - i,
{
    if i < end && is_space(line[i]) {
        lemma_skip_bounds(line, i + 1, end);
    }
}

proof fn lemma_trim_bounds(line: Seq<char>, lo: int, j: int)
    requires
        lo <= j,
    ensures
        lo <= trim_back(line, lo, j) <= j,
    decreases j - lo,
{
    if lo < j && is_space(line[j - 1]) {
        lemma_trim_bounds(line, lo, j - 1);
    }
}

/// The key span lies inside the part before the first colon.
pub proof fn lemma_key_bounds(line: Seq<char>)
    ensures
        0 <= key_start(line) <= key_end(line) <= colon_from(line, 0) <= line.len(),
{
    lemma_colon_bounds(line, 0);
    lemma_skip_bounds(line, 0, colon_from(line, 0));
    lemma_trim_bounds(line, key_start(line), colon_from(line, 0));
}

/// A key that is already lower case is left as it is, and so is its line.
pub proof fn lemma_lowercase_key_unchanged(line: Seq<char>)
    requires
        lower_of(key_of(line)) == key_of(line),
    ensures
        normalized_line(line) == line,
{
    lemma_key_bounds(line);
    if has_key(line) {
        assert(line.subrange(0, key_start(line)) + key_of(line) + line.subrange(
            key_end(line),
            line.len() as int,
        ) =~= line);
    }
}

/// Two lines that differ only in the case of their keys are normalized
/// alike: the result depends on a key only through its lower-case form.
pub proof fn lemma_same_lowercase_same_line(a: Seq<char>, b: Seq<char>)
    requires
        has_key(a),
        has_key(b),
        a.subrange(0, key_start(a)) == b.subrange(0, key_start(b)),
        a.subrange(key_end(a), a.len() as int) == b.subrange(key_end(b), b.len() as int),
        lower_of(key_of(a)) == lower_of(key_of(b)),
    ensures
        normalized_line(a) == normalized_line(b),
{
}

/// Lower-cases the leading key of a line, leaving everything else, any later
/// colon included, untouched.
pub fn normalize_key(line: &str) -> (r: String)
    ensures
        r@ == normalized_line(line@),
{
    let ghost s = line@;
    let n = line.unicode_len();
    proof {
        lemma_key_bounds(s);
    }
    let mut k: usize = 0;
    while k < n && line.get_char(k) != ':'
        invariant
            k <= n,
            n == s.len(),
            s == line@,
            colon_from(s, 0) == colon_from(s, k as int),
        decreases n - k,
    {
        k = k + 1;
    }
    if k == n {
        return String::from_str(line);
    }
    let mut a: usize = 0;
    while a < k && is_space_char(line.get_char(a))
        invariant
            a <= k < n,
            n == s.len(),
            s == line@,
            k == colon_from(s, 0),
            skip_space(s, 0, k as int) == skip_space(s, a as int, k as int),
        decreases k - a,
    {
        a = a + 1;
    }
    let mut b: usize = k;
    while b > a && is_space_char(line.get_char(b - 1))
        invariant
            a <= b <= k < n,
            n == s.len(),
            s == line@,
            k == colon_from(s, 0),
            a == key_start(s),
            trim_back(s, a as int, k as int) == trim_back(s, a as int, b as int),
        decreases b - a,
    {
        b = b - 1;
    }
    let head = line.substring_char(0, a);
    let key = lowercase(line.substring_char(a, b));
    let tail = line.substring_char(b, n);
    String::from_str(head).concat(key.as_str()).concat(tail)
}

} // verus!
