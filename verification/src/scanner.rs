//! Line-oriented scanner over raw received bytes: finds the first line that
//! begins with `Authorization: ` and hands back that line's content, with a
//! trailing carriage return stripped. A pure function over a byte slice; no
//! socket involved.

use vstd::prelude::*;
use vstd::string::*;

verus! {

/// Line feed, the byte that separates lines in the received buffer.
pub const LINE_FEED: u8 = 10;

/// Carriage return, stripped from a line's end when present.
pub const CARRIAGE_RETURN: u8 = 13;

/// The bytes of the header prefix that the scanner looks for.
pub open spec fn spec_auth_prefix() -> Seq<u8> {
    "Authorization: ".spec_bytes()
}

/// Whether position `i` begins a line: the buffer's start, or the position
/// right after a line feed.
pub open spec fn is_line_start(s: Seq<u8>, i: int) -> bool {
    i == 0 || s[i - 1] == LINE_FEED
}

/// Whether a line beginning with `Authorization: ` starts at position `i`.
pub open spec fn starts_auth_line(s: Seq<u8>, i: int) -> bool {
    &&& 0 <= i
    &&& i + spec_auth_prefix().len() <= s.len()
    &&& is_line_start(s, i)
    &&& s.subrange(i, i + spec_auth_prefix().len() as int) == spec_auth_prefix()
}

/// The position of the first line feed at or after `i`, or the buffer's
/// length when none follows.
pub open spec fn next_line_break(s: Seq<u8>, i: int) -> int
    decreases s.len() - i when 0 <= i <= s.len()
{
    if i >= s.len() {
        s.len() as int
    } else if s[i] == LINE_FEED {
        i
    } else {
        next_line_break(s, i + 1)
    }
}

/// A line's content with a trailing carriage return removed: lines are
/// split on line feeds, so a CRLF-terminated line still carries its `\r`,
/// which does not belong to the content.
pub open spec fn strip_trailing_cr(s: Seq<u8>) -> Seq<u8> {
    if s.len() > 0 && s[s.len() - 1] == CARRIAGE_RETURN {
        s.drop_last()
    } else {
        s
    }
}

/// The content of the line that starts at position `i`.
pub open spec fn line_at(s: Seq<u8>, i: int) -> Seq<u8> {
    strip_trailing_cr(s.subrange(i, next_line_break(s, i)))
}

/// The start of the first line beginning with `Authorization: ` at or after
/// position `i`, if any.
pub open spec fn find_auth_start(s: Seq<u8>, i: int) -> Option<int>
    decreases s.len() - i when 0 <= i <= s.len()
{
    if i >= s.len() {
        Option::None
    } else if starts_auth_line(s, i) {
        Option::Some(i)
    } else {
        find_auth_start(s, i + 1)
    }
}

/// The content of the first `Authorization: ` line in the buffer, if any.
pub open spec fn spec_auth_line(s: Seq<u8>) -> Option<Seq<u8>> {
    match find_auth_start(s, 0) {
        Option::None => Option::None,
        Option::Some(i) => Option::Some(line_at(s, i)),
    }
}

/// A copy of the bytes in positions `a..b`.
pub(crate) fn subrange_vec(data: &[u8], a: usize, b: usize) -> (r: Vec<u8>)
    requires
        a <= b <= data@.len(),
    ensures
        r@ == data@.subrange(a as int, b as int),
{
    let mut out: Vec<u8> = Vec::new();
    let mut k: usize = a;
    while k < b
        invariant
            a <= k <= b <= data@.len(),
            out@ =~= data@.subrange(a as int, k as int),
        decreases b - k,
    {
        out.push(data[k]);
        k = k + 1;
    }
    assert(out@ =~= data@.subrange(a as int, b as int));
    out
}

/// Whether the pattern occurs in the buffer at position `i`.
pub(crate) fn matches_at(data: &[u8], i: usize, pat: &[u8]) -> (r: bool)
    requires
        i <= data@.len(),
    ensures
        r == (i + pat@.len() <= data@.len() && data@.subrange(
            i as int,
            i + pat@.len(),
        ) == pat@),
{
    let m: usize = pat.len();
    let dn: usize = data.len();
    if dn - i < m {
        return false;
    }
    let mut k: usize = 0;
    while k < m
        invariant
            m == pat@.len(),
            dn == data@.len(),
            i + m <= dn,
            k <= m,
            forall|j: int| 0 <= j < k ==> data@[i + j] == pat@[j],
        decreases m - k,
    {
        if data[i + k] != pat[k] {
            assert(data@.subrange(i as int, i + pat@.len())[k as int] != pat@[k as int]);
            return false;
        }
        k = k + 1;
    }
    assert(data@.subrange(i as int, i + pat@.len()) =~= pat@);
    true
}

proof fn lemma_next_line_break_is(s: Seq<u8>, i: int, j: int)
    requires
        0 <= i <= j <= s.len(),
        forall|k: int| i <= k < j ==> s[k] != LINE_FEED,
        j == s.len() || s[j] == LINE_FEED,
    ensures
        next_line_break(s, i) == j,
    decreases j - i,
{
    if i < j {
        lemma_next_line_break_is(s, i + 1, j);
    }
}

/// Scan the buffer for the first line whose prefix is `Authorization: ` and
/// return that whole line (the prefix included, a trailing `\r` stripped),
/// or nothing when no such line is present in this buffer.
pub fn find_authorization_line(data: &[u8]) -> (r: Option<Vec<u8>>)
    ensures
        match r {
            Option::Some(line) => spec_auth_line(data@) == Option::Some(line@),
            Option::None => spec_auth_line(data@) is None,
        },
{
    let n: usize = data.len();
    let prefix: &[u8] = "Authorization: ".as_bytes();
    let mut i: usize = 0;
    while i < n
        invariant
            n == data@.len(),
            i <= n,
            prefix@ == spec_auth_prefix(),
            find_auth_start(data@, 0) == find_auth_start(data@, i as int),
        decreases n - i,
    {
        let at_line_start = i == 0 || data[i - 1] == LINE_FEED;
        if at_line_start && matches_at(data, i, prefix) {
            assert(starts_auth_line(data@, i as int));
            assert(find_auth_start(data@, i as int) == Option::Some(i as int));
            // locate the end of this line
            let mut j: usize = i;
            while j < n && data[j] != LINE_FEED
                invariant
                    n == data@.len(),
                    i <= j <= n,
                    forall|k: int| i <= k < j ==> data@[k] != LINE_FEED,
                decreases n - j,
            {
                j = j + 1;
            }
            proof {
                lemma_next_line_break_is(data@, i as int, j as int);
            }
            let end: usize = if j > i && data[j - 1] == CARRIAGE_RETURN {
                j - 1
            } else {
                j
            };
            let line: Vec<u8> = subrange_vec(data, i, end);
            assert(line@ =~= line_at(data@, i as int)) by {
                assert(next_line_break(data@, i as int) == j as int);
                if j > i && data@[j - 1] == CARRIAGE_RETURN {
                    assert(data@.subrange(i as int, j as int).drop_last() =~= data@.subrange(
                        i as int,
                        j - 1,
                    ));
                } else {
                    assert(strip_trailing_cr(data@.subrange(i as int, j as int))
                        =~= data@.subrange(i as int, j as int));
                }
            }
            return Option::Some(line);
        }
        assert(!starts_auth_line(data@, i as int));
        i = i + 1;
    }
    Option::None
}

} // verus!
