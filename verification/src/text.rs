//! Text helpers: character classes, trimming, comparison and decimal numbers.
//!
//! Strings are modelled by their view, a `Seq<char>`. Two character classes come
//! from the standard library and are only named here; everything else in this
//! module is defined over them and proved.

use vstd::prelude::*;
use vstd::std_specs::iter::IteratorSpec;
use vstd::string::StrSliceExecFns;

verus! {

/// Whether `c` has the Unicode property `White_Space`, as `char::is_whitespace` decides it.
pub uninterp spec fn char_is_whitespace(c: char) -> bool;

/// Whether `c` is alphabetic or numeric in Unicode's sense, as `char::is_alphanumeric`
/// decides it.
pub uninterp spec fn char_is_alphanumeric(c: char) -> bool;

/// `char::is_whitespace` depends on the character alone; its answer is
/// [`char_is_whitespace`]. Nothing is claimed about which characters those are.
pub assume_specification[ char::is_whitespace ](c: char) -> (r: bool)
    ensures
        r == char_is_whitespace(c),
;

/// `char::is_alphanumeric` depends on the character alone; its answer is
/// [`char_is_alphanumeric`]. Nothing is claimed about which characters those are.
pub assume_specification[ char::is_alphanumeric ](c: char) -> (r: bool)
    ensures
        r == char_is_alphanumeric(c),
;

/// Every character of `s` is alphanumeric.
pub open spec fn all_alphanumeric(s: Seq<char>) -> bool {
    forall|i: int| 0 <= i < s.len() ==> char_is_alphanumeric(#[trigger] s[i])
}

/// Every character of `s` is whitespace; the empty text is blank.
pub open spec fn is_blank(s: Seq<char>) -> bool {
    forall|i: int| 0 <= i < s.len() ==> char_is_whitespace(#[trigger] s[i])
}

/// `s` without its leading whitespace.
pub open spec fn trim_start(s: Seq<char>) -> Seq<char>
    decreases s.len(),
{
    if s.len() > 0 && char_is_whitespace(s[0]) {
        trim_start(s.drop_first())
    } else {
        s
    }
}

/// `s` without its trailing whitespace.
pub open spec fn trim_end(s: Seq<char>) -> Seq<char>
    decreases s.len(),
{
    if s.len() > 0 && char_is_whitespace(s.last()) {
        trim_end(s.drop_last())
    } else {
        s
    }
}

/// `s` without its leading and trailing whitespace.
pub open spec fn trimmed(s: Seq<char>) -> Seq<char> {
    trim_end(trim_start(s))
}

/// `s` without the run of `c` at its end.
pub open spec fn without_trailing(s: Seq<char>, c: char) -> Seq<char>
    decreases s.len(),
{
    if s.len() > 0 && s.last() == c {
        without_trailing(s.drop_last(), c)
    } else {
        s
    }
}

/// Where the first `k` characters are whitespace and the next one, if any, is not,
/// trimming the start removes exactly those `k`.
pub proof fn lemma_trim_start_at(s: Seq<char>, k: int)
    requires
        0 <= k <= s.len(),
        forall|i: int| 0 <= i < k ==> char_is_whitespace(#[trigger] s[i]),
        k < s.len() ==> !char_is_whitespace(s[k]),
    ensures
        trim_start(s) == s.subrange(k, s.len() as int),
    decreases k,
{
    if k > 0 {
        let rest = s.drop_first();
        assert(forall|i: int| 0 <= i < k - 1 ==> char_is_whitespace(#[trigger] rest[i]));
        lemma_trim_start_at(rest, k - 1);
    }
}

/// Where everything from position `k` on is whitespace and the character before it,
/// if any, is not, trimming the end keeps exactly the first `k`.
pub proof fn lemma_trim_end_at(s: Seq<char>, k: int)
    requires
        0 <= k <= s.len(),
        forall|i: int| k <= i < s.len() ==> char_is_whitespace(#[trigger] s[i]),
        0 < k ==> !char_is_whitespace(s[k - 1]),
    ensures
        trim_end(s) == s.subrange(0, k),
    decreases s.len() - k,
{
    if k < s.len() {
        let rest = s.drop_last();
        assert(forall|i: int| k <= i < rest.len() ==> char_is_whitespace(#[trigger] rest[i]));
        lemma_trim_end_at(rest, k);
    }
}

/// The same for a run of `c` at the end.
pub proof fn lemma_without_trailing_at(s: Seq<char>, c: char, k: int)
    requires
        0 <= k <= s.len(),
        forall|i: int| k <= i < s.len() ==> #[trigger] s[i] == c,
        0 < k ==> s[k - 1] != c,
    ensures
        without_trailing(s, c) == s.subrange(0, k),
    decreases s.len() - k,
{
    if k < s.len() {
        let rest = s.drop_last();
        assert(forall|i: int| k <= i < rest.len() ==> #[trigger] rest[i] == c);
        lemma_without_trailing_at(rest, c, k);
    }
}

/// A text is blank exactly when nothing is left of it after trimming.
pub proof fn lemma_blank_iff_trimmed_empty(s: Seq<char>)
    ensures
        is_blank(s) <==> trimmed(s).len() == 0,
    decreases s.len(),
{
    if s.len() > 0 && char_is_whitespace(s[0]) {
        let rest = s.drop_first();
        lemma_blank_iff_trimmed_empty(rest);
        if is_blank(s) {
            assert(forall|i: int| 0 <= i < rest.len() ==> char_is_whitespace(#[trigger] rest[i]));
        }
        if is_blank(rest) {
            assert forall|i: int| 0 <= i < s.len() implies char_is_whitespace(#[trigger] s[i]) by {
                if i > 0 {
                    assert(s[i] == rest[i - 1]);
                }
            }
        }
    } else if s.len() > 0 {
        lemma_trim_end_keeps_first(s);
    }
}

/// Trimming what was trimmed changes nothing.
pub proof fn lemma_trimmed_twice(s: Seq<char>)
    ensures
        trimmed(trimmed(s)) == trimmed(s),
{
    let t = trimmed(s);
    lemma_trim_start_stops(s);
    lemma_trim_end_stops(trim_start(s));
    if t.len() > 0 {
        lemma_trim_end_keeps_first(trim_start(s));
        lemma_trim_start_at(t, 0);
        lemma_trim_end_at(t, t.len() as int);
    }
}

/// What is left after trimming the start does not start with whitespace.
proof fn lemma_trim_start_stops(s: Seq<char>)
    ensures
        trim_start(s).len() > 0 ==> !char_is_whitespace(trim_start(s)[0]),
    decreases s.len(),
{
    if s.len() > 0 && char_is_whitespace(s[0]) {
        lemma_trim_start_stops(s.drop_first());
    }
}

/// What is left after trimming the end does not end with whitespace.
proof fn lemma_trim_end_stops(s: Seq<char>)
    ensures
        trim_end(s).len() > 0 ==> !char_is_whitespace(trim_end(s).last()),
    decreases s.len(),
{
    if s.len() > 0 && char_is_whitespace(s.last()) {
        lemma_trim_end_stops(s.drop_last());
    }
}

/// Trimming the end of a text that starts with a visible character leaves that character.
proof fn lemma_trim_end_keeps_first(s: Seq<char>)
    requires
        s.len() > 0,
        !char_is_whitespace(s[0]),
    ensures
        trim_end(s).len() > 0,
        trim_end(s)[0] == s[0],
    decreases s.len(),
{
    if char_is_whitespace(s.last()) {
        lemma_trim_end_keeps_first(s.drop_last());
    }
}

/// `s` without its leading and trailing whitespace.
pub fn trim(s: &str) -> (r: &str)
    ensures
        r@ == trimmed(s@),
{
    let n = s.unicode_len();
    let mut i: usize = 0;
    let mut start: usize = 0;
    let mut end: usize = 0;
    for c in it: s.chars()
        invariant
            it.seq() == s@,
            n == s@.len(),
            i == it.index(),
            start <= end <= i,
            forall|j: int| 0 <= j < start ==> char_is_whitespace(#[trigger] s@[j]),
            forall|j: int| end <= j < i ==> char_is_whitespace(#[trigger] s@[j]),
            start < end ==> !char_is_whitespace(s@[start as int]) && !char_is_whitespace(
                s@[end - 1],
            ),
            start == end ==> end == i,
    {
        if !c.is_whitespace() {
            if start == end {
                start = i;
            }
            end = i + 1;
        } else if start == end {
            start = i + 1;
            end = i + 1;
        }
        i = i + 1;
    }
    proof {
        let whole = s@;
        let tail = whole.subrange(start as int, n as int);
        lemma_trim_start_at(whole, start as int);
        assert(forall|j: int|
            end - start <= j < tail.len() ==> char_is_whitespace(#[trigger] tail[j]));
        lemma_trim_end_at(tail, end - start);
    }
    s.substring_char(start, end)
}

/// `s` without the slashes at its end.
pub fn trim_trailing_slashes(s: &str) -> (r: &str)
    ensures
        r@ == without_trailing(s@, '/'),
{
    let n = s.unicode_len();
    let mut i: usize = 0;
    let mut end: usize = 0;
    for c in it: s.chars()
        invariant
            it.seq() == s@,
            n == s@.len(),
            i == it.index(),
            end <= i,
            forall|j: int| end <= j < i ==> #[trigger] s@[j] == '/',
            0 < end ==> s@[end - 1] != '/',
    {
        if c != '/' {
            end = i + 1;
        }
        i = i + 1;
    }
    proof {
        lemma_without_trailing_at(s@, '/', end as int);
    }
    s.substring_char(0, end)
}

/// Decides whether every character of `s` is alphanumeric.
pub fn is_all_alphanumeric(s: &str) -> (r: bool)
    ensures
        r == all_alphanumeric(s@),
{
    let mut ok = true;
    for c in it: s.chars()
        invariant
            it.seq() == s@,
            ok == all_alphanumeric(s@.take(it.index() as int)),
    {
        assert(s@.take(it.index() + 1).last() == c);
        if !c.is_alphanumeric() {
            ok = false;
        }
    }
    assert(s@.take(s@.len() as int) =~= s@);
    ok
}

/// Decides whether two texts hold the same characters.
pub fn same_text(a: &str, b: &str) -> (r: bool)
    ensures
        r == (a@ == b@),
{
    let n = a.unicode_len();
    if b.unicode_len() != n {
        return false;
    }
    let mut same = true;
    let mut i: usize = 0;
    let mut other = b.chars();
    assert(a@.take(0) =~= b@.take(0));
    for c in it: a.chars()
        invariant
            it.seq() == a@,
            n == a@.len(),
            n == b@.len(),
            i == it.index(),
            other.obeys_prophetic_iter_laws(),
            other.remaining() == b@.skip(i as int),
            same == (a@.take(i as int) == b@.take(i as int)),
    {
        let d = other.next();
        proof {
            let k = i as int;
            assert(a@.take(k + 1).drop_last() =~= a@.take(k));
            assert(b@.take(k + 1).drop_last() =~= b@.take(k));
            assert(b@.take(k + 1).last() == b@[k]);
            if a@.take(k) == b@.take(k) && a@[k] == b@[k] {
                assert(a@.take(k + 1) =~= b@.take(k + 1));
            }
        }
        if d != Some(c) {
            same = false;
        }
        i = i + 1;
    }
    assert(a@.take(n as int) =~= a@);
    same
}

} // verus!
