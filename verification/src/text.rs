//! Text helpers: white space, trimming and prefixes.

use vstd::prelude::*;

verus! {

/// Whether `c` has the Unicode property `White_Space`.
pub open spec fn is_white_space(c: char) -> bool {
    ||| '\u{9}' <= c <= '\u{d}'
    ||| c == ' '
    ||| c == '\u{85}'
    ||| c == '\u{a0}'
    ||| c == '\u{1680}'
    ||| '\u{2000}' <= c <= '\u{200a}'
    ||| c == '\u{2028}'
    ||| c == '\u{2029}'
    ||| c == '\u{202f}'
    ||| c == '\u{205f}'
    ||| c == '\u{3000}'
}

/// `s` without the white space at its two ends.
pub open spec fn trimmed(s: Seq<char>) -> Seq<char>
    decreases s.len(),
{
    if s.len() == 0 {
        s
    } else if is_white_space(s.first()) {
        trimmed(s.drop_first())
    } else if is_white_space(s.last()) {
        trimmed(s.drop_last())
    } else {
        s
    }
}

/// `str::trim` removes the leading and trailing characters that have the
/// Unicode property `White_Space`, and nothing else.
pub assume_specification[ str::trim ](s: &str) -> (r: &str)
    ensures
        r@ == trimmed(s@),
;

/// `str::starts_with`, called with a string slice as its pattern, tells
/// whether the characters of the pattern are the first ones of `s`.
#[verifier::external_body]
pub(crate) fn starts_with(s: &str, prefix: &str) -> (r: bool)
    ensures
        r == prefix@.is_prefix_of(s@),
{
    s.starts_with(prefix)
}

/// Trimmed text neither begins nor ends with white space.
pub proof fn trimmed_has_no_outer_white_space(s: Seq<char>)
    ensures
        trimmed(s).len() > 0 ==> !is_white_space(trimmed(s).first()) && !is_white_space(
            trimmed(s).last(),
        ),
    decreases s.len(),
{
    if s.len() > 0 {
        if is_white_space(s.first()) {
            trimmed_has_no_outer_white_space(s.drop_first());
        } else if is_white_space(s.last()) {
            trimmed_has_no_outer_white_space(s.drop_last());
        }
    }
}

/// Trimming text a second time changes nothing.
pub proof fn trimmed_twice(s: Seq<char>)
    ensures
        trimmed(trimmed(s)) == trimmed(s),
{
    trimmed_has_no_outer_white_space(s);
}

/// Everything of `s` outside the part from `i` up to `j` is white space.
pub open spec fn white_outside(s: Seq<char>, i: int, j: int) -> bool {
    &&& forall|k: int| 0 <= k < i ==> is_white_space(#[trigger] s[k])
    &&& forall|k: int| j <= k < s.len() ==> is_white_space(#[trigger] s[k])
}

/// Trimming `s` keeps some part of it, outside of which all is white space.
spec fn keeps_a_part(s: Seq<char>) -> bool {
    exists|i: int, j: int| #[trigger]
        white_outside(s, i, j) && 0 <= i <= j <= s.len() && trimmed(s) == s.subrange(i, j)
}

proof fn lemma_white_before(s: Seq<char>, i: int, j: int)
    requires
        s.len() > 0,
        is_white_space(s.first()),
        0 <= i <= j < s.len(),
        white_outside(s.drop_first(), i, j),
    ensures
        white_outside(s, i + 1, j + 1),
        s.subrange(i + 1, j + 1) == s.drop_first().subrange(i, j),
{
    let t = s.drop_first();
    assert forall|k: int| 0 <= k < i + 1 implies is_white_space(#[trigger] s[k]) by {
        if k > 0 {
            assert(t[k - 1] == s[k]);
        }
    }
    assert forall|k: int| j + 1 <= k < s.len() implies is_white_space(#[trigger] s[k]) by {
        assert(t[k - 1] == s[k]);
    }
    assert(s.subrange(i + 1, j + 1) =~= t.subrange(i, j));
}

proof fn lemma_white_after(s: Seq<char>, i: int, j: int)
    requires
        s.len() > 0,
        is_white_space(s.last()),
        0 <= i <= j < s.len(),
        white_outside(s.drop_last(), i, j),
    ensures
        white_outside(s, i, j),
        s.subrange(i, j) == s.drop_last().subrange(i, j),
{
    let t = s.drop_last();
    assert forall|k: int| 0 <= k < i implies is_white_space(#[trigger] s[k]) by {
        assert(t[k] == s[k]);
    }
    assert forall|k: int| j <= k < s.len() implies is_white_space(#[trigger] s[k]) by {
        if k < t.len() {
            assert(t[k] == s[k]);
        }
    }
    assert(s.subrange(i, j) =~= t.subrange(i, j));
}

proof fn lemma_white_first(s: Seq<char>)
    requires
        s.len() > 0,
        is_white_space(s.first()),
        keeps_a_part(s.drop_first()),
    ensures
        keeps_a_part(s),
{
    let t = s.drop_first();
    let (i, j) = choose|i: int, j: int| #[trigger]
        white_outside(t, i, j) && 0 <= i <= j <= t.len() && trimmed(t) == t.subrange(i, j);
    lemma_white_before(s, i, j);
    assert(white_outside(s, i + 1, j + 1));
}

proof fn lemma_white_last(s: Seq<char>)
    requires
        s.len() > 0,
        !is_white_space(s.first()),
        is_white_space(s.last()),
        keeps_a_part(s.drop_last()),
    ensures
        keeps_a_part(s),
{
    let t = s.drop_last();
    let (i, j) = choose|i: int, j: int| #[trigger]
        white_outside(t, i, j) && 0 <= i <= j <= t.len() && trimmed(t) == t.subrange(i, j);
    lemma_white_after(s, i, j);
    assert(white_outside(s, i, j));
}

proof fn lemma_keeps_a_part(s: Seq<char>)
    ensures
        keeps_a_part(s),
    decreases s.len(),
{
    if s.len() == 0 || !is_white_space(s.first()) && !is_white_space(s.last()) {
        assert(s.subrange(0, s.len() as int) =~= s);
        assert(white_outside(s, 0, s.len() as int));
    } else if is_white_space(s.first()) {
        lemma_keeps_a_part(s.drop_first());
        lemma_white_first(s);
    } else {
        lemma_keeps_a_part(s.drop_last());
        lemma_white_last(s);
    }
}

/// Trimming keeps a contiguous part of the text; everything before and
/// after that part is white space.
pub proof fn trimmed_is_a_subrange(s: Seq<char>)
    ensures
        exists|i: int, j: int| #[trigger]
            white_outside(s, i, j) && 0 <= i <= j <= s.len() && trimmed(s) == s.subrange(i, j),
{
    lemma_keeps_a_part(s);
}

/// Whether nothing but white space is in `s`.
pub open spec fn is_blank(s: Seq<char>) -> bool {
    forall|k: int| 0 <= k < s.len() ==> is_white_space(#[trigger] s[k])
}

/// Whether `part` is what is left of `s` without the white space around it:
/// all of `s` outside of `part` is white space, and `part` neither begins nor
/// ends with any.
pub open spec fn is_core_of(part: Seq<char>, s: Seq<char>) -> bool {
    exists|i: int, j: int| #[trigger]
        white_outside(s, i, j) && 0 <= i < j <= s.len() && part == s.subrange(i, j)
            && !is_white_space(s[i]) && !is_white_space(s[j - 1])
}

/// Trimming leaves nothing exactly if the text is blank. Of any other text it
/// leaves the part between the first and the last character that is no white
/// space.
pub proof fn trimming_leaves_the_core(s: Seq<char>)
    ensures
        trimmed(s).len() == 0 <==> is_blank(s),
        !is_blank(s) ==> is_core_of(trimmed(s), s),
{
    trimmed_is_a_subrange(s);
    trimmed_has_no_outer_white_space(s);
    let (i, j) = choose|i: int, j: int| #[trigger]
        white_outside(s, i, j) && 0 <= i <= j <= s.len() && trimmed(s) == s.subrange(i, j);
    if i < j {
        assert(trimmed(s).first() == s[i]);
        assert(trimmed(s).last() == s[j - 1]);
        assert(!is_blank(s));
    } else {
        assert(is_blank(s));
    }
}

/// A text has one core at most.
pub proof fn the_core_is_unique(a: Seq<char>, b: Seq<char>, s: Seq<char>)
    requires
        is_core_of(a, s),
        is_core_of(b, s),
    ensures
        a == b,
        !is_blank(s),
{
    let (i, j) = choose|i: int, j: int| #[trigger]
        white_outside(s, i, j) && 0 <= i < j <= s.len() && a == s.subrange(i, j)
            && !is_white_space(s[i]) && !is_white_space(s[j - 1]);
    let (k, l) = choose|k: int, l: int| #[trigger]
        white_outside(s, k, l) && 0 <= k < l <= s.len() && b == s.subrange(k, l)
            && !is_white_space(s[k]) && !is_white_space(s[l - 1]);
    assert(i == k);
    assert(j == l);
}

/// White space around a text does not matter to its trimmed form.
pub proof fn outer_white_space_is_dropped(before: Seq<char>, s: Seq<char>, after: Seq<char>)
    requires
        is_blank(before),
        is_blank(after),
    ensures
        trimmed(before + s + after) == trimmed(s),
{
    let t = before + s + after;
    trimming_leaves_the_core(s);
    trimming_leaves_the_core(t);
    if is_blank(s) {
        assert(is_blank(t));
        assert(trimmed(t) =~= trimmed(s));
    } else {
        let (i, j) = choose|i: int, j: int| #[trigger]
            white_outside(s, i, j) && 0 <= i < j <= s.len() && trimmed(s) == s.subrange(i, j)
                && !is_white_space(s[i]) && !is_white_space(s[j - 1]);
        let n = before.len();
        assert(t[n + i] == s[i]);
        assert(t[n + j - 1] == s[j - 1]);
        assert(t.subrange(n + i, n + j) =~= s.subrange(i, j));
        assert forall|k: int| 0 <= k < n + i implies is_white_space(#[trigger] t[k]) by {
            if k < n {
                assert(t[k] == before[k]);
            } else {
                assert(t[k] == s[k - n]);
            }
        }
        assert forall|k: int| n + j <= k < t.len() implies is_white_space(#[trigger] t[k]) by {
            if k < n + s.len() {
                assert(t[k] == s[k - n]);
            } else {
                assert(t[k] == after[k - n - s.len()]);
            }
        }
        assert(white_outside(t, n + i, n + j));
        assert(is_core_of(trimmed(s), t));
        assert(!is_white_space(t[n + i]));
        the_core_is_unique(trimmed(s), trimmed(t), t);
    }
}

} // verus!
