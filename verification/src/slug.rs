//! Slugs: the lower-case, hyphen-joined identifiers that homebrew records
//! and modules carry but that users only supply a display name for.

use vstd::prelude::*;
use crate::text::{ascii_alnum, ascii_lower, is_ascii_alnum, is_ascii_digit, is_ascii_lower, string_of, to_ascii_lower};

verus! {

/// The characters produced while scanning a name: every ASCII letter or
/// digit lower-cased, and one hyphen for each run of other characters
/// that follows at least one kept character.
pub open spec fn slug_scan(s: Seq<char>) -> Seq<char>
    decreases s.len(),
{
    if s.len() == 0 {
        Seq::empty()
    } else {
        let acc = slug_scan(s.drop_last());
        let c = s.last();
        if is_ascii_alnum(c) {
            acc.push(ascii_lower(c))
        } else if acc.len() > 0 && acc.last() != '-' {
            acc.push('-')
        } else {
            acc
        }
    }
}

/// `trim_end_matches('-')`.
pub open spec fn strip_trailing_hyphens(s: Seq<char>) -> Seq<char>
    decreases s.len(),
{
    if s.len() > 0 && s.last() == '-' {
        strip_trailing_hyphens(s.drop_last())
    } else {
        s
    }
}

/// The slug of a display name.
pub open spec fn slug_of(name: Seq<char>) -> Seq<char> {
    strip_trailing_hyphens(slug_scan(name))
}

/// A character that may stand in a slug.
pub open spec fn is_slug_char(c: char) -> bool {
    is_ascii_lower(c) || is_ascii_digit(c) || c == '-'
}

/// A well-formed slug: lower-case ASCII letters and digits in groups
/// joined by single hyphens, with no hyphen at either end.
pub open spec fn is_normal_slug(s: Seq<char>) -> bool {
    &&& forall|i: int| 0 <= i < s.len() ==> #[trigger] is_slug_char(s[i])
    &&& s.len() > 0 ==> s[0] != '-' && s.last() != '-'
    &&& forall|i: int| 0 <= i < s.len() - 1 ==> !(#[trigger] s[i] == '-' && s[i + 1] == '-')
}

/// Whether the name holds any ASCII letter or digit.
pub open spec fn has_ascii_alnum(s: Seq<char>) -> bool {
    exists|i: int| 0 <= i < s.len() && #[trigger] is_ascii_alnum(s[i])
}

/// The scan never starts with a hyphen, never doubles one, and holds only
/// slug characters; it is empty exactly when no letter or digit was seen.
proof fn lemma_scan_shape(s: Seq<char>)
    ensures
        forall|i: int| 0 <= i < slug_scan(s).len() ==> #[trigger] is_slug_char(slug_scan(s)[i]),
        slug_scan(s).len() > 0 ==> slug_scan(s)[0] != '-',
        forall|i: int|
            0 <= i < slug_scan(s).len() - 1 ==> !(#[trigger] slug_scan(s)[i] == '-' && slug_scan(
                s,
            )[i + 1] == '-'),
        (slug_scan(s).len() > 0) == has_ascii_alnum(s),
    decreases s.len(),
{
    if s.len() > 0 {
        let p = s.drop_last();
        lemma_scan_shape(p);
        let acc = slug_scan(p);
        let c = s.last();
        if has_ascii_alnum(p) {
            let k = choose|k: int| 0 <= k < p.len() && #[trigger] is_ascii_alnum(p[k]);
            assert(s[k] == p[k]);
        }
        if is_ascii_alnum(c) {
            assert(s[s.len() - 1] == c);
        } else {
            assert forall|i: int| 0 <= i < s.len() && #[trigger] is_ascii_alnum(s[i]) implies has_ascii_alnum(p) by {
                assert(i < s.len() - 1);
                assert(p[i] == s[i]);
            }
        }
    } else {
        assert(!has_ascii_alnum(s));
    }
}

proof fn lemma_strip_prefix(s: Seq<char>)
    ensures
        strip_trailing_hyphens(s).len() <= s.len(),
        strip_trailing_hyphens(s) == s.subrange(0, strip_trailing_hyphens(s).len() as int),
        strip_trailing_hyphens(s).len() > 0 ==> strip_trailing_hyphens(s).last() != '-',
        forall|k: int|
            strip_trailing_hyphens(s).len() <= k < s.len() ==> #[trigger] s[k] == '-',
    decreases s.len(),
{
    if s.len() > 0 && s.last() == '-' {
        lemma_strip_prefix(s.drop_last());
        let r = strip_trailing_hyphens(s);
        assert(s.drop_last().subrange(0, r.len() as int) =~= s.subrange(0, r.len() as int));
        assert forall|k: int| r.len() <= k < s.len() implies #[trigger] s[k] == '-' by {
            if k < s.len() - 1 {
                assert(s.drop_last()[k] == s[k]);
            }
        }
    } else {
        assert(s.subrange(0, s.len() as int) =~= s);
    }
}

/// Every slug is well formed.
pub proof fn lemma_slug_is_normal(name: Seq<char>)
    ensures
        is_normal_slug(slug_of(name)),
{
    let t = slug_scan(name);
    lemma_scan_shape(name);
    lemma_strip_prefix(t);
    let r = slug_of(name);
    assert forall|i: int| 0 <= i < r.len() implies #[trigger] is_slug_char(r[i]) by {
        assert(r[i] == t[i]);
    }
    assert forall|i: int| 0 <= i < r.len() - 1 implies !(#[trigger] r[i] == '-' && r[i + 1]
        == '-') by {
        assert(r[i] == t[i]);
        assert(r[i + 1] == t[i + 1]);
    }
    if r.len() > 0 {
        assert(r[0] == t[0]);
    }
}

/// A slug is empty exactly when the name holds no ASCII letter or digit.
pub proof fn lemma_slug_empty_iff(name: Seq<char>)
    ensures
        (slug_of(name).len() == 0) == !has_ascii_alnum(name),
{
    let t = slug_scan(name);
    lemma_scan_shape(name);
    lemma_strip_prefix(t);
    if t.len() > 0 {
        assert(t[0] != '-');
        if slug_of(name).len() == 0 {
            assert(t[0] == '-');
        }
    }
}

/// Scanning a well-formed slug gives it back unchanged.
proof fn lemma_scan_of_normal(s: Seq<char>)
    requires
        forall|i: int| 0 <= i < s.len() ==> #[trigger] is_slug_char(s[i]),
        s.len() > 0 ==> s[0] != '-',
        forall|i: int| 0 <= i < s.len() - 1 ==> !(#[trigger] s[i] == '-' && s[i + 1] == '-'),
    ensures
        slug_scan(s) == s,
    decreases s.len(),
{
    if s.len() > 0 {
        let p = s.drop_last();
        assert forall|i: int| 0 <= i < p.len() implies #[trigger] is_slug_char(p[i]) by {
            assert(p[i] == s[i]);
        }
        assert forall|i: int| 0 <= i < p.len() - 1 implies !(#[trigger] p[i] == '-' && p[i + 1]
            == '-') by {
            assert(p[i] == s[i]);
            assert(p[i + 1] == s[i + 1]);
        }
        if p.len() > 0 {
            assert(p[0] == s[0]);
        }
        lemma_scan_of_normal(p);
        let c = s.last();
        assert(is_slug_char(s[s.len() - 1]));
        if c == '-' {
            assert(s.len() > 1);
            assert(!(s[s.len() - 2] == '-' && s[s.len() - 1] == '-'));
            assert(p.last() == s[s.len() - 2]);
        }
        assert(p.push(c) =~= s);
    }
}

/// A well-formed slug is its own slug.
pub proof fn lemma_normal_slug_fixed(s: Seq<char>)
    requires
        is_normal_slug(s),
    ensures
        slug_of(s) == s,
{
    lemma_scan_of_normal(s);
}

/// Slugging is idempotent: the slug of a slug is the slug itself.
pub proof fn lemma_slug_idempotent(name: Seq<char>)
    ensures
        slug_of(slug_of(name)) == slug_of(name),
{
    lemma_slug_is_normal(name);
    lemma_normal_slug_fixed(slug_of(name));
}

/// Lower-case, hyphen-joined slug of a display name (homebrew records and
/// modules need a slug but users only supply a name).
pub fn slugify(name: &str) -> (slug: String)
    ensures
        slug@ == slug_of(name@),
        is_normal_slug(slug@),
        (slug@.len() == 0) == !has_ascii_alnum(name@),
{
    let n = name.unicode_len();
    let mut acc: Vec<char> = Vec::new();
    let mut i: usize = 0;
    while i < n
        invariant
            i <= n,
            n == name@.len(),
            acc@ == slug_scan(name@.subrange(0, i as int)),
        decreases n - i,
    {
        let c = name.get_char(i);
        proof {
            let pre = name@.subrange(0, i + 1);
            assert(pre.drop_last() =~= name@.subrange(0, i as int));
            assert(pre.last() == c);
        }
        if ascii_alnum(c) {
            acc.push(to_ascii_lower(c));
        } else if acc.len() > 0 && acc[acc.len() - 1] != '-' {
            acc.push('-');
        }
        i = i + 1;
    }
    assert(name@.subrange(0, n as int) =~= name@);
    let mut end = acc.len();
    assert(acc@.subrange(0, end as int) =~= acc@);
    while end > 0 && acc[end - 1] == '-'
        invariant
            end <= acc.len(),
            strip_trailing_hyphens(acc@) == strip_trailing_hyphens(acc@.subrange(0, end as int)),
        decreases end,
    {
        proof {
            let s = acc@.subrange(0, end as int);
            assert(s.drop_last() =~= acc@.subrange(0, end - 1));
        }
        end = end - 1;
    }
    let mut out: Vec<char> = Vec::new();
    let mut k: usize = 0;
    while k < end
        invariant
            k <= end <= acc.len(),
            out@ == acc@.subrange(0, k as int),
        decreases end - k,
    {
        out.push(acc[k]);
        assert(acc@.subrange(0, k + 1) =~= acc@.subrange(0, k as int).push(acc@[k as int]));
        k = k + 1;
    }
    let r = string_of(&out);
    proof {
        let s = acc@.subrange(0, end as int);
        assert(!(s.len() > 0 && s.last() == '-'));
        assert(r@ == s);
        lemma_slug_is_normal(name@);
        lemma_slug_empty_iff(name@);
    }
    r
}

} // verus!
