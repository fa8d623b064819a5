//! Tags: slug normalization, the tag list filter, new-tag validation, and
//! resolving a note's typed-in tag slugs in order.

use vstd::prelude::*;
use crate::error::ApiError;
use crate::notes::clamp;
use crate::text::{lowercase, push_char, str_eq, to_lowercase, trim, trim_str, views};

use crate::auth::uuid_canonical;
use crate::rows::{opt_uuid_parses, opt_uuid_read, parse_opt_uuid, parse_uuid};

verus! {

/// A typed-in tag slug, normalized: trimmed, then lower-cased.
pub open spec fn normal_tag(raw: Seq<char>) -> Seq<char> {
    lowercase(trim(raw))
}

/// The normalized slugs in first-seen order, without empties or repeats.
pub open spec fn clean_tags(raws: Seq<Seq<char>>) -> Seq<Seq<char>>
    decreases raws.len(),
{
    if raws.len() == 0 {
        Seq::empty()
    } else {
        let acc = clean_tags(raws.drop_last());
        let s = normal_tag(raws.last());
        if s.len() > 0 && !acc.contains(s) {
            acc.push(s)
        } else {
            acc
        }
    }
}

/// Normalize and de-duplicate tag slugs, preserving the caller's order.
pub fn normalize_tag_slugs(slugs: &Vec<String>) -> (r: Vec<String>)
    ensures
        views(r@) == clean_tags(views(slugs@)),
{
    let mut out: Vec<String> = Vec::new();
    let mut i: usize = 0;
    while i < slugs.len()
        invariant
            i <= slugs.len(),
            views(out@) == clean_tags(views(slugs@).subrange(0, i as int)),
        decreases slugs.len() - i,
    {
        let ghost pre = views(slugs@).subrange(0, i as int);
        let ghost next = views(slugs@).subrange(0, i + 1);
        assert(next.drop_last() =~= pre);
        assert(next.last() == slugs@[i as int]@);
        let trimmed = trim_str(slugs[i].as_str());
        let s = to_lowercase(trimmed.as_str());
        if s.unicode_len() > 0 && !crate::text::contains_string(&out, s.as_str()) {
            let ghost before = out@;
            out.push(s);
            assert(views(out@) =~= views(before).push(s@));
        }
        i = i + 1;
    }
    assert(views(slugs@).subrange(0, slugs.len() as int) =~= views(slugs@));
    out
}

/// The cleaned slugs never repeat, are never empty, and every non-empty
/// normalized input is among them.
pub proof fn lemma_clean_tags(raws: Seq<Seq<char>>)
    ensures
        clean_tags(raws).no_duplicates(),
        forall|i: int| 0 <= i < clean_tags(raws).len() ==> #[trigger] clean_tags(raws)[i].len() > 0,
        forall|i: int|
            0 <= i < raws.len() && normal_tag(raws[i]).len() > 0 ==> clean_tags(raws).contains(
                #[trigger] normal_tag(raws[i]),
            ),
    decreases raws.len(),
{
    if raws.len() > 0 {
        let init = raws.drop_last();
        lemma_clean_tags(init);
        let acc = clean_tags(init);
        let s = normal_tag(raws.last());
        if s.len() > 0 && !acc.contains(s) {
            let r = acc.push(s);
            assert forall|a: int, b: int| 0 <= a < r.len() && 0 <= b < r.len() && a != b implies r[a]
                != r[b] by {
                if a == r.len() - 1 {
                    assert(acc.contains(r[b]) || b == a);
                } else if b == r.len() - 1 {
                    assert(acc.contains(r[a]));
                }
            }
            assert forall|i: int| 0 <= i < raws.len() && normal_tag(raws[i]).len() > 0 implies r.contains(
                #[trigger] normal_tag(raws[i]),
            ) by {
                if i < raws.len() - 1 {
                    assert(init[i] == raws[i]);
                    let k = choose|k: int| 0 <= k < acc.len() && acc[k] == normal_tag(init[i]);
                    assert(r[k] == acc[k]);
                } else {
                    assert(r[r.len() - 1] == s);
                }
            }
        } else {
            assert forall|i: int| 0 <= i < raws.len() && normal_tag(raws[i]).len() > 0 implies acc.contains(
                #[trigger] normal_tag(raws[i]),
            ) by {
                if i < raws.len() - 1 {
                    assert(init[i] == raws[i]);
                }
            }
        }
    }
}

/// Every hyphen replaced by a space (`slug.replace('-', " ")`).
pub open spec fn hyphens_to_spaces(s: Seq<char>) -> Seq<char> {
    s.map_values(|c: char| if c == '-' { ' ' } else { c })
}

/// The display name a tag created on the fly gets: its slug with hyphens
/// as spaces.
pub fn tag_display_name(slug: &str) -> (r: String)
    ensures
        r@ == hyphens_to_spaces(slug@),
{
    let n = slug.unicode_len();
    let mut out = String::new();
    let mut i: usize = 0;
    while i < n
        invariant
            i <= n,
            n == slug@.len(),
            out@ == hyphens_to_spaces(slug@.subrange(0, i as int)),
        decreases n - i,
    {
        let c = slug.get_char(i);
        push_char(&mut out, if c == '-' { ' ' } else { c });
        assert(hyphens_to_spaces(slug@.subrange(0, i + 1)) =~= hyphens_to_spaces(slug@.subrange(0, i as int)).push(
            if c == '-' { ' ' } else { c },
        ));
        i = i + 1;
    }
    assert(slug@.subrange(0, n as int) =~= slug@);
    out
}

/// A new tag: its slug (trimmed, lower-cased) and display name (trimmed),
/// neither of which may be empty.
pub fn new_tag(slug: &str, display_name: &str) -> (r: Result<(String, String), ApiError>)
    ensures
        r is Ok <==> trim(slug@).len() > 0 && trim(display_name@).len() > 0,
        r matches Ok((s, d)) ==> s@ == normal_tag(slug@) && d@ == trim(display_name@),
        trim(slug@).len() == 0 ==> (r matches Err(ApiError::BadRequest(m)) && m@ == "slug cannot be empty"@),
        trim(slug@).len() > 0 && trim(display_name@).len() == 0 ==> (r matches Err(
            ApiError::BadRequest(m),
        ) && m@ == "display_name cannot be empty"@),
{
    let s = to_lowercase(trim_str(slug).as_str());
    if s.unicode_len() == 0 {
        return Err(ApiError::BadRequest(String::from_str("slug cannot be empty")));
    }
    let d = trim_str(display_name);
    if d.unicode_len() == 0 {
        return Err(ApiError::BadRequest(String::from_str("display_name cannot be empty")));
    }
    Ok((s, d))
}

/// The refusal of a tag whose slug already exists.
pub fn tag_slug_taken(slug: &str) -> (r: ApiError)
    ensures
        r matches ApiError::BadRequest(m) && m@ == "tag slug '"@ + slug@ + "' already exists"@,
{
    let m = String::from_str("tag slug '").concat(slug);
    ApiError::BadRequest(m.concat("' already exists"))
}

/// A stored tag.
pub struct TagRow {
    pub uuid: String,
    pub slug: String,
    pub display_name: String,
    pub is_system: i64,
    pub introduced_by_module_uuid: Option<String>,
    pub created_at: String,
}

/// A tag as the API answers it.
pub struct Tag {
    pub uuid: String,
    pub slug: String,
    pub display_name: String,
    pub is_system: bool,
    pub introduced_by_module_uuid: Option<String>,
    pub created_at: String,
}

impl TagRow {
    /// The tag this row stores: canonical uuids, and any non-zero
    /// `is_system` as true.
    pub fn into_dto(self) -> (r: Result<Tag, ApiError>)
        ensures
            r is Ok <==> uuid_canonical(self.uuid@) is Some && opt_uuid_parses(
                self.introduced_by_module_uuid,
            ),
            r is Err ==> r matches Err(ApiError::Internal(_)),
            r matches Ok(t) ==> {
                &&& uuid_canonical(self.uuid@) == Some(t.uuid@)
                &&& t.slug == self.slug
                &&& t.display_name == self.display_name
                &&& t.is_system == (self.is_system != 0)
                &&& opt_uuid_read(self.introduced_by_module_uuid, t.introduced_by_module_uuid)
                &&& t.created_at == self.created_at
            },
    {
        let uuid = parse_uuid(self.uuid.as_str())?;
        let introduced_by_module_uuid = parse_opt_uuid(&self.introduced_by_module_uuid)?;
        Ok(
            Tag {
                uuid,
                slug: self.slug,
                display_name: self.display_name,
                is_system: self.is_system != 0,
                introduced_by_module_uuid,
                created_at: self.created_at,
            },
        )
    }
}

/// Filters of `GET /api/tags`.
pub struct TagListQuery {
    pub q: Option<String>,
    pub limit: Option<i64>,
}

/// What a tag listing binds: an optional case-insensitive substring
/// pattern and the row limit (50 by default, between 1 and 200).
pub struct TagListPlan {
    pub pattern: Option<String>,
    pub limit: i64,
}

pub fn tag_list_plan(query: &TagListQuery) -> (r: TagListPlan)
    ensures
        r.limit == clamp(
            match query.limit {
                Some(l) => l as int,
                None => 50,
            },
            1,
            200,
        ),
        (query.q matches Some(q) && q@.len() > 0) ==> (r.pattern matches Some(p) && p@ == "%"@
            + lowercase(query.q.unwrap()@) + "%"@),
        !(query.q matches Some(q) && q@.len() > 0) ==> r.pattern is None,
{
    let l = match query.limit {
        Some(l) => l,
        None => 50,
    };
    let limit = if l < 1 {
        1
    } else if l > 200 {
        200
    } else {
        l
    };
    let pattern = match &query.q {
        Some(q) => if q.unicode_len() > 0 {
            let p = String::from_str("%").concat(to_lowercase(q.as_str()).as_str());
            Some(p.concat("%"))
        } else {
            None
        },
        None => None,
    };
    TagListPlan { pattern, limit }
}

/// The uuid recorded for a slug: that of the first matching pair.
pub open spec fn uuid_for(known: Seq<(Seq<char>, Seq<char>)>, slug: Seq<char>) -> Option<Seq<char>>
    decreases known.len(),
{
    if known.len() == 0 {
        None
    } else if known[0].0 == slug {
        Some(known[0].1)
    } else {
        uuid_for(known.drop_first(), slug)
    }
}

pub open spec fn pairs_view(v: Seq<(String, String)>) -> Seq<(Seq<char>, Seq<char>)> {
    v.map_values(|p: (String, String)| (p.0@, p.1@))
}

fn lookup_uuid(known: &Vec<(String, String)>, slug: &str) -> (r: Option<String>)
    ensures
        r matches Some(u) ==> uuid_for(pairs_view(known@), slug@) == Some(u@),
        r is None ==> uuid_for(pairs_view(known@), slug@) is None,
{
    let mut i: usize = 0;
    assert(pairs_view(known@).subrange(0, known@.len() as int) =~= pairs_view(known@));
    while i < known.len()
        invariant
            i <= known.len(),
            uuid_for(pairs_view(known@), slug@) == uuid_for(pairs_view(known@).subrange(i as int, known@.len() as int), slug@),
        decreases known.len() - i,
    {
        let ghost rest = pairs_view(known@).subrange(i as int, known@.len() as int);
        assert(rest.drop_first() =~= pairs_view(known@).subrange(i + 1, known@.len() as int));
        if str_eq(known[i].0.as_str(), slug) {
            return Some(known[i].1.clone());
        }
        i = i + 1;
    }
    None
}

/// The cleaned slugs that have no recorded tag yet, in order.
pub open spec fn missing_tags(cleaned: Seq<Seq<char>>, known: Seq<(Seq<char>, Seq<char>)>) -> Seq<Seq<char>>
    decreases cleaned.len(),
{
    if cleaned.len() == 0 {
        Seq::empty()
    } else {
        let rest = missing_tags(cleaned.drop_last(), known);
        if uuid_for(known, cleaned.last()) is None {
            rest.push(cleaned.last())
        } else {
            rest
        }
    }
}

/// The tag table after recording each missing slug with its fresh uuid.
pub open spec fn created(
    known: Seq<(Seq<char>, Seq<char>)>,
    missing: Seq<Seq<char>>,
    fresh: Seq<Seq<char>>,
) -> Seq<(Seq<char>, Seq<char>)> {
    known + Seq::new(missing.len(), |i: int| (missing[i], fresh[i]))
}

/// The cleaned slugs that have no tag yet, in order: the tags to create.
pub fn missing_slugs(cleaned: &Vec<String>, known: &Vec<(String, String)>) -> (r: Vec<String>)
    ensures
        views(r@) == missing_tags(views(cleaned@), pairs_view(known@)),
{
    let ghost pk = pairs_view(known@);
    let mut out: Vec<String> = Vec::new();
    let mut i: usize = 0;
    while i < cleaned.len()
        invariant
            i <= cleaned@.len(),
            pk == pairs_view(known@),
            views(out@) == missing_tags(views(cleaned@).subrange(0, i as int), pk),
        decreases cleaned.len() - i,
    {
        let ghost pre = views(cleaned@).subrange(0, i as int);
        let ghost next = views(cleaned@).subrange(0, i + 1);
        assert(next.drop_last() =~= pre);
        assert(next.last() == cleaned@[i as int]@);
        let ghost before = out@;
        if lookup_uuid(known, cleaned[i].as_str()).is_none() {
            out.push(cleaned[i].clone());
            assert(views(out@) =~= views(before).push(cleaned@[i as int]@));
        }
        i = i + 1;
    }
    assert(views(cleaned@).subrange(0, cleaned@.len() as int) =~= views(cleaned@));
    out
}

proof fn lemma_uuid_for_append(a: Seq<(Seq<char>, Seq<char>)>, b: Seq<(Seq<char>, Seq<char>)>, slug: Seq<char>)
    ensures
        uuid_for(a + b, slug) == (if uuid_for(a, slug) is Some {
            uuid_for(a, slug)
        } else {
            uuid_for(b, slug)
        }),
    decreases a.len(),
{
    if a.len() == 0 {
        assert(a + b =~= b);
    } else {
        assert((a + b)[0] == a[0]);
        assert((a + b).drop_first() =~= a.drop_first() + b);
        lemma_uuid_for_append(a.drop_first(), b, slug);
    }
}

proof fn lemma_uuid_for_listed(table: Seq<(Seq<char>, Seq<char>)>, j: int)
    requires
        0 <= j < table.len(),
    ensures
        uuid_for(table, table[j].0) is Some,
    decreases table.len(),
{
    if table[0].0 != table[j].0 {
        assert(table.drop_first()[j - 1] == table[j]);
        lemma_uuid_for_listed(table.drop_first(), j - 1);
    }
}

proof fn lemma_missing_tags_members(cleaned: Seq<Seq<char>>, known: Seq<(Seq<char>, Seq<char>)>, x: Seq<char>)
    ensures
        missing_tags(cleaned, known).contains(x) <==> (cleaned.contains(x) && uuid_for(known, x) is None),
    decreases cleaned.len(),
{
    if cleaned.len() > 0 {
        let init = cleaned.drop_last();
        lemma_missing_tags_members(init, known, x);
        if cleaned.contains(x) && x != cleaned.last() {
            let k = choose|k: int| 0 <= k < cleaned.len() && cleaned[k] == x;
            assert(init[k] == x);
        }
        if init.contains(x) {
            let k = choose|k: int| 0 <= k < init.len() && init[k] == x;
            assert(cleaned[k] == x);
        }
        if x == cleaned.last() {
            assert(cleaned[cleaned.len() - 1] == x);
        }
        let rest = missing_tags(init, known);
        if uuid_for(known, cleaned.last()) is None {
            if rest.contains(x) {
                let k = choose|k: int| 0 <= k < rest.len() && rest[k] == x;
                assert(rest.push(cleaned.last())[k] == x);
            }
            if rest.push(cleaned.last()).contains(x) && x != cleaned.last() {
                let k = choose|k: int| 0 <= k < rest.len() + 1 && rest.push(cleaned.last())[k] == x;
                assert(rest[k] == x);
            }
            assert(rest.push(cleaned.last())[rest.len() as int] == cleaned.last());
        }
    }
}

/// Resolving typed-in tags settles: once each missing slug is recorded
/// with a fresh uuid, every slug resolves, the tags that existed keep
/// their uuids, and resolving again finds nothing missing, so it creates
/// no tag and leaves the table, and so the uuids, as they are.
pub proof fn lemma_tag_resolution_settles(
    cleaned: Seq<Seq<char>>,
    known: Seq<(Seq<char>, Seq<char>)>,
    fresh: Seq<Seq<char>>,
)
    requires
        fresh.len() == missing_tags(cleaned, known).len(),
    ensures
        ({
            let after = created(known, missing_tags(cleaned, known), fresh);
            &&& forall|i: int| 0 <= i < cleaned.len() ==> #[trigger] uuid_for(after, cleaned[i]) is Some
            &&& forall|s: Seq<char>| #[trigger] uuid_for(known, s) is Some ==> uuid_for(after, s) == uuid_for(known, s)
            &&& missing_tags(cleaned, after).len() == 0
            &&& created(after, missing_tags(cleaned, after), Seq::empty()) == after
        }),
{
    let missing = missing_tags(cleaned, known);
    let added = Seq::new(missing.len(), |i: int| (missing[i], fresh[i]));
    let after = created(known, missing, fresh);
    assert forall|i: int| 0 <= i < cleaned.len() implies #[trigger] uuid_for(after, cleaned[i]) is Some by {
        let x = cleaned[i];
        lemma_uuid_for_append(known, added, x);
        if uuid_for(known, x) is None {
            assert(cleaned.contains(x));
            lemma_missing_tags_members(cleaned, known, x);
            let j = choose|j: int| 0 <= j < missing.len() && missing[j] == x;
            assert(added[j].0 == x);
            lemma_uuid_for_listed(added, j);
        }
    }
    assert forall|s: Seq<char>| #[trigger] uuid_for(known, s) is Some implies uuid_for(after, s) == uuid_for(known, s) by {
        lemma_uuid_for_append(known, added, s);
    }
    let again = missing_tags(cleaned, after);
    if again.len() > 0 {
        let x = again[0];
        assert(again.contains(x));
        lemma_missing_tags_members(cleaned, after, x);
        let i = choose|i: int| 0 <= i < cleaned.len() && cleaned[i] == x;
        assert(uuid_for(after, cleaned[i]) is Some);
    }
    assert(created(after, again, Seq::empty()) =~= after);
}

/// The tag uuids of the cleaned slugs, in the slugs' order; a slug with
/// no recorded uuid is an internal error.
pub fn uuids_in_order(cleaned: &Vec<String>, known: &Vec<(String, String)>) -> (r: Result<Vec<String>, ApiError>)
    ensures
        r is Ok <==> forall|i: int| 0 <= i < cleaned@.len() ==> #[trigger] uuid_for(pairs_view(known@), cleaned@[i]@) is Some,
        r matches Ok(u) ==> u@.len() == cleaned@.len() && forall|i: int|
            0 <= i < cleaned@.len() ==> uuid_for(pairs_view(known@), cleaned@[i]@) == Some(#[trigger] u@[i]@),
        r matches Err(e) ==> e is Internal,
{
    let mut out: Vec<String> = Vec::new();
    let mut i: usize = 0;
    while i < cleaned.len()
        invariant
            i <= cleaned.len(),
            out@.len() == i,
            forall|k: int| 0 <= k < i ==> #[trigger] uuid_for(pairs_view(known@), cleaned@[k]@) is Some,
            forall|k: int| 0 <= k < i ==> uuid_for(pairs_view(known@), cleaned@[k]@) == Some(#[trigger] out@[k]@),
        decreases cleaned.len() - i,
    {
        match lookup_uuid(known, cleaned[i].as_str()) {
            Some(u) => out.push(u),
            None => {
                let m = String::from_str("tag '").concat(cleaned[i].as_str());
                return Err(ApiError::Internal(m.concat("' vanished during resolution")));
            },
        }
        i = i + 1;
    }
    Ok(out)
}

} // verus!
