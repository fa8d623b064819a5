//! Unified lore-note search: free text through SQLite FTS5, scope and tag
//! filters (a note must carry every listed tag), and the visibility rule.

use vstd::prelude::*;
use crate::content::{placeholder_list, placeholders};
use crate::notes::{
    clamp, note_list_select, opt_one, scope_kind_name, scope_kind_to_str, visibility_predicate,
    NoteQuery, NoteScopeKind,
};
use crate::text::{
    blank, decimal, decimal_string, is_blank, is_white_space, join, join_strings, lowercase,
    push_char, to_lowercase, views, white_space,
};

verus! {

/// Scans text into the words finished so far and the word in progress.
pub open spec fn split_scan(s: Seq<char>) -> (Seq<Seq<char>>, Seq<char>)
    decreases s.len(),
{
    if s.len() == 0 {
        (Seq::empty(), Seq::empty())
    } else {
        let (done, cur) = split_scan(s.drop_last());
        let c = s.last();
        if is_white_space(c) {
            if cur.len() > 0 {
                (done.push(cur), Seq::empty())
            } else {
                (done, Seq::empty())
            }
        } else {
            (done, cur.push(c))
        }
    }
}

/// `str::split_whitespace`: the maximal runs of non-white-space
/// characters, in order.
pub open spec fn words(s: Seq<char>) -> Seq<Seq<char>> {
    let (done, cur) = split_scan(s);
    if cur.len() > 0 {
        done.push(cur)
    } else {
        done
    }
}

/// Every double quote doubled.
pub open spec fn double_quotes(t: Seq<char>) -> Seq<char>
    decreases t.len(),
{
    if t.len() == 0 {
        Seq::empty()
    } else if t.last() == '"' {
        double_quotes(t.drop_last()) + seq!['"', '"']
    } else {
        double_quotes(t.drop_last()).push(t.last())
    }
}

/// A term as an FTS5 string literal.
pub open spec fn quote_term(t: Seq<char>) -> Seq<char> {
    seq!['"'] + double_quotes(t) + seq!['"']
}

pub open spec fn quoted_words(s: Seq<char>) -> Seq<Seq<char>> {
    words(s).map_values(|w: Seq<char>| quote_term(w))
}

/// The FTS5 query for free text: each word quoted as a string literal,
/// joined by spaces (implicit AND).
pub open spec fn fts5_query(q: Seq<char>) -> Seq<char> {
    join(quoted_words(q), " "@)
}

/// Number of double quotes in a text.
pub open spec fn quote_count(s: Seq<char>) -> nat
    decreases s.len(),
{
    if s.len() == 0 {
        0
    } else {
        quote_count(s.drop_last()) + if s.last() == '"' {
            1nat
        } else {
            0nat
        }
    }
}

proof fn lemma_quote_count_append(a: Seq<char>, b: Seq<char>)
    ensures
        quote_count(a + b) == quote_count(a) + quote_count(b),
    decreases b.len(),
{
    if b.len() == 0 {
        assert(a + b =~= a);
    } else {
        lemma_quote_count_append(a, b.drop_last());
        assert((a + b).drop_last() =~= a + b.drop_last());
        assert((a + b).last() == b.last());
    }
}

proof fn lemma_quote_count_small()
    ensures
        quote_count(seq!['"']) == 1,
        quote_count(seq!['"', '"']) == 2,
        quote_count(seq![' ']) == 0,
{
    assert(seq!['"'].drop_last() =~= Seq::<char>::empty());
    assert(seq![' '].drop_last() =~= Seq::<char>::empty());
    assert(quote_count(Seq::<char>::empty()) == 0);
    assert(quote_count(seq!['"']) == 1);
    assert(seq!['"', '"'].drop_last() =~= seq!['"']);
    assert(seq!['"', '"'].last() == '"');
}

proof fn lemma_double_quotes_count(t: Seq<char>)
    ensures
        quote_count(double_quotes(t)) == 2 * quote_count(t),
    decreases t.len(),
{
    if t.len() > 0 {
        lemma_double_quotes_count(t.drop_last());
        lemma_quote_count_small();
        let d = double_quotes(t.drop_last());
        if t.last() == '"' {
            lemma_quote_count_append(d, seq!['"', '"']);
            assert(double_quotes(t) == d + seq!['"', '"']);
        } else {
            assert(d.push(t.last()).drop_last() =~= d);
            assert(double_quotes(t) == d.push(t.last()));
            assert(quote_count(d.push(t.last())) == quote_count(d));
        }
    }
}

proof fn lemma_join_count_even(parts: Seq<Seq<char>>)
    requires
        forall|i: int| 0 <= i < parts.len() ==> #[trigger] quote_count(parts[i]) % 2 == 0,
    ensures
        quote_count(join(parts, " "@)) % 2 == 0,
    decreases parts.len(),
{
    reveal_strlit(" ");
    if parts.len() > 1 {
        let init = parts.drop_last();
        assert forall|i: int| 0 <= i < init.len() implies #[trigger] quote_count(init[i]) % 2 == 0 by {
            assert(init[i] == parts[i]);
        }
        lemma_join_count_even(init);
        let j = join(init, " "@);
        lemma_quote_count_append(j, " "@);
        lemma_quote_count_append(j + " "@, parts.last());
        lemma_quote_count_small();
        assert(" "@ =~= seq![' ']);
        assert(quote_count(parts[parts.len() - 1]) % 2 == 0);
        assert(join(parts, " "@) == j + " "@ + parts.last());
    } else if parts.len() == 1 {
        assert(quote_count(parts[0]) % 2 == 0);
    }
}

/// The FTS5 query built from any free text has its double quotes
/// balanced: every word becomes one string literal whose inner quotes are
/// doubled, so user input can never break out of a literal.
pub proof fn lemma_fts5_query_balanced(q: Seq<char>)
    ensures
        quote_count(fts5_query(q)) % 2 == 0,
        forall|i: int|
            0 <= i < quoted_words(q).len() ==> quote_count(#[trigger] quoted_words(q)[i]) == 2
                * quote_count(words(q)[i]) + 2,
{
    let qw = quoted_words(q);
    assert forall|i: int| 0 <= i < qw.len() implies quote_count(#[trigger] qw[i]) == 2 * quote_count(
        words(q)[i],
    ) + 2 by {
        let w = words(q)[i];
        lemma_double_quotes_count(w);
        lemma_quote_count_append(seq!['"'], double_quotes(w));
        lemma_quote_count_append(seq!['"'] + double_quotes(w), seq!['"']);
        lemma_quote_count_small();
        assert(qw[i] == quote_term(w));
    }
    assert forall|i: int| 0 <= i < qw.len() implies #[trigger] quote_count(qw[i]) % 2 == 0 by {}
    lemma_join_count_even(qw);
}

fn quote_into(out: &mut String, s: &str, start: usize, end: usize)
    requires
        start <= end <= s@.len(),
    ensures
        final(out)@ == old(out)@ + quote_term(s@.subrange(start as int, end as int)),
{
    push_char(out, '"');
    let ghost base = out@;
    let mut k: usize = start;
    while k < end
        invariant
            start <= k <= end <= s@.len(),
            out@ == base + double_quotes(s@.subrange(start as int, k as int)),
        decreases end - k,
    {
        let c = s.get_char(k);
        let ghost t = s@.subrange(start as int, k + 1);
        assert(t.drop_last() =~= s@.subrange(start as int, k as int));
        assert(t.last() == c);
        if c == '"' {
            push_char(out, '"');
            push_char(out, '"');
            assert(out@ =~= base + double_quotes(t));
        } else {
            push_char(out, c);
            assert(out@ =~= base + double_quotes(t));
        }
        k = k + 1;
    }
    push_char(out, '"');
    assert(out@ =~= old(out)@ + quote_term(s@.subrange(start as int, end as int)));
}

/// Quote each whitespace-separated term as an FTS5 string literal
/// (implicit AND between terms). Raw input fed to MATCH would otherwise
/// hit FTS5's query grammar, and an unbalanced `"` would be a syntax error.
pub fn fts5_quote(q: &str) -> (r: String)
    ensures
        r@ == fts5_query(q@),
{
    let n = q.unicode_len();
    let mut out = String::new();
    let mut count: usize = 0;
    let mut start: usize = 0;
    let mut i: usize = 0;
    while i < n
        invariant
            i <= n,
            n == q@.len(),
            start <= i,
            split_scan(q@.subrange(0, i as int)).1 == q@.subrange(start as int, i as int),
            count == split_scan(q@.subrange(0, i as int)).0.len(),
            out@ == join(split_scan(q@.subrange(0, i as int)).0.map_values(|w: Seq<char>| quote_term(w)), " "@),
            count <= i,
        decreases n - i,
    {
        let c = q.get_char(i);
        let ghost pre = q@.subrange(0, i as int);
        let ghost next = q@.subrange(0, i + 1);
        assert(next.drop_last() =~= pre);
        assert(next.last() == c);
        let ghost done = split_scan(pre).0;
        if white_space(c) {
            if start < i {
                if count > 0 {
                    push_char(&mut out, ' ');
                }
                quote_into(&mut out, q, start, i);
                proof {
                    let nd = done.push(q@.subrange(start as int, i as int));
                    let qd = done.map_values(|w: Seq<char>| quote_term(w));
                    let qn = nd.map_values(|w: Seq<char>| quote_term(w));
                    assert(qn.drop_last() =~= qd);
                    reveal_strlit(" ");
                    if count == 0 {
                        assert(qd.len() == 0);
                        assert(out@ =~= qn[0]);
                    } else {
                        assert(out@ =~= join(qd, " "@) + " "@ + qn.last());
                    }
                }
                count = count + 1;
            }
            start = i + 1;
            assert(q@.subrange(start as int, i + 1) =~= Seq::<char>::empty());
        } else {
            assert(q@.subrange(start as int, i + 1) =~= q@.subrange(start as int, i as int).push(c));
        }
        i = i + 1;
    }
    assert(q@.subrange(0, n as int) =~= q@);
    if start < n {
        if count > 0 {
            push_char(&mut out, ' ');
        }
        quote_into(&mut out, q, start, n);
        proof {
            let done = split_scan(q@).0;
            let nd = done.push(q@.subrange(start as int, n as int));
            let qd = done.map_values(|w: Seq<char>| quote_term(w));
            let qn = nd.map_values(|w: Seq<char>| quote_term(w));
            assert(qn.drop_last() =~= qd);
            reveal_strlit(" ");
            if count == 0 {
                assert(out@ =~= qn[0]);
            } else {
                assert(out@ =~= join(qd, " "@) + " "@ + qn.last());
            }
            assert(qn =~= quoted_words(q@));
        }
    } else {
        assert(split_scan(q@).0.map_values(|w: Seq<char>| quote_term(w)) =~= quoted_words(q@));
    }
    out
}


/// The body of `POST /api/search`.
pub struct SearchRequest {
    pub q: Option<String>,
    pub scope_kind: Option<NoteScopeKind>,
    pub scope_target_uuid: Option<String>,
    pub tag_slugs: Vec<String>,
    pub limit: Option<u32>,
}

pub open spec fn has_text(q: Option<String>) -> bool {
    q matches Some(s) && !is_blank(s@)
}

/// Notes carrying every one of `n` tag slugs.
pub open spec fn tag_condition(n: nat) -> Seq<char> {
    "n.uuid IN (SELECT tan.lore_note_uuid FROM tag_attachment_lore_note tan JOIN tag t ON t.uuid = tan.tag_uuid WHERE t.slug IN ("@
        + placeholder_list(n) + ") GROUP BY tan.lore_note_uuid HAVING COUNT(DISTINCT t.uuid) = "@ + decimal(n)
        + ")"@
}

pub open spec fn search_conditions(r: SearchRequest) -> Seq<Seq<char>> {
    opt_one(has_text(r.q), "lore_note_fts MATCH ?"@) + opt_one(r.scope_kind is Some, "n.scope_kind = ?"@)
        + opt_one(r.scope_target_uuid is Some, "n.scope_target_uuid = ?"@) + opt_one(
        r.tag_slugs@.len() > 0,
        tag_condition(r.tag_slugs@.len()),
    ) + seq![visibility_predicate()]
}

pub open spec fn search_binds(r: SearchRequest, user: Seq<char>) -> Seq<Seq<char>> {
    opt_one(has_text(r.q), fts5_query(r.q.unwrap()@)) + opt_one(
        r.scope_kind is Some,
        scope_kind_name(r.scope_kind.unwrap()),
    ) + opt_one(r.scope_target_uuid is Some, r.scope_target_uuid.unwrap()@) + views(r.tag_slugs@).map_values(
        |t: Seq<char>| lowercase(t),
    ) + seq![user]
}

pub open spec fn search_sql(r: SearchRequest) -> Seq<char> {
    note_list_select() + (if has_text(r.q) {
        " JOIN lore_note_fts fts ON fts.rowid = n.rowid"@
    } else {
        Seq::empty()
    }) + " WHERE "@ + join(search_conditions(r), " AND "@) + " ORDER BY n.updated_at DESC LIMIT ?"@
}

proof fn lemma_filter_literals_distinct()
    ensures
        "lore_note_fts MATCH ?"@ != "n.scope_kind = ?"@,
        "lore_note_fts MATCH ?"@ != "n.scope_target_uuid = ?"@,
        "n.scope_kind = ?"@ != "n.scope_target_uuid = ?"@,
{
    reveal_strlit("lore_note_fts MATCH ?");
    reveal_strlit("n.scope_kind = ?");
    reveal_strlit("n.scope_target_uuid = ?");
    assert("lore_note_fts MATCH ?"@[0] != "n.scope_kind = ?"@[0]);
    assert("lore_note_fts MATCH ?"@[0] != "n.scope_target_uuid = ?"@[0]);
    assert("n.scope_kind = ?"@[8] != "n.scope_target_uuid = ?"@[8]);
}

/// The values a search binds line up with its conditions, whichever
/// filters are given: the condition at each position before the tag
/// filter binds exactly one value, and it is that filter's value (the
/// quoted text for the text match, the scope kind's name for the kind,
/// the target uuid for the target); the tag filter then binds every tag,
/// lower-cased, in order; the caller binds last, for the visibility
/// condition.
pub proof fn lemma_search_binds_line_up(r: SearchRequest, user: Seq<char>)
    ensures
        ({
            let c = search_conditions(r);
            let b = search_binds(r, user);
            let t = r.tag_slugs@.len();
            let p = c.len() - 1 - (if t > 0 { 1int } else { 0int });
            &&& 0 <= p
            &&& b.len() == p + t + 1
            &&& forall|i: int|
                0 <= i < p && #[trigger] c[i] == "lore_note_fts MATCH ?"@ ==> has_text(r.q) && b[i] == fts5_query(
                    r.q.unwrap()@,
                )
            &&& forall|i: int|
                0 <= i < p && #[trigger] c[i] == "n.scope_kind = ?"@ ==> r.scope_kind is Some && b[i]
                    == scope_kind_name(r.scope_kind.unwrap())
            &&& forall|i: int|
                0 <= i < p && #[trigger] c[i] == "n.scope_target_uuid = ?"@ ==> r.scope_target_uuid is Some
                    && b[i] == r.scope_target_uuid.unwrap()@
            &&& t > 0 ==> c[p] == tag_condition(t) && forall|j: int|
                0 <= j < t ==> #[trigger] b[p + j] == lowercase(r.tag_slugs@[j]@)
            &&& c.last() == visibility_predicate() && b.last() == user
        }),
{
    lemma_filter_literals_distinct();
    let mt = "lore_note_fts MATCH ?"@;
    let kc = "n.scope_kind = ?"@;
    let tc = "n.scope_target_uuid = ?"@;
    let fq = fts5_query(r.q.unwrap()@);
    let kn = scope_kind_name(r.scope_kind.unwrap());
    let tv = r.scope_target_uuid.unwrap()@;
    let t = r.tag_slugs@.len();
    let a = opt_one(has_text(r.q), mt) + opt_one(r.scope_kind is Some, kc) + opt_one(r.scope_target_uuid is Some, tc);
    let ab = opt_one(has_text(r.q), fq) + opt_one(r.scope_kind is Some, kn) + opt_one(r.scope_target_uuid is Some, tv);
    let tags = views(r.tag_slugs@).map_values(|x: Seq<char>| lowercase(x));
    let c = search_conditions(r);
    let b = search_binds(r, user);
    assert(c =~= a + opt_one(t > 0, tag_condition(t)) + seq![visibility_predicate()]);
    assert(b =~= ab + tags + seq![user]);
    let p = a.len() as int;
    assert forall|i: int| 0 <= i < p implies #[trigger] c[i] == a[i] && b[i] == ab[i] by {}
    assert forall|i: int| 0 <= i < p implies (a[i] == mt ==> has_text(r.q) && ab[i] == fq) && (a[i] == kc
        ==> r.scope_kind is Some && ab[i] == kn) && (a[i] == tc ==> r.scope_target_uuid is Some && ab[i] == tv) by {
        let x = opt_one(has_text(r.q), mt);
        let y = opt_one(r.scope_kind is Some, kc);
        let xb = opt_one(has_text(r.q), fq);
        let yb = opt_one(r.scope_kind is Some, kn);
        if i < x.len() {
            assert(a[i] == mt && ab[i] == fq);
        } else if i < x.len() + y.len() {
            assert(a[i] == kc && ab[i] == kn);
        } else {
            assert(a[i] == tc && ab[i] == tv);
        }
    }
    if t > 0 {
        assert forall|j: int| 0 <= j < t implies #[trigger] b[p + j] == lowercase(r.tag_slugs@[j]@) by {
            assert(b[p + j] == tags[j]);
        }
    }
}

/// The row limit of a search: 50 by default, otherwise between 1 and 200.
pub open spec fn search_limit(limit: Option<u32>) -> int {
    match limit {
        Some(n) => clamp(n as int, 1, 200),
        None => 50,
    }
}

/// The query behind a search: FTS5 match on the quoted free text (when it
/// is not blank), scope filters, all-of tag filter over lower-cased
/// slugs, and the caller's visibility filter, newest first.
pub fn search_query(req: &SearchRequest, user_uuid: &str) -> (r: NoteQuery)
    ensures
        r.sql@ == search_sql(*req),
        views(r.binds@) == search_binds(*req, user_uuid@),
        r.limit == search_limit(req.limit),
{
    let limit: i64 = match req.limit {
        Some(n) => if n < 1 {
            1
        } else if n > 200 {
            200
        } else {
            n as i64
        },
        None => 50,
    };
    let mut sql = String::from_str(
        "SELECT n.uuid, n.title, n.body_markdown, n.scope_kind, n.scope_target_uuid, n.visibility, n.derived_from_setting_note_uuid, n.created_by_user_uuid, n.created_at, n.updated_at FROM lore_note n",
    );
    let mut conds: Vec<String> = Vec::new();
    let mut binds: Vec<String> = Vec::new();
    let has_q = match &req.q {
        Some(q) => !blank(q.as_str()),
        None => false,
    };
    if has_q {
        let q = req.q.as_ref().unwrap();
        sql = sql.concat(" JOIN lore_note_fts fts ON fts.rowid = n.rowid");
        conds.push(String::from_str("lore_note_fts MATCH ?"));
        binds.push(fts5_quote(q.as_str()));
    }
    match req.scope_kind {
        Some(k) => {
            conds.push(String::from_str("n.scope_kind = ?"));
            binds.push(String::from_str(scope_kind_to_str(k)));
        },
        None => {},
    }
    match &req.scope_target_uuid {
        Some(t) => {
            conds.push(String::from_str("n.scope_target_uuid = ?"));
            binds.push(t.clone());
        },
        None => {},
    }
    let n = req.tag_slugs.len();
    if n > 0 {
        let c = String::from_str(
            "n.uuid IN (SELECT tan.lore_note_uuid FROM tag_attachment_lore_note tan JOIN tag t ON t.uuid = tan.tag_uuid WHERE t.slug IN (",
        );
        let c = c.concat(placeholders(n).as_str());
        let c = c.concat(") GROUP BY tan.lore_note_uuid HAVING COUNT(DISTINCT t.uuid) = ");
        let c = c.concat(decimal_string(n as u64).as_str());
        conds.push(c.concat(")"));
    }
    let ghost before = binds@;
    assert(views(before) =~= opt_one(has_text(req.q), fts5_query(req.q.unwrap()@)) + opt_one(
        req.scope_kind is Some,
        scope_kind_name(req.scope_kind.unwrap()),
    ) + opt_one(req.scope_target_uuid is Some, req.scope_target_uuid.unwrap()@));
    let mut k: usize = 0;
    while k < n
        invariant
            k <= n,
            n == req.tag_slugs@.len(),
            binds@.len() == before.len() + k,
            forall|j: int| 0 <= j < before.len() ==> binds@[j] == before[j],
            forall|j: int| 0 <= j < k ==> #[trigger] binds@[before.len() + j]@ == lowercase(req.tag_slugs@[j]@),
        decreases n - k,
    {
        binds.push(to_lowercase(req.tag_slugs[k].as_str()));
        k = k + 1;
    }
    let ghost tags = views(req.tag_slugs@).map_values(|t: Seq<char>| lowercase(t));
    assert forall|j: int| 0 <= j < views(binds@).len() implies views(binds@)[j] == (views(before) + tags)[j] by {
        if j >= before.len() {
            let jj = j - before.len();
            assert(binds@[before.len() + jj]@ == lowercase(req.tag_slugs@[jj]@));
        }
    }
    assert(views(binds@) =~= views(before) + tags);
    conds.push(String::from_str("(n.visibility = 'visible' OR n.created_by_user_uuid = ?)"));
    binds.push(String::from_str(user_uuid));
    assert(views(conds@) =~= search_conditions(*req));
    assert(views(binds@) =~= search_binds(*req, user_uuid@));
    sql = sql.concat(" WHERE ");
    sql = sql.concat(join_strings(&conds, " AND ").as_str());
    sql = sql.concat(" ORDER BY n.updated_at DESC LIMIT ?");
    NoteQuery { sql, binds, limit }
}

} // verus!
