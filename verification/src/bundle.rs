//! Writing a content bundle's records: the insert statement of a table,
//! parents before children in self-referential tables, and the identity
//! columns read from each record (records of modules that are already
//! installed are skipped).

use vstd::prelude::*;
use crate::authoring::{FieldView, Record};
use crate::content::usize_ints;
use crate::text::{contains_string, join, views};

verus! {

/// `s` repeated `n` times.
pub open spec fn repeated(s: Seq<char>, n: nat) -> Seq<char>
    decreases n,
{
    if n == 0 {
        Seq::empty()
    } else {
        repeated(s, (n - 1) as nat) + s
    }
}

/// `, col` for each extra column, in order.
pub open spec fn extra_columns(extras: Seq<(&'static str, &'static str)>) -> Seq<char>
    decreases extras.len(),
{
    if extras.len() == 0 {
        Seq::empty()
    } else {
        extra_columns(extras.drop_last()) + ", "@ + extras.last().0@
    }
}

/// The insert statement of a content table: the identity columns, the
/// extra indexed columns, the `summary` column for summarized tables,
/// and the full record in `data`.
pub open spec fn insert_sql(table: Seq<char>, extras: Seq<(&'static str, &'static str)>, summarized: bool) -> Seq<
    char,
> {
    "INSERT INTO "@ + table + " (uuid, content_module_uuid, key, slug, name"@ + extra_columns(extras) + (if summarized {
        ", summary"@
    } else {
        Seq::empty()
    }) + ", data) VALUES (?, ?, ?, ?, ?"@ + repeated(", ?"@, extras.len()) + (if summarized {
        ", ?"@
    } else {
        Seq::empty()
    }) + ", ?)"@
}

pub fn record_insert_sql(table: &str, extras: &Vec<(&'static str, &'static str)>, summarized: bool) -> (r:
    String)
    ensures
        r@ == insert_sql(table@, extras@, summarized),
        r@ == "INSERT INTO "@ + table@ + " ("@ + join(insert_columns(extras@, summarized), ", "@) + ") VALUES ("@
            + join(Seq::new(insert_columns(extras@, summarized).len(), |i: int| "?"@), ", "@) + ")"@,
{
    proof {
        lemma_insert_columns_in_bind_order(table@, extras@, summarized);
    }
    let mut cols = String::new();
    let mut marks = String::new();
    let mut i: usize = 0;
    while i < extras.len()
        invariant
            i <= extras@.len(),
            cols@ == extra_columns(extras@.subrange(0, i as int)),
            marks@ == repeated(", ?"@, i as nat),
        decreases extras.len() - i,
    {
        let (col, _) = extras[i];
        cols = cols.concat(", ").concat(col);
        marks = marks.concat(", ?");
        proof {
            let s = extras@.subrange(0, i + 1);
            assert(s.drop_last() =~= extras@.subrange(0, i as int));
            assert(s.last() == extras@[i as int]);
        }
        i = i + 1;
    }
    assert(extras@.subrange(0, extras@.len() as int) =~= extras@);
    let mut sql = String::from_str("INSERT INTO ").concat(table).concat(
        " (uuid, content_module_uuid, key, slug, name",
    ).concat(cols.as_str());
    if summarized {
        sql = sql.concat(", summary");
    }
    sql = sql.concat(", data) VALUES (?, ?, ?, ?, ?").concat(marks.as_str());
    if summarized {
        sql = sql.concat(", ?");
    }
    sql = sql.concat(", ?)");
    proof {
        reveal_strlit(", summary");
        reveal_strlit(", ?");
        if summarized {
            assert(sql@ =~= insert_sql(table@, extras@, summarized));
        } else {
            assert(sql@ =~= insert_sql(table@, extras@, summarized));
        }
    }
    sql
}

/// The column names of a table's extra indexed columns, in its order.
pub open spec fn extra_names(extras: Seq<(&'static str, &'static str)>) -> Seq<Seq<char>> {
    extras.map_values(|e: (&'static str, &'static str)| e.0@)
}

/// The columns an insert writes, in the order their values are bound:
/// the identity columns, each extra column in the table's order, the
/// summary (for summarized tables), and the record itself.
pub open spec fn insert_columns(extras: Seq<(&'static str, &'static str)>, summarized: bool) -> Seq<Seq<char>> {
    seq!["uuid"@, "content_module_uuid"@, "key"@, "slug"@, "name"@] + extra_names(extras) + (if summarized {
        seq!["summary"@]
    } else {
        Seq::<Seq<char>>::empty()
    }) + seq!["data"@]
}

proof fn lemma_join_push(parts: Seq<Seq<char>>, sep: Seq<char>, x: Seq<char>)
    requires
        parts.len() > 0,
    ensures
        join(parts.push(x), sep) == join(parts, sep) + sep + x,
{
    assert(parts.push(x).drop_last() =~= parts);
}

proof fn lemma_join_extras(prefix: Seq<Seq<char>>, extras: Seq<(&'static str, &'static str)>)
    requires
        prefix.len() > 0,
    ensures
        join(prefix + extra_names(extras), ", "@) == join(prefix, ", "@) + extra_columns(extras),
    decreases extras.len(),
{
    if extras.len() == 0 {
        assert(prefix + extra_names(extras) =~= prefix);
    } else {
        let init = extras.drop_last();
        lemma_join_extras(prefix, init);
        assert(prefix + extra_names(extras) =~= (prefix + extra_names(init)).push(extras.last().0@));
        lemma_join_push(prefix + extra_names(init), ", "@, extras.last().0@);
    }
}

proof fn lemma_join_marks(n: nat)
    ensures
        join(Seq::new(5 + n, |i: int| "?"@), ", "@) == "?, ?, ?, ?, ?"@ + repeated(", ?"@, n),
    decreases n,
{
    reveal_strlit("?");
    reveal_strlit(", ");
    reveal_strlit(", ?");
    reveal_strlit("?, ?, ?, ?, ?");
    if n == 0 {
        reveal_with_fuel(join, 5);
        let m = Seq::new(5, |i: int| "?"@);
        assert(m.drop_last().drop_last().drop_last().drop_last() =~= seq!["?"@]);
        assert(m.drop_last().drop_last().drop_last() =~= seq!["?"@, "?"@]);
        assert(m.drop_last().drop_last() =~= seq!["?"@, "?"@, "?"@]);
        assert(m.drop_last() =~= seq!["?"@, "?"@, "?"@, "?"@]);
        assert(join(m, ", "@) =~= "?, ?, ?, ?, ?"@);
    } else {
        lemma_join_marks((n - 1) as nat);
        let prev = Seq::new(5 + (n - 1) as nat, |i: int| "?"@);
        assert(Seq::new(5 + n, |i: int| "?"@) =~= prev.push("?"@));
        lemma_join_push(prev, ", "@, "?"@);
        assert(", "@ + "?"@ =~= ", ?"@);
    }
}

proof fn lemma_identity_text()
    ensures
        join(seq!["uuid"@, "content_module_uuid"@, "key"@, "slug"@, "name"@], ", "@)
            == "uuid, content_module_uuid, key, slug, name"@,
{
    reveal_strlit("uuid");
    reveal_strlit("content_module_uuid");
    reveal_strlit("key");
    reveal_strlit("slug");
    reveal_strlit("name");
    reveal_strlit(", ");
    reveal_strlit("uuid, content_module_uuid, key, slug, name");
    let s1 = seq!["uuid"@];
    let s2 = s1.push("content_module_uuid"@);
    let s3 = s2.push("key"@);
    let s4 = s3.push("slug"@);
    let s5 = s4.push("name"@);
    assert(join(s1, ", "@) == "uuid"@);
    lemma_join_push(s1, ", "@, "content_module_uuid"@);
    lemma_join_push(s2, ", "@, "key"@);
    lemma_join_push(s3, ", "@, "slug"@);
    lemma_join_push(s4, ", "@, "name"@);
    assert(s5 =~= seq!["uuid"@, "content_module_uuid"@, "key"@, "slug"@, "name"@]);
    assert(join(s5, ", "@) =~= "uuid, content_module_uuid, key, slug, name"@);
}

proof fn lemma_columns_text(extras: Seq<(&'static str, &'static str)>, summarized: bool)
    ensures
        join(insert_columns(extras, summarized), ", "@) == "uuid, content_module_uuid, key, slug, name"@
            + extra_columns(extras) + (if summarized {
            ", summary"@
        } else {
            Seq::empty()
        }) + ", data"@,
{
    reveal_strlit(", ");
    reveal_strlit("summary");
    reveal_strlit("data");
    reveal_strlit(", summary");
    reveal_strlit(", data");
    let ident = seq!["uuid"@, "content_module_uuid"@, "key"@, "slug"@, "name"@];
    lemma_identity_text();
    lemma_join_extras(ident, extras);
    let with_extras = ident + extra_names(extras);
    let with_summary = if summarized {
        with_extras.push("summary"@)
    } else {
        with_extras
    };
    assert(insert_columns(extras, summarized) =~= with_summary.push("data"@));
    if summarized {
        lemma_join_push(with_extras, ", "@, "summary"@);
        assert(join(with_summary, ", "@) =~= join(with_extras, ", "@) + ", summary"@);
    } else {
        assert(join(with_summary, ", "@) =~= join(with_extras, ", "@) + Seq::<char>::empty());
    }
    lemma_join_push(with_summary, ", "@, "data"@);
    assert(join(insert_columns(extras, summarized), ", "@) =~= join(with_summary, ", "@) + ", data"@);
}

proof fn lemma_marks_text(extras: Seq<(&'static str, &'static str)>, summarized: bool)
    ensures
        join(Seq::new(insert_columns(extras, summarized).len(), |i: int| "?"@), ", "@) == "?, ?, ?, ?, ?"@
            + repeated(", ?"@, extras.len()) + (if summarized {
            ", ?"@
        } else {
            Seq::empty()
        }) + ", ?"@,
{
    reveal_strlit(", ");
    reveal_strlit("?");
    reveal_strlit(", ?");
    let n = extras.len();
    let k = insert_columns(extras, summarized).len();
    lemma_join_marks(n);
    let m5 = Seq::new(5 + n, |i: int| "?"@);
    let marks_s = if summarized {
        m5.push("?"@)
    } else {
        m5
    };
    if summarized {
        lemma_join_push(m5, ", "@, "?"@);
        assert(join(marks_s, ", "@) =~= join(m5, ", "@) + ", ?"@);
    } else {
        assert(join(marks_s, ", "@) =~= join(m5, ", "@) + Seq::<char>::empty());
    }
    assert(Seq::new(k, |i: int| "?"@) =~= marks_s.push("?"@));
    lemma_join_push(marks_s, ", "@, "?"@);
    assert(join(Seq::new(k, |i: int| "?"@), ", "@) =~= join(marks_s, ", "@) + ", ?"@);
}

/// The insert statement of a table names its columns in the order their
/// values are bound (identity, each extra column in the table's order,
/// summary, record), and has one placeholder per column. So each bound
/// value lands in its own column.
pub proof fn lemma_insert_columns_in_bind_order(
    table: Seq<char>,
    extras: Seq<(&'static str, &'static str)>,
    summarized: bool,
)
    ensures
        insert_sql(table, extras, summarized) == "INSERT INTO "@ + table + " ("@ + join(
            insert_columns(extras, summarized),
            ", "@,
        ) + ") VALUES ("@ + join(Seq::new(insert_columns(extras, summarized).len(), |i: int| "?"@), ", "@)
            + ")"@,
{
    reveal_strlit(" (");
    reveal_strlit(") VALUES (");
    reveal_strlit(")");
    reveal_strlit(", data");
    reveal_strlit(", ?");
    reveal_strlit(", ?)");
    reveal_strlit("?, ?, ?, ?, ?");
    reveal_strlit("uuid, content_module_uuid, key, slug, name");
    reveal_strlit(" (uuid, content_module_uuid, key, slug, name");
    reveal_strlit(", data) VALUES (?, ?, ?, ?, ?");
    lemma_columns_text(extras, summarized);
    lemma_marks_text(extras, summarized);
    assert(" (uuid, content_module_uuid, key, slug, name"@ =~= " ("@ + "uuid, content_module_uuid, key, slug, name"@);
    assert(", data) VALUES (?, ?, ?, ?, ?"@ =~= ", data"@ + ") VALUES ("@ + "?, ?, ?, ?, ?"@);
    assert(", ?)"@ =~= ", ?"@ + ")"@);
    let sm = if summarized {
        ", summary"@
    } else {
        Seq::<char>::empty()
    };
    let sq = if summarized {
        ", ?"@
    } else {
        Seq::<char>::empty()
    };
    let ec = extra_columns(extras);
    let rp = repeated(", ?"@, extras.len());
    assert(insert_sql(table, extras, summarized) =~= "INSERT INTO "@ + table + " ("@ + (
    "uuid, content_module_uuid, key, slug, name"@ + ec + sm + ", data"@) + ") VALUES ("@ + ("?, ?, ?, ?, ?"@ + rp
        + sq + ", ?"@) + ")"@);
}

/// The positions, among the first `n`, whose flag is `want`, in order.
pub open spec fn positions_where(flags: Seq<bool>, want: bool, n: int) -> Seq<int>
    decreases n,
{
    if n <= 0 {
        Seq::empty()
    } else {
        let rest = positions_where(flags, want, n - 1);
        if flags[n - 1] == want {
            rest.push(n - 1)
        } else {
            rest
        }
    }
}

/// The order in which a self-referential table's records are inserted:
/// the positions of records without a parent, then those with one, each
/// group in bundle order.
pub fn parents_first(has_parent: &Vec<bool>) -> (r: Vec<usize>)
    ensures
        usize_ints(r@) == positions_where(has_parent@, false, has_parent@.len() as int) + positions_where(
            has_parent@,
            true,
            has_parent@.len() as int,
        ),
{
    let n = has_parent.len();
    let mut parents: Vec<usize> = Vec::new();
    let mut children: Vec<usize> = Vec::new();
    let mut i: usize = 0;
    while i < n
        invariant
            i <= n,
            n == has_parent@.len(),
            usize_ints(parents@) == positions_where(has_parent@, false, i as int),
            usize_ints(children@) == positions_where(has_parent@, true, i as int),
        decreases n - i,
    {
        let ghost before_parents = parents@;
        let ghost before_children = children@;
        if has_parent[i] {
            children.push(i);
            assert(usize_ints(children@) =~= usize_ints(before_children).push(i as int));
        } else {
            parents.push(i);
            assert(usize_ints(parents@) =~= usize_ints(before_parents).push(i as int));
        }
        i = i + 1;
    }
    let ghost p = parents@;
    let ghost c = children@;
    parents.append(&mut children);
    assert(usize_ints(parents@) =~= usize_ints(p) + usize_ints(c));
    parents
}

proof fn lemma_positions_where(flags: Seq<bool>, want: bool, n: int)
    requires
        0 <= n <= flags.len(),
    ensures
        forall|a: int, b: int|
            0 <= a < b < positions_where(flags, want, n).len() ==> #[trigger] positions_where(
                flags,
                want,
                n,
            )[a] < #[trigger] positions_where(flags, want, n)[b],
        forall|k: int|
            0 <= k < positions_where(flags, want, n).len() ==> {
                let p = #[trigger] positions_where(flags, want, n)[k];
                0 <= p < n && flags[p] == want
            },
        forall|p: int|
            0 <= p < n && flags[p] == want ==> #[trigger] positions_where(flags, want, n).contains(p),
    decreases n,
{
    if n > 0 {
        lemma_positions_where(flags, want, n - 1);
        let rest = positions_where(flags, want, n - 1);
        assert forall|p: int| 0 <= p < n && flags[p] == want implies #[trigger] positions_where(
            flags,
            want,
            n,
        ).contains(p) by {
            if p < n - 1 {
                assert(rest.contains(p));
                let k = choose|k: int| 0 <= k < rest.len() && rest[k] == p;
                assert(positions_where(flags, want, n)[k] == p);
            } else {
                assert(positions_where(flags, want, n)[rest.len() as int] == p);
            }
        }
    }
}

/// Parents first is an insert order of the whole table: every record is
/// inserted exactly once, and every record without a parent before every
/// record with one.
pub proof fn lemma_parents_first_order(flags: Seq<bool>)
    ensures
        ({
            let order = positions_where(flags, false, flags.len() as int) + positions_where(
                flags,
                true,
                flags.len() as int,
            );
            &&& order.no_duplicates()
            &&& order.len() == flags.len()
            &&& forall|p: int| 0 <= p < flags.len() ==> #[trigger] order.contains(p)
            &&& forall|a: int, b: int|
                0 <= a < b < order.len() && #[trigger] flags[order[a]] && !#[trigger] flags[order[b]] ==> false
        }),
{
    let n = flags.len() as int;
    let ps = positions_where(flags, false, n);
    let cs = positions_where(flags, true, n);
    let order = ps + cs;
    lemma_positions_where(flags, false, n);
    lemma_positions_where(flags, true, n);
    assert forall|a: int, b: int| 0 <= a < b < order.len() implies order[a] != order[b] by {
        if b < ps.len() {
            assert(ps[a] < ps[b]);
        } else if a >= ps.len() {
            assert(cs[a - ps.len()] < cs[b - ps.len()]);
        } else {
            assert(flags[ps[a]] == false);
            assert(flags[cs[b - ps.len()]] == true);
        }
    }
    assert forall|p: int| 0 <= p < n implies #[trigger] order.contains(p) by {
        if flags[p] {
            assert(cs.contains(p));
            let k = choose|k: int| 0 <= k < cs.len() && cs[k] == p;
            assert(order[ps.len() + k] == p);
        } else {
            assert(ps.contains(p));
            let k = choose|k: int| 0 <= k < ps.len() && ps[k] == p;
            assert(order[k] == p);
        }
    }
    lemma_order_len(flags, n);
    assert forall|a: int, b: int|
        0 <= a < b < order.len() && #[trigger] flags[order[a]] && !#[trigger] flags[order[b]] implies false by {
        if a < ps.len() {
            assert(flags[ps[a]] == false);
        } else {
            assert(b >= ps.len());
            assert(flags[cs[b - ps.len()]] == true);
        }
    }
}

proof fn lemma_order_len(flags: Seq<bool>, n: int)
    requires
        0 <= n <= flags.len(),
    ensures
        positions_where(flags, false, n).len() + positions_where(flags, true, n).len() == n,
    decreases n,
{
    if n > 0 {
        lemma_order_len(flags, n - 1);
    }
}

/// The identity columns of a record.
pub struct RecordIdentity {
    pub uuid: String,
    pub content_module_uuid: String,
    pub key: String,
    pub slug: String,
    pub name: String,
}

/// The identity fields, in the order they are read.
pub open spec fn identity_fields() -> Seq<Seq<char>> {
    seq!["uuid"@, "content_module_uuid"@, "key"@, "slug"@, "name"@]
}

/// The record belongs to a module being installed.
pub open spec fn record_allowed(m: Map<Seq<char>, FieldView>, allowed: Seq<Seq<char>>) -> bool {
    &&& m.contains_key("content_module_uuid"@)
    &&& m["content_module_uuid"@] is Text
    &&& allowed.contains(m["content_module_uuid"@]->Text_0)
}

/// The field holds text.
pub open spec fn holds_text(m: Map<Seq<char>, FieldView>, f: Seq<char>) -> bool {
    m.contains_key(f) && m[f] is Text
}

/// Why an identity field could not be read.
pub open spec fn field_problem(table: Seq<char>, m: Map<Seq<char>, FieldView>, f: Seq<char>) -> Seq<char> {
    if !m.contains_key(f) {
        table + " record missing field /"@ + f
    } else {
        table + " field /"@ + f + " is not a string"@
    }
}

fn identity_text(table: &str, record: &Record, field: &str) -> (r: Result<String, String>)
    requires
        record.wf(),
    ensures
        r is Ok <==> holds_text(record.view(), field@),
        r matches Ok(t) ==> record.view()[field@] == FieldView::Text(t@),
        r matches Err(e) ==> e@ == field_problem(table@, record.view(), field@),
{
    match record.get_text(field) {
        Some(t) => Ok(t),
        None => {
            if record.contains_key(field) {
                Err(String::from_str(table).concat(" field /").concat(field).concat(" is not a string"))
            } else {
                Err(String::from_str(table).concat(" record missing field /").concat(field))
            }
        },
    }
}

/// Reads a record's identity columns. A record of a module that is not
/// being installed is skipped (`Ok(None)`); otherwise each identity
/// field must hold text, the first one that does not is the error.
pub fn record_identity(table: &str, record: &Record, allowed: &Vec<String>) -> (r: Result<
    Option<RecordIdentity>,
    String,
>)
    requires
        record.wf(),
    ensures
        !record_allowed(record.view(), views(allowed@)) ==> r matches Ok(None),
        record_allowed(record.view(), views(allowed@)) ==> {
            &&& r is Ok <==> forall|k: int|
                0 <= k < 5 ==> holds_text(record.view(), #[trigger] identity_fields()[k])
            &&& r matches Ok(Some(id)) ==> {
                &&& record.view()["uuid"@] == FieldView::Text(id.uuid@)
                &&& record.view()["content_module_uuid"@] == FieldView::Text(id.content_module_uuid@)
                &&& record.view()["key"@] == FieldView::Text(id.key@)
                &&& record.view()["slug"@] == FieldView::Text(id.slug@)
                &&& record.view()["name"@] == FieldView::Text(id.name@)
            }
            &&& r matches Err(e) ==> exists|k: int|
                0 <= k < 5 && (forall|j: int|
                    0 <= j < k ==> holds_text(record.view(), #[trigger] identity_fields()[j]))
                    && !holds_text(record.view(), #[trigger] identity_fields()[k]) && e@ == field_problem(
                    table@,
                    record.view(),
                    identity_fields()[k],
                )
        },
{
    let owner = record.get_text("content_module_uuid");
    let member = match &owner {
        Some(u) => contains_string(allowed, u.as_str()),
        None => false,
    };
    proof {
        reveal_strlit("content_module_uuid");
    }
    if !member {
        return Ok(None);
    }
    proof {
        reveal_strlit("uuid");
        reveal_strlit("key");
        reveal_strlit("slug");
        reveal_strlit("name");
    }
    let uuid = match identity_text(table, record, "uuid") {
        Ok(t) => t,
        Err(e) => {
            assert(identity_fields()[0] == "uuid"@);
            return Err(e);
        },
    };
    let content_module_uuid = match identity_text(table, record, "content_module_uuid") {
        Ok(t) => t,
        Err(e) => {
            assert(identity_fields()[1] == "content_module_uuid"@);
            return Err(e);
        },
    };
    let key = match identity_text(table, record, "key") {
        Ok(t) => t,
        Err(e) => {
            assert(identity_fields()[2] == "key"@);
            return Err(e);
        },
    };
    let slug = match identity_text(table, record, "slug") {
        Ok(t) => t,
        Err(e) => {
            assert(identity_fields()[3] == "slug"@);
            return Err(e);
        },
    };
    let name = match identity_text(table, record, "name") {
        Ok(t) => t,
        Err(e) => {
            assert(identity_fields()[4] == "name"@);
            return Err(e);
        },
    };
    proof {
        assert forall|k: int| 0 <= k < 5 implies holds_text(record.view(), #[trigger] identity_fields()[k]) by {
            assert(identity_fields()[0] == "uuid"@);
            assert(identity_fields()[1] == "content_module_uuid"@);
            assert(identity_fields()[2] == "key"@);
            assert(identity_fields()[3] == "slug"@);
            assert(identity_fields()[4] == "name"@);
        }
    }
    Ok(Some(RecordIdentity { uuid, content_module_uuid, key, slug, name }))
}

} // verus!
