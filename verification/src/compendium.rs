//! Read-only compendium queries over the content tables. Every query
//! joins `content_module` on `is_active = 1`, so disabling a module hides
//! its content without touching its rows. List responses are slim
//! projections built from each table's spec.

use vstd::prelude::*;
use crate::content::{
    category_extras, category_names, category_spec, category_tables, display_categories, display_category_names,
    names_view, pair_view, str_view, CategorySpec,
};
use crate::error::ApiError;
use crate::notes::clamp;
use crate::text::{join, join_strings, push_char, str_eq, views};

verus! {

/// Restricts a content query aliased `t` to active modules.
pub open spec fn active_join() -> Seq<char> {
    "JOIN content_module m ON m.uuid = t.content_module_uuid AND m.is_active = 1"@
}

/// `trim_start_matches('/')`.
pub open spec fn strip_leading_slashes(s: Seq<char>) -> Seq<char>
    decreases s.len(),
{
    if s.len() > 0 && s[0] == '/' {
        strip_leading_slashes(s.drop_first())
    } else {
        s
    }
}

fn strip_slashes(s: &str) -> (r: String)
    ensures
        r@ == strip_leading_slashes(s@),
{
    let n = s.unicode_len();
    let mut i: usize = 0;
    assert(s@.subrange(0, n as int) =~= s@);
    while i < n && s.get_char(i) == '/'
        invariant
            i <= n,
            n == s@.len(),
            strip_leading_slashes(s@) == strip_leading_slashes(s@.subrange(i as int, n as int)),
        decreases n - i,
    {
        assert(s@.subrange(i as int, n as int).drop_first() =~= s@.subrange(i + 1, n as int));
        i = i + 1;
    }
    String::from_str(s.substring_char(i, n))
}

/// One `'field', value` pair of the list projection for an indexed extra
/// column, named after its record-JSON field (the pointer tail).
pub open spec fn extra_pair(p: (Seq<char>, Seq<char>)) -> Seq<char> {
    "'"@ + strip_leading_slashes(p.1) + "', t."@ + p.0
}

/// One pair for a record-JSON summary field.
pub open spec fn summary_pair(f: Seq<char>) -> Seq<char> {
    "'"@ + f + "', json_extract(t.data, '$."@ + f + "')"@
}

pub open spec fn identity_pairs() -> Seq<Seq<char>> {
    seq![
        "'uuid', t.uuid"@,
        "'key', t.key"@,
        "'slug', t.slug"@,
        "'name', t.name"@,
        "'content_module_uuid', t.content_module_uuid"@,
    ]
}

/// The `json_object(...)` projection of a table's list rows: identity
/// columns, indexed extras under their record field names, and the
/// summary fields extracted from the record JSON.
pub open spec fn projection_of(extras: Seq<(Seq<char>, Seq<char>)>, summary: Seq<Seq<char>>) -> Seq<char> {
    "json_object("@ + join(
        identity_pairs() + extras.map_values(|p: (Seq<char>, Seq<char>)| extra_pair(p)) + summary.map_values(
            |f: Seq<char>| summary_pair(f),
        ),
        ", "@,
    ) + ")"@
}

/// A JSON pointer to a top-level field: one slash, then a field name
/// that does not start with another slash.
pub open spec fn top_level_pointer(p: Seq<char>) -> bool {
    p.len() >= 2 && p[0] == '/' && p[1] != '/'
}

/// The list projection written out pair by pair: each identity column
/// under its own name, each indexed extra column under the record field
/// its pointer names (the pointer without its slash), and each summary
/// field extracted from the record.
pub open spec fn projection_pairs(extras: Seq<(Seq<char>, Seq<char>)>, summary: Seq<Seq<char>>) -> Seq<Seq<char>> {
    seq![
        "'uuid', t.uuid"@,
        "'key', t.key"@,
        "'slug', t.slug"@,
        "'name', t.name"@,
        "'content_module_uuid', t.content_module_uuid"@,
    ] + Seq::new(extras.len(), |i: int| "'"@ + extras[i].1.drop_first() + "', t."@ + extras[i].0) + Seq::new(
        summary.len(),
        |j: int| "'"@ + summary[j] + "', json_extract(t.data, '$."@ + summary[j] + "')"@,
    )
}

/// In a list row, each indexed extra column appears under the field name
/// of the stored record (its pointer without the slash: a spell's
/// `school_uuid` column under `school`), not under the column's name, so
/// list rows read like the stored records.
pub proof fn lemma_projection_keys_follow_record_fields(
    extras: Seq<(Seq<char>, Seq<char>)>,
    summary: Seq<Seq<char>>,
)
    requires
        forall|i: int| 0 <= i < extras.len() ==> #[trigger] top_level_pointer(extras[i].1),
    ensures
        projection_of(extras, summary) == "json_object("@ + join(projection_pairs(extras, summary), ", "@) + ")"@,
{
    assert forall|i: int| 0 <= i < extras.len() implies strip_leading_slashes(extras[i].1) == extras[i].1.drop_first() by {
        assert(top_level_pointer(extras[i].1));
        let p = extras[i].1;
        assert(strip_leading_slashes(p) == strip_leading_slashes(p.drop_first()));
        assert(p.drop_first()[0] == p[1]);
    }
    let lhs = identity_pairs() + extras.map_values(|p: (Seq<char>, Seq<char>)| extra_pair(p)) + summary.map_values(
        |f: Seq<char>| summary_pair(f),
    );
    assert(lhs =~= projection_pairs(extras, summary));
}

/// Every content table's extras point at top-level record fields.
pub proof fn lemma_category_pointers_top_level(i: int)
    ensures
        forall|k: int| 0 <= k < category_extras(i).len() ==> #[trigger] top_level_pointer(category_extras(i)[k].1),
{
    reveal_strlit("/level");
    reveal_strlit("/school");
    reveal_strlit("/concentration");
    reveal_strlit("/ritual");
    reveal_strlit("/challenge_rating");
    reveal_strlit("/type");
    reveal_strlit("/size");
    reveal_strlit("/subclass_of");
    reveal_strlit("/is_subspecies");
    reveal_strlit("/is_simple");
    reveal_strlit("/category");
    reveal_strlit("/category_uuid");
    reveal_strlit("/rarity");
    reveal_strlit("/is_magic");
}

/// Builds the slim list projection of a table from its spec.
pub fn summary_projection(spec: &CategorySpec) -> (r: String)
    ensures
        r@ == projection_of(spec.extras_view(), spec.summary_view()),
        (forall|i: int| 0 <= i < spec.extras_view().len() ==> #[trigger] top_level_pointer(spec.extras_view()[i].1))
            ==> r@ == "json_object("@ + join(projection_pairs(spec.extras_view(), spec.summary_view()), ", "@)
            + ")"@,
{
    proof {
        if forall|i: int| 0 <= i < spec.extras_view().len() ==> #[trigger] top_level_pointer(spec.extras_view()[i].1) {
            lemma_projection_keys_follow_record_fields(spec.extras_view(), spec.summary_view());
        }
    }
    let mut pairs: Vec<String> = Vec::new();
    pairs.push(String::from_str("'uuid', t.uuid"));
    pairs.push(String::from_str("'key', t.key"));
    pairs.push(String::from_str("'slug', t.slug"));
    pairs.push(String::from_str("'name', t.name"));
    pairs.push(String::from_str("'content_module_uuid', t.content_module_uuid"));
    assert(views(pairs@) =~= identity_pairs());
    let ghost ex = spec.extras_view().map_values(|p: (Seq<char>, Seq<char>)| extra_pair(p));
    let mut i: usize = 0;
    while i < spec.extras.len()
        invariant
            i <= spec.extras@.len(),
            ex == spec.extras_view().map_values(|p: (Seq<char>, Seq<char>)| extra_pair(p)),
            views(pairs@) == identity_pairs() + ex.subrange(0, i as int),
        decreases spec.extras.len() - i,
    {
        let (col, ptr) = spec.extras[i];
        let p = String::from_str("'").concat(strip_slashes(ptr).as_str());
        let p = p.concat("', t.").concat(col);
        let ghost before = pairs@;
        pairs.push(p);
        assert(ex[i as int] == extra_pair(pair_view(spec.extras@[i as int])));
        assert(views(pairs@) =~= views(before).push(ex[i as int]));
        assert(ex.subrange(0, i + 1) =~= ex.subrange(0, i as int).push(ex[i as int]));
        i = i + 1;
    }
    assert(ex.subrange(0, i as int) =~= ex);
    let ghost sm = spec.summary_view().map_values(|f: Seq<char>| summary_pair(f));
    let ghost base = views(pairs@);
    let mut k: usize = 0;
    while k < spec.summary_fields.len()
        invariant
            k <= spec.summary_fields@.len(),
            sm == spec.summary_view().map_values(|f: Seq<char>| summary_pair(f)),
            views(pairs@) == base + sm.subrange(0, k as int),
        decreases spec.summary_fields.len() - k,
    {
        let f = spec.summary_fields[k];
        let p = String::from_str("'").concat(f).concat("', json_extract(t.data, '$.").concat(f).concat("')");
        let ghost before = pairs@;
        pairs.push(p);
        assert(sm[k as int] == summary_pair(str_view(spec.summary_fields@[k as int])));
        assert(views(pairs@) =~= views(before).push(sm[k as int]));
        assert(sm.subrange(0, k + 1) =~= sm.subrange(0, k as int).push(sm[k as int]));
        k = k + 1;
    }
    assert(sm.subrange(0, k as int) =~= sm);
    String::from_str("json_object(").concat(join_strings(&pairs, ", ").as_str()).concat(")")
}

/// A search text made literal for `LIKE ... ESCAPE '\'`: backslash,
/// percent and underscore each get a backslash in front.
pub open spec fn escape_like_text(s: Seq<char>) -> Seq<char>
    decreases s.len(),
{
    if s.len() == 0 {
        Seq::empty()
    } else {
        let c = s.last();
        escape_like_text(s.drop_last()) + if c == '\\' || c == '%' || c == '_' {
            seq!['\\', c]
        } else {
            seq![c]
        }
    }
}

/// `q.replace('\\', "\\\\").replace('%', "\\%").replace('_', "\\_")`.
pub fn escape_like(q: &str) -> (r: String)
    ensures
        r@ == escape_like_text(q@),
{
    let n = q.unicode_len();
    let mut out = String::new();
    let mut i: usize = 0;
    while i < n
        invariant
            i <= n,
            n == q@.len(),
            out@ == escape_like_text(q@.subrange(0, i as int)),
        decreases n - i,
    {
        let c = q.get_char(i);
        let ghost next = q@.subrange(0, i + 1);
        assert(next.drop_last() =~= q@.subrange(0, i as int));
        assert(next.last() == c);
        if c == '\\' || c == '%' || c == '_' {
            push_char(&mut out, '\\');
            push_char(&mut out, c);
            assert(out@ =~= escape_like_text(next));
        } else {
            push_char(&mut out, c);
            assert(out@ =~= escape_like_text(next));
        }
        i = i + 1;
    }
    assert(q@.subrange(0, n as int) =~= q@);
    out
}

/// Filters of a category listing.
pub struct ContentListQuery {
    pub q: Option<String>,
    pub limit: Option<u32>,
}

/// A category listing: its SQL, the `LIKE` pattern it binds (when
/// searching) and the row limit it binds (when limited).
pub struct CategoryListQuery {
    pub sql: String,
    pub pattern: Option<String>,
    pub limit: Option<u32>,
}

pub open spec fn list_sql(projection: Seq<char>, table: Seq<char>, q: bool, limited: bool) -> Seq<char> {
    "SELECT "@ + projection + " FROM "@ + table + " t "@ + active_join() + (if q {
        " WHERE t.name LIKE ? ESCAPE '\\'"@
    } else {
        Seq::empty()
    }) + " ORDER BY t.name"@ + (if limited {
        " LIMIT ?"@
    } else {
        Seq::empty()
    })
}

/// The listing of a category from active modules, name-sorted: lookup
/// tables project their full records, the others their slim projection.
/// Only a content table can be listed; the table name comes from the
/// spec, never from the request.
pub fn category_list_query(category: &str, query: &ContentListQuery) -> (r: Result<CategoryListQuery, ApiError>)
    ensures
        r is Ok <==> category_names().contains(category@),
        r matches Err(e) ==> e is NotFound,
        r matches Ok(lq) ==> exists|sp: CategorySpec|
            #[trigger] sp.describes(crate::content::category_index(category@)) && lq.sql@ == list_sql(
                if sp.include_data {
                    "t.data"@
                } else {
                    projection_of(sp.extras_view(), sp.summary_view())
                },
                category@,
                query.q is Some,
                query.limit is Some,
            ),
        r matches Ok(lq) ==> (query.q matches Some(q) ==> (lq.pattern matches Some(p) && p@ == "%"@
            + escape_like_text(q@) + "%"@)) && (query.q is None ==> lq.pattern is None),
        r matches Ok(lq) ==> (query.limit matches Some(l) ==> (lq.limit matches Some(b) && b as int == clamp(
            l as int,
            1,
            10000,
        ))) && (query.limit is None ==> lq.limit is None),
{
    let spec = match category_spec(category) {
        Some(s) => s,
        None => return Err(ApiError::NotFound),
    };
    let projection = if spec.include_data {
        String::from_str("t.data")
    } else {
        summary_projection(&spec)
    };
    let sql = String::from_str("SELECT ").concat(projection.as_str()).concat(" FROM ").concat(spec.table);
    let sql = sql.concat(" t ").concat("JOIN content_module m ON m.uuid = t.content_module_uuid AND m.is_active = 1");
    let sql = if query.q.is_some() {
        sql.concat(" WHERE t.name LIKE ? ESCAPE '\\'")
    } else {
        sql
    };
    let sql = sql.concat(" ORDER BY t.name");
    let sql = if query.limit.is_some() {
        sql.concat(" LIMIT ?")
    } else {
        sql
    };
    let pattern = match &query.q {
        Some(q) => Some(String::from_str("%").concat(escape_like(q.as_str()).as_str()).concat("%")),
        None => None,
    };
    let limit = match query.limit {
        Some(l) => Some(
            if l < 1 {
                1
            } else if l > 10000 {
                10000
            } else {
                l
            },
        ),
        None => None,
    };
    proof {
        assert(spec.table@ == category@);
    }
    Ok(CategoryListQuery { sql, pattern, limit })
}

/// One stored record of a category from an active module, by uuid.
pub fn entry_query(category: &str) -> (r: Result<String, ApiError>)
    ensures
        r is Ok <==> category_names().contains(category@),
        r matches Err(e) ==> e is NotFound,
        r matches Ok(sql) ==> sql@ == "SELECT t.data FROM "@ + category@ + " t "@ + active_join()
            + " WHERE t.uuid = ?"@,
{
    let spec = match category_spec(category) {
        Some(s) => s,
        None => return Err(ApiError::NotFound),
    };
    let sql = String::from_str("SELECT t.data FROM ").concat(spec.table).concat(" t ");
    let sql = sql.concat("JOIN content_module m ON m.uuid = t.content_module_uuid AND m.is_active = 1");
    Ok(sql.concat(" WHERE t.uuid = ?"))
}

/// The count of one compendium tile's entries across active modules.
pub open spec fn tile_count_select(table: Seq<char>) -> Seq<char> {
    "SELECT '"@ + table + "' AS category, COUNT(*) AS n FROM "@ + table + " t "@ + active_join()
}

/// Entry counts per compendium tile, in display order, in one query.
pub fn content_counts_query() -> (r: String)
    ensures
        r@ == join(display_category_names().map_values(|t: Seq<char>| tile_count_select(t)), " UNION ALL "@),
{
    let tables = display_categories();
    let ghost want = display_category_names().map_values(|t: Seq<char>| tile_count_select(t));
    let mut parts: Vec<String> = Vec::new();
    let mut i: usize = 0;
    while i < tables.len()
        invariant
            i <= tables@.len(),
            names_view(tables@) == display_category_names(),
            want == display_category_names().map_values(|t: Seq<char>| tile_count_select(t)),
            views(parts@) == want.subrange(0, i as int),
        decreases tables.len() - i,
    {
        let t = tables[i];
        let s = String::from_str("SELECT '").concat(t).concat("' AS category, COUNT(*) AS n FROM ").concat(t);
        let s = s.concat(" t ").concat("JOIN content_module m ON m.uuid = t.content_module_uuid AND m.is_active = 1");
        let ghost before = parts@;
        parts.push(s);
        assert(names_view(tables@)[i as int] == t@);
        assert(views(parts@) =~= views(before).push(want[i as int]));
        assert(want.subrange(0, i + 1) =~= want.subrange(0, i as int).push(want[i as int]));
        i = i + 1;
    }
    assert(want.subrange(0, i as int) =~= want);
    join_strings(&parts, " UNION ALL ")
}

/// Records of one table per module.
pub open spec fn module_count_select(table: Seq<char>) -> Seq<char> {
    "SELECT '"@ + table + "' AS category, content_module_uuid, COUNT(*) AS n FROM "@ + table
        + " GROUP BY content_module_uuid"@
}

/// Record counts per module and table, over every content table, in one
/// query (for the module management view).
pub fn module_counts_query() -> (r: String)
    ensures
        r@ == join(category_names().map_values(|t: Seq<char>| module_count_select(t)), " UNION ALL "@),
{
    let tables = category_tables();
    let ghost want = category_names().map_values(|t: Seq<char>| module_count_select(t));
    let mut parts: Vec<String> = Vec::new();
    let mut i: usize = 0;
    while i < tables.len()
        invariant
            i <= tables@.len(),
            names_view(tables@) == category_names(),
            want == category_names().map_values(|t: Seq<char>| module_count_select(t)),
            views(parts@) == want.subrange(0, i as int),
        decreases tables.len() - i,
    {
        let t = tables[i];
        let s = String::from_str("SELECT '").concat(t).concat("' AS category, content_module_uuid, COUNT(*) AS n FROM ");
        let s = s.concat(t).concat(" GROUP BY content_module_uuid");
        let ghost before = parts@;
        parts.push(s);
        assert(names_view(tables@)[i as int] == t@);
        assert(views(parts@) =~= views(before).push(want[i as int]));
        assert(want.subrange(0, i + 1) =~= want.subrange(0, i as int).push(want[i as int]));
        i = i + 1;
    }
    assert(want.subrange(0, i as int) =~= want);
    join_strings(&parts, " UNION ALL ")
}

} // verus!
