//! Content tables, module provenance and bundle-import planning.
//!
//! Content tables use a hybrid layout (identity + indexed filter columns
//! + full record JSON in `data`). The category list is the single source
//! of truth for the table set: import order, uninstall order (reversed),
//! compendium projections and record counts all derive from it.

use vstd::prelude::*;
use crate::slug::{slug_of, slugify};
use crate::text::{contains_string, decimal, decimal_string, join, join_strings, str_eq, views};

verus! {

/// The SRD module hosts the shared rules vocabulary every other module
/// references; it can never be disabled or removed.
pub const PINNED_MODULE_SLUG: &'static str = "srd";

/// Reserved slug of the per-server default homebrew module.
pub const HOMEBREW_MODULE_SLUG: &'static str = "homebrew";

/// Every content table, in import-dependency order (lookups before the
/// records that refer to them).
pub open spec fn category_names() -> Seq<Seq<char>> {
    seq![
        "license"@,
        "publisher"@,
        "document"@,
        "ability_score"@,
        "skill"@,
        "alignment"@,
        "damage_type"@,
        "condition"@,
        "language"@,
        "size"@,
        "environment"@,
        "spell_school"@,
        "creature_type"@,
        "item_category"@,
        "weapon_property"@,
        "spell"@,
        "creature"@,
        "class"@,
        "species"@,
        "feat"@,
        "background"@,
        "weapon"@,
        "armor"@,
        "item"@,
    ]
}

/// Indexed filter columns of a table beyond the identity set, each with
/// the JSON pointer it is populated from.
pub open spec fn category_extras(i: int) -> Seq<(Seq<char>, Seq<char>)> {
    if i == 15 {
        seq![
            ("level"@, "/level"@),
            ("school_uuid"@, "/school"@),
            ("concentration"@, "/concentration"@),
            ("ritual"@, "/ritual"@),
        ]
    } else if i == 16 {
        seq![
            ("challenge_rating"@, "/challenge_rating"@),
            ("creature_type_uuid"@, "/type"@),
            ("size_uuid"@, "/size"@),
        ]
    } else if i == 17 {
        seq![("subclass_of"@, "/subclass_of"@)]
    } else if i == 18 {
        seq![("is_subspecies"@, "/is_subspecies"@)]
    } else if i == 21 {
        seq![("is_simple"@, "/is_simple"@)]
    } else if i == 22 {
        seq![("category"@, "/category"@)]
    } else if i == 23 {
        seq![("category_uuid"@, "/category_uuid"@), ("rarity"@, "/rarity"@), ("is_magic"@, "/is_magic"@)]
    } else {
        seq![]
    }
}

/// Record-JSON fields surfaced in list projections of a table.
pub open spec fn category_summary_fields(i: int) -> Seq<Seq<char>> {
    if i == 15 {
        seq!["document_uuid"@, "verbal"@, "somatic"@, "material"@]
    } else if i == 16 {
        seq!["document_uuid"@]
    } else if i == 17 {
        seq!["document_uuid"@, "hit_dice"@, "caster_type"@]
    } else if i == 18 {
        seq!["document_uuid"@, "size"@, "speed"@, "subspecies_of"@]
    } else if i == 19 {
        seq!["document_uuid"@, "has_prerequisite"@, "prerequisite"@]
    } else if i == 20 {
        seq!["document_uuid"@]
    } else if i == 21 {
        seq!["document_uuid"@, "damage_dice"@, "damage_type"@]
    } else if i == 22 {
        seq!["document_uuid"@, "ac_display"@]
    } else if i == 23 {
        seq!["document_uuid"@, "cost"@, "requires_attunement"@]
    } else {
        seq![]
    }
}

/// Small lookup tables, whose list responses carry full records.
pub open spec fn category_include_data(i: int) -> bool {
    i < 15
}

/// Tables that carry a materialized `summary` column.
pub open spec fn summary_tables() -> Seq<Seq<char>> {
    seq![
        "spell"@,
        "creature"@,
        "class"@,
        "species"@,
        "feat"@,
        "background"@,
        "weapon"@,
        "armor"@,
        "item"@,
    ]
}

/// The categories surfaced as compendium tiles, in display order.
pub open spec fn display_category_names() -> Seq<Seq<char>> {
    seq![
        "spell"@,
        "creature"@,
        "class"@,
        "species"@,
        "background"@,
        "feat"@,
        "item"@,
        "weapon"@,
        "armor"@,
        "condition"@,
        "language"@,
    ]
}

/// One content table's shape, as far as the importer and the compendium
/// need to know it.
pub struct CategorySpec {
    /// Table name; also the public category segment of content URLs.
    pub table: &'static str,
    /// Indexed filter columns with the JSON pointer each is filled from.
    pub extras: Vec<(&'static str, &'static str)>,
    /// Record-JSON fields surfaced in list projections.
    pub summary_fields: Vec<&'static str>,
    /// List responses carry the full record JSON.
    pub include_data: bool,
}

pub open spec fn pair_view(p: (&'static str, &'static str)) -> (Seq<char>, Seq<char>) {
    (p.0@, p.1@)
}

pub open spec fn str_view(s: &'static str) -> Seq<char> {
    s@
}

impl CategorySpec {
    pub open spec fn extras_view(&self) -> Seq<(Seq<char>, Seq<char>)> {
        self.extras@.map_values(|p: (&'static str, &'static str)| pair_view(p))
    }

    pub open spec fn summary_view(&self) -> Seq<Seq<char>> {
        self.summary_fields@.map_values(|f: &'static str| str_view(f))
    }

    /// The spec is exactly the one recorded for the named table.
    pub open spec fn describes(&self, i: int) -> bool {
        &&& self.table@ == category_names()[i]
        &&& self.extras_view() == category_extras(i)
        &&& self.summary_view() == category_summary_fields(i)
        &&& self.include_data == category_include_data(i)
    }
}

fn lookup_spec(i: usize, table: &'static str) -> (r: CategorySpec)
    requires
        i < 15,
        table@ == category_names()[i as int],
    ensures
        r.describes(i as int),
{
    let r = CategorySpec { table, extras: Vec::new(), summary_fields: Vec::new(), include_data: true };
    assert(r.extras_view() =~= Seq::<(Seq<char>, Seq<char>)>::empty());
    assert(r.summary_view() =~= Seq::<Seq<char>>::empty());
    r
}

/// All content tables in import-dependency order.
pub fn categories() -> (r: Vec<CategorySpec>)
    ensures
        r@.len() == category_names().len(),
        forall|i: int| 0 <= i < r@.len() ==> #[trigger] r@[i].describes(i),
{
    let mut r: Vec<CategorySpec> = Vec::new();
    r.push(lookup_spec(0, "license"));
    r.push(lookup_spec(1, "publisher"));
    r.push(lookup_spec(2, "document"));
    r.push(lookup_spec(3, "ability_score"));
    r.push(lookup_spec(4, "skill"));
    r.push(lookup_spec(5, "alignment"));
    r.push(lookup_spec(6, "damage_type"));
    r.push(lookup_spec(7, "condition"));
    r.push(lookup_spec(8, "language"));
    r.push(lookup_spec(9, "size"));
    r.push(lookup_spec(10, "environment"));
    r.push(lookup_spec(11, "spell_school"));
    r.push(lookup_spec(12, "creature_type"));
    r.push(lookup_spec(13, "item_category"));
    r.push(lookup_spec(14, "weapon_property"));
    let spell = CategorySpec {
        table: "spell",
        extras: vec![
            ("level", "/level"),
            ("school_uuid", "/school"),
            ("concentration", "/concentration"),
            ("ritual", "/ritual"),
        ],
        summary_fields: vec!["document_uuid", "verbal", "somatic", "material"],
        include_data: false,
    };
    assert(spell.extras_view() =~= category_extras(15));
    assert(spell.summary_view() =~= category_summary_fields(15));
    r.push(spell);
    let creature = CategorySpec {
        table: "creature",
        extras: vec![
            ("challenge_rating", "/challenge_rating"),
            ("creature_type_uuid", "/type"),
            ("size_uuid", "/size"),
        ],
        summary_fields: vec!["document_uuid"],
        include_data: false,
    };
    assert(creature.extras_view() =~= category_extras(16));
    assert(creature.summary_view() =~= category_summary_fields(16));
    r.push(creature);
    let class = CategorySpec {
        table: "class",
        extras: vec![("subclass_of", "/subclass_of")],
        summary_fields: vec!["document_uuid", "hit_dice", "caster_type"],
        include_data: false,
    };
    assert(class.extras_view() =~= category_extras(17));
    assert(class.summary_view() =~= category_summary_fields(17));
    r.push(class);
    let species = CategorySpec {
        table: "species",
        extras: vec![("is_subspecies", "/is_subspecies")],
        summary_fields: vec!["document_uuid", "size", "speed", "subspecies_of"],
        include_data: false,
    };
    assert(species.extras_view() =~= category_extras(18));
    assert(species.summary_view() =~= category_summary_fields(18));
    r.push(species);
    let feat = CategorySpec {
        table: "feat",
        extras: Vec::new(),
        summary_fields: vec!["document_uuid", "has_prerequisite", "prerequisite"],
        include_data: false,
    };
    assert(feat.extras_view() =~= category_extras(19));
    assert(feat.summary_view() =~= category_summary_fields(19));
    r.push(feat);
    let background = CategorySpec {
        table: "background",
        extras: Vec::new(),
        summary_fields: vec!["document_uuid"],
        include_data: false,
    };
    assert(background.extras_view() =~= category_extras(20));
    assert(background.summary_view() =~= category_summary_fields(20));
    r.push(background);
    let weapon = CategorySpec {
        table: "weapon",
        extras: vec![("is_simple", "/is_simple")],
        summary_fields: vec!["document_uuid", "damage_dice", "damage_type"],
        include_data: false,
    };
    assert(weapon.extras_view() =~= category_extras(21));
    assert(weapon.summary_view() =~= category_summary_fields(21));
    r.push(weapon);
    let armor = CategorySpec {
        table: "armor",
        extras: vec![("category", "/category")],
        summary_fields: vec!["document_uuid", "ac_display"],
        include_data: false,
    };
    assert(armor.extras_view() =~= category_extras(22));
    assert(armor.summary_view() =~= category_summary_fields(22));
    r.push(armor);
    let item = CategorySpec {
        table: "item",
        extras: vec![("category_uuid", "/category_uuid"), ("rarity", "/rarity"), ("is_magic", "/is_magic")],
        summary_fields: vec!["document_uuid", "cost", "requires_attunement"],
        include_data: false,
    };
    assert(item.extras_view() =~= category_extras(23));
    assert(item.summary_view() =~= category_summary_fields(23));
    r.push(item);
    r
}


/// The listed names, as texts.
pub open spec fn names_view(v: Seq<&'static str>) -> Seq<Seq<char>> {
    v.map_values(|f: &'static str| str_view(f))
}

/// Whether a name is on a list.
pub fn list_contains(list: &Vec<&'static str>, s: &str) -> (r: bool)
    ensures
        r == names_view(list@).contains(s@),
{
    let mut i: usize = 0;
    while i < list.len()
        invariant
            i <= list.len(),
            forall|k: int| 0 <= k < i ==> names_view(list@)[k] != s@,
        decreases list.len() - i,
    {
        if str_eq(list[i], s) {
            assert(names_view(list@)[i as int] == s@);
            return true;
        }
        i = i + 1;
    }
    assert forall|k: int| 0 <= k < names_view(list@).len() implies names_view(list@)[k] != s@ by {}
    false
}

/// The table names, in import-dependency order.
pub fn category_tables() -> (r: Vec<&'static str>)
    ensures
        names_view(r@) == category_names(),
{
    let all = categories();
    let mut r: Vec<&'static str> = Vec::new();
    let mut i: usize = 0;
    while i < all.len()
        invariant
            i <= all.len(),
            all@.len() == category_names().len(),
            forall|k: int| 0 <= k < all@.len() ==> #[trigger] all@[k].describes(k),
            names_view(r@) == category_names().subrange(0, i as int),
        decreases all.len() - i,
    {
        assert(all@[i as int].describes(i as int));
        let ghost before = r@;
        r.push(all[i].table);
        assert(r@ == before.push(all@[i as int].table));
        assert(names_view(r@) =~= names_view(before).push(category_names()[i as int]));
        assert(category_names().subrange(0, i + 1) =~= category_names().subrange(0, i as int).push(category_names()[i as int]));
        i = i + 1;
    }
    assert(category_names().subrange(0, i as int) =~= category_names());
    r
}

/// The spec of a content table, by name; `None` for anything that is not
/// a content table.
pub fn category_spec(table: &str) -> (r: Option<CategorySpec>)
    ensures
        r is Some <==> category_names().contains(table@),
        r matches Some(sp) ==> sp.describes(category_index(table@)),
{
    let mut all = categories();
    let mut i: usize = 0;
    while i < all.len()
        invariant
            i <= all.len(),
            all@.len() == category_names().len(),
            forall|k: int| 0 <= k < all@.len() ==> #[trigger] all@[k].describes(k),
            forall|k: int| 0 <= k < i ==> category_names()[k] != table@,
        decreases all.len() - i,
    {
        assert(all@[i as int].describes(i as int));
        if str_eq(all[i].table, table) {
            let ghost k = i as int;
            let ghost found = all@[i as int];
            let sp = all.remove(i);
            assert(sp == found);
            assert(sp.describes(k));
            assert(0 <= k < category_names().len() && category_names()[k] == table@);
            proof {
                lemma_category_index(k);
            }
            return Some(sp);
        }
        i = i + 1;
    }
    None
}

/// The position of a table in import order.
pub open spec fn category_index(name: Seq<char>) -> int {
    choose|i: int| 0 <= i < category_names().len() && category_names()[i] == name
}

proof fn lemma_category_index(k: int)
    requires
        0 <= k < category_names().len(),
    ensures
        category_index(category_names()[k]) == k,
{
    lemma_category_names_distinct();
    let name = category_names()[k];
    let c = category_index(name);
    assert(0 <= c < category_names().len() && category_names()[c] == name);
    if c != k {
        if c < k {
            assert(category_names()[c] != category_names()[k]);
        } else {
            assert(category_names()[k] != category_names()[c]);
        }
    }
}

/// The summary tables, by name.
pub fn summary_table_names() -> (r: Vec<&'static str>)
    ensures
        names_view(r@) == summary_tables(),
{
    let r = vec!["spell", "creature", "class", "species", "feat", "background", "weapon", "armor", "item"];
    assert(names_view(r@) =~= summary_tables());
    r
}

/// Content tables that carry a materialized `summary` column, served
/// verbatim by the list endpoint.
pub fn has_summary(table: &str) -> (r: bool)
    ensures
        r == summary_tables().contains(table@),
{
    list_contains(&summary_table_names(), table)
}

/// The categories surfaced as compendium tiles, in display order.
pub fn display_categories() -> (r: Vec<&'static str>)
    ensures
        names_view(r@) == display_category_names(),
{
    let r = vec![
        "spell",
        "creature",
        "class",
        "species",
        "background",
        "feat",
        "item",
        "weapon",
        "armor",
        "condition",
        "language",
    ];
    assert(names_view(r@) =~= display_category_names());
    r
}

/// The indexed filter columns of a table (none for an unknown table).
pub fn spec_extras(table: &str) -> (r: Vec<(&'static str, &'static str)>)
    ensures
        category_names().contains(table@) ==> r@.map_values(|p: (&'static str, &'static str)| pair_view(p))
            == category_extras(category_index(table@)),
        !category_names().contains(table@) ==> r@.len() == 0,
{
    match category_spec(table) {
        Some(sp) => sp.extras,
        None => Vec::new(),
    }
}

/// Tables in uninstall order: the reverse of import order, so records are
/// removed before the lookups they refer to.
pub fn uninstall_tables() -> (r: Vec<&'static str>)
    ensures
        names_view(r@) == category_names().reverse(),
{
    let tables = category_tables();
    let mut r: Vec<&'static str> = Vec::new();
    let mut i: usize = tables.len();
    while i > 0
        invariant
            i <= tables.len(),
            names_view(tables@) == category_names(),
            r@.len() == tables.len() - i,
            forall|k: int| 0 <= k < r@.len() ==> #[trigger] r@[k] == tables@[tables.len() - 1 - k],
        decreases i,
    {
        i = i - 1;
        r.push(tables[i]);
    }
    assert(names_view(r@) =~= category_names().reverse());
    r
}


/// No two content tables share a name, so a name picks out one table.
pub proof fn lemma_category_names_distinct()
    ensures
        forall|i: int, j: int|
            0 <= i < j < category_names().len() ==> category_names()[i] != category_names()[j],
{
    let n = category_names();
    assert forall|i: int, j: int| 0 <= i < j < n.len() implies n[i] != n[j] by {
        distinct_from_later(i, j);
    }
}

proof fn distinct_from_later(i: int, j: int)
    requires
        0 <= i < j < category_names().len(),
    ensures
        category_names()[i] != category_names()[j],
{
    reveal_strlit("license");
    reveal_strlit("publisher");
    reveal_strlit("document");
    reveal_strlit("ability_score");
    reveal_strlit("skill");
    reveal_strlit("alignment");
    reveal_strlit("damage_type");
    reveal_strlit("condition");
    reveal_strlit("language");
    reveal_strlit("size");
    reveal_strlit("environment");
    reveal_strlit("spell_school");
    reveal_strlit("creature_type");
    reveal_strlit("item_category");
    reveal_strlit("weapon_property");
    reveal_strlit("spell");
    reveal_strlit("creature");
    reveal_strlit("class");
    reveal_strlit("species");
    reveal_strlit("feat");
    reveal_strlit("background");
    reveal_strlit("weapon");
    reveal_strlit("armor");
    reveal_strlit("item");
    let n = category_names();
    let a = n[i];
    let b = n[j];
    if i == 0 {
        assert(a.len() != b.len() || a[0] != b[0] || a[1] != b[1]);
    } else if i == 1 {
        assert(a.len() != b.len() || a[0] != b[0] || a[1] != b[1]);
    } else if i == 2 {
        assert(a.len() != b.len() || a[0] != b[0] || a[1] != b[1]);
    } else if i == 3 {
        assert(a.len() != b.len() || a[0] != b[0] || a[1] != b[1]);
    } else if i == 4 {
        assert(a.len() != b.len() || a[0] != b[0] || a[1] != b[1]);
    } else if i == 5 {
        assert(a.len() != b.len() || a[0] != b[0] || a[1] != b[1]);
    } else if i == 6 {
        assert(a.len() != b.len() || a[0] != b[0] || a[1] != b[1]);
    } else if i == 7 {
        assert(a.len() != b.len() || a[0] != b[0] || a[1] != b[1]);
    } else if i == 8 {
        assert(a.len() != b.len() || a[0] != b[0] || a[1] != b[1]);
    } else if i == 9 {
        assert(a.len() != b.len() || a[0] != b[0] || a[1] != b[1]);
    } else if i == 10 {
        assert(a.len() != b.len() || a[0] != b[0] || a[1] != b[1]);
    } else if i == 11 {
        assert(a.len() != b.len() || a[0] != b[0] || a[1] != b[1]);
    } else if i == 12 {
        assert(a.len() != b.len() || a[0] != b[0] || a[1] != b[1]);
    } else if i == 13 {
        assert(a.len() != b.len() || a[0] != b[0] || a[1] != b[1]);
    } else if i == 14 {
        assert(a.len() != b.len() || a[0] != b[0] || a[1] != b[1]);
    } else if i == 15 {
        assert(a.len() != b.len() || a[0] != b[0] || a[1] != b[1]);
    } else if i == 16 {
        assert(a.len() != b.len() || a[0] != b[0] || a[1] != b[1]);
    } else if i == 17 {
        assert(a.len() != b.len() || a[0] != b[0] || a[1] != b[1]);
    } else if i == 18 {
        assert(a.len() != b.len() || a[0] != b[0] || a[1] != b[1]);
    } else if i == 19 {
        assert(a.len() != b.len() || a[0] != b[0] || a[1] != b[1]);
    } else if i == 20 {
        assert(a.len() != b.len() || a[0] != b[0] || a[1] != b[1]);
    } else if i == 21 {
        assert(a.len() != b.len() || a[0] != b[0] || a[1] != b[1]);
    } else if i == 22 {
        assert(a.len() != b.len() || a[0] != b[0] || a[1] != b[1]);
    } else if i == 23 {
        assert(a.len() != b.len() || a[0] != b[0] || a[1] != b[1]);
    }
}

/// Every compendium tile and every summary table names a content table,
/// and a table serves full records in its list responses exactly when it
/// has no materialized summary.
pub proof fn lemma_category_lists_consistent()
    ensures
        forall|k: int|
            0 <= k < display_category_names().len() ==> category_names().contains(
                #[trigger] display_category_names()[k],
            ),
        forall|k: int|
            0 <= k < summary_tables().len() ==> category_names().contains(
                #[trigger] summary_tables()[k],
            ),
        forall|i: int|
            0 <= i < category_names().len() ==> (category_include_data(i) <==> !summary_tables().contains(
                #[trigger] category_names()[i],
            )),
{
    lemma_category_names_distinct();
    assert forall|k: int| 0 <= k < display_category_names().len() implies category_names().contains(
        #[trigger] display_category_names()[k],
    ) by {
        let d = display_category_names()[k];
        if k == 0 { assert(category_names()[15] == d); }
        else if k == 1 { assert(category_names()[16] == d); }
        else if k == 2 { assert(category_names()[17] == d); }
        else if k == 3 { assert(category_names()[18] == d); }
        else if k == 4 { assert(category_names()[20] == d); }
        else if k == 5 { assert(category_names()[19] == d); }
        else if k == 6 { assert(category_names()[23] == d); }
        else if k == 7 { assert(category_names()[21] == d); }
        else if k == 8 { assert(category_names()[22] == d); }
        else if k == 9 { assert(category_names()[7] == d); }
        else { assert(category_names()[8] == d); }
    }
    assert forall|k: int| 0 <= k < summary_tables().len() implies category_names().contains(
        #[trigger] summary_tables()[k],
    ) by {
        assert(category_names()[15 + k] == summary_tables()[k]);
    }
    assert forall|i: int| 0 <= i < category_names().len() implies (category_include_data(i) <==> !summary_tables().contains(
        #[trigger] category_names()[i],
    )) by {
        if i >= 15 {
            assert(summary_tables()[i - 15] == category_names()[i]);
        } else {
            if summary_tables().contains(category_names()[i]) {
                let k = choose|k: int| 0 <= k < summary_tables().len() && summary_tables()[k] == category_names()[i];
                assert(category_names()[15 + k] == summary_tables()[k]);
            }
        }
    }
}


/// Where an installed module came from.
#[derive(Clone, Copy, Debug, PartialEq, Eq, Structural)]
pub enum ModuleOrigin {
    Bundled,
    Uploaded,
    Published,
    Local,
}

/// The stored name of a module origin.
pub open spec fn origin_name(o: ModuleOrigin) -> Seq<char> {
    match o {
        ModuleOrigin::Bundled => "bundled"@,
        ModuleOrigin::Uploaded => "uploaded"@,
        ModuleOrigin::Published => "published"@,
        ModuleOrigin::Local => "local"@,
    }
}

/// The module origin a stored name denotes, if any.
pub open spec fn origin_of_name(s: Seq<char>) -> Option<ModuleOrigin> {
    if s == "bundled"@ {
        Some(ModuleOrigin::Bundled)
    } else if s == "uploaded"@ {
        Some(ModuleOrigin::Uploaded)
    } else if s == "published"@ {
        Some(ModuleOrigin::Published)
    } else if s == "local"@ {
        Some(ModuleOrigin::Local)
    } else {
        None
    }
}

pub fn module_origin_to_str(origin: ModuleOrigin) -> (r: &'static str)
    ensures
        r@ == origin_name(origin),
{
    match origin {
        ModuleOrigin::Bundled => "bundled",
        ModuleOrigin::Uploaded => "uploaded",
        ModuleOrigin::Published => "published",
        ModuleOrigin::Local => "local",
    }
}

pub fn module_origin_from_str(s: &str) -> (r: Option<ModuleOrigin>)
    ensures
        r == origin_of_name(s@),
{
    if str_eq(s, "bundled") {
        Some(ModuleOrigin::Bundled)
    } else if str_eq(s, "uploaded") {
        Some(ModuleOrigin::Uploaded)
    } else if str_eq(s, "published") {
        Some(ModuleOrigin::Published)
    } else if str_eq(s, "local") {
        Some(ModuleOrigin::Local)
    } else {
        None
    }
}

/// Storing an origin by name and reading the name back gives the same
/// origin, and only the four stored names read back as an origin.
pub proof fn lemma_origin_round_trip(o: ModuleOrigin, s: Seq<char>)
    ensures
        origin_of_name(origin_name(o)) == Some(o),
        origin_of_name(s) matches Some(p) ==> origin_name(p) == s,
{
    reveal_strlit("bundled");
    reveal_strlit("uploaded");
    reveal_strlit("published");
    reveal_strlit("local");
    assert("bundled"@.len() == 7 && "uploaded"@.len() == 8 && "published"@.len() == 9 && "local"@.len() == 5);
}

/// How an import reacts to a bundle module whose slug already exists.
#[derive(Clone, Copy, Debug, PartialEq, Eq, Structural)]
pub enum SlugConflict {
    /// Skip the module and its records (boot seeding).
    Skip,
    /// Fail the whole import (admin installs).
    Reject,
}

pub struct ImportOptions {
    pub origin: ModuleOrigin,
    pub on_slug_conflict: SlugConflict,
    /// Require every module to carry a license supported for bundling.
    pub require_bundling_license: bool,
}

/// Why a bundle import failed.
#[derive(Debug)]
pub enum ImportError {
    UnsupportedSchema { version: u32 },
    UnsupportedLicense { slug: String },
    SlugConflict { slugs: Vec<String> },
    Db(String),
}

/// What the import logic reads of a bundle module.
pub struct BundleModule {
    pub uuid: String,
    pub slug: String,
    /// The module's license is supported for bundling.
    pub bundling_license: bool,
}

/// What an import installs: the positions of the bundle modules to insert,
/// the slugs skipped as already present, and the module uuids whose
/// records ride along.
pub struct ImportPlan {
    pub install: Vec<usize>,
    pub skipped_slugs: Vec<String>,
    pub allowed_module_uuids: Vec<String>,
}

/// A bundle is importable when its schema lies in the server's window.
pub open spec fn schema_supported(version: u32, bundle_min: u32, server_min: u32, server_current: u32) -> bool {
    !(version < server_min || bundle_min > server_current)
}

/// Positions, in bundle order, of the modules whose slug is (or is not)
/// already installed, among the first `n`.
pub open spec fn pick(mods: Seq<BundleModule>, existing: Seq<Seq<char>>, present: bool, n: int) -> Seq<int>
    decreases n,
{
    if n <= 0 {
        Seq::empty()
    } else {
        let rest = pick(mods, existing, present, n - 1);
        if existing.contains(mods[n - 1].slug@) == present {
            rest.push(n - 1)
        } else {
            rest
        }
    }
}

pub open spec fn unlicensed(mods: Seq<BundleModule>) -> bool {
    exists|k: int| 0 <= k < mods.len() && !(#[trigger] mods[k].bundling_license)
}

pub open spec fn usize_ints(v: Seq<usize>) -> Seq<int> {
    v.map_values(|u: usize| u as int)
}

/// Plans a bundle import: checks the schema window, the bundling license
/// when required, and slug conflicts against the installed modules.
pub fn plan_import(
    version: u32,
    bundle_min_supported: u32,
    modules: &Vec<BundleModule>,
    existing_slugs: &Vec<String>,
    opts: &ImportOptions,
    server_min_supported: u32,
    server_current: u32,
) -> (r: Result<ImportPlan, ImportError>)
    ensures
        !schema_supported(version, bundle_min_supported, server_min_supported, server_current)
            ==> (r matches Err(ImportError::UnsupportedSchema { version: v }) && v == version),
        (r matches Err(ImportError::UnsupportedSchema { .. })) ==> !schema_supported(
            version,
            bundle_min_supported,
            server_min_supported,
            server_current,
        ),
        schema_supported(version, bundle_min_supported, server_min_supported, server_current) && !(
        opts.require_bundling_license && unlicensed(modules@)) && !(opts.on_slug_conflict == SlugConflict::Reject
            && pick(modules@, views(existing_slugs@), true, modules@.len() as int).len() > 0) ==> r is Ok,
        (r matches Err(ImportError::UnsupportedLicense { .. })) <==> (schema_supported(
            version,
            bundle_min_supported,
            server_min_supported,
            server_current,
        ) && opts.require_bundling_license && unlicensed(modules@)),
        r matches Err(ImportError::UnsupportedLicense { slug }) ==> exists|k: int|
            0 <= k < modules@.len() && !modules@[k].bundling_license && (forall|j: int|
                0 <= j < k ==> #[trigger] modules@[j].bundling_license) && slug@ == #[trigger] modules@[k].slug@,
        (r matches Err(ImportError::SlugConflict { .. })) <==> (schema_supported(
            version,
            bundle_min_supported,
            server_min_supported,
            server_current,
        ) && !(opts.require_bundling_license && unlicensed(modules@)) && opts.on_slug_conflict
            == SlugConflict::Reject && pick(modules@, views(existing_slugs@), true, modules@.len() as int).len() > 0),
        r matches Err(ImportError::SlugConflict { slugs }) ==> views(slugs@) == pick(
            modules@,
            views(existing_slugs@),
            true,
            modules@.len() as int,
        ).map_values(|i: int| modules@[i].slug@),
        !(r matches Err(ImportError::Db(_))),
        r matches Ok(plan) ==> {
            &&& usize_ints(plan.install@) == pick(modules@, views(existing_slugs@), false, modules@.len() as int)
            &&& views(plan.skipped_slugs@) == pick(modules@, views(existing_slugs@), true, modules@.len() as int).map_values(
                |i: int| modules@[i].slug@,
            )
            &&& views(plan.allowed_module_uuids@) == pick(modules@, views(existing_slugs@), false, modules@.len() as int).map_values(
                |i: int| modules@[i].uuid@,
            )
        },
{
    if version < server_min_supported || bundle_min_supported > server_current {
        return Err(ImportError::UnsupportedSchema { version });
    }
    if opts.require_bundling_license {
        let mut k: usize = 0;
        while k < modules.len()
            invariant
                k <= modules.len(),
                opts.require_bundling_license,
                schema_supported(version, bundle_min_supported, server_min_supported, server_current),
                forall|j: int| 0 <= j < k ==> #[trigger] modules@[j].bundling_license,
            decreases modules.len() - k,
        {
            if !modules[k].bundling_license {
                let slug = modules[k].slug.clone();
                assert(exists|k2: int|
                    0 <= k2 < modules@.len() && !modules@[k2].bundling_license && (forall|j: int|
                        0 <= j < k2 ==> #[trigger] modules@[j].bundling_license) && slug@ == #[trigger] modules@[k2].slug@) by {
                    assert(slug@ == modules@[k as int].slug@);
                }
                return Err(ImportError::UnsupportedLicense { slug });
            }
            k = k + 1;
        }
    }
    let ghost existing = views(existing_slugs@);
    let mut install: Vec<usize> = Vec::new();
    let mut skipped: Vec<String> = Vec::new();
    let mut allowed: Vec<String> = Vec::new();
    let mut i: usize = 0;
    while i < modules.len()
        invariant
            i <= modules.len(),
            existing == views(existing_slugs@),
            usize_ints(install@) == pick(modules@, existing, false, i as int),
            views(skipped@) == pick(modules@, existing, true, i as int).map_values(|j: int| modules@[j].slug@),
            views(allowed@) == pick(modules@, existing, false, i as int).map_values(|j: int| modules@[j].uuid@),
        decreases modules.len() - i,
    {
        let present = contains_string(existing_slugs, modules[i].slug.as_str());
        let ghost before_install = install@;
        let ghost before_skipped = skipped@;
        let ghost before_allowed = allowed@;
        if present {
            skipped.push(modules[i].slug.clone());
            assert(views(skipped@) =~= views(before_skipped).push(modules@[i as int].slug@));
            assert(pick(modules@, existing, true, i + 1) == pick(modules@, existing, true, i as int).push(i as int));
            assert(pick(modules@, existing, true, i + 1).map_values(|j: int| modules@[j].slug@) =~= pick(modules@, existing, true, i as int).map_values(|j: int| modules@[j].slug@).push(modules@[i as int].slug@));
        } else {
            install.push(i);
            allowed.push(modules[i].uuid.clone());
            assert(usize_ints(install@) =~= usize_ints(before_install).push(i as int));
            assert(views(allowed@) =~= views(before_allowed).push(modules@[i as int].uuid@));
            assert(pick(modules@, existing, false, i + 1) == pick(modules@, existing, false, i as int).push(i as int));
            assert(pick(modules@, existing, false, i + 1).map_values(|j: int| modules@[j].uuid@) =~= pick(modules@, existing, false, i as int).map_values(|j: int| modules@[j].uuid@).push(modules@[i as int].uuid@));
        }
        i = i + 1;
    }
    if skipped.len() > 0 && opts.on_slug_conflict == SlugConflict::Reject {
        return Err(ImportError::SlugConflict { slugs: skipped });
    }
    Ok(ImportPlan { install, skipped_slugs: skipped, allowed_module_uuids: allowed })
}


proof fn lemma_pick_split(mods: Seq<BundleModule>, existing: Seq<Seq<char>>, n: int)
    requires
        0 <= n <= mods.len(),
    ensures
        pick(mods, existing, false, n).len() + pick(mods, existing, true, n).len() == n,
        (forall|k: int| 0 <= k < n ==> existing.contains(#[trigger] mods[k].slug@)) ==> pick(
            mods,
            existing,
            false,
            n,
        ).len() == 0,
        (forall|k: int| 0 <= k < n ==> existing.contains(#[trigger] mods[k].slug@)) ==> pick(
            mods,
            existing,
            true,
            n,
        ) == Seq::new(n as nat, |i: int| i),
    decreases n,
{
    if n > 0 {
        lemma_pick_split(mods, existing, n - 1);
        if forall|k: int| 0 <= k < n ==> existing.contains(#[trigger] mods[k].slug@) {
            assert(existing.contains(mods[n - 1].slug@));
            assert(pick(mods, existing, true, n) =~= Seq::new(n as nat, |i: int| i));
        }
    }
}

/// An import accounts for every module of the bundle once: each is either
/// installed or skipped as already present. So importing a bundle whose
/// modules are all installed installs nothing and lets no record in (the
/// plan's `install` and `allowed_module_uuids` are empty), and skips every
/// module, in bundle order; with `SlugConflict::Skip`, as at boot, such
/// an import succeeds (see `plan_import`). That is what makes reseeding
/// at every boot leave the content as it is.
pub proof fn lemma_import_accounts_for_every_module(mods: Seq<BundleModule>, existing: Seq<Seq<char>>)
    ensures
        pick(mods, existing, false, mods.len() as int).len() + pick(mods, existing, true, mods.len() as int).len()
            == mods.len(),
        (forall|k: int| 0 <= k < mods.len() ==> existing.contains(#[trigger] mods[k].slug@)) ==> {
            &&& pick(mods, existing, false, mods.len() as int).len() == 0
            &&& pick(mods, existing, false, mods.len() as int).map_values(|i: int| mods[i].uuid@).len() == 0
            &&& pick(mods, existing, true, mods.len() as int).map_values(|i: int| mods[i].slug@)
                == mods.map_values(|m: BundleModule| m.slug@)
        },
{
    lemma_pick_split(mods, existing, mods.len() as int);
    if forall|k: int| 0 <= k < mods.len() ==> existing.contains(#[trigger] mods[k].slug@) {
        assert(pick(mods, existing, true, mods.len() as int).map_values(|i: int| mods[i].slug@) =~= mods.map_values(
            |m: BundleModule| m.slug@,
        ));
    }
}

/// The message of an import error, given the server's supported schema
/// window.
pub open spec fn import_error_text(e: ImportError, server_min: u32, server_current: u32) -> Seq<char> {
    match e {
        ImportError::UnsupportedSchema { version } => "bundle schema v"@ + decimal(version as nat)
            + " is outside the supported window "@ + decimal(server_min as nat) + "..="@ + decimal(
            server_current as nat,
        ),
        ImportError::UnsupportedLicense { slug } => "module '"@ + slug@
            + "' carries a license unsupported for bundling"@,
        ImportError::SlugConflict { slugs } => "module slug(s) already installed: "@ + join(
            views(slugs@),
            ", "@,
        ),
        ImportError::Db(m) => m@,
    }
}

impl ImportError {
    /// The error's message (its `Display` form).
    pub fn message(&self, server_min: u32, server_current: u32) -> (r: String)
        ensures
            r@ == import_error_text(*self, server_min, server_current),
    {
        match self {
            ImportError::UnsupportedSchema { version } => {
                let r = String::from_str("bundle schema v");
                let r = r.concat(decimal_string(*version as u64).as_str());
                let r = r.concat(" is outside the supported window ");
                let r = r.concat(decimal_string(server_min as u64).as_str());
                let r = r.concat("..=");
                r.concat(decimal_string(server_current as u64).as_str())
            },
            ImportError::UnsupportedLicense { slug } => {
                let r = String::from_str("module '");
                let r = r.concat(slug.as_str());
                r.concat("' carries a license unsupported for bundling")
            },
            ImportError::SlugConflict { slugs } => {
                let r = String::from_str("module slug(s) already installed: ");
                r.concat(join_strings(slugs, ", ").as_str())
            },
            ImportError::Db(m) => m.clone(),
        }
    }
}

/// Outcome of persisting one user-authored content record.
#[derive(Debug)]
pub enum RecordError {
    /// The record failed structural validation or named an unknown
    /// category: a client error.
    Invalid(String),
    /// An unexpected database failure: a server error.
    Db(String),
}

impl RecordError {
    /// The error's message (its `Display` form).
    pub fn message(&self) -> (r: String)
        ensures
            r@ == match *self {
                RecordError::Invalid(m) => m@,
                RecordError::Db(m) => m@,
            },
    {
        match self {
            RecordError::Invalid(m) => m.clone(),
            RecordError::Db(m) => m.clone(),
        }
    }
}

/// A database failure while persisting a record, by its message.
pub fn db_err(message: String) -> (r: RecordError)
    ensures
        r == RecordError::Db(message),
{
    RecordError::Db(message)
}

/// The reserved-slug default homebrew module, plus its attribution
/// document.
pub struct HomebrewModule {
    pub module_uuid: String,
    pub document_uuid: String,
}

/// The slug a custom module is created under: the requested slug,
/// normalized; refused when nothing of it survives normalization.
pub fn custom_module_slug(requested: &str) -> (r: Result<String, RecordError>)
    ensures
        r matches Ok(slug) ==> slug@ == slug_of(requested@) && slug@.len() > 0,
        r matches Err(e) ==> (e matches RecordError::Invalid(m) && m@ == "module slug cannot be empty"@),
        r is Ok <==> slug_of(requested@).len() > 0,
{
    let slug = slugify(requested);
    if slug.unicode_len() == 0 {
        return Err(RecordError::Invalid(String::from_str("module slug cannot be empty")));
    }
    Ok(slug)
}

/// The refusal of a custom module whose slug is already installed.
pub fn slug_taken_error(slug: &str) -> (r: RecordError)
    ensures
        r matches RecordError::Invalid(m) && m@ == "a module with slug '"@ + slug@ + "' already exists"@,
{
    let m = String::from_str("a module with slug '");
    let m = m.concat(slug);
    RecordError::Invalid(m.concat("' already exists"))
}

/// Refuses a record whose category is not a content table.
pub fn check_category(category: &str) -> (r: Result<(), RecordError>)
    ensures
        r is Ok <==> category_names().contains(category@),
        r matches Err(e) ==> (e matches RecordError::Invalid(m) && m@ == "unknown category "@ + category@),
{
    if category_spec(category).is_none() {
        return Err(RecordError::Invalid(String::from_str("unknown category ").concat(category)));
    }
    Ok(())
}

/// How an authored record of a category is stored.
#[derive(Clone, Copy, Debug, PartialEq, Eq, Structural)]
pub enum AuthoredKind {
    /// A record with a materialized summary column.
    Summarized,
    /// A small lookup record.
    Lookup,
}

/// The categories users may author, with the summarized ones first.
pub open spec fn authored_kind_of(category: Seq<char>) -> Option<AuthoredKind> {
    if category == "spell"@ || category == "creature"@ || category == "class"@ || category == "species"@
        || category == "background"@ || category == "feat"@ || category == "item"@ || category == "weapon"@
        || category == "armor"@ {
        Some(AuthoredKind::Summarized)
    } else if category == "condition"@ || category == "language"@ {
        Some(AuthoredKind::Lookup)
    } else {
        None
    }
}

/// How an authored record of the category is stored, or the refusal of a
/// category users may not author.
pub fn authored_kind(category: &str) -> (r: Result<AuthoredKind, RecordError>)
    ensures
        r matches Ok(k) ==> authored_kind_of(category@) == Some(k),
        r is Err ==> authored_kind_of(category@) is None,
        r matches Err(e) ==> (e matches RecordError::Invalid(m) && m@ == "category "@ + category@
            + " is not authorable"@),
{
    if str_eq(category, "spell") || str_eq(category, "creature") || str_eq(category, "class")
        || str_eq(category, "species") || str_eq(category, "background") || str_eq(category, "feat")
        || str_eq(category, "item") || str_eq(category, "weapon") || str_eq(category, "armor") {
        Ok(AuthoredKind::Summarized)
    } else if str_eq(category, "condition") || str_eq(category, "language") {
        Ok(AuthoredKind::Lookup)
    } else {
        let m = String::from_str("category ").concat(category);
        Err(RecordError::Invalid(m.concat(" is not authorable")))
    }
}

/// The globally unique key of a local module's attribution document.
pub fn document_key(module_uuid: &str) -> (r: String)
    ensures
        r@ == "doc-"@ + module_uuid@,
{
    String::from_str("doc-").concat(module_uuid)
}

/// `n` SQL placeholders joined by commas: `?, ?, ?`.
pub open spec fn placeholder_list(n: nat) -> Seq<char>
    decreases n,
{
    if n == 0 {
        Seq::empty()
    } else if n == 1 {
        "?"@
    } else {
        placeholder_list((n - 1) as nat) + ", ?"@
    }
}

pub fn placeholders(n: usize) -> (r: String)
    ensures
        r@ == placeholder_list(n as nat),
{
    let mut r = String::new();
    let mut i: usize = 0;
    while i < n
        invariant
            i <= n,
            r@ == placeholder_list(i as nat),
        decreases n - i,
    {
        if i == 0 {
            r = r.concat("?");
            assert(r@ =~= "?"@);
        } else {
            r = r.concat(", ?");
        }
        i = i + 1;
    }
    r
}

} // verus!
