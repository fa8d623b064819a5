//! Homebrew content authoring: assembling a record from a category
//! skeleton plus authorable input, with the server stamping identity,
//! provenance and timestamps; and who may edit what.
//!
//! A record is a JSON object. The logic here reads only the object's keys
//! and its text values, so a record is modelled as its fields, each value
//! either a text or an opaque JSON value held by the caller.

use vstd::prelude::*;
use crate::auth::{uuid_canonical, CurrentUser};
use crate::content::{ModuleOrigin, RecordError};
use crate::error::ApiError;
use crate::slug::{slug_of, slugify};
use crate::text::str_eq;

verus! {

/// A JSON value inside a record, as the authoring logic sees it.
pub enum FieldValue {
    /// A JSON string.
    Text(String),
    /// Any other JSON value, by a handle the caller resolves.
    Opaque(u64),
}

/// What a field value is.
pub enum FieldView {
    Text(Seq<char>),
    Opaque(u64),
}

impl FieldValue {
    pub open spec fn view(&self) -> FieldView {
        match self {
            FieldValue::Text(s) => FieldView::Text(s@),
            FieldValue::Opaque(h) => FieldView::Opaque(*h),
        }
    }

    pub fn duplicate(&self) -> (r: FieldValue)
        ensures
            r.view() == self.view(),
    {
        match self {
            FieldValue::Text(s) => FieldValue::Text(s.clone()),
            FieldValue::Opaque(h) => FieldValue::Opaque(*h),
        }
    }
}

/// A JSON object: its fields, each key at most once.
pub struct Record {
    pub fields: Vec<(String, FieldValue)>,
}

/// The key-to-value map a list of fields denotes.
pub open spec fn fields_map(f: Seq<(String, FieldValue)>) -> Map<Seq<char>, FieldView>
    decreases f.len(),
{
    if f.len() == 0 {
        Map::empty()
    } else {
        fields_map(f.drop_last()).insert(f.last().0@, f.last().1.view())
    }
}

impl Record {
    /// No key occurs twice.
    pub open spec fn wf(&self) -> bool {
        forall|i: int, j: int|
            0 <= i < j < self.fields@.len() ==> #[trigger] self.fields@[i].0@ != #[trigger] self.fields@[j].0@
    }

    pub open spec fn view(&self) -> Map<Seq<char>, FieldView> {
        fields_map(self.fields@)
    }

    pub fn new() -> (r: Record)
        ensures
            r.wf(),
            r.view() == Map::<Seq<char>, FieldView>::empty(),
    {
        Record { fields: Vec::new() }
    }

    fn position(&self, key: &str) -> (r: Option<usize>)
        requires
            self.wf(),
        ensures
            r matches Some(i) ==> i < self.fields@.len() && self.fields@[i as int].0@ == key@,
            r is None ==> forall|i: int| 0 <= i < self.fields@.len() ==> #[trigger] self.fields@[i].0@ != key@,
    {
        let mut i: usize = 0;
        while i < self.fields.len()
            invariant
                i <= self.fields@.len(),
                forall|k: int| 0 <= k < i ==> #[trigger] self.fields@[k].0@ != key@,
            decreases self.fields.len() - i,
        {
            if str_eq(self.fields[i].0.as_str(), key) {
                return Some(i);
            }
            i = i + 1;
        }
        None
    }

    /// Whether the object has the key.
    pub fn contains_key(&self, key: &str) -> (r: bool)
        requires
            self.wf(),
        ensures
            r == self.view().contains_key(key@),
    {
        proof {
            lemma_fields_map_keys(self.fields@);
        }
        self.position(key).is_some()
    }

    /// The text under a key, if the key holds a JSON string.
    pub fn get_text(&self, key: &str) -> (r: Option<String>)
        requires
            self.wf(),
        ensures
            r matches Some(s) ==> self.view().contains_key(key@) && self.view()[key@] == FieldView::Text(s@),
            r is None ==> !(self.view().contains_key(key@) && self.view()[key@] is Text),
    {
        proof {
            lemma_fields_map_keys(self.fields@);
        }
        match self.position(key) {
            Some(i) => {
                proof {
                    lemma_fields_map_at(self.fields@, i as int);
                }
                match &self.fields[i].1 {
                    FieldValue::Text(s) => Some(s.clone()),
                    FieldValue::Opaque(_) => None,
                }
            },
            None => None,
        }
    }

    /// Sets a key, replacing any value it had (`Map::insert`).
    pub fn insert(&mut self, key: &str, value: FieldValue)
        requires
            old(self).wf(),
        ensures
            final(self).wf(),
            final(self).view() == old(self).view().insert(key@, value.view()),
    {
        proof {
            lemma_fields_map_keys(self.fields@);
        }
        match self.position(key) {
            Some(i) => {
                let ghost before = self.fields@;
                let k = String::from_str(key);
                self.fields.set(i, (k, value));
                proof {
                    lemma_fields_map_update(before, i as int, self.fields@);
                }
            },
            None => {
                let ghost before = self.fields@;
                self.fields.push((String::from_str(key), value));
                proof {
                    assert(self.fields@.drop_last() =~= before);
                }
            },
        }
    }
}

proof fn lemma_fields_map_keys(f: Seq<(String, FieldValue)>)
    ensures
        forall|k: Seq<char>|
            #[trigger] fields_map(f).contains_key(k) <==> exists|i: int| 0 <= i < f.len() && #[trigger] f[i].0@ == k,
    decreases f.len(),
{
    if f.len() > 0 {
        let g = f.drop_last();
        lemma_fields_map_keys(g);
        assert forall|k: Seq<char>| #[trigger] fields_map(f).contains_key(k) <==> exists|i: int|
            0 <= i < f.len() && #[trigger] f[i].0@ == k by {
            if fields_map(f).contains_key(k) {
                if k == f.last().0@ {
                    assert(f[f.len() - 1].0@ == k);
                } else {
                    assert(fields_map(g).contains_key(k));
                    let i = choose|i: int| 0 <= i < g.len() && #[trigger] g[i].0@ == k;
                    assert(f[i] == g[i]);
                    assert(f[i].0@ == k);
                }
            }
            if exists|i: int| 0 <= i < f.len() && #[trigger] f[i].0@ == k {
                let i = choose|i: int| 0 <= i < f.len() && #[trigger] f[i].0@ == k;
                if i < f.len() - 1 {
                    assert(g[i] == f[i]);
                    assert(g[i].0@ == k);
                    assert(fields_map(g).contains_key(k));
                }
            }
        }
    }
}

proof fn lemma_fields_map_at(f: Seq<(String, FieldValue)>, i: int)
    requires
        0 <= i < f.len(),
        forall|a: int, b: int| 0 <= a < b < f.len() ==> #[trigger] f[a].0@ != #[trigger] f[b].0@,
    ensures
        fields_map(f).contains_key(f[i].0@),
        fields_map(f)[f[i].0@] == f[i].1.view(),
    decreases f.len(),
{
    if i < f.len() - 1 {
        let init = f.drop_last();
        assert forall|a: int, b: int| 0 <= a < b < init.len() implies #[trigger] init[a].0@ != #[trigger] init[b].0@ by {
            assert(init[a] == f[a] && init[b] == f[b]);
        }
        assert(init[i] == f[i]);
        lemma_fields_map_at(init, i);
        assert(f[i].0@ != f[f.len() - 1].0@);
    }
}

proof fn lemma_fields_map_update(before: Seq<(String, FieldValue)>, i: int, after: Seq<(String, FieldValue)>)
    requires
        0 <= i < before.len(),
        after.len() == before.len(),
        forall|a: int, b: int| 0 <= a < b < before.len() ==> #[trigger] before[a].0@ != #[trigger] before[b].0@,
        after[i].0@ == before[i].0@,
        forall|j: int| 0 <= j < before.len() && j != i ==> #[trigger] after[j] == before[j],
    ensures
        forall|a: int, b: int| 0 <= a < b < after.len() ==> #[trigger] after[a].0@ != #[trigger] after[b].0@,
        fields_map(after) == fields_map(before).insert(before[i].0@, after[i].1.view()),
    decreases before.len(),
{
    assert forall|a: int, b: int| 0 <= a < b < after.len() implies #[trigger] after[a].0@ != #[trigger] after[b].0@ by {
        if a != i && b != i {
            assert(after[a] == before[a] && after[b] == before[b]);
        } else if a == i {
            assert(after[b] == before[b]);
        } else {
            assert(after[a] == before[a]);
        }
    }
    let n = before.len();
    if i == n - 1 {
        assert(after.drop_last() =~= before.drop_last());
        assert(fields_map(after) =~= fields_map(before).insert(before[i].0@, after[i].1.view()));
    } else {
        let bi = before.drop_last();
        let ai = after.drop_last();
        assert forall|a: int, b: int| 0 <= a < b < bi.len() implies #[trigger] bi[a].0@ != #[trigger] bi[b].0@ by {
            assert(bi[a] == before[a] && bi[b] == before[b]);
        }
        assert forall|j: int| 0 <= j < bi.len() && j != i implies #[trigger] ai[j] == bi[j] by {
            assert(ai[j] == after[j] && bi[j] == before[j]);
        }
        lemma_fields_map_update(bi, i, ai);
        assert(after.last() == before.last());
        assert(before[i].0@ != before.last().0@);
        assert(fields_map(after) =~= fields_map(before).insert(before[i].0@, after[i].1.view()));
    }
}

/// A top-level JSON document: an object, or anything else (by handle).
pub enum JsonValue {
    Object(Record),
    Other(u64),
}

impl JsonValue {
    pub open spec fn wf(&self) -> bool {
        self matches JsonValue::Object(r) ==> r.wf()
    }
}

/// Server-managed fields a client may never set through authoring input:
/// identity, provenance, the derived slug, and audit columns.
pub open spec fn managed_keys() -> Seq<Seq<char>> {
    seq![
        "uuid"@,
        "key"@,
        "slug"@,
        "content_module_uuid"@,
        "document_uuid"@,
        "created_at"@,
        "updated_at"@,
        "created_by_user_uuid"@,
    ]
}

pub fn is_managed_key(k: &str) -> (r: bool)
    ensures
        r == managed_keys().contains(k@),
{
    let keys = vec![
        "uuid",
        "key",
        "slug",
        "content_module_uuid",
        "document_uuid",
        "created_at",
        "updated_at",
        "created_by_user_uuid",
    ];
    assert(crate::content::names_view(keys@) =~= managed_keys());
    crate::content::list_contains(&keys, k)
}

/// The record after overlaying authorable input: every incoming field
/// whose key is not server-managed replaces or adds to the record.
pub open spec fn merged(record: Map<Seq<char>, FieldView>, incoming: Map<Seq<char>, FieldView>) -> Map<
    Seq<char>,
    FieldView,
> {
    record.union_prefer_right(incoming.restrict(incoming.dom().filter(|k: Seq<char>| !managed_keys().contains(k))))
}

/// Overlays the authorable `fields` object onto a record, ignoring any
/// server-managed keys the client tried to set. Both must be JSON
/// objects; otherwise the request is refused and the record unchanged.
pub fn merge_fields(record: &mut JsonValue, fields: &JsonValue) -> (r: Result<(), ApiError>)
    requires
        old(record).wf(),
        fields.wf(),
    ensures
        final(record).wf(),
        r is Ok <==> (*old(record) is Object && *fields is Object),
        r matches Err(e) ==> (e matches ApiError::BadRequest(m) && m@ == "fields must be a JSON object"@),
        r is Err ==> *final(record) == *old(record),
        r is Ok ==> (*final(record) matches JsonValue::Object(f) && *old(record) matches JsonValue::Object(o)
            && fields matches JsonValue::Object(inc) && f.view() == merged(o.view(), inc.view())),
{
    let incoming = match fields {
        JsonValue::Object(inc) => inc,
        JsonValue::Other(_) => {
            return Err(ApiError::BadRequest(String::from_str("fields must be a JSON object")));
        },
    };
    match record {
        JsonValue::Object(obj) => {
            let ghost start = obj.view();
            let ghost inc = incoming.view();
            let mut i: usize = 0;
            proof {
                lemma_fields_map_keys(incoming.fields@);
            }
            while i < incoming.fields.len()
                invariant
                    i <= incoming.fields@.len(),
                    obj.wf(),
                    incoming.wf(),
                    inc == incoming.view(),
                    obj.view() == merged(start, fields_map(incoming.fields@.subrange(0, i as int))),
                decreases incoming.fields.len() - i,
            {
                let ghost pre = incoming.fields@.subrange(0, i as int);
                let ghost next = incoming.fields@.subrange(0, i + 1);
                assert(next.drop_last() =~= pre);
                let k = incoming.fields[i].0.as_str();
                if !is_managed_key(k) {
                    obj.insert(k, incoming.fields[i].1.duplicate());
                    assert(obj.view() =~= merged(start, fields_map(next)));
                } else {
                    assert(obj.view() =~= merged(start, fields_map(next)));
                }
                i = i + 1;
            }
            assert(incoming.fields@.subrange(0, incoming.fields@.len() as int) =~= incoming.fields@);
            Ok(())
        },
        JsonValue::Other(_) => Err(ApiError::BadRequest(String::from_str("fields must be a JSON object"))),
    }
}

/// Merging authorable input never changes a server-managed field: each is
/// present after the merge exactly when it was before, with the same
/// value. This is what keeps a forged `uuid`, `key` or module from riding
/// in on otherwise legitimate input.
pub proof fn lemma_merge_keeps_managed(
    record: Map<Seq<char>, FieldView>,
    incoming: Map<Seq<char>, FieldView>,
    k: Seq<char>,
)
    requires
        managed_keys().contains(k),
    ensures
        merged(record, incoming).contains_key(k) == record.contains_key(k),
        record.contains_key(k) ==> merged(record, incoming)[k] == record[k],
{
}

/// Merging authorable input sets each field it names that the server
/// does not manage to the given value, keeps every field it does not
/// name, and adds no other field.
pub proof fn lemma_merge_takes_input(
    record: Map<Seq<char>, FieldView>,
    incoming: Map<Seq<char>, FieldView>,
    k: Seq<char>,
)
    ensures
        incoming.contains_key(k) && !managed_keys().contains(k) ==> merged(record, incoming).contains_key(k)
            && merged(record, incoming)[k] == incoming[k],
        !incoming.contains_key(k) ==> (merged(record, incoming).contains_key(k) == record.contains_key(k) && (
        record.contains_key(k) ==> merged(record, incoming)[k] == record[k])),
        merged(record, incoming).contains_key(k) ==> record.contains_key(k) || incoming.contains_key(k),
{
}

/// The record's text under a key, or the refusal of a record lacking it.
pub fn json_str(record: &Record, key: &str) -> (r: Result<String, ApiError>)
    requires
        record.wf(),
    ensures
        r matches Ok(s) ==> record.view().contains_key(key@) && record.view()[key@] == FieldView::Text(s@),
        r is Err ==> !(record.view().contains_key(key@) && record.view()[key@] is Text),
        r matches Err(e) ==> (e matches ApiError::Internal(m) && m@ == "assembled record missing "@ + key@),
{
    match record.get_text(key) {
        Some(s) => Ok(s),
        None => Err(ApiError::Internal(String::from_str("assembled record missing ").concat(key))),
    }
}

/// The record's text under a key, or the refusal of a stored record
/// lacking it.
pub fn record_str(record: &Record, key: &str) -> (r: Result<String, RecordError>)
    requires
        record.wf(),
    ensures
        r matches Ok(s) ==> record.view().contains_key(key@) && record.view()[key@] == FieldView::Text(s@),
        r is Err ==> !(record.view().contains_key(key@) && record.view()[key@] is Text),
        r matches Err(e) ==> (e matches RecordError::Invalid(m) && m@ == "record missing string field "@ + key@),
{
    match record.get_text(key) {
        Some(s) => Ok(s),
        None => Err(RecordError::Invalid(String::from_str("record missing string field ").concat(key))),
    }
}

/// The slug a record gets: derived from its name, falling back to its
/// uuid (or `item`) when the name holds no letter or digit.
pub open spec fn derived_slug(m: Map<Seq<char>, FieldView>, name: Seq<char>) -> Seq<char> {
    if slug_of(name).len() > 0 {
        slug_of(name)
    } else if m.contains_key("uuid"@) && m["uuid"@] is Text {
        m["uuid"@]->Text_0
    } else {
        "item"@
    }
}

/// The record after stamping its server-managed fields.
pub open spec fn stamped(
    m: Map<Seq<char>, FieldView>,
    module_uuid: Seq<char>,
    document_uuid: Seq<char>,
    uuid: Option<Seq<char>>,
    key: Option<Seq<char>>,
    now: Seq<char>,
) -> Map<Seq<char>, FieldView> {
    let m1 = m.insert("content_module_uuid"@, FieldView::Text(module_uuid));
    let m2 = if m1.contains_key("document_uuid"@) {
        m1.insert("document_uuid"@, FieldView::Text(document_uuid))
    } else {
        m1
    };
    let m3 = match uuid {
        Some(u) => m2.insert("uuid"@, FieldView::Text(u)),
        None => m2,
    };
    let m4 = match key {
        Some(k) => m3.insert("key"@, FieldView::Text(k)),
        None => m3,
    };
    let m5 = if m4.contains_key("name"@) && m4["name"@] is Text {
        m4.insert("slug"@, FieldView::Text(derived_slug(m4, m4["name"@]->Text_0)))
    } else {
        m4
    };
    m5.insert("updated_at"@, FieldView::Text(now))
}

/// The slug a record with text name `name` is given: the slug of the
/// name, or, when that has no letter or digit, the record's uuid (the one
/// being stamped, else the one it holds), or `item`.
pub open spec fn slug_for_name(
    m: Map<Seq<char>, FieldView>,
    name: Seq<char>,
    uuid: Option<Seq<char>>,
) -> Seq<char> {
    if slug_of(name).len() > 0 {
        slug_of(name)
    } else {
        match uuid {
            Some(u) => u,
            None => if m.contains_key("uuid"@) && m["uuid"@] is Text {
                m["uuid"@]->Text_0
            } else {
                "item"@
            },
        }
    }
}

/// Stamping derives the slug afresh from the record's name, whatever slug
/// the record held before (so a rename re-slugs it), and leaves the name
/// itself as it was.
pub proof fn lemma_stamp_slug_follows_name(
    m: Map<Seq<char>, FieldView>,
    module_uuid: Seq<char>,
    document_uuid: Seq<char>,
    uuid: Option<Seq<char>>,
    key: Option<Seq<char>>,
    now: Seq<char>,
)
    requires
        m.contains_key("name"@),
        m["name"@] is Text,
    ensures
        ({
            let r = stamped(m, module_uuid, document_uuid, uuid, key, now);
            &&& r.contains_key("name"@) && r["name"@] == m["name"@]
            &&& r.contains_key("slug"@)
            &&& r["slug"@] == FieldView::Text(slug_for_name(m, m["name"@]->Text_0, uuid))
        }),
{
    reveal_strlit("name");
    reveal_strlit("slug");
    reveal_strlit("uuid");
    reveal_strlit("key");
    reveal_strlit("content_module_uuid");
    reveal_strlit("document_uuid");
    reveal_strlit("updated_at");
    assert("name"@ != "content_module_uuid"@ && "name"@ != "document_uuid"@ && "name"@ != "uuid"@ && "name"@
        != "key"@ && "name"@ != "slug"@ && "name"@ != "updated_at"@) by {
        assert("name"@[0] != "content_module_uuid"@[0]);
        assert("name"@[0] != "document_uuid"@[0]);
        assert("name"@[0] != "uuid"@[0]);
        assert("name"@[0] != "key"@[0]);
        assert("name"@[0] != "slug"@[0]);
        assert("name"@[0] != "updated_at"@[0]);
    }
    assert("uuid"@ != "content_module_uuid"@ && "uuid"@ != "document_uuid"@) by {
        assert("uuid"@[0] != "content_module_uuid"@[0]);
        assert("uuid"@[0] != "document_uuid"@[0]);
    }
    assert("slug"@ != "updated_at"@) by {
        assert("slug"@[0] != "updated_at"@[0]);
    }
    assert("key"@ != "uuid"@) by {
        assert("key"@[0] != "uuid"@[0]);
    }
    let name = m["name"@]->Text_0;
    let m1 = m.insert("content_module_uuid"@, FieldView::Text(module_uuid));
    let m2 = if m1.contains_key("document_uuid"@) {
        m1.insert("document_uuid"@, FieldView::Text(document_uuid))
    } else {
        m1
    };
    let m3 = match uuid {
        Some(u) => m2.insert("uuid"@, FieldView::Text(u)),
        None => m2,
    };
    let m4 = match key {
        Some(k) => m3.insert("key"@, FieldView::Text(k)),
        None => m3,
    };
    assert(m1["name"@] == m["name"@] && m1.contains_key("name"@));
    assert(m2["name"@] == m["name"@] && m2.contains_key("name"@));
    assert(m3["name"@] == m["name"@] && m3.contains_key("name"@));
    assert(m4["name"@] == m["name"@] && m4.contains_key("name"@));
    assert(m2.contains_key("uuid"@) == m.contains_key("uuid"@));
    assert(m.contains_key("uuid"@) ==> m2["uuid"@] == m["uuid"@]);
    match uuid {
        Some(u) => {
            assert(m4.contains_key("uuid"@) && m4["uuid"@] == FieldView::Text(u));
        },
        None => {
            assert(m4.contains_key("uuid"@) == m.contains_key("uuid"@));
            assert(m.contains_key("uuid"@) ==> m4["uuid"@] == m["uuid"@]);
        },
    }
    assert(derived_slug(m4, name) == slug_for_name(m, name, uuid));
}

/// Stamps the server-managed fields: the module, the attribution document
/// (only when the record type carries one), the uuid and key when given,
/// the slug derived from the name, and the edit time `now`. A record that
/// is not an object is left as it is.
pub fn set_managed(
    record: &mut JsonValue,
    module_uuid: &str,
    document_uuid: &str,
    uuid: Option<&str>,
    key: Option<&str>,
    now: &str,
)
    requires
        old(record).wf(),
    ensures
        final(record).wf(),
        *old(record) is Other ==> *final(record) == *old(record),
        *old(record) matches JsonValue::Object(o) ==> (*final(record) matches JsonValue::Object(f) && f.view()
            == stamped(
            o.view(),
            module_uuid@,
            document_uuid@,
            match uuid {
                Some(u) => Some(u@),
                None => None,
            },
            match key {
                Some(k) => Some(k@),
                None => None,
            },
            now@,
        )),
        *old(record) is Object && old(record)->Object_0.view().contains_key("name"@)
            && old(record)->Object_0.view()["name"@] is Text ==> (*final(record) is Object
            && final(record)->Object_0.view().contains_key("slug"@) && final(record)->Object_0.view()["slug"@]
            == FieldView::Text(
            slug_for_name(
                old(record)->Object_0.view(),
                old(record)->Object_0.view()["name"@]->Text_0,
                match uuid {
                    Some(u) => Some(u@),
                    None => None,
                },
            ),
        )),
{
    proof {
        if let JsonValue::Object(o) = *old(record) {
            if o.view().contains_key("name"@) && o.view()["name"@] is Text {
                lemma_stamp_slug_follows_name(
                    o.view(),
                    module_uuid@,
                    document_uuid@,
                    match uuid {
                        Some(u) => Some(u@),
                        None => None,
                    },
                    match key {
                        Some(k) => Some(k@),
                        None => None,
                    },
                    now@,
                );
            }
        }
    }
    match record {
        JsonValue::Object(obj) => {
            obj.insert("content_module_uuid", FieldValue::Text(String::from_str(module_uuid)));
            if obj.contains_key("document_uuid") {
                obj.insert("document_uuid", FieldValue::Text(String::from_str(document_uuid)));
            }
            match uuid {
                Some(u) => obj.insert("uuid", FieldValue::Text(String::from_str(u))),
                None => {},
            }
            match key {
                Some(k) => obj.insert("key", FieldValue::Text(String::from_str(k))),
                None => {},
            }
            match obj.get_text("name") {
                Some(name) => {
                    let slug = slugify(name.as_str());
                    let slug = if slug.unicode_len() == 0 {
                        match obj.get_text("uuid") {
                            Some(u) => u,
                            None => String::from_str("item"),
                        }
                    } else {
                        slug
                    };
                    obj.insert("slug", FieldValue::Text(slug));
                },
                None => {},
            }
            obj.insert("updated_at", FieldValue::Text(String::from_str(now)));
        },
        JsonValue::Other(_) => {},
    }
}

/// A fresh random uuid from `uuid::Uuid::new_v4`, rendered by its
/// `Display` impl in the hyphenated form of 36 characters, which is
/// already canonical. Which uuid comes out rests on chance, so nothing
/// else is stated of it.
#[verifier::external_body]
pub(crate) fn new_uuid() -> (r: String)
    ensures
        r@.len() == 36,
        uuid_canonical(r@) == Some(r@),
{
    uuid::Uuid::new_v4().to_string()
}

/// The record built from a skeleton and authorable input: the merge, with
/// the managed fields stamped for some uuid `u` (the given one, if any)
/// and key `{category}-{u}`, and the creation time set.
pub open spec fn assembled_from(
    v: JsonValue,
    skeleton: Option<JsonValue>,
    fields: JsonValue,
    category: Seq<char>,
    module_uuid: Seq<char>,
    document_uuid: Seq<char>,
    existing_uuid: Option<Seq<char>>,
    now: Seq<char>,
) -> bool {
    match (skeleton, fields, v) {
        (Some(JsonValue::Object(s)), JsonValue::Object(inc), JsonValue::Object(rec)) => exists|u: Seq<char>|
            (existing_uuid matches Some(e) ==> u == e) && rec.view() == #[trigger] stamped(
                merged(s.view(), inc.view()),
                module_uuid,
                document_uuid,
                Some(u),
                Some(category + "-"@ + u),
                now,
            ).insert("created_at"@, FieldView::Text(now)),
        _ => false,
    }
}

/// Builds a new record from the category's skeleton and the authorable
/// input, then stamps the server-managed fields: the given uuid (a fresh
/// random one when none is given), the key `{category}-{uuid}`, and the
/// creation and edit time `now`. An unknown category (no skeleton) is not
/// found.
pub fn assemble_record(
    category: &str,
    skeleton: Option<JsonValue>,
    fields: &JsonValue,
    module_uuid: &str,
    document_uuid: &str,
    existing_uuid: Option<&str>,
    now: &str,
) -> (r: Result<JsonValue, ApiError>)
    requires
        skeleton matches Some(s) ==> s.wf(),
        fields.wf(),
    ensures
        skeleton is None ==> r matches Err(ApiError::NotFound),
        skeleton matches Some(s) ==> (r is Ok <==> (s is Object && *fields is Object)),
        r matches Ok(v) ==> v.wf() && assembled_from(
            v,
            skeleton,
            *fields,
            category@,
            module_uuid@,
            document_uuid@,
            match existing_uuid {
                Some(e) => Some(e@),
                None => None,
            },
            now@,
        ),
{
    let mut record = match skeleton {
        Some(s) => s,
        None => return Err(ApiError::NotFound),
    };
    let ghost before = record;
    merge_fields(&mut record, fields)?;
    let uuid = match existing_uuid {
        Some(u) => String::from_str(u),
        None => new_uuid(),
    };
    let key = String::from_str(category).concat("-").concat(uuid.as_str());
    let ghost mid = record;
    set_managed(&mut record, module_uuid, document_uuid, Some(uuid.as_str()), Some(key.as_str()), now);
    match &mut record {
        JsonValue::Object(obj) => {
            obj.insert("created_at", FieldValue::Text(String::from_str(now)));
        },
        JsonValue::Other(_) => {},
    }
    proof {
        let u = uuid@;
        assert(existing_uuid matches Some(e) ==> u == e@);
    }
    Ok(record)
}

/// Whether the caller may edit or delete an authored record: they created
/// it or are an admin, and it lives in an editable (`local`) module.
pub fn authorize_edit(
    created_by: &Option<String>,
    user: &CurrentUser,
    origin: Option<ModuleOrigin>,
) -> (r: Result<(), ApiError>)
    ensures
        r is Ok <==> ((created_by matches Some(c) && c@ == user.uuid@) || user.admin) && origin == Some(
            ModuleOrigin::Local,
        ),
        r is Err ==> r matches Err(ApiError::Forbidden),
{
    let is_creator = match created_by {
        Some(c) => str_eq(c.as_str(), user.uuid.as_str()),
        None => false,
    };
    if !is_creator && !user.admin {
        return Err(ApiError::Forbidden);
    }
    match origin {
        Some(ModuleOrigin::Local) => Ok(()),
        _ => Err(ApiError::Forbidden),
    }
}

/// Whether content may be authored into (or moved to) a module: it must
/// exist (else not found) and be `local` (else forbidden).
pub fn check_editable_module(origin: Option<ModuleOrigin>) -> (r: Result<(), ApiError>)
    ensures
        origin == Some(ModuleOrigin::Local) ==> r is Ok,
        origin is None ==> r matches Err(ApiError::NotFound),
        (origin matches Some(o) && o != ModuleOrigin::Local) ==> r matches Err(ApiError::Forbidden),
{
    match origin {
        Some(ModuleOrigin::Local) => Ok(()),
        Some(_) => Err(ApiError::Forbidden),
        None => Err(ApiError::NotFound),
    }
}

/// A record's current attribution document, defaulting to the nil uuid
/// when the stored data is not an object or carries none.
pub fn record_document(data: &JsonValue) -> (r: String)
    requires
        data.wf(),
    ensures
        (data matches JsonValue::Object(o) && o.view().contains_key("document_uuid"@) && o.view()["document_uuid"@] is Text)
            ==> FieldView::Text(r@) == data->Object_0.view()["document_uuid"@],
        !(data matches JsonValue::Object(o) && o.view().contains_key("document_uuid"@) && o.view()["document_uuid"@] is Text)
            ==> r@ == "00000000-0000-0000-0000-000000000000"@,
{
    match data {
        JsonValue::Object(o) => match o.get_text("document_uuid") {
            Some(d) => d,
            None => String::from_str("00000000-0000-0000-0000-000000000000"),
        },
        JsonValue::Other(_) => String::from_str("00000000-0000-0000-0000-000000000000"),
    }
}

} // verus!
