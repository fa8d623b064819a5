//! Lore notes: scope and visibility codecs, who may see, write and
//! author notes, and how a note listing is queried.

use vstd::prelude::*;
use crate::auth::CurrentUser;
use crate::error::ApiError;
use crate::text::{blank, is_blank, join, lowercase, str_eq, to_lowercase, trim, trim_str, views};

verus! {

/// What a lore note is attached to.
#[derive(Clone, Copy, Debug, PartialEq, Eq, Structural)]
pub enum NoteScopeKind {
    Module,
    Setting,
    Campaign,
    Character,
}

/// Who may read a lore note.
#[derive(Clone, Copy, Debug, PartialEq, Eq, Structural)]
pub enum NoteVisibility {
    Visible,
    AuthorOnly,
    GamemasterOnly,
}

pub open spec fn scope_kind_name(k: NoteScopeKind) -> Seq<char> {
    match k {
        NoteScopeKind::Module => "module"@,
        NoteScopeKind::Setting => "setting"@,
        NoteScopeKind::Campaign => "campaign"@,
        NoteScopeKind::Character => "character"@,
    }
}

pub open spec fn scope_kind_of_name(s: Seq<char>) -> Option<NoteScopeKind> {
    if s == "module"@ {
        Some(NoteScopeKind::Module)
    } else if s == "setting"@ {
        Some(NoteScopeKind::Setting)
    } else if s == "campaign"@ {
        Some(NoteScopeKind::Campaign)
    } else if s == "character"@ {
        Some(NoteScopeKind::Character)
    } else {
        None
    }
}

pub open spec fn visibility_name(v: NoteVisibility) -> Seq<char> {
    match v {
        NoteVisibility::Visible => "visible"@,
        NoteVisibility::AuthorOnly => "author_only"@,
        NoteVisibility::GamemasterOnly => "gamemaster_only"@,
    }
}

pub open spec fn visibility_of_name(s: Seq<char>) -> Option<NoteVisibility> {
    if s == "visible"@ {
        Some(NoteVisibility::Visible)
    } else if s == "author_only"@ {
        Some(NoteVisibility::AuthorOnly)
    } else if s == "gamemaster_only"@ {
        Some(NoteVisibility::GamemasterOnly)
    } else {
        None
    }
}

pub fn scope_kind_to_str(kind: NoteScopeKind) -> (r: &'static str)
    ensures
        r@ == scope_kind_name(kind),
{
    match kind {
        NoteScopeKind::Module => "module",
        NoteScopeKind::Setting => "setting",
        NoteScopeKind::Campaign => "campaign",
        NoteScopeKind::Character => "character",
    }
}

/// Decodes a stored scope kind; an unknown name in the database is an
/// internal error.
pub fn scope_kind_from_str(s: &str) -> (r: Result<NoteScopeKind, ApiError>)
    ensures
        scope_kind_of_name(s@) matches Some(k) ==> r == Ok::<NoteScopeKind, ApiError>(k),
        scope_kind_of_name(s@) is None ==> (r matches Err(ApiError::Internal(m)) && m@
            == "unknown scope_kind in database: "@ + s@),
{
    if str_eq(s, "module") {
        Ok(NoteScopeKind::Module)
    } else if str_eq(s, "setting") {
        Ok(NoteScopeKind::Setting)
    } else if str_eq(s, "campaign") {
        Ok(NoteScopeKind::Campaign)
    } else if str_eq(s, "character") {
        Ok(NoteScopeKind::Character)
    } else {
        Err(ApiError::Internal(String::from_str("unknown scope_kind in database: ").concat(s)))
    }
}

/// Accepts exactly the four scope kind names.
pub fn validate_scope_kind(s: &str) -> (r: Result<(), ApiError>)
    ensures
        r is Ok <==> scope_kind_of_name(s@) is Some,
        r is Err ==> (r matches Err(ApiError::Internal(m)) && m@ == "unknown scope_kind in database: "@ + s@),
{
    match scope_kind_from_str(s) {
        Ok(_) => Ok(()),
        Err(e) => Err(e),
    }
}

pub fn visibility_to_str(v: NoteVisibility) -> (r: &'static str)
    ensures
        r@ == visibility_name(v),
{
    match v {
        NoteVisibility::Visible => "visible",
        NoteVisibility::AuthorOnly => "author_only",
        NoteVisibility::GamemasterOnly => "gamemaster_only",
    }
}

/// Decodes a stored visibility; an unknown name in the database is an
/// internal error.
pub fn visibility_from_str(s: &str) -> (r: Result<NoteVisibility, ApiError>)
    ensures
        visibility_of_name(s@) matches Some(v) ==> r == Ok::<NoteVisibility, ApiError>(v),
        visibility_of_name(s@) is None ==> (r matches Err(ApiError::Internal(m)) && m@
            == "unknown visibility in database: "@ + s@),
{
    if str_eq(s, "visible") {
        Ok(NoteVisibility::Visible)
    } else if str_eq(s, "author_only") {
        Ok(NoteVisibility::AuthorOnly)
    } else if str_eq(s, "gamemaster_only") {
        Ok(NoteVisibility::GamemasterOnly)
    } else {
        Err(ApiError::Internal(String::from_str("unknown visibility in database: ").concat(s)))
    }
}

/// Storing a scope kind or a visibility by name and decoding the name
/// gives it back; and only stored names decode.
pub proof fn lemma_note_codecs_round_trip(k: NoteScopeKind, v: NoteVisibility, s: Seq<char>)
    ensures
        scope_kind_of_name(scope_kind_name(k)) == Some(k),
        visibility_of_name(visibility_name(v)) == Some(v),
        scope_kind_of_name(s) matches Some(k2) ==> scope_kind_name(k2) == s,
        visibility_of_name(s) matches Some(v2) ==> visibility_name(v2) == s,
{
    reveal_strlit("module");
    reveal_strlit("setting");
    reveal_strlit("campaign");
    reveal_strlit("character");
    reveal_strlit("visible");
    reveal_strlit("author_only");
    reveal_strlit("gamemaster_only");
    assert("module"@.len() == 6 && "setting"@.len() == 7 && "campaign"@.len() == 8 && "character"@.len() == 9);
    assert("visible"@.len() == 7 && "author_only"@.len() == 11 && "gamemaster_only"@.len() == 15);
}

/// Whether a user may read a note: visible notes are readable by anyone
/// authenticated; author-only and gamemaster-only notes only by their
/// creator. A note whose creator was deleted is readable by no one
/// unless visible.
pub open spec fn may_view(visibility: NoteVisibility, creator: Option<Seq<char>>, user: Seq<char>) -> bool {
    match visibility {
        NoteVisibility::Visible => true,
        _ => creator == Some(user),
    }
}

pub fn can_view(visibility: NoteVisibility, creator: &Option<String>, user: &CurrentUser) -> (r: bool)
    ensures
        r == may_view(
            visibility,
            match creator {
                Some(c) => Some(c@),
                None => None,
            },
            user.uuid@,
        ),
{
    match visibility {
        NoteVisibility::Visible => true,
        _ => match creator {
            Some(c) => str_eq(c.as_str(), user.uuid.as_str()),
            None => false,
        },
    }
}

/// Notes shown on a public module page: only `visible` ones.
pub fn note_is_publicly_visible(visibility: &str) -> (r: bool)
    ensures
        r == (visibility@ == "visible"@),
{
    str_eq(visibility, "visible")
}

/// A note may be changed or removed only by its creator.
pub fn require_note_creator(creator: &Option<String>, user: &CurrentUser) -> (r: Result<(), ApiError>)
    ensures
        r is Ok <==> (creator matches Some(c) && c@ == user.uuid@),
        r is Err ==> r matches Err(ApiError::Unauthorized),
{
    match creator {
        Some(c) => {
            if str_eq(c.as_str(), user.uuid.as_str()) {
                Ok(())
            } else {
                Err(ApiError::Unauthorized)
            }
        },
        None => Err(ApiError::Unauthorized),
    }
}

/// A new note needs a non-blank title; it is stored trimmed.
pub fn note_title(title: &str) -> (r: Result<String, ApiError>)
    ensures
        r is Ok <==> !is_blank(title@),
        r matches Ok(t) ==> t@ == trim(title@),
        r matches Err(e) ==> (e matches ApiError::BadRequest(m) && m@ == "title is required"@),
{
    if blank(title) {
        return Err(ApiError::BadRequest(String::from_str("title is required")));
    }
    Ok(trim_str(title))
}

/// Where the owner-or-collaborator check of a setting-scope note stands
/// after the database lookups: the setting's owner (if the setting
/// exists) and whether the caller collaborates on it.
pub struct SettingAccess {
    pub exists: bool,
    pub owner_is_caller: bool,
    pub caller_collaborates: bool,
}

/// The access a caller has to a setting, from its owner column (the outer
/// `None` when no such setting exists) and whether the caller is listed
/// as a collaborator. A setting whose owner was deleted is owned by no
/// one.
pub fn setting_access(owner: &Option<Option<String>>, collaborates: bool, user: &CurrentUser) -> (r: SettingAccess)
    ensures
        r.exists == owner is Some,
        r.owner_is_caller == (owner matches Some(Some(o)) && o@ == user.uuid@),
        r.caller_collaborates == collaborates,
{
    let owner_is_caller = match owner {
        Some(Some(o)) => str_eq(o.as_str(), user.uuid.as_str()),
        _ => false,
    };
    SettingAccess { exists: owner.is_some(), owner_is_caller, caller_collaborates: collaborates }
}

/// The changes a note edit makes: each field given replaces the stored
/// one (a title trimmed), each field absent is kept.
pub struct NotePatch {
    pub title: Option<String>,
    pub body_markdown: Option<String>,
    pub visibility: Option<&'static str>,
}

pub fn note_patch(title: Option<&str>, body_markdown: Option<String>, visibility: Option<NoteVisibility>) -> (r:
    NotePatch)
    ensures
        title is None ==> r.title is None,
        title is Some ==> (r.title matches Some(t) && t@ == trim(title->Some_0@)),
        r.body_markdown == body_markdown,
        visibility is None ==> r.visibility is None,
        visibility is Some ==> (r.visibility matches Some(v) && v@ == visibility_name(visibility->Some_0)),
{
    let title = match title {
        Some(t) => Some(trim_str(t)),
        None => None,
    };
    let visibility = match visibility {
        Some(v) => Some(visibility_to_str(v)),
        None => None,
    };
    NotePatch { title, body_markdown, visibility }
}

/// Whether the caller may author a note in the given scope. Setting scope
/// needs an existing setting the caller owns or collaborates on; module
/// notes are created only by publishing; campaign and character scopes
/// are not supported yet.
pub fn scope_authorization(
    kind: NoteScopeKind,
    target_uuid: &str,
    access: &SettingAccess,
) -> (r: Result<(), ApiError>)
    ensures
        kind == NoteScopeKind::Setting && !access.exists ==> (r matches Err(ApiError::BadRequest(m)) && m@
            == "no setting with uuid "@ + target_uuid@ + " exists"@),
        kind == NoteScopeKind::Setting && access.exists ==> (r is Ok <==> access.owner_is_caller
            || access.caller_collaborates),
        kind == NoteScopeKind::Setting && access.exists && !(access.owner_is_caller
            || access.caller_collaborates) ==> r matches Err(ApiError::Unauthorized),
        kind == NoteScopeKind::Module ==> (r matches Err(ApiError::BadRequest(m)) && m@
            == "module-scope notes are created only via the Promote-to-Module endpoint"@),
        (kind == NoteScopeKind::Campaign || kind == NoteScopeKind::Character) ==> (r matches Err(
            ApiError::BadRequest(m),
        ) && m@ == "campaign- and character-scope notes are not yet supported"@),
{
    match kind {
        NoteScopeKind::Setting => {
            if !access.exists {
                let m = String::from_str("no setting with uuid ").concat(target_uuid);
                return Err(ApiError::BadRequest(m.concat(" exists")));
            }
            if access.owner_is_caller || access.caller_collaborates {
                Ok(())
            } else {
                Err(ApiError::Unauthorized)
            }
        },
        NoteScopeKind::Module => Err(
            ApiError::BadRequest(
                String::from_str("module-scope notes are created only via the Promote-to-Module endpoint"),
            ),
        ),
        _ => Err(
            ApiError::BadRequest(String::from_str("campaign- and character-scope notes are not yet supported")),
        ),
    }
}

/// `value.clamp(lo, hi)` for `lo <= hi`.
pub open spec fn clamp(value: int, lo: int, hi: int) -> int {
    if value < lo {
        lo
    } else if value > hi {
        hi
    } else {
        value
    }
}

/// Filters of `GET /api/lore-notes`.
pub struct LoreNoteListQuery {
    pub scope_kind: Option<String>,
    pub scope_target: Option<String>,
    pub tag: Option<String>,
    pub limit: Option<i64>,
}

/// The page size of a note listing: 100 by default, between 1 and 500.
pub fn note_list_limit(limit: Option<i64>) -> (r: i64)
    ensures
        r == clamp(
            match limit {
                Some(l) => l as int,
                None => 100,
            },
            1,
            500,
        ),
{
    let l = match limit {
        Some(l) => l,
        None => 100,
    };
    if l < 1 {
        1
    } else if l > 500 {
        500
    } else {
        l
    }
}

/// A parameterized query: its SQL text and its bound values in order
/// (the row limit binds last).
pub struct NoteQuery {
    pub sql: String,
    pub binds: Vec<String>,
    pub limit: i64,
}

pub open spec fn note_list_select() -> Seq<char> {
    "SELECT n.uuid, n.title, n.body_markdown, n.scope_kind, n.scope_target_uuid, n.visibility, n.derived_from_setting_note_uuid, n.created_by_user_uuid, n.created_at, n.updated_at FROM lore_note n"@
}

pub open spec fn tag_join() -> Seq<char> {
    " JOIN tag_attachment_lore_note tan ON tan.lore_note_uuid = n.uuid JOIN tag t ON t.uuid = tan.tag_uuid"@
}

/// Per-note visibility condition: visible notes, plus the caller's own.
pub open spec fn visibility_predicate() -> Seq<char> {
    "(n.visibility = 'visible' OR n.created_by_user_uuid = ?)"@
}

pub open spec fn opt_one<T>(present: bool, x: T) -> Seq<T> {
    if present {
        seq![x]
    } else {
        Seq::empty()
    }
}

/// The filter conditions of a note listing, in order.
pub open spec fn note_list_conditions(q: LoreNoteListQuery) -> Seq<Seq<char>> {
    opt_one(q.scope_kind is Some, "n.scope_kind = ?"@) + opt_one(q.scope_target is Some, "n.scope_target_uuid = ?"@)
        + opt_one(q.tag matches Some(t) && t@.len() > 0, "t.slug = ?"@) + seq![visibility_predicate()]
}

/// The values bound to those conditions, in order.
pub open spec fn note_list_binds(q: LoreNoteListQuery, user: Seq<char>) -> Seq<Seq<char>> {
    opt_one(q.scope_kind is Some, q.scope_kind.unwrap()@) + opt_one(q.scope_target is Some, q.scope_target.unwrap()@)
        + opt_one(q.tag matches Some(t) && t@.len() > 0, lowercase(q.tag.unwrap()@)) + seq![user]
}

/// The values a note listing binds line up with its conditions, one per
/// condition and in the same order: the scope kind given for the kind
/// condition, the target for the target condition, the lower-cased tag
/// for the tag condition, and the caller for the visibility condition.
pub proof fn lemma_note_list_binds_line_up(q: LoreNoteListQuery, user: Seq<char>)
    ensures
        ({
            let c = note_list_conditions(q);
            let b = note_list_binds(q, user);
            &&& b.len() == c.len()
            &&& forall|i: int|
                0 <= i < c.len() && #[trigger] c[i] == "n.scope_kind = ?"@ ==> q.scope_kind is Some && b[i]
                    == q.scope_kind.unwrap()@
            &&& forall|i: int|
                0 <= i < c.len() && #[trigger] c[i] == "n.scope_target_uuid = ?"@ ==> q.scope_target is Some
                    && b[i] == q.scope_target.unwrap()@
            &&& forall|i: int|
                0 <= i < c.len() && #[trigger] c[i] == "t.slug = ?"@ ==> q.tag is Some && b[i] == lowercase(
                    q.tag.unwrap()@,
                )
            &&& forall|i: int| 0 <= i < c.len() && #[trigger] c[i] == visibility_predicate() ==> b[i] == user
        }),
{
    let kc = "n.scope_kind = ?"@;
    let tc = "n.scope_target_uuid = ?"@;
    let gc = "t.slug = ?"@;
    let vc = visibility_predicate();
    reveal_strlit("n.scope_kind = ?");
    reveal_strlit("n.scope_target_uuid = ?");
    reveal_strlit("t.slug = ?");
    reveal_strlit("(n.visibility = 'visible' OR n.created_by_user_uuid = ?)");
    assert(kc != tc) by {
        assert(kc[8] != tc[8]);
    }
    assert(kc != gc && tc != gc) by {
        assert(kc[0] != gc[0]);
        assert(tc[0] != gc[0]);
    }
    assert(kc != vc && tc != vc && gc != vc) by {
        assert(kc[0] != vc[0]);
        assert(tc[0] != vc[0]);
        assert(gc[0] != vc[0]);
    }
    let has_tag = q.tag matches Some(t) && t@.len() > 0;
    let x = opt_one(q.scope_kind is Some, kc);
    let y = opt_one(q.scope_target is Some, tc);
    let z = opt_one(has_tag, gc);
    let xb = opt_one(q.scope_kind is Some, q.scope_kind.unwrap()@);
    let yb = opt_one(q.scope_target is Some, q.scope_target.unwrap()@);
    let zb = opt_one(has_tag, lowercase(q.tag.unwrap()@));
    let c = note_list_conditions(q);
    let b = note_list_binds(q, user);
    assert(c =~= x + y + z + seq![vc]);
    assert(b =~= xb + yb + zb + seq![user]);
    assert forall|i: int| 0 <= i < c.len() implies (c[i] == kc ==> q.scope_kind is Some && b[i]
        == q.scope_kind.unwrap()@) && (c[i] == tc ==> q.scope_target is Some && b[i] == q.scope_target.unwrap()@) && (
    c[i] == gc ==> q.tag is Some && b[i] == lowercase(q.tag.unwrap()@)) && (c[i] == vc ==> b[i] == user) by {
        if i < x.len() {
            assert(c[i] == kc && b[i] == q.scope_kind.unwrap()@);
        } else if i < x.len() + y.len() {
            assert(c[i] == tc && b[i] == q.scope_target.unwrap()@);
        } else if i < x.len() + y.len() + z.len() {
            assert(c[i] == gc && b[i] == lowercase(q.tag.unwrap()@));
        } else {
            assert(c[i] == vc && b[i] == user);
        }
    }
}

pub open spec fn note_list_sql(q: LoreNoteListQuery) -> Seq<char> {
    note_list_select() + (if q.tag matches Some(t) && t@.len() > 0 {
        tag_join()
    } else {
        Seq::empty()
    }) + " WHERE "@ + join(note_list_conditions(q), " AND "@) + " ORDER BY n.updated_at DESC LIMIT ?"@
}

/// The query behind `GET /api/lore-notes`: optional scope-kind, target and
/// tag filters (a tag slug is matched lower-cased), always the visibility
/// filter for the caller, newest first. An unknown scope kind is refused.
pub fn note_list_query(q: &LoreNoteListQuery, user_uuid: &str) -> (r: Result<NoteQuery, ApiError>)
    ensures
        q.scope_kind matches Some(k) && scope_kind_of_name(k@) is None ==> r is Err,
        r is Ok <==> !(q.scope_kind matches Some(k) && scope_kind_of_name(k@) is None),
        r matches Ok(nq) ==> {
            &&& nq.sql@ == note_list_sql(*q)
            &&& views(nq.binds@) == note_list_binds(*q, user_uuid@)
            &&& nq.limit == clamp(
                match q.limit {
                    Some(l) => l as int,
                    None => 100,
                },
                1,
                500,
            )
        },
{
    let limit = note_list_limit(q.limit);
    let mut conds: Vec<String> = Vec::new();
    let mut binds: Vec<String> = Vec::new();
    let mut joins = String::new();
    match &q.scope_kind {
        Some(k) => {
            validate_scope_kind(k.as_str())?;
            conds.push(String::from_str("n.scope_kind = ?"));
            binds.push(k.clone());
        },
        None => {},
    }
    match &q.scope_target {
        Some(t) => {
            conds.push(String::from_str("n.scope_target_uuid = ?"));
            binds.push(t.clone());
        },
        None => {},
    }
    let has_tag = match &q.tag {
        Some(t) => t.unicode_len() > 0,
        None => false,
    };
    if has_tag {
        let t = q.tag.as_ref().unwrap();
        joins = joins.concat(
            " JOIN tag_attachment_lore_note tan ON tan.lore_note_uuid = n.uuid JOIN tag t ON t.uuid = tan.tag_uuid",
        );
        conds.push(String::from_str("t.slug = ?"));
        binds.push(to_lowercase(t.as_str()));
    }
    conds.push(String::from_str("(n.visibility = 'visible' OR n.created_by_user_uuid = ?)"));
    binds.push(String::from_str(user_uuid));
    assert(views(conds@) =~= note_list_conditions(*q));
    assert(views(binds@) =~= note_list_binds(*q, user_uuid@));
    let sql = String::from_str(
        "SELECT n.uuid, n.title, n.body_markdown, n.scope_kind, n.scope_target_uuid, n.visibility, n.derived_from_setting_note_uuid, n.created_by_user_uuid, n.created_at, n.updated_at FROM lore_note n",
    );
    let sql = sql.concat(joins.as_str());
    let sql = sql.concat(" WHERE ");
    let sql = sql.concat(crate::text::join_strings(&conds, " AND ").as_str());
    let sql = sql.concat(" ORDER BY n.updated_at DESC LIMIT ?");
    Ok(NoteQuery { sql, binds, limit })
}

} // verus!
