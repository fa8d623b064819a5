//! The rules behind the web pages: the dice of the roller, breadcrumb
//! trails, which navigation item is highlighted for a path, and the
//! stylesheet's cache-busting token.

use vstd::prelude::*;
use crate::content::display_category_names;
use crate::text::{decimal, decimal_string, digit_char, starts_with, str_eq};

verus! {

/// The server's display name, as shown in page titles.
pub struct InstanceName(pub String);

/// Cache-busting token appended to the stylesheet URL (`?v=...`).
pub struct StyleVersion(pub String);

impl StyleVersion {
    /// The token for a stylesheet last modified `mtime_secs` seconds after
    /// the Unix epoch: those seconds in decimal, or the package version
    /// when the time could not be read.
    pub fn from_mtime(mtime_secs: Option<u64>, package_version: &str) -> (r: StyleVersion)
        ensures
            mtime_secs matches Some(s) ==> r.0@ == decimal(s as nat),
            mtime_secs is None ==> r.0@ == package_version@,
    {
        match mtime_secs {
            Some(s) => StyleVersion(decimal_string(s)),
            None => StyleVersion(String::from_str(package_version)),
        }
    }

    /// An asset's URL carrying this token, so a changed asset is fetched
    /// afresh (`/assets/style.css?v=...`).
    pub fn asset_href(&self, path: &str) -> (r: String)
        ensures
            r@ == path@ + "?v="@ + self.0@,
    {
        String::from_str(path).concat("?v=").concat(self.0.as_str())
    }
}

/// The dice of the roller.
#[derive(Clone, Copy, Debug, PartialEq, Eq, Structural)]
pub enum DiceType {
    D4,
    D6,
    D8,
    D10,
    D100,
    D12,
    D20,
}

pub open spec fn dice_sides(d: DiceType) -> nat {
    match d {
        DiceType::D4 => 4,
        DiceType::D6 => 6,
        DiceType::D8 => 8,
        DiceType::D10 => 10,
        DiceType::D100 => 100,
        DiceType::D12 => 12,
        DiceType::D20 => 20,
    }
}

/// A die is labelled `d` followed by its number of sides.
pub open spec fn dice_label(d: DiceType) -> Seq<char> {
    "d"@ + decimal(dice_sides(d))
}

/// The dice in the roller's order.
pub open spec fn dice_order() -> Seq<DiceType> {
    seq![
        DiceType::D4,
        DiceType::D6,
        DiceType::D8,
        DiceType::D10,
        DiceType::D100,
        DiceType::D12,
        DiceType::D20,
    ]
}

impl DiceType {
    /// Every die, in the roller's order.
    pub fn all() -> (r: Vec<DiceType>)
        ensures
            r@ == dice_order(),
    {
        let r = vec![
            DiceType::D4,
            DiceType::D6,
            DiceType::D8,
            DiceType::D10,
            DiceType::D100,
            DiceType::D12,
            DiceType::D20,
        ];
        assert(r@ =~= dice_order());
        r
    }

    pub fn label(self) -> (r: &'static str)
        ensures
            r@ == dice_label(self),
    {
        proof {
            reveal_with_fuel(decimal, 3);
        }
        match self {
            DiceType::D4 => {
                proof {
                    reveal_strlit("d4");
                    reveal_strlit("d");
                    assert("d"@ + decimal(4) =~= "d4"@);
                }
                "d4"
            },
            DiceType::D6 => {
                proof {
                    reveal_strlit("d6");
                    reveal_strlit("d");
                    assert("d"@ + decimal(6) =~= "d6"@);
                }
                "d6"
            },
            DiceType::D8 => {
                proof {
                    reveal_strlit("d8");
                    reveal_strlit("d");
                    assert("d"@ + decimal(8) =~= "d8"@);
                }
                "d8"
            },
            DiceType::D10 => {
                proof {
                    reveal_strlit("d10");
                    reveal_strlit("d");
                    assert("d"@ + decimal(10) =~= "d10"@);
                }
                "d10"
            },
            DiceType::D100 => {
                proof {
                    reveal_strlit("d100");
                    reveal_strlit("d");
                    assert("d"@ + decimal(100) =~= "d100"@);
                }
                "d100"
            },
            DiceType::D12 => {
                proof {
                    reveal_strlit("d12");
                    reveal_strlit("d");
                    assert("d"@ + decimal(12) =~= "d12"@);
                }
                "d12"
            },
            DiceType::D20 => {
                proof {
                    reveal_strlit("d20");
                    reveal_strlit("d");
                    assert("d"@ + decimal(20) =~= "d20"@);
                }
                "d20"
            },
        }
    }

    pub fn sides(self) -> (r: u32)
        ensures
            r == dice_sides(self),
    {
        match self {
            DiceType::D4 => 4,
            DiceType::D6 => 6,
            DiceType::D8 => 8,
            DiceType::D10 => 10,
            DiceType::D100 => 100,
            DiceType::D12 => 12,
            DiceType::D20 => 20,
        }
    }
}

/// Reads the number of sides back from a label of two to four characters.
spec fn sides_of_label(label: Seq<char>) -> int {
    if label.len() == 2 {
        label[1] as int - 48
    } else if label.len() == 3 {
        (label[1] as int - 48) * 10 + (label[2] as int - 48)
    } else {
        100
    }
}

proof fn lemma_label_gives_sides(d: DiceType)
    ensures
        sides_of_label(dice_label(d)) == dice_sides(d),
{
    reveal_with_fuel(decimal, 3);
    reveal_strlit("d");
    let n = dice_sides(d);
    if n < 10 {
        assert(dice_label(d) =~= seq!['d', digit_char(n)]);
    } else if n < 100 {
        assert(decimal(n) =~= seq![digit_char(n / 10), digit_char(n % 10)]);
        assert(dice_label(d) =~= seq!['d', digit_char(n / 10), digit_char(n % 10)]);
    } else {
        assert(decimal(n).len() == 3);
        assert(dice_label(d).len() == 4);
    }
}

/// The roller offers every die exactly once, and no two dice share a
/// label.
pub proof fn lemma_dice_listed_once(d: DiceType, e: DiceType)
    ensures
        dice_order().contains(d),
        dice_order().no_duplicates(),
        d != e ==> dice_label(d) != dice_label(e),
{
    assert(dice_order()[0] == DiceType::D4);
    assert(dice_order()[1] == DiceType::D6);
    assert(dice_order()[2] == DiceType::D8);
    assert(dice_order()[3] == DiceType::D10);
    assert(dice_order()[4] == DiceType::D100);
    assert(dice_order()[5] == DiceType::D12);
    assert(dice_order()[6] == DiceType::D20);
    lemma_label_gives_sides(d);
    lemma_label_gives_sides(e);
}

/// One segment of a breadcrumb trail. A segment with `href` links up the
/// hierarchy; one with `id` has its label filled in by the page script.
pub struct Crumb {
    pub label: String,
    pub href: Option<String>,
    pub id: Option<&'static str>,
}

/// The label a filled-in segment shows until the page script names it.
pub open spec fn ellipsis() -> Seq<char> {
    seq!['\u{2026}']
}

impl Crumb {
    /// Intermediate segment linking back up the hierarchy.
    pub fn link(label: &str, href: &str) -> (r: Crumb)
        ensures
            r.label@ == label@,
            r.href matches Some(h) && h@ == href@,
            r.id is None,
    {
        Crumb { label: String::from_str(label), href: Some(String::from_str(href)), id: None }
    }

    /// Static current-page segment.
    pub fn here(label: &str) -> (r: Crumb)
        ensures
            r.label@ == label@,
            r.href is None,
            r.id is None,
    {
        Crumb { label: String::from_str(label), href: None, id: None }
    }

    /// Current-page segment whose label the page script fills in.
    pub fn slot(id: &'static str) -> (r: Crumb)
        ensures
            r.label@ == ellipsis(),
            r.href is None,
            r.id == Some(id),
    {
        let mut label = String::new();
        crate::text::push_char(&mut label, '\u{2026}');
        assert(label@ =~= ellipsis());
        Crumb { label, href: None, id: Some(id) }
    }

    /// Linked segment whose label the page script fills in.
    pub fn link_slot(id: &'static str, href: &str) -> (r: Crumb)
        ensures
            r.label@ == ellipsis(),
            r.href matches Some(h) && h@ == href@,
            r.id == Some(id),
    {
        let mut label = String::new();
        crate::text::push_char(&mut label, '\u{2026}');
        assert(label@ =~= ellipsis());
        Crumb { label, href: Some(String::from_str(href)), id: Some(id) }
    }
}

/// A rendered breadcrumb segment: the last segment, when it is not a
/// link, is marked as the current page.
pub struct CrumbItem {
    pub crumb: Crumb,
    pub current_page: bool,
}

/// Whether segment `index` of a trail of `len` is marked as the page.
pub open spec fn marks_page(href: Option<String>, index: int, len: int) -> bool {
    href is None && index == (if len > 0 { len - 1 } else { 0 })
}

/// Renders a trail in order, marking the current page.
pub fn breadcrumb_items(trail: Vec<Crumb>) -> (r: Vec<CrumbItem>)
    ensures
        r@.len() == trail@.len(),
        forall|i: int|
            0 <= i < r@.len() ==> {
                &&& (#[trigger] r@[i]).crumb == trail@[i]
                &&& r@[i].current_page == marks_page(trail@[i].href, i, trail@.len() as int)
            },
{
    let len = trail.len();
    let last: usize = if len > 0 { len - 1 } else { 0 };
    let ghost given = trail@;
    let mut items: Vec<CrumbItem> = Vec::new();
    let mut rest = trail;
    let mut index: usize = 0;
    while rest.len() > 0
        invariant
            len == given.len(),
            last == (if len > 0 { len - 1 } else { 0 }),
            index + rest@.len() == len,
            items@.len() == index,
            rest@ == given.subrange(index as int, len as int),
            forall|i: int|
                0 <= i < index ==> {
                    &&& (#[trigger] items@[i]).crumb == given[i]
                    &&& items@[i].current_page == marks_page(given[i].href, i, len as int)
                },
        decreases rest@.len(),
    {
        let crumb = rest.remove(0);
        assert(crumb == given[index as int]);
        let current_page = crumb.href.is_none() && index == last;
        items.push(CrumbItem { crumb, current_page });
        index = index + 1;
        assert(rest@ =~= given.subrange(index as int, len as int));
    }
    items
}

/// A top-level navigation item is active on its own subtree; the home
/// item only on `/` itself.
pub open spec fn nav_active(current: Seq<char>, prefix: Seq<char>) -> bool {
    if prefix == "/"@ {
        current == "/"@
    } else {
        prefix.len() <= current.len() && current.subrange(0, prefix.len() as int) == prefix
    }
}

pub fn nav_item_class(current: &str, prefix: &str) -> (r: &'static str)
    ensures
        nav_active(current@, prefix@) ==> r@ == "lw-nav-item lw-nav-item-active"@,
        !nav_active(current@, prefix@) ==> r@ == "lw-nav-item"@,
{
    let active = if str_eq(prefix, "/") {
        str_eq(current, "/")
    } else {
        starts_with(current, prefix)
    };
    if active {
        "lw-nav-item lw-nav-item-active"
    } else {
        "lw-nav-item"
    }
}

/// The dice roller's button is highlighted on `/roll` only.
pub fn dice_button_class(current: &str) -> (r: &'static str)
    ensures
        current@ == "/roll"@ ==> r@ == "lw-nav-dice-btn lw-nav-dice-btn-active"@,
        current@ != "/roll"@ ==> r@ == "lw-nav-dice-btn"@,
{
    if str_eq(current, "/roll") {
        "lw-nav-dice-btn lw-nav-dice-btn-active"
    } else {
        "lw-nav-dice-btn"
    }
}

pub open spec fn has_prefix(s: Seq<char>, prefix: Seq<char>) -> bool {
    prefix.len() <= s.len() && s.subrange(0, prefix.len() as int) == prefix
}

/// Admin sub-items show only under `/settings`; the page itself is
/// highlighted.
pub fn settings_subitem_class(current: &str, path: &str) -> (r: &'static str)
    ensures
        !has_prefix(current@, "/settings"@) ==> r@ == "lw-nav-subitem lw-hidden"@,
        has_prefix(current@, "/settings"@) && current@ == path@ ==> r@
            == "lw-nav-item lw-nav-subitem lw-nav-item-active"@,
        has_prefix(current@, "/settings"@) && current@ != path@ ==> r@ == "lw-nav-item lw-nav-subitem"@,
{
    if !starts_with(current, "/settings") {
        "lw-nav-subitem lw-hidden"
    } else if str_eq(current, path) {
        "lw-nav-item lw-nav-subitem lw-nav-item-active"
    } else {
        "lw-nav-item lw-nav-subitem"
    }
}

/// Compendium sub-items show only under `/compendium`; a category stays
/// highlighted on its entry pages.
pub fn compendium_subitem_class(current: &str, path: &str) -> (r: &'static str)
    ensures
        !has_prefix(current@, "/compendium"@) ==> r@ == "lw-nav-subitem lw-hidden"@,
        has_prefix(current@, "/compendium"@) && (current@ == path@ || has_prefix(current@, path@ + "/"@))
            ==> r@ == "lw-nav-item lw-nav-subitem lw-nav-item-active"@,
        has_prefix(current@, "/compendium"@) && !(current@ == path@ || has_prefix(
            current@,
            path@ + "/"@,
        )) ==> r@ == "lw-nav-item lw-nav-subitem"@,
{
    if !starts_with(current, "/compendium") {
        return "lw-nav-subitem lw-hidden";
    }
    let entry_prefix = String::from_str(path).concat("/");
    if str_eq(current, path) || starts_with(current, entry_prefix.as_str()) {
        "lw-nav-item lw-nav-subitem lw-nav-item-active"
    } else {
        "lw-nav-item lw-nav-subitem"
    }
}

/// The menu labels of the compendium categories, in the tiles' order.
pub open spec fn compendium_labels() -> Seq<Seq<char>> {
    seq![
        "Spells"@,
        "Creatures"@,
        "Classes & subclasses"@,
        "Species"@,
        "Backgrounds"@,
        "Feats"@,
        "Items & gear"@,
        "Weapons"@,
        "Armor"@,
        "Conditions"@,
        "Languages"@,
    ]
}

/// The compendium categories of the navigation: path and label, in the
/// tiles' order.
pub fn compendium_subitems() -> (r: Vec<(&'static str, &'static str)>)
    ensures
        r@.len() == display_category_names().len(),
        forall|i: int|
            0 <= i < r@.len() ==> (#[trigger] r@[i]).0@ == "/compendium/"@ + display_category_names()[i],
        forall|i: int| 0 <= i < r@.len() ==> (#[trigger] r@[i]).1@ == compendium_labels()[i],
{
    let r = vec![
        ("/compendium/spell", "Spells"),
        ("/compendium/creature", "Creatures"),
        ("/compendium/class", "Classes & subclasses"),
        ("/compendium/species", "Species"),
        ("/compendium/background", "Backgrounds"),
        ("/compendium/feat", "Feats"),
        ("/compendium/item", "Items & gear"),
        ("/compendium/weapon", "Weapons"),
        ("/compendium/armor", "Armor"),
        ("/compendium/condition", "Conditions"),
        ("/compendium/language", "Languages"),
    ];
    proof {
        reveal_strlit("/compendium/");
        reveal_strlit("spell");
        reveal_strlit("creature");
        reveal_strlit("class");
        reveal_strlit("species");
        reveal_strlit("background");
        reveal_strlit("feat");
        reveal_strlit("item");
        reveal_strlit("weapon");
        reveal_strlit("armor");
        reveal_strlit("condition");
        reveal_strlit("language");
        reveal_strlit("/compendium/spell");
        reveal_strlit("/compendium/creature");
        reveal_strlit("/compendium/class");
        reveal_strlit("/compendium/species");
        reveal_strlit("/compendium/background");
        reveal_strlit("/compendium/feat");
        reveal_strlit("/compendium/item");
        reveal_strlit("/compendium/weapon");
        reveal_strlit("/compendium/armor");
        reveal_strlit("/compendium/condition");
        reveal_strlit("/compendium/language");
        assert("/compendium/spell"@ =~= "/compendium/"@ + "spell"@);
        assert("/compendium/creature"@ =~= "/compendium/"@ + "creature"@);
        assert("/compendium/class"@ =~= "/compendium/"@ + "class"@);
        assert("/compendium/species"@ =~= "/compendium/"@ + "species"@);
        assert("/compendium/background"@ =~= "/compendium/"@ + "background"@);
        assert("/compendium/feat"@ =~= "/compendium/"@ + "feat"@);
        assert("/compendium/item"@ =~= "/compendium/"@ + "item"@);
        assert("/compendium/weapon"@ =~= "/compendium/"@ + "weapon"@);
        assert("/compendium/armor"@ =~= "/compendium/"@ + "armor"@);
        assert("/compendium/condition"@ =~= "/compendium/"@ + "condition"@);
        assert("/compendium/language"@ =~= "/compendium/"@ + "language"@);
    }
    r
}

} // verus!
