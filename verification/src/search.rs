//! The suggestion list shown while a new tab is composed.
//!
//! The list holds candidate destinations in relevance order, a loading
//! flag for a future asynchronous provider, and an optional selection
//! position. Entries with an empty destination are filtered out at
//! ingestion, and a candidate list is installed only when it differs by
//! value from the stored one, so an unchanged list never re-renders.

use vstd::prelude::*;

verus! {

/// Where a selection points into the list: a section and a row, the way
/// the list widget addresses its items.
#[derive(Clone, Copy, PartialEq, Eq, Structural, Debug)]
pub struct IndexPath {
    pub section: usize,
    pub row: usize,
}

impl Default for IndexPath {
    /// The top of the list.
    fn default() -> (r: Self)
        ensures
            r == (IndexPath { section: 0, row: 0 }),
    {
        IndexPath { section: 0, row: 0 }
    }
}

/// The icon shown beside a suggestion: a named built-in icon or a
/// custom icon reference; exactly one of the two.
pub enum SearchIcon {
    Name(String),
    Custom(String),
}

/// The mathematical value of a [`SearchIcon`].
pub enum SearchIconView {
    Name(Seq<char>),
    Custom(Seq<char>),
}

impl View for SearchIcon {
    type V = SearchIconView;

    open spec fn view(&self) -> SearchIconView {
        match self {
            SearchIcon::Name(s) => SearchIconView::Name(s@),
            SearchIcon::Custom(s) => SearchIconView::Custom(s@),
        }
    }
}

/// The built-in icon a fresh suggestion carries.
pub open spec fn default_icon() -> SearchIconView {
    SearchIconView::Name("search"@)
}

impl Default for SearchIcon {
    /// The built-in search icon.
    fn default() -> (r: Self)
        ensures
            r@ == default_icon(),
    {
        SearchIcon::Name(String::from_str("search"))
    }
}

impl Clone for SearchIcon {
    fn clone(&self) -> (r: Self)
        ensures
            r == *self,
    {
        match self {
            SearchIcon::Name(s) => SearchIcon::Name(s.clone()),
            SearchIcon::Custom(s) => SearchIcon::Custom(s.clone()),
        }
    }
}

impl vstd::std_specs::cmp::PartialEqSpecImpl for SearchIcon {
    open spec fn obeys_eq_spec() -> bool {
        true
    }

    open spec fn eq_spec(&self, other: &Self) -> bool {
        self@ == other@
    }
}

impl PartialEq for SearchIcon {
    /// Icons are compared by value: same kind, same name or reference.
    fn eq(&self, other: &Self) -> (r: bool) {
        match (self, other) {
            (SearchIcon::Name(a), SearchIcon::Name(b)) => *a == *b,
            (SearchIcon::Custom(a), SearchIcon::Custom(b)) => *a == *b,
            _ => false,
        }
    }
}

/// One candidate destination: its icon, an optional display name, the
/// destination it navigates to, and an optional description.
pub struct SearchInfo {
    pub icon: SearchIcon,
    pub name: Option<String>,
    pub uri: String,
    pub description: Option<String>,
}

/// The mathematical value of a [`SearchInfo`].
#[verifier::ext_equal]
pub struct SearchInfoView {
    pub icon: SearchIconView,
    pub name: Option<Seq<char>>,
    pub uri: Seq<char>,
    pub description: Option<Seq<char>>,
}

/// The value of an optional string.
pub open spec fn opt_view(o: Option<String>) -> Option<Seq<char>> {
    match o {
        Some(s) => Some(s@),
        None => None,
    }
}

impl View for SearchInfo {
    type V = SearchInfoView;

    open spec fn view(&self) -> SearchInfoView {
        SearchInfoView {
            icon: self.icon@,
            name: opt_view(self.name),
            uri: self.uri@,
            description: opt_view(self.description),
        }
    }
}

impl Default for SearchInfo {
    /// A blank entry: default icon, no name, no description, empty
    /// destination.
    fn default() -> (r: Self)
        ensures
            r@ == (SearchInfoView {
                icon: default_icon(),
                name: None,
                uri: Seq::<char>::empty(),
                description: None,
            }),
    {
        SearchInfo { icon: SearchIcon::default(), name: None, uri: String::new(), description: None }
    }
}

fn opt_string_clone(o: &Option<String>) -> (r: Option<String>)
    ensures
        r == *o,
{
    match o {
        Some(s) => Some(s.clone()),
        None => None,
    }
}

fn opt_string_eq(a: &Option<String>, b: &Option<String>) -> (r: bool)
    ensures
        r == (opt_view(*a) == opt_view(*b)),
{
    match (a, b) {
        (Some(x), Some(y)) => *x == *y,
        (None, None) => true,
        _ => false,
    }
}

impl Clone for SearchInfo {
    fn clone(&self) -> (r: Self)
        ensures
            r == *self,
    {
        SearchInfo {
            icon: self.icon.clone(),
            name: opt_string_clone(&self.name),
            uri: self.uri.clone(),
            description: opt_string_clone(&self.description),
        }
    }
}

impl vstd::std_specs::cmp::PartialEqSpecImpl for SearchInfo {
    open spec fn obeys_eq_spec() -> bool {
        true
    }

    open spec fn eq_spec(&self, other: &Self) -> bool {
        self@ == other@
    }
}

impl PartialEq for SearchInfo {
    /// Entries are compared by value, field for field.
    fn eq(&self, other: &Self) -> (r: bool) {
        self.icon == other.icon && opt_string_eq(&self.name, &other.name) && self.uri == other.uri
            && opt_string_eq(&self.description, &other.description)
    }
}

/// The display name of an entry: its name if present, else its
/// description if present, else its destination.
pub open spec fn display_name(v: SearchInfoView) -> Seq<char> {
    match v.name {
        Some(n) => n,
        None => match v.description {
            Some(d) => d,
            None => v.uri,
        },
    }
}

/// The display description of an entry: its description if present,
/// else its destination.
pub open spec fn display_desc(v: SearchInfoView) -> Seq<char> {
    match v.description {
        Some(d) => d,
        None => v.uri,
    }
}

/// One row of the rendered suggestion list: the entry it shows, its
/// position, and whether it is highlighted.
pub struct SearchListItem {
    pub info: SearchInfo,
    pub ix: IndexPath,
    pub selected: bool,
}

impl SearchListItem {
    pub fn new(info: SearchInfo, ix: IndexPath, selected: bool) -> (r: Self)
        ensures
            r.info == info,
            r.ix == ix,
            r.selected == selected,
    {
        SearchListItem { info, ix, selected }
    }

    /// The name the row displays.
    pub fn get_name(&self) -> (r: String)
        ensures
            r@ == display_name(self.info@),
    {
        match &self.info.name {
            Some(name) => name.clone(),
            None => match &self.info.description {
                Some(desc) => desc.clone(),
                None => self.info.uri.clone(),
            },
        }
    }

    /// The description the row displays.
    pub fn get_desc(&self) -> (r: String)
        ensures
            r@ == display_desc(self.info@),
    {
        match &self.info.description {
            Some(desc) => desc.clone(),
            None => self.info.uri.clone(),
        }
    }

    /// The row with its highlight set as given.
    pub fn selected(self, selected: bool) -> (r: Self)
        ensures
            r.info == self.info,
            r.ix == self.ix,
            r.selected == selected,
    {
        SearchListItem { selected, ..self }
    }

    pub fn is_selected(&self) -> (r: bool)
        ensures
            r == self.selected,
    {
        self.selected
    }
}

/// The values of a sequence of entries.
pub open spec fn infos_view(s: Seq<SearchInfo>) -> Seq<SearchInfoView> {
    s.map(|i: int, it: SearchInfo| it@)
}

/// Whether an entry survives ingestion: only entries with a non-empty
/// destination are stored.
pub open spec fn retained(v: SearchInfoView) -> bool {
    v.uri.len() > 0
}

/// A candidate list as it is stored: the retained entries, in order.
pub open spec fn filtered(s: Seq<SearchInfoView>) -> Seq<SearchInfoView>
    decreases s.len(),
{
    if s.len() <= 0 {
        Seq::<SearchInfoView>::empty()
    } else if retained(s[0]) {
        seq![s[0]] + filtered(s.subrange(1, s.len() as int))
    } else {
        filtered(s.subrange(1, s.len() as int))
    }
}

/// What installing a candidate list over a stored one yields: the
/// retained entries, and whether that differs from what was stored.
pub open spec fn set_items_outcome(stored: Seq<SearchInfoView>, cand: Seq<SearchInfoView>) -> (
    Seq<SearchInfoView>,
    bool,
) {
    (filtered(cand), filtered(cand) != stored)
}

/// A list whose entries all have non-empty destinations is stored
/// unchanged.
pub proof fn lemma_filtered_all(s: Seq<SearchInfoView>)
    requires
        forall|i: int| 0 <= i < s.len() ==> retained(#[trigger] s[i]),
    ensures
        filtered(s) == s,
    decreases s.len(),
{
    if s.len() > 0 {
        let rest = s.subrange(1, s.len() as int);
        assert forall|i: int| 0 <= i < rest.len() implies retained(#[trigger] rest[i]) by {
            assert(rest[i] == s[i + 1]);
        }
        lemma_filtered_all(rest);
        assert(seq![s[0]] + rest =~= s);
    } else {
        assert(filtered(s) =~= s);
    }
}

/// A list whose entries all have empty destinations stores nothing.
pub proof fn lemma_filtered_none(s: Seq<SearchInfoView>)
    requires
        forall|i: int| 0 <= i < s.len() ==> !retained(#[trigger] s[i]),
    ensures
        filtered(s) == Seq::<SearchInfoView>::empty(),
    decreases s.len(),
{
    if s.len() > 0 {
        let rest = s.subrange(1, s.len() as int);
        assert forall|i: int| 0 <= i < rest.len() implies !retained(#[trigger] rest[i]) by {
            assert(rest[i] == s[i + 1]);
        }
        lemma_filtered_none(rest);
    }
}

/// Installing a candidate list and then installing a value-identical
/// one a second time leaves the stored list exactly as the first
/// installation left it, and the second installation reports no change:
/// no notification is owed for it.
pub proof fn lemma_replace_if_changed_idempotent(
    stored: Seq<SearchInfoView>,
    first: Seq<SearchInfoView>,
    second: Seq<SearchInfoView>,
)
    requires
        first == second,
    ensures
        ({
            let (stored1, _) = set_items_outcome(stored, first);
            let (stored2, changed2) = set_items_outcome(stored1, second);
            stored2 == stored1 && !changed2
        }),
{
}

/// Splitting off the head of the unprocessed remainder commutes with
/// filtering: the step a forward scan takes.
proof fn lemma_filtered_step(s: Seq<SearchInfoView>, i: int)
    requires
        0 <= i < s.len(),
    ensures
        filtered(s.subrange(i, s.len() as int)) == (if retained(s[i]) {
            seq![s[i]] + filtered(s.subrange(i + 1, s.len() as int))
        } else {
            filtered(s.subrange(i + 1, s.len() as int))
        }),
{
    let tail = s.subrange(i, s.len() as int);
    assert(tail[0] == s[i]);
    assert(tail.subrange(1, tail.len() as int) =~= s.subrange(i + 1, s.len() as int));
}

/// The list state: stored entries, the optional selection, and the
/// loading flag.
pub struct SearchListDelegate {
    pub items: Vec<SearchInfo>,
    pub selected_index: Option<IndexPath>,
    pub loading: bool,
}

impl SearchListDelegate {
    /// The values of the stored entries, in order.
    pub open spec fn items_view(&self) -> Seq<SearchInfoView> {
        infos_view(self.items@)
    }

    /// The entry the selection resolves to: none while nothing is
    /// selected or the selected row is out of range.
    pub open spec fn spec_selected(&self) -> Option<SearchInfoView> {
        match self.selected_index {
            Some(ix) => if (ix.row as int) < self.items_view().len() {
                Some(self.items_view()[ix.row as int])
            } else {
                None
            },
            None => None,
        }
    }

    /// Resolves the selection against the stored list.
    pub fn selected_item(&self) -> (r: Option<SearchInfo>)
        ensures
            (match self.spec_selected() {
                Some(v) => r matches Some(it) && it@ == v,
                None => r is None,
            }),
    {
        let ix = match self.selected_index {
            Some(ix) => ix,
            None => {
                return None;
            },
        };
        if ix.row < self.items.len() {
            Some(self.items[ix.row].clone())
        } else {
            None
        }
    }

    /// Installs a candidate list: entries with an empty destination are
    /// dropped, and the result replaces the stored list only when it
    /// differs from it by value. Reports whether it did, so a caller
    /// knows whether anything must re-render.
    pub fn set_items(&mut self, new_items: Vec<SearchInfo>) -> (changed: bool)
        ensures
            (final(self).items_view(), changed) == set_items_outcome(
                old(self).items_view(),
                infos_view(new_items@),
            ),
            final(self).items_view() == filtered(infos_view(new_items@)),
            changed == (filtered(infos_view(new_items@)) != old(self).items_view()),
            !changed ==> final(self).items == old(self).items,
            final(self).selected_index == old(self).selected_index,
            final(self).loading == old(self).loading,
    {
        let kept = filter_entries(&new_items);
        let same = infos_equal(&self.items, &kept);
        if !same {
            self.items = kept;
        }
        !same
    }

    /// The stored entry at a row, or nothing when the row is out of
    /// range.
    pub fn item_at(&self, row: usize) -> (r: Option<SearchInfo>)
        ensures
            (if (row as int) < self.items_view().len() {
                r matches Some(it) && it@ == self.items_view()[row as int]
            } else {
                r is None
            }),
    {
        if row < self.items.len() {
            Some(self.items[row].clone())
        } else {
            None
        }
    }

    /// How many entries are stored.
    pub fn items_count(&self) -> (n: usize)
        ensures
            n == self.items_view().len(),
    {
        self.items.len()
    }

    /// Moves the selection, or clears it.
    pub fn set_selected_index(&mut self, ix: Option<IndexPath>)
        ensures
            final(self).selected_index == ix,
            final(self).items == old(self).items,
            final(self).loading == old(self).loading,
    {
        self.selected_index = ix;
    }

    /// The row to render at a position: the entry there, highlighted
    /// exactly when the position is the selected one; nothing when the
    /// position is out of range.
    pub fn render_item(&self, ix: IndexPath) -> (r: Option<SearchListItem>)
        ensures
            (if (ix.row as int) < self.items_view().len() {
                r matches Some(item) && item.info@ == self.items_view()[ix.row as int] && item.ix
                    == ix && item.selected == (self.selected_index == Some(ix))
            } else {
                r is None
            }),
    {
        let selected = match self.selected_index {
            Some(s) => s == ix,
            None => false,
        };
        if ix.row < self.items.len() {
            Some(SearchListItem::new(self.items[ix.row].clone(), ix, selected))
        } else {
            None
        }
    }

    /// Whether a provider fetch is in flight.
    pub fn loading(&self) -> (r: bool)
        ensures
            r == self.loading,
    {
        self.loading
    }

    /// Toggled by a provider around an asynchronous fetch; the core
    /// itself never fetches.
    pub fn set_loading(&mut self, loading: bool)
        ensures
            final(self).loading == loading,
            final(self).items == old(self).items,
            final(self).selected_index == old(self).selected_index,
    {
        self.loading = loading;
    }

    /// Abandoning the list puts the selection back at the top — it does
    /// not clear it.
    pub fn cancel(&mut self)
        ensures
            final(self).selected_index == Some(IndexPath { section: 0, row: 0 }),
            final(self).items == old(self).items,
            final(self).loading == old(self).loading,
    {
        self.selected_index = Some(IndexPath { section: 0, row: 0 });
    }
}

impl Default for SearchListDelegate {
    /// An empty list, not loading, with the selection at the top.
    fn default() -> (r: Self)
        ensures
            r.items_view() == Seq::<SearchInfoView>::empty(),
            r.items@.len() == 0,
            r.selected_index == Some(IndexPath { section: 0, row: 0 }),
            !r.loading,
    {
        let r = SearchListDelegate {
            items: Vec::new(),
            selected_index: Some(IndexPath { section: 0, row: 0 }),
            loading: false,
        };
        proof {
            assert(r.items_view() =~= Seq::<SearchInfoView>::empty());
        }
        r
    }
}

/// Copies the entries that survive ingestion, in order.
fn filter_entries(entries: &Vec<SearchInfo>) -> (r: Vec<SearchInfo>)
    ensures
        infos_view(r@) == filtered(infos_view(entries@)),
{
    let full = Ghost(infos_view(entries@));
    let mut kept: Vec<SearchInfo> = Vec::new();
    let mut i: usize = 0;
    proof {
        assert(infos_view(kept@) =~= Seq::<SearchInfoView>::empty());
        assert(full@.subrange(0, full@.len() as int) =~= full@);
        assert(Seq::<SearchInfoView>::empty() + filtered(full@) =~= filtered(full@));
    }
    while i < entries.len()
        invariant
            i <= entries@.len(),
            full@ == infos_view(entries@),
            infos_view(kept@) + filtered(full@.subrange(i as int, full@.len() as int)) == filtered(
                full@,
            ),
        decreases entries@.len() - i,
    {
        proof {
            lemma_filtered_step(full@, i as int);
        }
        let entry = &entries[i];
        if !entry.uri.as_str().is_empty() {
            let ghost before = infos_view(kept@);
            kept.push(entry.clone());
            proof {
                assert(infos_view(kept@) =~= before + seq![full@[i as int]]);
                assert(infos_view(kept@) + filtered(
                    full@.subrange(i as int + 1, full@.len() as int),
                ) =~= filtered(full@));
            }
        }
        i = i + 1;
    }
    proof {
        assert(full@.subrange(i as int, full@.len() as int) =~= Seq::<SearchInfoView>::empty());
        assert(infos_view(kept@) + filtered(Seq::<SearchInfoView>::empty()) =~= infos_view(
            kept@,
        ));
    }
    kept
}

/// Decides whether two entry lists are value-identical.
fn infos_equal(a: &Vec<SearchInfo>, b: &Vec<SearchInfo>) -> (r: bool)
    ensures
        r == (infos_view(a@) == infos_view(b@)),
{
    if a.len() != b.len() {
        proof {
            assert(infos_view(a@).len() != infos_view(b@).len());
        }
        return false;
    }
    let mut i: usize = 0;
    while i < a.len()
        invariant
            a@.len() == b@.len(),
            i <= a@.len(),
            forall|j: int| 0 <= j < i ==> infos_view(a@)[j] == infos_view(b@)[j],
        decreases a@.len() - i,
    {
        if !(a[i] == b[i]) {
            proof {
                assert(infos_view(a@)[i as int] == a@[i as int]@);
                assert(infos_view(b@)[i as int] == b@[i as int]@);
            }
            return false;
        }
        i = i + 1;
    }
    proof {
        assert(infos_view(a@) =~= infos_view(b@));
    }
    true
}

} // verus!
