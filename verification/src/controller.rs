//! The orchestrator: it wires the address bar, the new-tab flow, the
//! suggestion list and the tab registry together.
//!
//! Two input surfaces feed one resolver. Confirming the address bar
//! rewrites the active tab's destination. The new-tab flow stages the
//! registry, re-derives the candidate list on every keystroke, and on
//! confirm appends a tab and activates it: a confirmed list entry hands
//! its destination over verbatim, while text confirmed directly in the
//! input goes through the resolver first.

use vstd::prelude::*;

use crate::search::{
    default_icon, infos_view, retained, set_items_outcome, IndexPath, SearchInfo, SearchInfoView,
    SearchListDelegate,
};
use crate::search::{lemma_filtered_all, lemma_filtered_none};
use crate::tabs::TabRegistry;
use crate::uri::{resolve, resolved};

verus! {

/// How many placeholder suggestions a query synthesizes.
pub const SUGGESTION_COUNT: usize = 5;

/// The placeholder entry derived from a query: the default icon, no
/// name, no description, and the query itself as the destination.
pub open spec fn placeholder_entry(query: Seq<char>) -> SearchInfoView {
    SearchInfoView { icon: default_icon(), name: None, uri: query, description: None }
}

/// The candidate list a query synthesizes: the placeholder entry,
/// repeated.
pub open spec fn suggestion_views(query: Seq<char>) -> Seq<SearchInfoView> {
    Seq::new(SUGGESTION_COUNT as nat, |i: int| placeholder_entry(query))
}

/// Synthesizes the candidate entries for a query.
pub fn suggestion_items(text: &str) -> (v: Vec<SearchInfo>)
    ensures
        infos_view(v@) == suggestion_views(text@),
{
    let mut v: Vec<SearchInfo> = Vec::new();
    let mut c: usize = 0;
    proof {
        assert(infos_view(v@) =~= suggestion_views(text@).subrange(0, 0));
    }
    while c < SUGGESTION_COUNT
        invariant
            c <= SUGGESTION_COUNT,
            infos_view(v@) == suggestion_views(text@).subrange(0, c as int),
        decreases SUGGESTION_COUNT - c,
    {
        let mut entry = SearchInfo::default();
        entry.uri = text.to_owned();
        let ghost before = infos_view(v@);
        let ghost entry_view = entry@;
        v.push(entry);
        proof {
            assert(entry_view == placeholder_entry(text@));
            assert(infos_view(v@) =~= before.push(entry_view));
            assert(before.push(entry_view) =~= suggestion_views(text@).subrange(0, c as int + 1));
        }
        c = c + 1;
    }
    proof {
        assert(suggestion_views(text@).subrange(0, SUGGESTION_COUNT as int) =~= suggestion_views(
            text@,
        ));
    }
    v
}

/// The state the orchestrator owns: the tab registry and the
/// suggestion list.
pub struct NavigationController {
    pub tabs: TabRegistry,
    pub search: SearchListDelegate,
}

impl NavigationController {
    /// The orchestrator keeps the registry's invariant.
    pub open spec fn wf(&self) -> bool {
        self.tabs.wf()
    }

    /// No tabs, an empty list, the selection at the top.
    pub fn new() -> (r: Self)
        ensures
            r.tabs.tabs@.len() == 0,
            r.tabs.active_index is None,
            r.search.items_view() == Seq::<SearchInfoView>::empty(),
            r.search.selected_index == Some(IndexPath { section: 0, row: 0 }),
            !r.search.loading,
            r.wf(),
    {
        NavigationController { tabs: TabRegistry::new(), search: SearchListDelegate::default() }
    }

    /// Every edit of the new-tab input re-derives the candidate list
    /// from the text: non-blank text yields the placeholder entries,
    /// blank text yields nothing, since a blank destination is never
    /// stored. Reports whether the stored list changed.
    pub fn new_tab_query_changed(&mut self, text: &str) -> (changed: bool)
        ensures
            (final(self).search.items_view(), changed) == set_items_outcome(
                old(self).search.items_view(),
                suggestion_views(text@),
            ),
            text@.len() > 0 ==> final(self).search.items_view() == suggestion_views(text@),
            text@.len() == 0 ==> final(self).search.items_view() == Seq::<
                SearchInfoView,
            >::empty(),
            final(self).tabs == old(self).tabs,
            final(self).search.selected_index == old(self).search.selected_index,
            final(self).search.loading == old(self).search.loading,
    {
        let items = suggestion_items(text);
        let changed = self.search.set_items(items);
        proof {
            if text@.len() > 0 {
                assert forall|i: int|
                    0 <= i < suggestion_views(text@).len() implies retained(
                    #[trigger] suggestion_views(text@)[i],
                ) by {}
                lemma_filtered_all(suggestion_views(text@));
            } else {
                assert forall|i: int|
                    0 <= i < suggestion_views(text@).len() implies !retained(
                    #[trigger] suggestion_views(text@)[i],
                ) by {}
                lemma_filtered_none(suggestion_views(text@));
            }
        }
        changed
    }

    /// Starting the new-tab flow stages the registry — no tab is active
    /// while the overlay is open — and clears the input, which
    /// re-derives an empty candidate list. No tab is touched.
    pub fn start_new_tab(&mut self)
        ensures
            final(self).wf(),
            final(self).tabs.tabs == old(self).tabs.tabs,
            final(self).tabs.active_index is None,
            final(self).search.items_view() == Seq::<SearchInfoView>::empty(),
            final(self).search.selected_index == old(self).search.selected_index,
            final(self).search.loading == old(self).search.loading,
    {
        proof {
            reveal_strlit("");
        }
        self.tabs.deactivate();
        let _changed = self.new_tab_query_changed("");
    }

    /// Confirming a selected list entry appends a tab whose address is
    /// the entry's destination, verbatim, and activates it. With no
    /// selected entry nothing happens and the overlay stays open.
    pub fn new_tab_confirm_selection(&mut self) -> (created: bool)
        requires
            old(self).wf(),
        ensures
            final(self).wf(),
            final(self).search == old(self).search,
            (match old(self).search.spec_selected() {
                Some(entry) => {
                    &&& created
                    &&& final(self).tabs.tabs@.len() == old(self).tabs.tabs@.len() + 1
                    &&& forall|k: int|
                        0 <= k < old(self).tabs.tabs@.len() ==> final(self).tabs.tabs@[k] == old(self).tabs.tabs@[k]
                    &&& final(self).tabs.tabs@[old(self).tabs.tabs@.len() as int].address@
                        == entry.uri
                    &&& final(self).tabs.active_index matches Some(j) && j as int == old(self).tabs.tabs@.len() as int
                },
                None => {
                    &&& !created
                    &&& *final(self) == *old(self)
                },
            }),
    {
        match self.search.selected_item() {
            Some(entry) => {
                let ix = self.tabs.create_tab(Some(entry.uri));
                let _activated = self.tabs.activate(ix);
                true
            },
            None => false,
        }
    }

    /// Confirming text typed directly in the new-tab input resolves it
    /// to a destination, appends a tab for it and activates it. Blank
    /// text produces no destination: nothing happens and the overlay
    /// stays open.
    pub fn new_tab_confirm_direct(&mut self, text: &str) -> (created: bool)
        requires
            old(self).wf(),
        ensures
            final(self).wf(),
            final(self).search == old(self).search,
            created == (text@.len() > 0),
            created ==> {
                &&& final(self).tabs.tabs@.len() == old(self).tabs.tabs@.len() + 1
                &&& forall|k: int|
                    0 <= k < old(self).tabs.tabs@.len() ==> final(self).tabs.tabs@[k] == old(self).tabs.tabs@[k]
                &&& final(self).tabs.tabs@[old(self).tabs.tabs@.len() as int].address@ == resolved(
                    text@,
                )
                &&& final(self).tabs.active_index matches Some(j) && j as int == old(self).tabs.tabs@.len() as int
            },
            !created ==> *final(self) == *old(self),
    {
        if text.is_empty() {
            return false;
        }
        let destination = resolve(text);
        let ix = self.tabs.create_tab(Some(destination));
        let _activated = self.tabs.activate(ix);
        true
    }

    /// Confirming the address bar resolves the text and rewrites the
    /// active tab's destination. With no active tab, or blank text,
    /// nothing happens.
    pub fn address_bar_confirm(&mut self, text: &str) -> (applied: bool)
        requires
            old(self).wf(),
        ensures
            final(self).wf(),
            final(self).search == old(self).search,
            final(self).tabs.active_index == old(self).tabs.active_index,
            final(self).tabs.tabs@.len() == old(self).tabs.tabs@.len(),
            applied == (old(self).tabs.active_index is Some && text@.len() > 0),
            applied ==> (old(self).tabs.active_index matches Some(i) && final(self).tabs.tabs@[i as int].address@ == resolved(text@) && forall|k: int|
                0 <= k < old(self).tabs.tabs@.len() && k != i as int ==> final(self).tabs.tabs@[k]
                    == old(self).tabs.tabs@[k]),
            !applied ==> *final(self) == *old(self),
    {
        if text.is_empty() {
            return false;
        }
        let i = match self.tabs.active_index {
            Some(i) => i,
            None => {
                return false;
            },
        };
        let destination = resolve(text);
        let _applied = self.tabs.set_address(i, destination);
        true
    }
}

} // verus!
