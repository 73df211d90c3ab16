//! The ordered collection of open tabs and the active-tab index.
//!
//! A tab is addressed purely by its position: tabs are appended in
//! creation order and never removed or reordered. The registry is either
//! `Active(i)`, with `i` a valid position, or staged for a new tab, with
//! no active index at all.

use vstd::prelude::*;

verus! {

/// One open tab: its current destination address, empty before the
/// first navigation.
pub struct Tab {
    pub address: String,
}

/// The ordered sequence of open tabs and the optional active index.
pub struct TabRegistry {
    pub tabs: Vec<Tab>,
    pub active_index: Option<usize>,
}

impl TabRegistry {
    /// The registry's invariant: an active index always points at a tab.
    pub open spec fn wf(&self) -> bool {
        match self.active_index {
            Some(i) => (i as int) < self.tabs@.len(),
            None => true,
        }
    }

    /// The addresses of the open tabs, in creation order.
    pub open spec fn addresses(&self) -> Seq<Seq<char>> {
        self.tabs@.map(|i: int, t: Tab| t.address@)
    }

    /// An empty registry in the staged state.
    pub fn new() -> (r: Self)
        ensures
            r.tabs@.len() == 0,
            r.active_index is None,
            r.wf(),
    {
        TabRegistry { tabs: Vec::new(), active_index: None }
    }

    /// Appends a tab holding the given initial address, or an empty one,
    /// and hands back its position. The active index is left alone: the
    /// caller activates the new tab explicitly.
    pub fn create_tab(&mut self, initial_address: Option<String>) -> (ix: usize)
        ensures
            ix == old(self).tabs@.len(),
            final(self).tabs@.len() == old(self).tabs@.len() + 1,
            forall|k: int| 0 <= k < old(self).tabs@.len() ==> final(self).tabs@[k] == old(
                self,
            ).tabs@[k],
            final(self).tabs@[ix as int].address@ == (match initial_address {
                Some(a) => a@,
                None => Seq::<char>::empty(),
            }),
            final(self).active_index == old(self).active_index,
            old(self).wf() ==> final(self).wf(),
    {
        let ix = self.tabs.len();
        let address = match initial_address {
            Some(a) => a,
            None => String::new(),
        };
        self.tabs.push(Tab { address });
        ix
    }

    /// Makes the tab at `index` the active one; reports failure, and
    /// changes nothing, when no tab stands there.
    pub fn activate(&mut self, index: usize) -> (ok: bool)
        ensures
            final(self).tabs == old(self).tabs,
            ok == ((index as int) < old(self).tabs@.len()),
            ok ==> final(self).active_index == Some(index),
            !ok ==> final(self).active_index == old(self).active_index,
            old(self).wf() ==> final(self).wf(),
    {
        if index < self.tabs.len() {
            self.active_index = Some(index);
            true
        } else {
            false
        }
    }

    /// Enters the staged state: no tab is active, none is removed.
    pub fn deactivate(&mut self)
        ensures
            final(self).tabs == old(self).tabs,
            final(self).active_index is None,
            final(self).wf(),
    {
        self.active_index = None;
    }

    /// The active tab's address, or nothing while the registry is staged
    /// or the active index points past the tabs.
    pub fn current_address(&self) -> (r: Option<String>)
        ensures
            (match self.active_index {
                Some(i) => if (i as int) < self.tabs@.len() {
                    r matches Some(a) && a@ == self.tabs@[i as int].address@
                } else {
                    r is None
                },
                None => r is None,
            }),
    {
        match self.active_index {
            Some(i) => {
                if i < self.tabs.len() {
                    Some(self.tabs[i].address.clone())
                } else {
                    None
                }
            },
            None => None,
        }
    }

    /// Replaces the address of the tab at `index`; reports failure, and
    /// changes nothing, when no tab stands there.
    pub fn set_address(&mut self, index: usize, new_address: String) -> (ok: bool)
        ensures
            ok == ((index as int) < old(self).tabs@.len()),
            final(self).tabs@.len() == old(self).tabs@.len(),
            forall|k: int|
                0 <= k < old(self).tabs@.len() && k != index as int ==> final(self).tabs@[k]
                    == old(self).tabs@[k],
            ok ==> final(self).tabs@[index as int].address@ == new_address@,
            final(self).active_index == old(self).active_index,
            old(self).wf() ==> final(self).wf(),
    {
        if index < self.tabs.len() {
            self.tabs[index].address = new_address;
            true
        } else {
            false
        }
    }

    /// How many tabs are open.
    pub fn count(&self) -> (n: usize)
        ensures
            n == self.tabs@.len(),
    {
        self.tabs.len()
    }
}

} // verus!
