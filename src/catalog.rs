//! The devices offered for flashing, and which of them the user selected.

use vstd::prelude::*;

verus! {

/// One device on offer: its identifier and whether it is selected.
#[derive(Clone, Debug)]
pub struct DeviceEntry {
    pub id: String,
    pub selected: bool,
}

/// The devices found by the latest enumeration, in enumeration order.
#[derive(Clone, Debug)]
pub struct DeviceCatalog {
    pub entries: Vec<DeviceEntry>,
}

/// The identifiers of `ids`, each kept at its first occurrence only.
pub open spec fn first_occurrences(ids: Seq<Seq<char>>) -> Seq<Seq<char>>
    decreases ids.len(),
{
    if ids.len() == 0 {
        Seq::empty()
    } else {
        let prev = first_occurrences(ids.drop_last());
        if prev.contains(ids.last()) {
            prev
        } else {
            prev.push(ids.last())
        }
    }
}

/// The text of each string, in order.
pub open spec fn string_views(v: Seq<String>) -> Seq<Seq<char>> {
    Seq::new(v.len(), |i: int| v[i]@)
}

/// An unselected entry for each identifier, in order.
pub open spec fn unselected(ids: Seq<Seq<char>>) -> Seq<(Seq<char>, bool)> {
    Seq::new(ids.len(), |i: int| (ids[i], false))
}

/// The same entries, each selected.
pub open spec fn all_selected(entries: Seq<(Seq<char>, bool)>) -> Seq<(Seq<char>, bool)> {
    Seq::new(entries.len(), |i: int| (entries[i].0, true))
}

/// The identifiers of the selected entries, in order.
pub open spec fn selected_of(entries: Seq<(Seq<char>, bool)>) -> Seq<Seq<char>>
    decreases entries.len(),
{
    if entries.len() == 0 {
        Seq::empty()
    } else {
        let prev = selected_of(entries.drop_last());
        if entries.last().1 {
            prev.push(entries.last().0)
        } else {
            prev
        }
    }
}

/// No identifier occurs twice.
pub open spec fn ids_unique(entries: Seq<(Seq<char>, bool)>) -> bool {
    forall|i: int, j: int|
        0 <= i < entries.len() && 0 <= j < entries.len() && i != j ==> entries[i].0
            != entries[j].0
}

impl View for DeviceCatalog {
    type V = Seq<(Seq<char>, bool)>;

    open spec fn view(&self) -> Seq<(Seq<char>, bool)> {
        Seq::new(self.entries@.len(), |i: int| (self.entries@[i].id@, self.entries@[i].selected))
    }
}

proof fn lemma_first_occurrences_unique(ids: Seq<Seq<char>>)
    ensures
        forall|i: int, j: int|
            0 <= i < first_occurrences(ids).len() && 0 <= j < first_occurrences(ids).len() && i
                != j ==> first_occurrences(ids)[i] != first_occurrences(ids)[j],
    decreases ids.len(),
{
    if ids.len() > 0 {
        lemma_first_occurrences_unique(ids.drop_last());
        let prev = first_occurrences(ids.drop_last());
        let f = first_occurrences(ids);
        if !prev.contains(ids.last()) {
            assert forall|i: int, j: int|
                0 <= i < f.len() && 0 <= j < f.len() && i != j implies f[i] != f[j] by {
                if i == prev.len() && f[i] == f[j] {
                    assert(prev[j] == ids.last());
                }
                if j == prev.len() && f[i] == f[j] {
                    assert(prev[i] == ids.last());
                }
            }
        }
    }
}

impl DeviceCatalog {
    /// The catalog's invariant: identifiers are unique.
    pub open spec fn wf(&self) -> bool {
        ids_unique(self@)
    }

    /// A catalog with no devices.
    pub fn new() -> (r: DeviceCatalog)
        ensures
            r@ == Seq::<(Seq<char>, bool)>::empty(),
            r.wf(),
    {
        let r = DeviceCatalog { entries: Vec::new() };
        assert(r@ =~= Seq::<(Seq<char>, bool)>::empty());
        r
    }

    /// Whether a device of this identifier is on offer.
    pub fn contains(&self, id: &String) -> (r: bool)
        ensures
            r == exists|i: int| 0 <= i < self@.len() && self@[i].0 == id@,
    {
        let mut i: usize = 0;
        while i < self.entries.len()
            invariant
                i <= self.entries@.len(),
                forall|k: int| 0 <= k < i ==> self@[k].0 != id@,
            decreases self.entries@.len() - i,
        {
            if self.entries[i].id == *id {
                assert(self@[i as int].0 == id@);
                return true;
            }
            i = i + 1;
        }
        false
    }

    /// Replaces every entry by the enumerated devices, each unselected, in
    /// enumeration order; a repeated identifier is kept once.
    pub fn populate(&mut self, ids: Vec<String>)
        ensures
            final(self)@ == unselected(first_occurrences(string_views(ids@))),
            final(self).wf(),
    {
        let ghost views = string_views(ids@);
        self.entries = Vec::new();
        let mut i: usize = 0;
        while i < ids.len()
            invariant
                i <= ids@.len(),
                views == string_views(ids@),
                self.entries@.len() == first_occurrences(views.take(i as int)).len(),
                forall|k: int|
                    0 <= k < self.entries@.len() ==> #[trigger] self.entries@[k].id@
                        == first_occurrences(views.take(i as int))[k] && !self.entries@[k].selected,
            decreases ids@.len() - i,
        {
            let id = ids[i].clone();
            let ghost prev = first_occurrences(views.take(i as int));
            assert(views.take(i as int + 1).drop_last() =~= views.take(i as int));
            assert(views.take(i as int + 1).last() == id@);
            let present = self.contains(&id);
            assert(present == prev.contains(id@)) by {
                if present {
                    let k = choose|k: int| 0 <= k < self@.len() && self@[k].0 == id@;
                    assert(prev[k] == id@);
                }
                if prev.contains(id@) {
                    let k = choose|k: int| 0 <= k < prev.len() && prev[k] == id@;
                    assert(self@[k].0 == id@);
                }
            }
            let ghost idv = id@;
            if !present {
                self.entries.push(DeviceEntry { id, selected: false });
                assert(self.entries@.last().id@ == idv);
            }
            i = i + 1;
        }
        assert(views.take(ids@.len() as int) =~= views);
        assert(self@ =~= unselected(first_occurrences(views)));
        proof {
            lemma_first_occurrences_unique(views);
        }
        assert(self.wf()) by {
            let f = first_occurrences(views);
            assert forall|a: int, b: int|
                0 <= a < self@.len() && 0 <= b < self@.len() && a != b implies self@[a].0
                != self@[b].0 by {
                assert(self@[a].0 == f[a]);
                assert(self@[b].0 == f[b]);
            }
        }
    }

    /// When `active`, marks every entry selected; otherwise changes nothing.
    pub fn select_all(&mut self, active: bool)
        requires
            old(self).wf(),
        ensures
            final(self).wf(),
            active ==> final(self)@ == all_selected(old(self)@),
            !active ==> final(self)@ == old(self)@,
    {
        if active {
            let mut i: usize = 0;
            while i < self.entries.len()
                invariant
                    i <= self@.len(),
                    self.entries@.len() == old(self).entries@.len(),
                    forall|k: int|
                        0 <= k < i ==> #[trigger] self.entries@[k].id@ == old(
                            self,
                        ).entries@[k].id@ && self.entries@[k].selected,
                    forall|k: int|
                        i <= k < self.entries@.len() ==> #[trigger] self.entries@[k] == old(
                            self,
                        ).entries@[k],
                decreases self@.len() - i,
            {
                let id = self.entries[i].id.clone();
                self.entries.set(i, DeviceEntry { id, selected: true });
                i = i + 1;
            }
            assert(self@ =~= all_selected(old(self)@));
        }
    }

    /// Sets whether the entry at `index` is selected; out of range, changes nothing.
    pub fn set_selected(&mut self, index: usize, selected: bool)
        requires
            old(self).wf(),
        ensures
            final(self).wf(),
            index < old(self)@.len() ==> final(self)@ == old(self)@.update(
                index as int,
                (old(self)@[index as int].0, selected),
            ),
            index >= old(self)@.len() ==> final(self)@ == old(self)@,
    {
        if index < self.entries.len() {
            self.entries[index].selected = selected;
            assert(self@ =~= old(self)@.update(
                index as int,
                (old(self)@[index as int].0, selected),
            ));
        }
    }

    /// The identifiers of the selected entries, in enumeration order.
    pub fn selected_ids(&self) -> (r: Vec<String>)
        ensures
            string_views(r@) == selected_of(self@),
    {
        let mut r: Vec<String> = Vec::new();
        let mut i: usize = 0;
        while i < self.entries.len()
            invariant
                i <= self@.len(),
                string_views(r@) == selected_of(self@.take(i as int)),
            decreases self@.len() - i,
        {
            assert(self@.take(i as int + 1).drop_last() =~= self@.take(i as int));
            if self.entries[i].selected {
                let id = self.entries[i].id.clone();
                r.push(id);
                assert(string_views(r@) =~= selected_of(self@.take(i as int)).push(
                    self@[i as int].0,
                ));
            }
            i = i + 1;
        }
        assert(self@.take(self@.len() as int) =~= self@);
        r
    }

    /// Whether at least one entry is selected.
    pub fn any_selected(&self) -> (r: bool)
        ensures
            r == (selected_of(self@).len() > 0),
    {
        let ids = self.selected_ids();
        ids.len() > 0
    }
}

} // verus!
