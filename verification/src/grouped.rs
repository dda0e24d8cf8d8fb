//! Items grouped under two levels of names, as the catalogs of the native
//! side are read: an outer name, an inner name, and under each pair the items
//! in the order in which they came.

use crate::name_map::NameMap;
use vstd::prelude::*;

verus! {

/// The views of the items of a list.
pub open spec fn items_view<T: View>(items: Vec<T>) -> Seq<T::V> {
    items@.map_values(|t: T| t@)
}

/// The lists under the names of one group, each taken by its view.
pub open spec fn group_view<T: View>(group: NameMap<Vec<T>>) -> Map<Seq<char>, Seq<T::V>> {
    group@.map_values(|items: Vec<T>| items_view(items))
}

/// The groups under their names, each taken by its view.
pub open spec fn groups_view<T: View>(groups: NameMap<NameMap<Vec<T>>>) -> Map<
    Seq<char>,
    Map<Seq<char>, Seq<T::V>>,
> {
    groups@.map_values(|group: NameMap<Vec<T>>| group_view(group))
}

/// The map of groups and each group in it are well-formed.
pub open spec fn groups_wf<T>(groups: NameMap<NameMap<Vec<T>>>) -> bool {
    &&& groups.wf()
    &&& forall|i: int| 0 <= i < groups.values().len() ==> (#[trigger] groups.values()[i]).wf()
}

/// A grouping after one more item came under `outer` and `inner`: the item
/// goes to the end of the list under that pair of names; a name that was not
/// there yet is added.
pub open spec fn spec_add<V>(
    grouping: Map<Seq<char>, Map<Seq<char>, Seq<V>>>,
    outer: Seq<char>,
    inner: Seq<char>,
    item: V,
) -> Map<Seq<char>, Map<Seq<char>, Seq<V>>> {
    let group = if grouping.contains_key(outer) {
        grouping[outer]
    } else {
        Map::<Seq<char>, Seq<V>>::empty()
    };
    let items = if group.contains_key(inner) {
        group[inner]
    } else {
        Seq::<V>::empty()
    };
    grouping.insert(outer, group.insert(inner, items.push(item)))
}

/// The grouping of a sequence of items, each with its outer and inner name.
pub open spec fn grouping_of<V>(entries: Seq<(Seq<char>, Seq<char>, V)>) -> Map<
    Seq<char>,
    Map<Seq<char>, Seq<V>>,
>
    decreases entries.len(),
{
    if entries.len() == 0 {
        Map::<Seq<char>, Map<Seq<char>, Seq<V>>>::empty()
    } else {
        spec_add(
            grouping_of(entries.drop_last()),
            entries.last().0,
            entries.last().1,
            entries.last().2,
        )
    }
}

/// Some entry stands under the outer name.
pub open spec fn has_outer<V>(entries: Seq<(Seq<char>, Seq<char>, V)>, outer: Seq<char>) -> bool {
    exists|i: int| 0 <= i < entries.len() && (#[trigger] entries[i]).0 == outer
}

/// Some entry stands under the outer and the inner name.
pub open spec fn has_pair<V>(
    entries: Seq<(Seq<char>, Seq<char>, V)>,
    outer: Seq<char>,
    inner: Seq<char>,
) -> bool {
    exists|i: int|
        0 <= i < entries.len() && (#[trigger] entries[i]).0 == outer && entries[i].1 == inner
}

/// The items of the entries that stand under the outer and the inner name,
/// in the order of the entries.
pub open spec fn items_under<V>(
    entries: Seq<(Seq<char>, Seq<char>, V)>,
    outer: Seq<char>,
    inner: Seq<char>,
) -> Seq<V> {
    entries.filter(|e: (Seq<char>, Seq<char>, V)| e.0 == outer && e.1 == inner).map_values(
        |e: (Seq<char>, Seq<char>, V)| e.2,
    )
}

/// What a grouping holds, said of the entries at once: an outer name is
/// there exactly if an entry has it, an inner name is there under it exactly
/// if an entry has both, and the list under a pair of names is made of the
/// items of the entries with that pair, in their order.
pub proof fn lemma_grouping_of<V>(entries: Seq<(Seq<char>, Seq<char>, V)>, outer: Seq<char>, inner: Seq<char>)
    ensures
        grouping_of(entries).contains_key(outer) <==> has_outer(entries, outer),
        grouping_of(entries).contains_key(outer) && grouping_of(entries)[outer].contains_key(inner)
            <==> has_pair(entries, outer, inner),
        has_pair(entries, outer, inner) ==> grouping_of(entries)[outer][inner] == items_under(
            entries,
            outer,
            inner,
        ),
        !has_pair(entries, outer, inner) ==> items_under(entries, outer, inner) == Seq::<V>::empty(),
    decreases entries.len(),
{
    let pred = |e: (Seq<char>, Seq<char>, V)| e.0 == outer && e.1 == inner;
    let pick = |e: (Seq<char>, Seq<char>, V)| e.2;
    reveal(Seq::filter);
    if entries.len() == 0 {
        assert(entries.filter(pred) =~= Seq::<(Seq<char>, Seq<char>, V)>::empty());
        assert(items_under(entries, outer, inner) =~= Seq::<V>::empty());
    } else {
        let rest = entries.drop_last();
        let last = entries.last();
        lemma_grouping_of(rest, outer, inner);
        lemma_grouping_of(rest, last.0, last.1);
        let before = grouping_of(rest);
        let after = grouping_of(entries);
        assert(after == spec_add(before, last.0, last.1, last.2));
        if has_outer(rest, outer) {
            let i = choose|i: int| 0 <= i < rest.len() && (#[trigger] rest[i]).0 == outer;
            assert(entries[i].0 == outer);
        }
        if has_pair(rest, outer, inner) {
            let i = choose|i: int|
                0 <= i < rest.len() && (#[trigger] rest[i]).0 == outer && rest[i].1 == inner;
            assert(entries[i].0 == outer && entries[i].1 == inner);
        }
        if has_outer(entries, outer) {
            let i = choose|i: int| 0 <= i < entries.len() && (#[trigger] entries[i]).0 == outer;
            if i < rest.len() {
                assert(rest[i].0 == outer);
            }
        }
        if has_pair(entries, outer, inner) {
            let i = choose|i: int|
                0 <= i < entries.len() && (#[trigger] entries[i]).0 == outer && entries[i].1
                    == inner;
            if i < rest.len() {
                assert(rest[i].0 == outer && rest[i].1 == inner);
            }
        }
        assert(entries[entries.len() - 1] == last);
        if pred(last) {
            assert(entries.filter(pred) == rest.filter(pred).push(last));
            assert(items_under(entries, outer, inner) =~= items_under(rest, outer, inner).push(
                last.2,
            ));
        } else {
            assert(entries.filter(pred) == rest.filter(pred));
        }
    }
}

/// Items under an outer and an inner name.
#[derive(Clone, Debug, PartialEq, Eq)]
pub struct Grouped<T> {
    groups: NameMap<NameMap<Vec<T>>>,
}

impl<T: View> View for Grouped<T> {
    type V = Map<Seq<char>, Map<Seq<char>, Seq<T::V>>>;

    /// From outer name to inner name to the views of the items, in order.
    closed spec fn view(&self) -> Map<Seq<char>, Map<Seq<char>, Seq<T::V>>> {
        groups_view(self.groups)
    }
}

impl<T: View> Grouped<T> {
    /// The maps that hold the items are well-formed.
    pub closed spec fn wf(&self) -> bool {
        groups_wf(self.groups)
    }

    /// A grouping without items.
    pub fn new() -> (g: Self)
        ensures
            g.wf(),
            g@ == Map::<Seq<char>, Map<Seq<char>, Seq<T::V>>>::empty(),
    {
        let g = Grouped { groups: NameMap::new() };
        assert(g@ =~= Map::<Seq<char>, Map<Seq<char>, Seq<T::V>>>::empty());
        g
    }

    /// The groups under their outer names.
    pub fn groups(&self) -> (groups: &NameMap<NameMap<Vec<T>>>)
        requires
            self.wf(),
        ensures
            groups_wf(*groups),
            groups_view(*groups) == self@,
    {
        &self.groups
    }

    /// The items under `outer` and `inner`, if there are any.
    pub fn get(&self, outer: &str, inner: &str) -> (r: Option<&Vec<T>>)
        requires
            self.wf(),
        ensures
            match r {
                Some(items) => self@.contains_key(outer@) && self@[outer@].contains_key(inner@)
                    && items_view(*items) == self@[outer@][inner@],
                None => !(self@.contains_key(outer@) && self@[outer@].contains_key(inner@)),
            },
    {
        match self.groups.find(outer) {
            None => None,
            Some(i) => {
                proof {
                    self.groups.lemma_index_of(i as int);
                }
                match self.groups.entry(i) {
                    None => None,
                    Some((_, group)) => group.get(inner),
                }
            },
        }
    }

    /// Adds an item under `outer` and `inner`, after the items that are
    /// there.
    pub fn add(&mut self, outer: String, inner: String, item: T)
        requires
            old(self).wf(),
        ensures
            final(self).wf(),
            final(self)@ == spec_add(old(self)@, outer@, inner@, item@),
    {
        let ghost before = self.groups;
        let ghost outer_name = outer@;
        let ghost inner_name = inner@;
        let ghost item_view = item@;
        let at = match self.groups.find(outer.as_str()) {
            Some(i) => i,
            None => {
                self.groups.push_new(outer, NameMap::new());
                self.groups.len() - 1
            },
        };
        let ghost with_group = self.groups;
        proof {
            with_group.lemma_index_of(at as int);
            assert(groups_wf(with_group)) by {
                assert forall|i: int| 0 <= i < with_group.values().len() implies (
                #[trigger] with_group.values()[i]).wf() by {
                    if i < before.values().len() {
                        assert(before.values()[i].wf());
                    }
                }
            }
        }
        let mut group = self.groups.replace(at, NameMap::new());
        let ghost group_before = group;
        assert(group.wf());
        let place = match group.find(inner.as_str()) {
            Some(i) => i,
            None => {
                group.push_new(inner, Vec::new());
                group.len() - 1
            },
        };
        let ghost with_items = group;
        proof {
            with_items.lemma_index_of(place as int);
        }
        let mut items = group.replace(place, Vec::new());
        let ghost items_before = items;
        items.push(item);
        let _ = group.replace(place, items);
        let _ = self.groups.replace(at, group);
        proof {
            assert(items_view(items) =~= items_view(items_before).push(item_view));
            assert(group@ =~= with_items@.insert(inner_name, items));
            assert(self.groups@ =~= with_group@.insert(outer_name, group));
            assert(groups_wf(self.groups)) by {
                assert forall|i: int| 0 <= i < self.groups.values().len() implies (
                #[trigger] self.groups.values()[i]).wf() by {
                    if i != at {
                        assert(with_group.values()[i].wf());
                    }
                }
            }
            let old_view = groups_view(before);
            let old_group = if old_view.contains_key(outer_name) {
                old_view[outer_name]
            } else {
                Map::<Seq<char>, Seq<T::V>>::empty()
            };
            assert(group_view(group_before) =~= old_group);
            let old_items = if old_group.contains_key(inner_name) {
                old_group[inner_name]
            } else {
                Seq::<T::V>::empty()
            };
            assert(items_view(items_before) =~= old_items);
            assert(group_view(group) =~= old_group.insert(inner_name, old_items.push(item_view)));
            assert(groups_view(self.groups) =~= old_view.insert(outer_name, group_view(group)));
        }
    }
}

} // verus!
