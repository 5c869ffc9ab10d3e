//! A surface: the designated root id and the flat, insertion-ordered
//! adjacency list of components reachable from it.
use vstd::prelude::*;
use vstd::string::StringExecFns;

use crate::catalog::{views, Component, ComponentView};
use crate::common::ComponentId;

verus! {

/// The entries of a surface's component map: ids and components, in
/// insertion order.
pub type Entries = Seq<(Seq<char>, ComponentView)>;

/// The entries, in order, of an `IndexMap` from ids to components.
pub uninterp spec fn index_map_entries(m: indexmap::IndexMap<String, Component>) -> Entries;

/// The position of the entry with key `key`, or -1 when there is none.
pub open spec fn find_key(entries: Entries, key: Seq<char>) -> int
    decreases entries.len(),
{
    if entries.len() == 0 {
        -1
    } else if entries[0].0 == key {
        0
    } else {
        let r = find_key(entries.drop_first(), key);
        if r < 0 {
            -1
        } else {
            r + 1
        }
    }
}

/// The component stored under `key`, where there is one.
pub open spec fn lookup(entries: Entries, key: Seq<char>) -> Option<ComponentView> {
    let i = find_key(entries, key);
    if i >= 0 {
        Some(entries[i].1)
    } else {
        None
    }
}

/// `entries` after inserting `value` under `key`: an existing entry keeps its
/// place and takes the new value; a new key goes last.
pub open spec fn upsert(entries: Entries, key: Seq<char>, value: ComponentView) -> Entries {
    let i = find_key(entries, key);
    if i >= 0 {
        entries.update(i, (key, value))
    } else {
        entries.push((key, value))
    }
}

/// `entries` after inserting each of `components`, in order, under its id.
pub open spec fn upsert_all(entries: Entries, components: Seq<ComponentView>) -> Entries
    decreases components.len(),
{
    if components.len() == 0 {
        entries
    } else {
        let prev = upsert_all(entries, components.drop_last());
        upsert(prev, components.last().id(), components.last())
    }
}

/// The ids of entries, in order.
pub open spec fn entry_keys(entries: Entries) -> Seq<Seq<char>> {
    entries.map_values(|e: (Seq<char>, ComponentView)| e.0)
}

/// The components of entries, in order.
pub open spec fn entry_values(entries: Entries) -> Seq<ComponentView> {
    entries.map_values(|e: (Seq<char>, ComponentView)| e.1)
}

/// Calls `IndexMap::new`, which makes an empty map.
#[verifier::external_body]
fn index_map_new() -> (m: indexmap::IndexMap<String, Component>)
    ensures
        index_map_entries(m) == Seq::<(Seq<char>, ComponentView)>::empty(),
{
    indexmap::IndexMap::new()
}

/// Calls `IndexMap::insert`. As its documentation states: when an equal key
/// is present, that entry keeps its place in the order, takes the new value,
/// and the old value is returned; otherwise the pair goes last and `None` is
/// returned.
#[verifier::external_body]
fn index_map_insert(
    m: &mut indexmap::IndexMap<String, Component>,
    key: String,
    value: Component,
) -> (r: Option<Component>)
    ensures
        index_map_entries(*final(m)) == upsert(index_map_entries(*old(m)), key@, value@),
        r is Some == (find_key(index_map_entries(*old(m)), key@) >= 0),
        r matches Some(v) ==> v@ == index_map_entries(*old(m))[find_key(
            index_map_entries(*old(m)),
            key@,
        )].1,
{
    m.insert(key, value)
}

/// Calls `IndexMap::len`, the number of entries.
#[verifier::external_body]
fn index_map_len(m: &indexmap::IndexMap<String, Component>) -> (r: usize)
    ensures
        r == index_map_entries(*m).len(),
{
    m.len()
}

/// Calls `IndexMap::get_index`: the entry at position `i` in insertion order,
/// or `None` when `i` is past the end.
#[verifier::external_body]
fn index_map_get_index<'a>(m: &'a indexmap::IndexMap<String, Component>, i: usize) -> (r: Option<(&'a String, &'a Component)>)
    ensures
        r is Some == (i < index_map_entries(*m).len()),
        r matches Some((k, v)) ==> k@ == index_map_entries(*m)[i as int].0 && v@ == index_map_entries(*m)[i as int].1,
{
    m.get_index(i)
}

/// A surface: the renderable unit, pairing the root component's id with the
/// components reachable from it, in insertion order.
#[derive(Debug, PartialEq)]
pub struct Surface {
    pub root: ComponentId,
    pub components: indexmap::IndexMap<ComponentId, Component>,
}

pub struct SurfaceView {
    pub root: Seq<char>,
    pub components: Entries,
}

impl View for Surface {
    type V = SurfaceView;

    open spec fn view(&self) -> SurfaceView {
        SurfaceView { root: self.root@, components: index_map_entries(self.components) }
    }
}

impl Default for Surface {
    fn default() -> (r: Self)
        ensures
            r@.root == Seq::<char>::empty(),
            r@.components == Seq::<(Seq<char>, ComponentView)>::empty(),
    {
        Surface { root: String::new(), components: index_map_new() }
    }
}

impl Surface {
    /// An empty surface whose root is `root`.
    pub fn new(root: ComponentId) -> (r: Self)
        ensures
            r@.root == root@,
            r@.components == Seq::<(Seq<char>, ComponentView)>::empty(),
    {
        Surface { root, components: index_map_new() }
    }

    /// Inserts `component` under its id: a component with the same id keeps
    /// its place and is replaced; otherwise `component` goes last.
    pub fn insert(&mut self, component: Component)
        ensures
            final(self)@.root == old(self)@.root,
            final(self)@.components == upsert(old(self)@.components, component@.id(), component@),
    {
        let id = String::from_str(component.id());
        index_map_insert(&mut self.components, id, component);
    }

    /// The number of components.
    pub fn len(&self) -> (r: usize)
        ensures
            r == self@.components.len(),
    {
        index_map_len(&self.components)
    }

    /// Copies of the components, in insertion order.
    pub fn component_list(&self) -> (r: Vec<Component>)
        ensures
            views(r@) == entry_values(self@.components),
    {
        let n = index_map_len(&self.components);
        let mut out: Vec<Component> = Vec::new();
        let mut i: usize = 0;
        while i < n
            invariant
                n == self@.components.len(),
                i <= n,
                views(out@) =~= entry_values(self@.components).take(i as int),
            decreases n - i,
        {
            let ghost before = out@;
            match index_map_get_index(&self.components, i) {
                Some((_, c)) => {
                    let copy = c.clone();
                    out.push(copy);
                    proof {
                        assert(views(out@) =~= views(before).push(copy@));
                        assert(entry_values(self@.components).take(i + 1) =~= entry_values(
                            self@.components,
                        ).take(i as int).push(self@.components[i as int].1));
                    }
                },
                None => {
                    proof {
                        assert(false);
                    }
                },
            }
            i = i + 1;
        }
        proof {
            assert(entry_values(self@.components).take(n as int) =~= entry_values(self@.components));
        }
        out
    }
}

} // verus!
