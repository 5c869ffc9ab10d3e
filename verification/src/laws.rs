//! Properties of conversion that span several functions.
use vstd::prelude::*;

use crate::catalog::ComponentView;
use crate::convert::{
    spec_chunks_upto, spec_groups, spec_groups_from, spec_list_style, spec_run_end,
    spec_siblings, Chunks, Converter, SiblingGroup, lemma_run_end,
};
use crate::id::root_id;
use crate::message::{MessageBodyView, MessageView};
use crate::notion::BlockResponse;
use crate::stream::{
    chunk_ids, flatten, lemma_step_extends, lemma_stream_messages_empty, spec_chunk_list,
    spec_chunk_list_upto, spec_opening, spec_root_column, spec_stream_messages, spec_stream_run,
    spec_surface_entries, MessageStreamView,
};
use crate::surface::{entry_keys, find_key, lookup, upsert, upsert_all, Entries};

verus! {

proof fn lemma_chunks_upto_is_chunk_list(
    c: Converter,
    blocks: Seq<BlockResponse>,
    groups: Seq<SiblingGroup>,
    n: int,
)
    ensures
        spec_chunks_upto(c, blocks, groups, n) == (
            chunk_ids(spec_chunk_list_upto(c, blocks, groups, n)),
            flatten(spec_chunk_list_upto(c, blocks, groups, n)),
        ),
    decreases n,
{
    if n <= 0 || n > groups.len() {
        assert(chunk_ids(Seq::<(Seq<char>, Seq<ComponentView>)>::empty()) =~= Seq::empty());
    } else {
        lemma_chunks_upto_is_chunk_list(c, blocks, groups, n - 1);
        let prev = spec_chunk_list_upto(c, blocks, groups, n - 1);
        match crate::convert::spec_group_chunk(c, blocks, groups[n - 1]) {
            Some(ch) => {
                let list = prev.push(ch);
                assert(list.drop_last() =~= prev);
                assert(chunk_ids(list) =~= chunk_ids(prev).push(ch.0));
            },
            None => {},
        }
    }
}

/// Converting sibling blocks all at once yields exactly what converting them
/// group by group yields: the groups' ids, in order, and their components,
/// concatenated. Streaming and eager conversion cannot disagree on chunk
/// boundaries.
pub proof fn lemma_siblings_are_chunks(c: Converter, blocks: Seq<BlockResponse>)
    ensures
        spec_siblings(c, blocks).0 == chunk_ids(spec_chunk_list(c, blocks)),
        spec_siblings(c, blocks).1 == flatten(spec_chunk_list(c, blocks)),
{
    let groups = spec_groups(blocks);
    lemma_chunks_upto_is_chunk_list(c, blocks, groups, groups.len() as int);
}

/// The first index that a group covers.
pub open spec fn group_start(g: SiblingGroup) -> int {
    match g {
        SiblingGroup::Single { index } => index as int,
        SiblingGroup::List { start, .. } => start as int,
    }
}

/// One past the last index that a group covers.
pub open spec fn group_end(g: SiblingGroup) -> int {
    match g {
        SiblingGroup::Single { index } => index + 1,
        SiblingGroup::List { end, .. } => end as int,
    }
}

/// Whether `groups` split `blocks` from index `i` on: each group covers a
/// non-empty range within the blocks, the ranges follow each other from `i`
/// to the end, a single group is a block that is not a list item, and a list
/// group is a run of list items of its style that the next block does not
/// continue.
pub open spec fn splits(blocks: Seq<BlockResponse>, groups: Seq<SiblingGroup>, i: int) -> bool {
    &&& (groups.len() == 0 <==> i >= blocks.len())
    &&& groups.len() > 0 ==> group_start(groups[0]) == i && group_end(groups.last())
        == blocks.len()
    &&& forall|k: int, l: int|
        0 <= k && l == k + 1 && l < groups.len() ==> group_end(#[trigger] groups[k]) == group_start(
            #[trigger] groups[l],
        )
    &&& forall|k: int|
        0 <= k < groups.len() ==> group_start(#[trigger] groups[k]) < group_end(groups[k]) <= blocks.len()
    &&& forall|k: int|
        0 <= k < groups.len() ==> match #[trigger] groups[k] {
            SiblingGroup::Single { index } => spec_list_style(blocks[index as int].block) is None,
            SiblingGroup::List { start, end, style } => {
                &&& forall|j: int|
                    start <= j < end ==> spec_list_style(#[trigger] blocks[j].block) == Some(style)
                &&& end < blocks.len() ==> spec_list_style(blocks[end as int].block) != Some(style)
            },
        }
}

proof fn lemma_groups_from_split(blocks: Seq<BlockResponse>, i: int)
    requires
        0 <= i <= blocks.len(),
        blocks.len() <= usize::MAX,
    ensures
        splits(blocks, spec_groups_from(blocks, i), i),
    decreases blocks.len() - i,
{
    if i < blocks.len() {
        let g = spec_groups_from(blocks, i);
        match spec_list_style(blocks[i].block) {
            Some(style) => {
                lemma_run_end(blocks, i + 1, style);
                let j = spec_run_end(blocks, i + 1, style);
                lemma_groups_from_split(blocks, j);
                let rest = spec_groups_from(blocks, j);
                let head = SiblingGroup::List { start: i as usize, end: j as usize, style };
                assert(g =~= seq![head] + rest);
                assert forall|k: int, l: int| 0 <= k && l == k + 1 && l < g.len() implies group_end(
                    #[trigger] g[k],
                ) == group_start(#[trigger] g[l]) by {
                    assert(g[l] == rest[l - 1]);
                    if k > 0 {
                        assert(g[k] == rest[k - 1]);
                    }
                }
                assert forall|k: int| 0 <= k < g.len() implies group_start(#[trigger] g[k]) < group_end(g[k])
                    <= blocks.len() by {
                    if k > 0 {
                        assert(g[k] == rest[k - 1]);
                    }
                }
                assert forall|k: int| 0 <= k < g.len() implies match #[trigger] g[k] {
                    SiblingGroup::Single { index } => spec_list_style(blocks[index as int].block) is None,
                    SiblingGroup::List { start, end, style } => {
                        &&& forall|j: int|
                            start <= j < end ==> spec_list_style(#[trigger] blocks[j].block) == Some(style)
                        &&& end < blocks.len() ==> spec_list_style(blocks[end as int].block) != Some(style)
                    },
                } by {
                    if k > 0 {
                        assert(g[k] == rest[k - 1]);
                    }
                }
                if rest.len() > 0 {
                    assert(g.last() == rest.last());
                }
            },
            None => {
                lemma_groups_from_split(blocks, i + 1);
                let rest = spec_groups_from(blocks, i + 1);
                assert forall|k: int, l: int| 0 <= k && l == k + 1 && l < g.len() implies group_end(
                    #[trigger] g[k],
                ) == group_start(#[trigger] g[l]) by {
                    assert(g[l] == rest[l - 1]);
                    if k > 0 {
                        assert(g[k] == rest[k - 1]);
                    }
                }
                assert forall|k: int| 0 <= k < g.len() implies group_start(#[trigger] g[k]) < group_end(g[k])
                    <= blocks.len() by {
                    if k > 0 {
                        assert(g[k] == rest[k - 1]);
                    }
                }
                assert forall|k: int| 0 <= k < g.len() implies match #[trigger] g[k] {
                    SiblingGroup::Single { index } => spec_list_style(blocks[index as int].block) is None,
                    SiblingGroup::List { start, end, style } => {
                        &&& forall|j: int|
                            start <= j < end ==> spec_list_style(#[trigger] blocks[j].block) == Some(style)
                        &&& end < blocks.len() ==> spec_list_style(blocks[end as int].block) != Some(style)
                    },
                } by {
                    if k > 0 {
                        assert(g[k] == rest[k - 1]);
                    }
                }
                if rest.len() > 0 {
                    assert(g.last() == rest.last());
                }
            },
        }
    }
}

/// The groups of sibling blocks split them: in order and without gaps, each
/// block that is not a list item is a group of its own, and each maximal
/// run of consecutive list items of one style is one group, continued
/// neither by the block after it nor by the block before it; bullets and
/// to-dos share the unordered style, numbered items are ordered.
pub proof fn lemma_groups_split(blocks: Seq<BlockResponse>)
    requires
        blocks.len() <= usize::MAX,
    ensures
        splits(blocks, spec_groups(blocks), 0),
        forall|k: int|
            0 <= k < spec_groups(blocks).len() ==> match #[trigger] spec_groups(blocks)[k] {
                SiblingGroup::List { start, style, .. } => start > 0 ==> spec_list_style(
                    blocks[start - 1].block,
                ) != Some(style),
                SiblingGroup::Single { .. } => true,
            },
{
    lemma_groups_from_split(blocks, 0);
    let g = spec_groups(blocks);
    assert forall|k: int| 0 <= k < g.len() implies match #[trigger] g[k] {
        SiblingGroup::List { start, style, .. } => start > 0 ==> spec_list_style(
            blocks[start - 1].block,
        ) != Some(style),
        SiblingGroup::Single { .. } => true,
    } by {
        lemma_left_maximal(blocks, g, k);
    }
}

proof fn lemma_left_maximal(blocks: Seq<BlockResponse>, g: Seq<SiblingGroup>, k: int)
    requires
        splits(blocks, g, 0),
        0 <= k < g.len(),
    ensures
        match g[k] {
            SiblingGroup::List { start, style, .. } => start > 0 ==> spec_list_style(
                blocks[start - 1].block,
            ) != Some(style),
            SiblingGroup::Single { .. } => true,
        },
{
    if let SiblingGroup::List { start, end, style } = g[k] {
        if start > 0 {
            if k == 0 {
                assert(group_start(g[0]) == 0);
            } else {
                assert(group_end(g[k - 1]) == group_start(g[k]));
                assert(group_start(g[k]) < group_end(g[k]));
                assert(spec_list_style(blocks[start as int].block) == Some(style));
                match g[k - 1] {
                    SiblingGroup::Single { index } => {
                        assert(index + 1 == start);
                        assert(spec_list_style(blocks[index as int].block) is None);
                        assert(spec_list_style(blocks[start - 1].block) != Some(style));
                    },
                    SiblingGroup::List { start: s0, end: e0, style: st0 } => {
                        assert(group_start(g[k - 1]) < group_end(g[k - 1]));
                        assert(e0 == start);
                        assert(spec_list_style(blocks[start - 1].block) == Some(st0));
                        assert(spec_list_style(blocks[e0 as int].block) != Some(st0));
                        assert(spec_list_style(blocks[start - 1].block) != Some(style));
                    },
                }
            }
        }
    }
}

/// What a client holds after applying `messages` to an empty surface: the
/// components of each `updateComponents`, in order, each inserted under its
/// id.
pub open spec fn spec_replay(messages: Seq<MessageView>) -> Entries
    decreases messages.len(),
{
    if messages.len() == 0 {
        Seq::empty()
    } else {
        let prev = spec_replay(messages.drop_last());
        match messages.last().body {
            MessageBodyView::UpdateComponents { components, .. } => upsert_all(prev, components),
            _ => prev,
        }
    }
}

/// No component of `components` has the root's id.
pub open spec fn no_root_id(components: Seq<ComponentView>) -> bool {
    forall|j: int| 0 <= j < components.len() ==> (#[trigger] components[j]).id() != root_id()
}

proof fn lemma_find_key(entries: Entries, key: Seq<char>)
    ensures
        -1 <= find_key(entries, key) < entries.len(),
        find_key(entries, key) >= 0 ==> entries[find_key(entries, key)].0 == key,
        forall|j: int|
            0 <= j < entries.len() && (find_key(entries, key) < 0 || j < find_key(entries, key))
                ==> (#[trigger] entries[j]).0 != key,
    decreases entries.len(),
{
    if entries.len() > 0 && entries[0].0 != key {
        lemma_find_key(entries.drop_first(), key);
        assert forall|j: int|
            0 <= j < entries.len() && (find_key(entries, key) < 0 || j < find_key(entries, key))
                implies (#[trigger] entries[j]).0 != key by {
            if j > 0 {
                assert(entries[j] == entries.drop_first()[j - 1]);
            }
        }
    }
}

proof fn lemma_find_key_by_keys(a: Entries, b: Entries, key: Seq<char>)
    requires
        entry_keys(a) == entry_keys(b),
    ensures
        find_key(a, key) == find_key(b, key),
{
    lemma_find_key(a, key);
    lemma_find_key(b, key);
    assert(a.len() == entry_keys(a).len());
    assert(b.len() == entry_keys(b).len());
    let fa = find_key(a, key);
    let fb = find_key(b, key);
    if fa >= 0 {
        assert(entry_keys(a)[fa] == a[fa].0);
        assert(entry_keys(b)[fa] == b[fa].0);
    }
    if fb >= 0 {
        assert(entry_keys(a)[fb] == a[fb].0);
        assert(entry_keys(b)[fb] == b[fb].0);
    }
}

/// Streamed entries `s` and eager entries `e` agree: the same ids in the same
/// order, the root first, and equal entries but for the root's.
pub open spec fn related(s: Entries, e: Entries) -> bool {
    &&& s.len() >= 1
    &&& entry_keys(s) == entry_keys(e)
    &&& s[0].0 == root_id()
    &&& forall|j: int| 1 <= j < s.len() ==> s[j] == e[j]
}

proof fn lemma_upsert_related(s: Entries, e: Entries, key: Seq<char>, v: ComponentView)
    requires
        related(s, e),
    ensures
        related(upsert(s, key, v), upsert(e, key, v)),
        key != root_id() ==> upsert(s, key, v)[0] == s[0] && upsert(e, key, v)[0] == e[0],
{
    lemma_find_key_by_keys(s, e, key);
    lemma_find_key(s, key);
    assert(s.len() == entry_keys(s).len());
    assert(e.len() == entry_keys(e).len());
    let i = find_key(s, key);
    let s2 = upsert(s, key, v);
    let e2 = upsert(e, key, v);
    assert(e[0].0 == entry_keys(e)[0]);
    assert(s[0].0 == entry_keys(s)[0]);
    if i >= 0 {
        assert forall|j: int| 0 <= j < s2.len() implies entry_keys(s2)[j] == entry_keys(e2)[j] by {
            if j != i {
                assert(entry_keys(s)[j] == entry_keys(e)[j]);
            }
        }
        assert(entry_keys(s2) =~= entry_keys(e2));
    } else {
        assert forall|j: int| 0 <= j < s2.len() implies entry_keys(s2)[j] == entry_keys(e2)[j] by {
            if j < s.len() {
                assert(entry_keys(s)[j] == entry_keys(e)[j]);
            }
        }
        assert(entry_keys(s2) =~= entry_keys(e2));
    }
}

proof fn lemma_upsert_root_related(s: Entries, e: Entries, v: ComponentView)
    requires
        related(s, e),
    ensures
        related(upsert(s, root_id(), v), e),
        upsert(s, root_id(), v)[0] == (root_id(), v),
{
    lemma_find_key(s, root_id());
    assert(find_key(s, root_id()) == 0);
    let s2 = upsert(s, root_id(), v);
    assert(s.len() == entry_keys(s).len());
    assert forall|j: int| 0 <= j < s2.len() implies entry_keys(s2)[j] == entry_keys(e)[j] by {
        assert(entry_keys(s)[j] == entry_keys(e)[j]);
    }
    assert(entry_keys(s2) =~= entry_keys(e));
}

proof fn lemma_upsert_all_related(s: Entries, e: Entries, components: Seq<ComponentView>)
    requires
        related(s, e),
    ensures
        related(upsert_all(s, components), upsert_all(e, components)),
        no_root_id(components) ==> upsert_all(s, components)[0] == s[0] && upsert_all(e, components)[0]
            == e[0],
    decreases components.len(),
{
    if components.len() > 0 {
        let init = components.drop_last();
        lemma_upsert_all_related(s, e, init);
        lemma_upsert_related(
            upsert_all(s, init),
            upsert_all(e, init),
            components.last().id(),
            components.last(),
        );
        if no_root_id(components) {
            assert(no_root_id(init)) by {
                assert forall|j: int| 0 <= j < init.len() implies (#[trigger] init[j]).id() != root_id() by {
                    assert(init[j] == components[j]);
                }
            }
            assert(components.last() == components[components.len() - 1]);
        }
    }
}

proof fn lemma_upsert_all_append(e: Entries, a: Seq<ComponentView>, b: Seq<ComponentView>)
    ensures
        upsert_all(e, a + b) == upsert_all(upsert_all(e, a), b),
    decreases b.len(),
{
    if b.len() == 0 {
        assert(a + b =~= a);
    } else {
        lemma_upsert_all_append(e, a, b.drop_last());
        assert((a + b).drop_last() =~= a + b.drop_last());
        assert((a + b).last() == b.last());
    }
}

proof fn lemma_flatten_take(list: Seq<(Seq<char>, Seq<ComponentView>)>, k: int)
    requires
        0 <= k < list.len(),
    ensures
        flatten(list.take(k + 1)) == flatten(list.take(k)) + list[k].1,
{
    assert(list.take(k + 1).drop_last() =~= list.take(k));
}

proof fn lemma_no_root_split(a: Seq<ComponentView>, b: Seq<ComponentView>)
    requires
        no_root_id(a + b),
    ensures
        no_root_id(a),
        no_root_id(b),
{
    assert forall|j: int| 0 <= j < a.len() implies (#[trigger] a[j]).id() != root_id() by {
        assert((a + b)[j] == a[j]);
    }
    assert forall|j: int| 0 <= j < b.len() implies (#[trigger] b[j]).id() != root_id() by {
        assert((a + b)[a.len() + j] == b[j]);
    }
}

proof fn lemma_replay_opening(sid: Seq<char>)
    ensures
        spec_replay(crate::stream::spec_opening(sid)) == seq![
            (root_id(), spec_root_column(Seq::empty())),
        ],
{
    let msgs = crate::stream::spec_opening(sid);
    let root0 = spec_root_column(Seq::empty());
    let empty = Seq::<(Seq<char>, ComponentView)>::empty();
    assert(msgs.drop_last().drop_last() =~= Seq::<MessageView>::empty());
    assert(msgs.drop_last().len() == 1);
    assert(msgs.drop_last().last() == msgs[0]);
    assert(msgs[0].body is CreateSurface);
    assert(spec_replay(msgs.drop_last().drop_last()) == empty);
    assert(spec_replay(msgs.drop_last()) == empty);
    assert(msgs.last() == msgs[1]);
    assert(seq![root0].drop_last() =~= Seq::<ComponentView>::empty());
    assert(upsert_all(empty, seq![root0].drop_last()) == empty);
    assert(find_key(empty, root_id()) == -1);
    assert(upsert(empty, root_id(), root0) =~= seq![(root_id(), root0)]);
}

proof fn lemma_replay_prefix(sid: Seq<char>, list: Seq<(Seq<char>, Seq<ComponentView>)>, k: int)
    requires
        0 <= k <= list.len(),
    ensures
        related(
            spec_replay(spec_stream_messages(sid, list.take(k))),
            upsert_all(
                upsert(Seq::empty(), root_id(), spec_root_column(chunk_ids(list))),
                flatten(list.take(k)),
            ),
        ),
        no_root_id(flatten(list.take(k))) ==> spec_replay(spec_stream_messages(sid, list.take(k)))[0]
            == (root_id(), spec_root_column(chunk_ids(list).take(k))) && upsert_all(
            upsert(Seq::empty(), root_id(), spec_root_column(chunk_ids(list))),
            flatten(list.take(k)),
        )[0] == (root_id(), spec_root_column(chunk_ids(list))),
    decreases k,
{
    let e0 = upsert(Seq::<(Seq<char>, ComponentView)>::empty(), root_id(), spec_root_column(chunk_ids(list)));
    if k == 0 {
        let msgs = spec_stream_messages(sid, list.take(0));
        assert(msgs =~= crate::stream::spec_opening(sid));
        lemma_replay_opening(sid);
        assert(flatten(list.take(0)) =~= Seq::<ComponentView>::empty());
        assert(e0 =~= seq![(root_id(), spec_root_column(chunk_ids(list)))]);
        assert(chunk_ids(list).take(0) =~= Seq::<Seq<char>>::empty());
        assert(entry_keys(spec_replay(msgs)) =~= entry_keys(e0));
    } else {
        lemma_replay_prefix(sid, list, k - 1);
        let prev_list = list.take(k - 1);
        let cur_list = list.take(k);
        let msgs = spec_stream_messages(sid, cur_list);
        let prev_msgs = spec_stream_messages(sid, prev_list);
        assert(cur_list.take(k - 1) =~= prev_list);
        assert(chunk_ids(cur_list) =~= chunk_ids(list).take(k));
        assert forall|j: int| 0 <= j < k - 1 implies crate::stream::spec_chunk_update(sid, cur_list, j)
            == crate::stream::spec_chunk_update(sid, prev_list, j) by {
            assert(cur_list[j] == prev_list[j]);
            assert(chunk_ids(cur_list).take(j + 1) =~= chunk_ids(prev_list).take(j + 1));
        }
        assert(msgs.drop_last() =~= prev_msgs);
        let comps = list[k - 1].1;
        let root_k = spec_root_column(chunk_ids(list).take(k));
        assert(chunk_ids(cur_list).take(k) =~= chunk_ids(list).take(k));
        let pushed = comps.push(root_k);
        assert(pushed.drop_last() =~= comps);
        let s_prev = spec_replay(prev_msgs);
        let e_prev = upsert_all(e0, flatten(prev_list));
        assert(spec_replay(msgs) == upsert(upsert_all(s_prev, comps), root_id(), root_k));
        lemma_flatten_take(list, k - 1);
        lemma_upsert_all_append(e0, flatten(prev_list), comps);
        lemma_upsert_all_related(s_prev, e_prev, comps);
        lemma_upsert_root_related(upsert_all(s_prev, comps), upsert_all(e_prev, comps), root_k);
        if no_root_id(flatten(cur_list)) {
            lemma_no_root_split(flatten(prev_list), comps);
        }
    }
}

/// Replaying the progressive message sequence of sibling blocks gives the
/// surface that eager conversion builds: the same component ids in the same
/// order, the root `Column` first, and the same components but the root's.
/// When no converted component takes the root's id, the two are equal.
pub proof fn lemma_stream_replays_to_surface(c: Converter, blocks: Seq<BlockResponse>, surface_id: Seq<char>)
    ensures
        entry_keys(spec_replay(spec_stream_messages(surface_id, spec_chunk_list(c, blocks))))
            == entry_keys(spec_surface_entries(spec_siblings(c, blocks).0, spec_siblings(c, blocks).1)),
        forall|j: int|
            1 <= j < spec_surface_entries(spec_siblings(c, blocks).0, spec_siblings(c, blocks).1).len()
                ==> spec_replay(spec_stream_messages(surface_id, spec_chunk_list(c, blocks)))[j]
                == spec_surface_entries(spec_siblings(c, blocks).0, spec_siblings(c, blocks).1)[j],
        no_root_id(spec_siblings(c, blocks).1) ==> spec_replay(
            spec_stream_messages(surface_id, spec_chunk_list(c, blocks)),
        ) == spec_surface_entries(spec_siblings(c, blocks).0, spec_siblings(c, blocks).1),
{
    let list = spec_chunk_list(c, blocks);
    lemma_siblings_are_chunks(c, blocks);
    lemma_replay_prefix(surface_id, list, list.len() as int);
    assert(list.take(list.len() as int) =~= list);
    assert(chunk_ids(list).take(list.len() as int) =~= chunk_ids(list));
    let s = spec_replay(spec_stream_messages(surface_id, list));
    let e = spec_surface_entries(spec_siblings(c, blocks).0, spec_siblings(c, blocks).1);
    assert(s.len() == entry_keys(s).len());
    assert(e.len() == entry_keys(e).len());
    if no_root_id(spec_siblings(c, blocks).1) {
        assert(s =~= e);
    }
}

/// When every group of sibling blocks is skipped, the message sequence is
/// exactly the two opening messages: `createSurface` and the mount of an
/// empty root `Column`.
pub proof fn lemma_all_skipped_yields_opening(c: Converter, blocks: Seq<BlockResponse>, surface_id: Seq<char>)
    requires
        forall|k: int|
            0 <= k < spec_groups(blocks).len() ==> crate::convert::spec_group_chunk(
                c,
                blocks,
                #[trigger] spec_groups(blocks)[k],
            ) is None,
    ensures
        spec_stream_messages(surface_id, spec_chunk_list(c, blocks)) == crate::stream::spec_opening(
            surface_id,
        ),
{
    let groups = spec_groups(blocks);
    lemma_chunk_list_empty(c, blocks, groups, groups.len() as int);
    assert(spec_stream_messages(surface_id, spec_chunk_list(c, blocks)) =~= crate::stream::spec_opening(
        surface_id,
    ));
}

proof fn lemma_chunk_list_empty(
    c: Converter,
    blocks: Seq<BlockResponse>,
    groups: Seq<SiblingGroup>,
    n: int,
)
    requires
        forall|k: int|
            0 <= k < groups.len() ==> crate::convert::spec_group_chunk(c, blocks, #[trigger] groups[k])
                is None,
    ensures
        spec_chunk_list_upto(c, blocks, groups, n).len() == 0,
    decreases n,
{
    if n > 0 && n <= groups.len() {
        lemma_chunk_list_empty(c, blocks, groups, n - 1);
    }
}

/// Inserting `value` under `key` and then looking up an id gives `value`
/// for `key` and, for every other id, what was stored under it before; an id
/// already present keeps its place in the order of ids, a new one goes last.
pub proof fn lemma_insert_then_lookup(entries: Entries, key: Seq<char>, value: ComponentView)
    ensures
        lookup(upsert(entries, key, value), key) == Some(value),
        forall|other: Seq<char>|
            other != key ==> #[trigger] lookup(upsert(entries, key, value), other) == lookup(
                entries,
                other,
            ),
        lookup(entries, key) is Some ==> entry_keys(upsert(entries, key, value)) == entry_keys(
            entries,
        ),
        lookup(entries, key) is None ==> entry_keys(upsert(entries, key, value)) == entry_keys(
            entries,
        ).push(key),
{
    lemma_find_key(entries, key);
    let u = upsert(entries, key, value);
    let q = find_key(entries, key);
    if q >= 0 {
        assert(entry_keys(u) =~= entry_keys(entries));
        lemma_find_key_by_keys(u, entries, key);
        assert forall|other: Seq<char>| other != key implies #[trigger] lookup(u, other) == lookup(
            entries,
            other,
        ) by {
            lemma_find_key_by_keys(u, entries, other);
            lemma_find_key(entries, other);
        }
    } else {
        let n = entries.len() as int;
        assert(entry_keys(u) =~= entry_keys(entries).push(key));
        lemma_find_key(u, key);
        let fu = find_key(u, key);
        assert(u[n].0 == key);
        if 0 <= fu < n {
            assert(u[fu] == entries[fu]);
        }
        assert(fu == n);
        assert forall|other: Seq<char>| other != key implies #[trigger] lookup(u, other) == lookup(
            entries,
            other,
        ) by {
            lemma_find_key(u, other);
            lemma_find_key(entries, other);
            let fo = find_key(u, other);
            let fe = find_key(entries, other);
            if fe >= 0 {
                assert(u[fe] == entries[fe]);
                if 0 <= fo < fe {
                    assert(u[fo] == entries[fo]);
                }
            } else {
                if 0 <= fo < n {
                    assert(u[fo] == entries[fo]);
                }
            }
        }
    }
}

proof fn lemma_stream_run_upto(
    c: Converter,
    blocks: Seq<BlockResponse>,
    groups: Seq<SiblingGroup>,
    n: int,
    surface_id: Seq<char>,
)
    requires
        0 <= n <= groups.len(),
    ensures
        ({
            let run = spec_stream_run(
                c,
                blocks,
                MessageStreamView { surface_id, accumulated: Seq::empty() },
                groups.take(n),
            );
            &&& run.0 == (MessageStreamView {
                surface_id,
                accumulated: chunk_ids(spec_chunk_list_upto(c, blocks, groups, n)),
            })
            &&& spec_opening(surface_id) + run.1 == spec_stream_messages(
                surface_id,
                spec_chunk_list_upto(c, blocks, groups, n),
            )
        }),
    decreases n,
{
    let st0 = MessageStreamView { surface_id, accumulated: Seq::empty() };
    if n == 0 {
        lemma_stream_messages_empty(surface_id);
        assert(spec_opening(surface_id) + Seq::<MessageView>::empty() =~= spec_opening(surface_id));
    } else {
        lemma_stream_run_upto(c, blocks, groups, n - 1, surface_id);
        assert(groups.take(n).drop_last() =~= groups.take(n - 1));
        assert(groups.take(n).last() == groups[n - 1]);
        lemma_step_extends(c, blocks, groups, n - 1, surface_id);
        let prev = spec_stream_run(c, blocks, st0, groups.take(n - 1));
        let step = crate::stream::spec_stream_step(c, blocks, prev.0, groups[n - 1]);
        assert(spec_opening(surface_id) + (prev.1 + step.1) =~= (spec_opening(surface_id) + prev.1)
            + step.1);
    }
}

/// Rendering sibling blocks step by step (the opening messages, then one
/// step per group, each converting its group and yielding its message unless
/// it is skipped) yields exactly the eager message sequence: `createSurface`
/// first, then only `updateComponents`.
pub proof fn lemma_stream_steps_give_eager_messages(c: Converter, blocks: Seq<BlockResponse>, surface_id: Seq<char>)
    ensures
        spec_opening(surface_id) + spec_stream_run(
            c,
            blocks,
            MessageStreamView { surface_id, accumulated: Seq::empty() },
            spec_groups(blocks),
        ).1 == spec_stream_messages(surface_id, spec_chunk_list(c, blocks)),
        spec_stream_messages(surface_id, spec_chunk_list(c, blocks)).len() >= 2,
        spec_stream_messages(surface_id, spec_chunk_list(c, blocks))[0].body is CreateSurface,
        forall|i: int|
            1 <= i < spec_stream_messages(surface_id, spec_chunk_list(c, blocks)).len()
                ==> #[trigger] spec_stream_messages(surface_id, spec_chunk_list(c, blocks))[i].body is UpdateComponents,
{
    let groups = spec_groups(blocks);
    lemma_stream_run_upto(c, blocks, groups, groups.len() as int, surface_id);
    assert(groups.take(groups.len() as int) =~= groups);
}

} // verus!
