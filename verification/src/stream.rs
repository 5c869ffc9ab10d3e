//! Conversion results as surfaces and as the progressive v0.9 message
//! sequence.
//!
//! The sequence is a `createSurface`, an `updateComponents` that mounts an
//! empty root `Column`, then one `updateComponents` per converted top-level
//! group: the group's components followed by the root `Column`, whose
//! children grow by the group's id. A skipped group yields no message.
use vstd::prelude::*;
use vstd::string::StringExecFns;

use crate::catalog::{views, Column, ColumnView, Component, ComponentView};
use crate::common::{clone_strings, str_views, ChildList, ChildListView, ComponentId};
use crate::convert::{
    list_style, spec_chunks_upto, spec_group_chunk, spec_group_fits, spec_groups, spec_list_style,
    spec_siblings,
    top_level_groups, Converter, SiblingGroup,
};
use crate::id::{root_id, ROOT_ID};
use crate::message::{
    spec_create_surface, spec_update_components, Message, MessageBody, MessageView, CreateSurface,
    UpdateComponents, BLOCK_CATALOG_ID,
};
use crate::notion::BlockResponse;
use crate::surface::{upsert, upsert_all, Entries, Surface};

verus! {

/// The root `Column` of a page, whose children are `children`.
pub open spec fn spec_root_column(children: Seq<Seq<char>>) -> ComponentView {
    ComponentView::Column(
        ColumnView {
            id: root_id(),
            accessibility: None,
            weight: None,
            children: ChildListView::Static(children),
            justify: None,
            align: None,
            width_ratio: None,
        },
    )
}

/// The views of messages.
pub open spec fn message_views(s: Seq<Message>) -> Seq<MessageView> {
    s.map_values(|m: Message| m@)
}

/// The chunks of the first `n` groups that are not skipped: each group's id
/// and components.
pub open spec fn spec_chunk_list_upto(
    c: Converter,
    blocks: Seq<BlockResponse>,
    groups: Seq<SiblingGroup>,
    n: int,
) -> Seq<(Seq<char>, Seq<ComponentView>)>
    decreases n,
{
    if n <= 0 || n > groups.len() {
        Seq::empty()
    } else {
        let prev = spec_chunk_list_upto(c, blocks, groups, n - 1);
        match spec_group_chunk(c, blocks, groups[n - 1]) {
            Some(ch) => prev.push(ch),
            None => prev,
        }
    }
}

/// The chunks of the groups of `blocks` that are not skipped, in order.
pub open spec fn spec_chunk_list(c: Converter, blocks: Seq<BlockResponse>) -> Seq<(Seq<char>, Seq<ComponentView>)> {
    let groups = spec_groups(blocks);
    spec_chunk_list_upto(c, blocks, groups, groups.len() as int)
}

/// The ids of chunks.
pub open spec fn chunk_ids(chunks: Seq<(Seq<char>, Seq<ComponentView>)>) -> Seq<Seq<char>> {
    chunks.map_values(|ch: (Seq<char>, Seq<ComponentView>)| ch.0)
}

/// The components of chunks, concatenated.
pub open spec fn flatten(chunks: Seq<(Seq<char>, Seq<ComponentView>)>) -> Seq<ComponentView>
    decreases chunks.len(),
{
    if chunks.len() == 0 {
        Seq::empty()
    } else {
        flatten(chunks.drop_last()) + chunks.last().1
    }
}

/// The `updateComponents` of the `k`-th chunk: its components, then the root
/// `Column` listing the ids of the chunks up to it.
pub open spec fn spec_chunk_update(
    surface_id: Seq<char>,
    chunks: Seq<(Seq<char>, Seq<ComponentView>)>,
    k: int,
) -> MessageView {
    spec_update_components(
        surface_id,
        chunks[k].1.push(spec_root_column(chunk_ids(chunks).take(k + 1))),
    )
}

/// The opening messages of a surface: `createSurface` bound to the block
/// catalog, then the mount of an empty root `Column`.
pub open spec fn spec_opening(surface_id: Seq<char>) -> Seq<MessageView> {
    seq![
        spec_create_surface(surface_id, BLOCK_CATALOG_ID@),
        spec_update_components(surface_id, seq![spec_root_column(Seq::empty())]),
    ]
}

/// The message sequence that renders the chunks `chunks` on surface
/// `surface_id`.
pub open spec fn spec_stream_messages(
    surface_id: Seq<char>,
    chunks: Seq<(Seq<char>, Seq<ComponentView>)>,
) -> Seq<MessageView> {
    spec_opening(surface_id) + Seq::new(
        chunks.len(),
        |k: int| spec_chunk_update(surface_id, chunks, k),
    )
}

/// The entries of the surface made from sibling blocks whose conversion
/// yields `ids` and `components`: the root `Column` listing `ids`, then
/// `components`, each inserted under its id.
pub open spec fn spec_surface_entries(ids: Seq<Seq<char>>, components: Seq<ComponentView>) -> Entries {
    upsert_all(upsert(Seq::empty(), root_id(), spec_root_column(ids)), components)
}

fn root_id_string() -> (r: String)
    ensures
        r@ == root_id(),
{
    proof {
        reveal_strlit("root");
    }
    String::from_str(ROOT_ID)
}

/// The surface of a page whose root `Column`, with id `root`, lists `ids` and
/// goes first; `components` follow, each inserted under its id.
pub fn page_surface(ids: &[ComponentId], components: &[Component]) -> (r: Surface)
    ensures
        r@.root == root_id(),
        r@.components == spec_surface_entries(str_views(ids@), views(components@)),
{
    let mut surface = Surface::new(root_id_string());
    surface.insert(root_column(ids));
    let ghost start = surface@.components;
    let n = components.len();
    let mut i: usize = 0;
    while i < n
        invariant
            n == components@.len(),
            i <= n,
            surface@.root == root_id(),
            start == upsert(Seq::empty(), root_id(), spec_root_column(str_views(ids@))),
            surface@.components == upsert_all(start, views(components@).take(i as int)),
        decreases n - i,
    {
        let c = components[i].clone();
        surface.insert(c);
        proof {
            assert(views(components@).take(i + 1).drop_last() =~= views(components@).take(i as int));
        }
        i = i + 1;
    }
    proof {
        assert(views(components@).take(n as int) =~= views(components@));
    }
    surface
}

/// The root `Column` of a page, whose children are `children`.
pub fn root_column(children: &[ComponentId]) -> (r: Component)
    ensures
        r@ == spec_root_column(str_views(children@)),
{
    Component::Column(
        Column {
            id: root_id_string(),
            accessibility: None,
            weight: None,
            children: ChildList::Static(clone_strings(children)),
            justify: None,
            align: None,
            width_ratio: None,
        },
    )
}

/// The state of a progressive rendering: the surface's id and the ids that
/// the root `Column` lists so far.
pub struct MessageStream {
    surface_id: String,
    accumulated: Vec<ComponentId>,
}

pub struct MessageStreamView {
    pub surface_id: Seq<char>,
    pub accumulated: Seq<Seq<char>>,
}

impl View for MessageStream {
    type V = MessageStreamView;

    closed spec fn view(&self) -> MessageStreamView {
        MessageStreamView { surface_id: self.surface_id@, accumulated: str_views(self.accumulated@) }
    }
}

impl MessageStream {
    /// A rendering of surface `surface_id` whose root lists nothing yet.
    pub fn new(surface_id: String) -> (r: Self)
        ensures
            r@.surface_id == surface_id@,
            r@.accumulated == Seq::<Seq<char>>::empty(),
    {
        proof {
            assert(str_views(Seq::<String>::empty()) =~= Seq::<Seq<char>>::empty());
        }
        MessageStream { surface_id, accumulated: Vec::new() }
    }

    /// The opening messages: `createSurface` bound to the block catalog, then
    /// an `updateComponents` that mounts the root `Column` listing the ids
    /// accumulated so far.
    pub fn opening(&self) -> (r: Vec<Message>)
        ensures
            message_views(r@) == seq![
                spec_create_surface(self@.surface_id, BLOCK_CATALOG_ID@),
                spec_update_components(self@.surface_id, seq![spec_root_column(self@.accumulated)]),
            ],
    {
        let create = Message::new(
            MessageBody::CreateSurface(
                CreateSurface {
                    surface_id: self.surface_id.clone(),
                    catalog_id: String::from_str(BLOCK_CATALOG_ID),
                    theme: None,
                    send_data_model: None,
                },
            ),
        );
        let mut root: Vec<Component> = Vec::new();
        let col = root_column(self.accumulated.as_slice());
        root.push(col);
        proof {
            assert(views(root@) =~= seq![col@]);
        }
        let mount = Message::new(
            MessageBody::UpdateComponents(
                UpdateComponents { surface_id: self.surface_id.clone(), components: root },
            ),
        );
        let mut out: Vec<Message> = Vec::new();
        out.push(create);
        out.push(mount);
        proof {
            assert(message_views(out@) =~= seq![create@, mount@]);
        }
        out
    }

    /// The `updateComponents` of one converted group: `components`, then the
    /// root `Column`, whose children gain `chunk_id`.
    pub fn chunk_message(&mut self, chunk_id: ComponentId, components: Vec<Component>) -> (r: Message)
        ensures
            final(self)@.surface_id == old(self)@.surface_id,
            final(self)@.accumulated == old(self)@.accumulated.push(chunk_id@),
            r@ == spec_update_components(
                old(self)@.surface_id,
                views(components@).push(spec_root_column(final(self)@.accumulated)),
            ),
    {
        let ghost before = self.accumulated@;
        self.accumulated.push(chunk_id);
        proof {
            assert(str_views(self.accumulated@) =~= str_views(before).push(chunk_id@));
        }
        let mut components = components;
        let ghost comps0 = components@;
        let col = root_column(self.accumulated.as_slice());
        components.push(col);
        proof {
            assert(views(components@) =~= views(comps0).push(col@));
        }
        Message::new(
            MessageBody::UpdateComponents(
                UpdateComponents { surface_id: self.surface_id.clone(), components },
            ),
        )
    }
}

impl Converter {
    /// Converts sibling blocks: the ids their parent references and every
    /// component synthesized for them.
    pub fn convert_children(&self, blocks: &[BlockResponse]) -> (r: (Vec<ComponentId>, Vec<Component>))
        ensures
            str_views(r.0@) == spec_siblings(*self, blocks@).0,
            views(r.1@) == spec_siblings(*self, blocks@).1,
    {
        let mut bag: Vec<Component> = Vec::new();
        let ids = self.convert_siblings(blocks, &mut bag);
        proof {
            assert(views(Seq::<Component>::empty()) + spec_siblings(*self, blocks@).1 =~= spec_siblings(
                *self,
                blocks@,
            ).1);
        }
        (ids, bag)
    }

    /// Converts the children of a page into a surface: the root `Column`,
    /// with id `root`, lists the children's ids and goes first; the children's
    /// components follow, each inserted under its id.
    pub fn convert_to_surface(&self, blocks: &[BlockResponse]) -> (r: Surface)
        ensures
            r@.root == root_id(),
            r@.components == spec_surface_entries(
                spec_siblings(*self, blocks@).0,
                spec_siblings(*self, blocks@).1,
            ),
    {
        let (ids, components) = self.convert_children(blocks);
        page_surface(ids.as_slice(), components.as_slice())
    }

    /// Converts one group of `blocks` on its own: its id and its components,
    /// or `None` when the group is a skipped block.
    pub fn convert_group_to_chunk(&self, blocks: &[BlockResponse], group: SiblingGroup) -> (r: Option<(ComponentId, Vec<Component>)>)
        requires
            spec_group_fits(blocks@, group),
        ensures
            match spec_group_chunk(*self, blocks@, group) {
                Some((id, comps)) => r matches Some((rid, rcomps)) && rid@ == id && views(rcomps@) == comps,
                None => r is None,
            },
    {
        let mut bag: Vec<Component> = Vec::new();
        let r = self.convert_group(blocks, group, &mut bag);
        proof {
            assert(views(Seq::<Component>::empty()) =~= Seq::<ComponentView>::empty());
        }
        match r {
            Some(id) => Some((id, bag)),
            None => None,
        }
    }

    /// One step of a progressive rendering of `blocks`: converts `group` and,
    /// unless it is skipped, gives its `updateComponents`, after which the
    /// root `Column` of `stream` also lists the group's id.
    pub fn stream_step(&self, stream: &mut MessageStream, blocks: &[BlockResponse], group: SiblingGroup) -> (r: Option<Message>)
        requires
            spec_group_fits(blocks@, group),
        ensures
            final(stream)@ == spec_stream_step(*self, blocks@, old(stream)@, group).0,
            opt_message_view(r) == spec_stream_step(*self, blocks@, old(stream)@, group).1,
    {
        match self.convert_group_to_chunk(blocks, group) {
            Some((id, comps)) => {
                let m = stream.chunk_message(id, comps);
                Some(m)
            },
            None => None,
        }
    }

    /// The v0.9 message sequence that renders sibling blocks on surface
    /// `surface_id`: `createSurface` bound to the block catalog, the mount of
    /// an empty root `Column`, then one `updateComponents` per group that is
    /// not skipped, carrying the group's components and the root `Column`
    /// listing the ids of the groups so far.
    pub fn convert_block_to_messages(&self, blocks: &[BlockResponse], surface_id: String) -> (r: Vec<Message>)
        ensures
            message_views(r@) == spec_stream_messages(surface_id@, spec_chunk_list(*self, blocks@)),
    {
        let groups = top_level_groups(blocks);
        proof {
            assert(blocks@.len() == blocks.len());
            crate::convert::lemma_groups_fit_all(blocks@);
        }
        let mut stream = MessageStream::new(surface_id);
        let mut out = stream.opening();
        let ghost sid = stream@.surface_id;
        proof {
            lemma_stream_messages_empty(sid);
        }
        let n = groups.len();
        let mut k: usize = 0;
        while k < n
            invariant
                n == groups@.len(),
                groups@ == spec_groups(blocks@),
                k <= n,
                forall|j: int| 0 <= j < groups@.len() ==> spec_group_fits(blocks@, #[trigger] groups@[j]),
                stream@ == (MessageStreamView {
                    surface_id: sid,
                    accumulated: chunk_ids(spec_chunk_list_upto(*self, blocks@, groups@, k as int)),
                }),
                message_views(out@) == spec_stream_messages(
                    sid,
                    spec_chunk_list_upto(*self, blocks@, groups@, k as int),
                ),
            decreases n - k,
        {
            let ghost before = out@;
            let r = self.stream_step(&mut stream, blocks, groups[k]);
            proof {
                lemma_step_extends(*self, blocks@, groups@, k as int, sid);
            }
            match r {
                Some(m) => {
                    out.push(m);
                    proof {
                        assert(message_views(out@) =~= message_views(before) + opt_message_view(r));
                    }
                },
                None => {
                    proof {
                        assert(message_views(out@) =~= message_views(before) + opt_message_view(r));
                    }
                },
            }
            k = k + 1;
        }
        out
    }
}

/// The view of an optional message, as a sequence of none or one.
pub open spec fn opt_message_view(r: Option<Message>) -> Seq<MessageView> {
    match r {
        Some(m) => seq![m@],
        None => Seq::empty(),
    }
}

/// One step of a progressive rendering, over views: a group that is not
/// skipped adds its id to those that the root lists and yields its
/// `updateComponents`; a skipped group changes nothing and yields nothing.
pub open spec fn spec_stream_step(
    c: Converter,
    blocks: Seq<BlockResponse>,
    st: MessageStreamView,
    group: SiblingGroup,
) -> (MessageStreamView, Seq<MessageView>) {
    match spec_group_chunk(c, blocks, group) {
        Some((id, comps)) => {
            let acc = st.accumulated.push(id);
            (
                MessageStreamView { surface_id: st.surface_id, accumulated: acc },
                seq![spec_update_components(st.surface_id, comps.push(spec_root_column(acc)))],
            )
        },
        None => (st, Seq::empty()),
    }
}

/// The steps over `groups`, in order, from state `st`: the final state and
/// the messages yielded.
pub open spec fn spec_stream_run(
    c: Converter,
    blocks: Seq<BlockResponse>,
    st: MessageStreamView,
    groups: Seq<SiblingGroup>,
) -> (MessageStreamView, Seq<MessageView>)
    decreases groups.len(),
{
    if groups.len() == 0 {
        (st, Seq::empty())
    } else {
        let prev = spec_stream_run(c, blocks, st, groups.drop_last());
        let next = spec_stream_step(c, blocks, prev.0, groups.last());
        (next.0, prev.1 + next.1)
    }
}

/// The message sequence of no chunks is the opening.
pub proof fn lemma_stream_messages_empty(surface_id: Seq<char>)
    ensures
        spec_stream_messages(surface_id, Seq::empty()) == spec_opening(surface_id),
        chunk_ids(Seq::<(Seq<char>, Seq<ComponentView>)>::empty()) == Seq::<Seq<char>>::empty(),
{
    assert(spec_stream_messages(surface_id, Seq::empty()) =~= spec_opening(surface_id));
    assert(chunk_ids(Seq::<(Seq<char>, Seq<ComponentView>)>::empty()) =~= Seq::<Seq<char>>::empty());
}

/// A step from the state after the first `k` groups gives the state and the
/// messages after the first `k + 1`.
pub proof fn lemma_step_extends(
    c: Converter,
    blocks: Seq<BlockResponse>,
    groups: Seq<SiblingGroup>,
    k: int,
    sid: Seq<char>,
)
    requires
        0 <= k < groups.len(),
    ensures
        ({
            let list = spec_chunk_list_upto(c, blocks, groups, k);
            let list2 = spec_chunk_list_upto(c, blocks, groups, k + 1);
            let step = spec_stream_step(
                c,
                blocks,
                MessageStreamView { surface_id: sid, accumulated: chunk_ids(list) },
                groups[k],
            );
            &&& step.0 == (MessageStreamView { surface_id: sid, accumulated: chunk_ids(list2) })
            &&& spec_stream_messages(sid, list) + step.1 == spec_stream_messages(sid, list2)
        }),
{
    let list = spec_chunk_list_upto(c, blocks, groups, k);
    let list2 = spec_chunk_list_upto(c, blocks, groups, k + 1);
    match spec_group_chunk(c, blocks, groups[k]) {
        Some((id, comps)) => {
            assert(list2 == list.push((id, comps)));
            assert(chunk_ids(list2) =~= chunk_ids(list).push(id));
            assert(chunk_ids(list2).take(list.len() as int + 1) =~= chunk_ids(list2));
            assert forall|j: int| 0 <= j < list.len() implies spec_chunk_update(sid, list2, j)
                == spec_chunk_update(sid, list, j) by {
                assert(list2[j] == list[j]);
                assert(chunk_ids(list2).take(j + 1) =~= chunk_ids(list).take(j + 1));
            }
            assert(spec_stream_messages(sid, list2) =~= spec_stream_messages(sid, list).push(
                spec_chunk_update(sid, list2, list.len() as int),
            ));
        },
        None => {
            assert(list2 == list);
            assert(spec_stream_messages(sid, list) + Seq::<MessageView>::empty() =~= spec_stream_messages(sid, list));
        },
    }
}

/// Whether converting `group` of `blocks` on its own is defined: every block
/// of a list group is a list item.
pub fn group_fits(blocks: &[BlockResponse], group: SiblingGroup) -> (r: bool)
    ensures
        r == spec_group_fits(blocks@, group),
{
    match group {
        SiblingGroup::Single { .. } => true,
        SiblingGroup::List { start, end, style } => {
            let mut k: usize = start;
            while k < end && k < blocks.len()
                invariant
                    group == (SiblingGroup::List { start, end, style }),
                    start <= k,
                    forall|j: int|
                        start <= j < k && j < blocks@.len() ==> (#[trigger] spec_list_style(blocks@[j].block)) is Some,
                decreases end - k,
            {
                if list_style(&blocks[k].block).is_none() {
                    proof {
                        assert(spec_list_style(blocks@[k as int].block) is None);
                    }
                    return false;
                }
                k = k + 1;
            }
            true
        },
    }
}

} // verus!
