//! The work list of directories still to be listed: last in, first out.

use vstd::prelude::*;

verus! {

/// One directory waiting to be listed. A node without a name is a marker:
/// it is taken from the list only to leave the directory it closes.
#[derive(Debug)]
pub struct Pending {
    /// The path under which the directory is opened.
    pub name: Option<String>,
    /// The name under which it is announced, where that differs.
    pub real_name: Option<String>,
    /// Whether the caller named this directory.
    pub cli_arg: bool,
}

/// What a `Pending` holds, as plain values.
pub struct PendingView {
    pub name: Option<Seq<char>>,
    pub real_name: Option<Seq<char>>,
    pub cli_arg: bool,
}

/// The view of an optional name.
pub open spec fn name_view(name: Option<String>) -> Option<Seq<char>> {
    match name {
        Some(s) => Some(s@),
        None => None,
    }
}

/// The view of an optional borrowed name.
pub open spec fn str_view(name: Option<&str>) -> Option<Seq<char>> {
    match name {
        Some(s) => Some(s@),
        None => None,
    }
}

impl View for Pending {
    type V = PendingView;

    open spec fn view(&self) -> PendingView {
        PendingView {
            name: name_view(self.name),
            real_name: name_view(self.real_name),
            cli_arg: self.cli_arg,
        }
    }
}

impl Pending {
    pub fn new(name: Option<String>, real_name: Option<String>, cli_arg: bool) -> (node: Self)
        ensures
            node.name == name,
            node.real_name == real_name,
            node.cli_arg == cli_arg,
    {
        Pending { name, real_name, cli_arg }
    }

    /// The path of the directory. A marker has none.
    pub fn get_name(&self) -> (name: &str)
        requires
            self.name is Some,
        ensures
            name@ == self.name->0@,
    {
        self.name.as_ref().unwrap().as_str()
    }

    /// Whether this node is a marker that closes a directory.
    pub fn is_marker(&self) -> (marker: bool)
        ensures
            marker == (self.name is None),
    {
        self.name.is_none()
    }
}

/// The work list. Its view lists the waiting nodes from the oldest to the
/// newest; the newest is taken first.
#[derive(Debug)]
pub struct PendingList {
    nodes: Vec<Pending>,
}

impl View for PendingList {
    type V = Seq<PendingView>;

    closed spec fn view(&self) -> Seq<PendingView> {
        Seq::new(self.nodes@.len(), |i: int| self.nodes@[i]@)
    }
}

/// The list after `node` was queued.
pub open spec fn queued(list: Seq<PendingView>, node: PendingView) -> Seq<PendingView> {
    list.push(node)
}

/// The list after one node was taken, and the node taken, if there was one.
pub open spec fn dequeued(list: Seq<PendingView>) -> (Seq<PendingView>, Option<PendingView>) {
    if list.len() == 0 {
        (list, None)
    } else {
        (list.drop_last(), Some(list.last()))
    }
}

/// The list after every node of `nodes` was queued, first to last.
pub open spec fn queued_all(list: Seq<PendingView>, nodes: Seq<PendingView>) -> Seq<PendingView>
    decreases nodes.len(),
{
    if nodes.len() == 0 {
        list
    } else {
        queued(queued_all(list, nodes.drop_last()), nodes.last())
    }
}

/// The list after `count` nodes were taken, and the nodes in the order in
/// which they came out.
pub open spec fn dequeued_many(list: Seq<PendingView>, count: nat) -> (
    Seq<PendingView>,
    Seq<PendingView>,
)
    decreases count,
{
    if count == 0 {
        (list, Seq::empty())
    } else {
        let (rest, node) = dequeued(list);
        match node {
            Some(node) => {
                let (left, taken) = dequeued_many(rest, (count - 1) as nat);
                (left, seq![node] + taken)
            },
            None => (list, Seq::empty()),
        }
    }
}

/// The number of markers on the list.
pub open spec fn marker_count(list: Seq<PendingView>) -> nat
    decreases list.len(),
{
    if list.len() == 0 {
        0
    } else {
        marker_count(list.drop_last()) + if list.last().name is None {
            1nat
        } else {
            0nat
        }
    }
}

/// The markers of two lists put end to end are those of both.
pub proof fn lemma_marker_count_concat(a: Seq<PendingView>, b: Seq<PendingView>)
    ensures
        marker_count(a + b) == marker_count(a) + marker_count(b),
    decreases b.len(),
{
    if b.len() > 0 {
        assert((a + b).drop_last() =~= a + b.drop_last());
        lemma_marker_count_concat(a, b.drop_last());
    }
}

/// The list is strictly last in, first out: nodes queued one after another
/// come back in the reverse order, and the list is then as it was.
pub proof fn lemma_last_in_first_out(list: Seq<PendingView>, nodes: Seq<PendingView>)
    ensures
        dequeued_many(queued_all(list, nodes), nodes.len()) == (list, nodes.reverse()),
    decreases nodes.len(),
{
    if nodes.len() > 0 {
        let before = queued_all(list, nodes.drop_last());
        let full = queued(before, nodes.last());
        assert(full.drop_last() =~= before);
        lemma_last_in_first_out(list, nodes.drop_last());
    }
}

/// Queuing nodes one after another puts them on the list in that order.
pub proof fn lemma_queued_all_appends(list: Seq<PendingView>, nodes: Seq<PendingView>)
    ensures
        queued_all(list, nodes) == list + nodes,
    decreases nodes.len(),
{
    if nodes.len() > 0 {
        lemma_queued_all_appends(list, nodes.drop_last());
        assert(list + nodes =~= (list + nodes.drop_last()).push(nodes.last()));
    } else {
        assert(list + nodes =~= list);
    }
}

impl PendingList {
    pub fn new() -> (list: PendingList)
        ensures
            list@ == Seq::<PendingView>::empty(),
    {
        let list = PendingList { nodes: Vec::new() };
        list
    }

    /// Whether a node is waiting.
    pub fn has_next(&self) -> (more: bool)
        ensures
            more == (self@.len() > 0),
    {
        self.nodes.len() > 0
    }

    /// Whether a second node waits behind the next one.
    pub fn peek(&self) -> (second: bool)
        ensures
            second == (self@.len() > 1),
    {
        self.nodes.len() > 1
    }

    /// Puts a directory on the list; without a name, a marker.
    pub fn queue_directory(&mut self, name: Option<&str>, real_name: Option<&str>, cli_arg: bool)
        ensures
            final(self)@ == queued(
                old(self)@,
                PendingView { name: str_view(name), real_name: str_view(real_name), cli_arg },
            ),
    {
        let owned_name: Option<String> = match name {
            Some(s) => Some(s.to_owned()),
            None => None,
        };
        let owned_real_name: Option<String> = match real_name {
            Some(s) => Some(s.to_owned()),
            None => None,
        };
        let new_pending = Pending::new(owned_name, owned_real_name, cli_arg);
        self.nodes.push(new_pending);
    }

    /// Takes the node queued last, if any is waiting.
    pub fn dequeue_directory(&mut self) -> (node: Option<Box<Pending>>)
        ensures
            final(self)@ == dequeued(old(self)@).0,
            match node {
                Some(node) => dequeued(old(self)@).1 == Some(node@),
                None => dequeued(old(self)@).1 is None,
            },
    {
        match self.nodes.pop() {
            Some(out) => {
                Some(Box::new(out))
            },
            None => None,
        }
    }
}

} // verus!
