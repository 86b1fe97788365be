//! Which sessions descend from which, learnt from `subagent.started` notifications.

use vstd::prelude::*;

use crate::client::Notification;
#[allow(unused_imports)]
use crate::client::NotificationView;
use crate::text::same_text;
use crate::text_map::TextMap;
#[allow(unused_imports)]
use crate::text_map::{lemma_entries_finite, text_values};

verus! {

/// The recorded parent of every session that is known to be a subagent's.
pub struct Lineage {
    /// From child session to parent session.
    pub parents: TextMap<String>,
}

impl View for Lineage {
    type V = Map<Seq<char>, Seq<char>>;

    open spec fn view(&self) -> Map<Seq<char>, Seq<char>> {
        text_values(self.parents@)
    }
}

/// The session `n` steps up from `id`; `None` where the chain ends earlier.
pub open spec fn ancestor(parents: Map<Seq<char>, Seq<char>>, id: Seq<char>, n: nat) -> Option<
    Seq<char>,
>
    decreases n,
{
    if n == 0 {
        Some(id)
    } else {
        match ancestor(parents, id, (n - 1) as nat) {
            Some(below) if parents.contains_key(below) => Some(parents[below]),
            _ => None,
        }
    }
}

/// `id` is `root` or one of its descendants.
pub open spec fn in_tree(
    parents: Map<Seq<char>, Seq<char>>,
    root: Seq<char>,
    id: Seq<char>,
) -> bool {
    exists|n: nat| #[trigger] ancestor(parents, id, n) == Some(root)
}

/// The edge from child to parent that a notification announces. Only `subagent.started` announces
/// one, and only between two different, non-empty sessions.
pub open spec fn announced_edge(notification: NotificationView) -> Option<(Seq<char>, Seq<char>)> {
    if notification.method != "subagent.started"@ {
        None
    } else {
        match (
            notification.payload.text_field("parentSessionId"@),
            notification.payload.text_field("childSessionId"@),
        ) {
            (Some(parent), Some(child)) => if parent.len() > 0 && child.len() > 0 && parent
                != child {
                Some((child, parent))
            } else {
                None
            },
            _ => None,
        }
    }
}

/// The lineage after a notification.
pub open spec fn recorded(
    parents: Map<Seq<char>, Seq<char>>,
    notification: NotificationView,
) -> Map<Seq<char>, Seq<char>> {
    match announced_edge(notification) {
        Some((child, parent)) => parents.insert(child, parent),
        None => parents,
    }
}

/// The notification's optional text member names a session of the tree.
pub open spec fn names_descendant(
    parents: Map<Seq<char>, Seq<char>>,
    root: Seq<char>,
    notification: NotificationView,
    key: Seq<char>,
) -> bool {
    notification.payload.text_field(key) matches Some(id) && in_tree(parents, root, id)
}

/// The notification concerns the session tree under `root`: a subagent's lifecycle through its
/// parent, or through its child where that is the root itself; everything else through its
/// session.
pub open spec fn concerns_tree(
    parents: Map<Seq<char>, Seq<char>>,
    root: Seq<char>,
    notification: NotificationView,
) -> bool {
    if notification.method == "subagent.started"@ || notification.method
        == "subagent.finished"@ {
        names_descendant(parents, root, notification, "parentSessionId"@)
            || notification.payload.text_field("childSessionId"@) == Some(root)
    } else {
        names_descendant(parents, root, notification, "sessionId"@)
    }
}

/// A chain that comes back to a session it has passed goes round for ever.
proof fn lemma_cycle(
    parents: Map<Seq<char>, Seq<char>>,
    id: Seq<char>,
    m: nat,
    n: nat,
    k: nat,
) -> (j: nat)
    requires
        m < n,
        ancestor(parents, id, n) == ancestor(parents, id, m),
    ensures
        j < n,
        ancestor(parents, id, k) == ancestor(parents, id, j),
    decreases k,
{
    if k < n {
        k
    } else {
        let j = lemma_cycle(parents, id, m, n, (k - 1) as nat);
        if j + 1 < n {
            j + 1
        } else {
            m
        }
    }
}

/// Past the end of a chain there is nothing.
proof fn lemma_chain_end(parents: Map<Seq<char>, Seq<char>>, id: Seq<char>, n: nat, k: nat)
    requires
        ancestor(parents, id, n) is None,
        k >= n,
    ensures
        ancestor(parents, id, k) is None,
    decreases k,
{
    if k > n {
        lemma_chain_end(parents, id, n, (k - 1) as nat);
    }
}

/// A chain continues from any of its sessions.
proof fn lemma_chain_join(
    parents: Map<Seq<char>, Seq<char>>,
    id: Seq<char>,
    middle: Seq<char>,
    m: nat,
    n: nat,
)
    requires
        ancestor(parents, id, m) == Some(middle),
    ensures
        ancestor(parents, id, m + n) == ancestor(parents, middle, n),
    decreases n,
{
    if n > 0 {
        lemma_chain_join(parents, id, middle, m, (n - 1) as nat);
    }
}

/// A chain that never passes `child` is the same after `child` gets another parent.
proof fn lemma_chain_kept(
    parents: Map<Seq<char>, Seq<char>>,
    child: Seq<char>,
    parent: Seq<char>,
    id: Seq<char>,
    n: nat,
)
    requires
        forall|m: nat| m < n ==> #[trigger] ancestor(parents, id, m) != Some(child),
    ensures
        ancestor(parents.insert(child, parent), id, n) == ancestor(parents, id, n),
    decreases n,
{
    if n > 0 {
        lemma_chain_kept(parents, child, parent, id, (n - 1) as nat);
        assert(ancestor(parents, id, (n - 1) as nat) != Some(child));
    }
}

/// A session is in its own tree.
pub proof fn law_root_is_in_its_tree(parents: Map<Seq<char>, Seq<char>>, root: Seq<char>)
    ensures
        in_tree(parents, root, root),
{
    assert(ancestor(parents, root, 0) == Some(root));
}

/// A descendant of a descendant is a descendant.
pub proof fn law_trees_nest(
    parents: Map<Seq<char>, Seq<char>>,
    root: Seq<char>,
    middle: Seq<char>,
    id: Seq<char>,
)
    requires
        in_tree(parents, root, middle),
        in_tree(parents, middle, id),
    ensures
        in_tree(parents, root, id),
{
    let m = choose|m: nat| #[trigger] ancestor(parents, id, m) == Some(middle);
    let n = choose|n: nat| #[trigger] ancestor(parents, middle, n) == Some(root);
    lemma_chain_join(parents, id, middle, m, n);
    assert(ancestor(parents, id, m + n) == Some(root));
}

/// A `subagent.started` notification makes the child a member of every tree that its parent
/// belongs to along a chain that does not lead through the child itself: the notification itself
/// and everything the child then sends concern that tree.
pub proof fn law_started_child_joins_the_tree(
    parents: Map<Seq<char>, Seq<char>>,
    root: Seq<char>,
    started: NotificationView,
    n: nat,
)
    requires
        announced_edge(started) matches Some((child, parent)) && {
            &&& ancestor(parents, parent, n) == Some(root)
            &&& forall|m: nat| m < n ==> #[trigger] ancestor(parents, parent, m) != Some(child)
        },
    ensures
        concerns_tree(recorded(parents, started), root, started),
        announced_edge(started) matches Some((child, _)) && in_tree(
            recorded(parents, started),
            root,
            child,
        ),
{
    let (child, parent) = announced_edge(started)->0;
    let after = recorded(parents, started);
    lemma_chain_kept(parents, child, parent, parent, n);
    assert(ancestor(after, parent, n) == Some(root));
    assert(ancestor(after, child, 0) == Some(child));
    assert(ancestor(after, child, 1) == Some(parent)) by {
        reveal_with_fuel(ancestor, 2);
    }
    lemma_chain_join(after, child, parent, 1, n);
    assert(ancestor(after, child, 1 + n) == Some(root));
    assert(names_descendant(after, root, started, "parentSessionId"@));
}

/// Recording an edge changes nothing for the sessions whose chain does not pass the child.
pub proof fn law_other_sessions_keep_their_trees(
    parents: Map<Seq<char>, Seq<char>>,
    root: Seq<char>,
    notification: NotificationView,
    id: Seq<char>,
)
    requires
        announced_edge(notification) matches Some((child, _)) ==> forall|m: nat| #[trigger]
            ancestor(parents, id, m) != Some(child),
    ensures
        in_tree(recorded(parents, notification), root, id) == in_tree(parents, root, id),
{
    if let Some((child, parent)) = announced_edge(notification) {
        let after = recorded(parents, notification);
        assert forall|n: nat| #[trigger] ancestor(after, id, n) == ancestor(parents, id, n) by {
            lemma_chain_kept(parents, child, parent, id, n);
        }
        if in_tree(parents, root, id) {
            let n = choose|n: nat| #[trigger] ancestor(parents, id, n) == Some(root);
            assert(ancestor(after, id, n) == Some(root));
        }
        if in_tree(after, root, id) {
            let n = choose|n: nat| #[trigger] ancestor(after, id, n) == Some(root);
            assert(ancestor(parents, id, n) == Some(root));
        }
    }
}

/// Whether a list holds a text.
fn lists(seen: &Vec<String>, text: &str) -> (found: Option<usize>)
    ensures
        match found {
            Some(i) => i < seen@.len() && seen@[i as int]@ == text@,
            None => forall|i: int| 0 <= i < seen@.len() ==> (#[trigger] seen@[i])@ != text@,
        },
{
    let mut i: usize = 0;
    while i < seen.len()
        invariant
            i <= seen@.len(),
            forall|j: int| 0 <= j < i ==> (#[trigger] seen@[j])@ != text@,
        decreases seen@.len() - i,
    {
        if same_text(seen[i].as_str(), text) {
            return Some(i);
        }
        i += 1;
    }
    None
}

impl Lineage {
    /// No session has a known parent.
    pub fn new() -> (lineage: Self)
        ensures
            lineage@ == Map::<Seq<char>, Seq<char>>::empty(),
    {
        let lineage = Lineage { parents: TextMap::new() };
        assert(lineage@ =~= Map::<Seq<char>, Seq<char>>::empty());
        lineage
    }

    /// Records the edge that a notification announces.
    pub fn record(&mut self, notification: &Notification)
        ensures
            final(self)@ == recorded(old(self)@, notification@),
    {
        if !same_text(notification.method.as_str(), "subagent.started") {
            return;
        }
        let parent = match notification.payload.get_str("parentSessionId") {
            Some(parent) => parent,
            None => return,
        };
        let child = match notification.payload.get_str("childSessionId") {
            Some(child) => child,
            None => return,
        };
        if !parent.is_empty() && !child.is_empty() && !same_text(parent, child) {
            let ghost before = self@;
            self.parents.insert(child.to_owned(), parent.to_owned());
            assert(self@ =~= before.insert(child@, parent@));
        }
    }

    /// Whether `id` is `root` or one of its descendants.
    pub fn is_descendant(&self, root: &str, id: &str) -> (descendant: bool)
        ensures
            descendant == in_tree(self@, root@, id@),
    {
        let ghost parents = self@;
        let mut current: String = id.to_owned();
        let mut visited: Vec<String> = Vec::new();
        proof {
            lemma_entries_finite(self.parents.entries@);
            assert(parents.dom() =~= self.parents@.dom());
        }
        loop
            invariant
                parents == self@,
                parents.dom().finite(),
                ancestor(parents, id@, visited@.len()) == Some(current@),
                forall|n: int|
                    0 <= n < visited@.len() ==> ancestor(parents, id@, n as nat) == Some(
                        (#[trigger] visited@[n])@,
                    ),
                forall|n: int| 0 <= n < visited@.len() ==> (#[trigger] visited@[n])@ != root@,
                forall|n: int|
                    0 <= n < visited@.len() ==> parents.contains_key((#[trigger] visited@[n])@),
                forall|m: int, n: int|
                    0 <= m < n < visited@.len() ==> (#[trigger] visited@[m])@ != (
                    #[trigger] visited@[n])@,
            decreases parents.dom().len() + 1 - visited@.len(),
        {
            if let Some(m) = lists(&visited, current.as_str()) {
                proof {
                    let n = visited@.len();
                    assert forall|k: nat| #[trigger] ancestor(parents, id@, k) != Some(root@) by {
                        let j = lemma_cycle(parents, id@, m as nat, n, k);
                        assert(visited@[j as int]@ != root@);
                    }
                }
                return false;
            }
            if same_text(current.as_str(), root) {
                return true;
            }
            match self.parents.get(current.as_str()) {
                Some(parent) => {
                    let next = parent.clone();
                    visited.push(current);
                    current = next;
                    proof {
                        lemma_distinct_bound(visited@, parents.dom());
                    }
                },
                None => {
                    proof {
                        let n = visited@.len();
                        assert(ancestor(parents, id@, n + 1) is None);
                        assert forall|k: nat| #[trigger] ancestor(parents, id@, k) != Some(
                            root@,
                        ) by {
                            if k > n {
                                lemma_chain_end(parents, id@, n + 1, k);
                            } else if k < n {
                                assert(visited@[k as int]@ != root@);
                            }
                        }
                    }
                    return false;
                },
            }
        }
    }

    /// Whether a notification's optional text member names a session of the tree.
    fn names(&self, root: &str, notification: &Notification, key: &str) -> (named: bool)
        ensures
            named == names_descendant(self@, root@, notification@, key@),
    {
        match notification.payload.get_str(key) {
            Some(id) => self.is_descendant(root, id),
            None => false,
        }
    }

    /// Whether a notification concerns the session tree under `root`.
    pub fn concerns(&self, root: &str, notification: &Notification) -> (concerned: bool)
        ensures
            concerned == concerns_tree(self@, root@, notification@),
    {
        let method = notification.method.as_str();
        if same_text(method, "subagent.started") || same_text(method, "subagent.finished") {
            if self.names(root, notification, "parentSessionId") {
                return true;
            }
            match notification.payload.get_str("childSessionId") {
                Some(child) => same_text(child, root),
                None => false,
            }
        } else {
            self.names(root, notification, "sessionId")
        }
    }
}

/// A list of different members of a finite set is no longer than the set.
proof fn lemma_distinct_bound(list: Seq<String>, set: Set<Seq<char>>)
    requires
        set.finite(),
        forall|n: int| 0 <= n < list.len() ==> set.contains((#[trigger] list[n])@),
        forall|m: int, n: int|
            0 <= m < n < list.len() ==> (#[trigger] list[m])@ != (#[trigger] list[n])@,
    ensures
        list.len() <= set.len(),
    decreases list.len(),
{
    if list.len() > 0 {
        let rest = list.drop_last();
        let last = list.last()@;
        assert forall|n: int| 0 <= n < rest.len() implies set.remove(last).contains(
            (#[trigger] rest[n])@,
        ) by {
            assert(rest[n] == list[n]);
            assert(list[n]@ != list[list.len() - 1]@);
        }
        assert forall|m: int, n: int| 0 <= m < n < rest.len() implies (#[trigger] rest[m])@ != (
        #[trigger] rest[n])@ by {
            assert(list[m]@ != list[n]@);
        }
        assert(set.contains(list[list.len() - 1]@));
        lemma_distinct_bound(rest, set.remove(last));
    }
}

/// A session is in the tree of a root exactly when it is the root, or its recorded parent is in the
/// tree.
pub proof fn law_a_session_is_in_the_trees_of_its_parent(
    parents: Map<Seq<char>, Seq<char>>,
    root: Seq<char>,
    id: Seq<char>,
)
    ensures
        in_tree(parents, root, id) <==> id == root || (parents.contains_key(id) && in_tree(
            parents,
            root,
            parents[id],
        )),
{
    if in_tree(parents, root, id) && id != root {
        let n = choose|n: nat| #[trigger] ancestor(parents, id, n) == Some(root);
        assert(ancestor(parents, id, 0) == Some(id));
        assert(n > 0);
        if parents.contains_key(id) {
            lemma_first_step(parents, id, (n - 1) as nat);
            assert(ancestor(parents, parents[id], (n - 1) as nat) == Some(root));
        } else {
            assert(ancestor(parents, id, 1) is None) by {
                reveal_with_fuel(ancestor, 2);
            }
            lemma_chain_end(parents, id, 1, n);
        }
    }
    if id == root {
        assert(ancestor(parents, id, 0) == Some(root));
    }
    if parents.contains_key(id) && in_tree(parents, root, parents[id]) {
        let n = choose|n: nat| #[trigger] ancestor(parents, parents[id], n) == Some(root);
        lemma_first_step(parents, id, n);
        assert(ancestor(parents, id, n + 1) == Some(root));
    }
}

/// A chain is its first step and then the chain of the parent.
proof fn lemma_first_step(parents: Map<Seq<char>, Seq<char>>, id: Seq<char>, n: nat)
    requires
        parents.contains_key(id),
    ensures
        ancestor(parents, id, n + 1) == ancestor(parents, parents[id], n),
{
    assert(ancestor(parents, id, 1) == Some(parents[id])) by {
        reveal_with_fuel(ancestor, 2);
    }
    lemma_chain_join(parents, id, parents[id], 1, n);
}

/// A `subagent.started` between two different sessions that are named records the child under its
/// parent, whatever was recorded of it before, and nothing else is ever recorded.
pub proof fn law_only_started_subagents_are_recorded(
    lineage: &mut Lineage,
    notification: Notification,
    parent: Seq<char>,
    child: Seq<char>,
)
    requires
        call_ensures(Lineage::record, (lineage, &notification), ()),
    ensures
        notification@.method == "subagent.started"@ && notification@.payload.text_field(
            "parentSessionId"@,
        ) == Some(parent) && notification@.payload.text_field("childSessionId"@) == Some(child)
            && parent.len() > 0 && child.len() > 0 && parent != child ==> final(lineage)@
            == old(lineage)@.insert(child, parent),
        notification@.method != "subagent.started"@ || notification@.payload.text_field(
            "parentSessionId"@,
        ) is None || notification@.payload.text_field("childSessionId"@) is None ==> final(lineage)@
            == old(lineage)@,
        notification@.payload.text_field("parentSessionId"@) == Some(parent)
            && notification@.payload.text_field("childSessionId"@) == Some(child) && (parent.len()
            == 0 || child.len() == 0 || parent == child) ==> final(lineage)@ == old(lineage)@,
{
}

/// A subagent's lifecycle concerns a tree that its parent is in, or whose root the child is; any
/// other notification concerns a tree that its own session is in. A member that is missing or no
/// string names no session.
pub proof fn law_notifications_concern_the_trees_of_their_sessions(
    lineage: Lineage,
    root: &str,
    notification: Notification,
    concerned: bool,
)
    requires
        call_ensures(Lineage::concerns, (&lineage, root, &notification), concerned),
    ensures
        notification@.method == "subagent.started"@ || notification@.method == "subagent.finished"@
            ==> (concerned <==> (notification@.payload.text_field("childSessionId"@) == Some(root@)
            || (notification@.payload.text_field("parentSessionId"@) matches Some(parent)
            && in_tree(lineage@, root@, parent)))),
        notification@.method != "subagent.started"@ && notification@.method
            != "subagent.finished"@ ==> (concerned <==> (notification@.payload.text_field(
            "sessionId"@,
        ) matches Some(session) && in_tree(lineage@, root@, session))),
{
}

/// A tree holds only sessions from which the recorded parents lead to its root: where no step out of
/// some sessions leads elsewhere and the root is not among them, none of them is in the tree, even
/// if they are each other's parents.
pub proof fn law_a_tree_holds_only_what_leads_to_its_root(
    lineage: Lineage,
    root: &str,
    id: &str,
    descendant: bool,
    astray: Set<Seq<char>>,
)
    requires
        call_ensures(Lineage::is_descendant, (&lineage, root, id), descendant),
        astray.contains(id@),
        !astray.contains(root@),
        forall|session: Seq<char>| #[trigger]
            astray.contains(session) && lineage@.contains_key(session) ==> astray.contains(
                lineage@[session],
            ),
    ensures
        !descendant,
{
    assert forall|n: nat| #[trigger] ancestor(lineage@, id@, n) != Some(root@) by {
        lemma_chain_stays(lineage@, id@, astray, n);
    }
}

/// A chain does not leave sessions out of which no step leads.
proof fn lemma_chain_stays(
    parents: Map<Seq<char>, Seq<char>>,
    id: Seq<char>,
    sessions: Set<Seq<char>>,
    n: nat,
)
    requires
        sessions.contains(id),
        forall|session: Seq<char>| #[trigger]
            sessions.contains(session) && parents.contains_key(session) ==> sessions.contains(
                parents[session],
            ),
    ensures
        ancestor(parents, id, n) matches Some(session) ==> sessions.contains(session),
    decreases n,
{
    if n > 0 {
        lemma_chain_stays(parents, id, sessions, (n - 1) as nat);
    }
}

/// A session from which the recorded parents lead to the root, a step at a time, is in its tree.
pub proof fn law_a_tree_holds_all_that_leads_to_its_root(
    lineage: Lineage,
    root: &str,
    id: &str,
    descendant: bool,
    chain: Seq<Seq<char>>,
)
    requires
        call_ensures(Lineage::is_descendant, (&lineage, root, id), descendant),
        chain.len() > 0,
        chain[0] == id@,
        chain.last() == root@,
        forall|i: int|
            0 <= i < chain.len() - 1 ==> lineage@.contains_key(#[trigger] chain[i])
                && lineage@[chain[i]] == chain[i + 1],
    ensures
        descendant,
{
    lemma_chain_followed(lineage@, chain, (chain.len() - 1) as nat);
    assert(ancestor(lineage@, id@, (chain.len() - 1) as nat) == Some(root@));
}

proof fn lemma_chain_followed(parents: Map<Seq<char>, Seq<char>>, chain: Seq<Seq<char>>, n: nat)
    requires
        n < chain.len(),
        forall|i: int|
            0 <= i < chain.len() - 1 ==> parents.contains_key(#[trigger] chain[i])
                && parents[chain[i]] == chain[i + 1],
    ensures
        ancestor(parents, chain[0], n) == Some(chain[n as int]),
    decreases n,
{
    if n > 0 {
        lemma_chain_followed(parents, chain, (n - 1) as nat);
        assert(parents.contains_key(chain[n - 1]));
    }
}

/// At first no session has a known parent.
pub proof fn law_a_lineage_begins_empty(lineage: Lineage, id: Seq<char>)
    requires
        call_ensures(Lineage::new, (), lineage),
    ensures
        !lineage@.contains_key(id),
{
}

} // verus!
