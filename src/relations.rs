//! The friend/foe relationship graph, built by rejection sampling over a
//! stream of drawn agent indices.
use vstd::prelude::*;

verus! {

/// The two agents that one agent steers by, as indices into the population.
#[derive(Clone, Copy, Debug, PartialEq, Eq, Structural)]
pub struct FriendFoe {
    pub friend: usize,
    pub foe: usize,
}

/// The link of agent `i` respects the graph's rules in a population of `n`.
pub open spec fn valid_link(link: FriendFoe, i: int, n: int) -> bool {
    &&& link.friend < n
    &&& link.foe < n
    &&& link.friend != i
    &&& link.foe != i
    &&& link.foe != link.friend
}

/// Every link of `links` (the link at index `i` belongs to agent `i`) is valid.
pub open spec fn valid_links(links: Seq<FriendFoe>, n: int) -> bool {
    forall|i: int| 0 <= i < links.len() ==> #[trigger] valid_link(links[i], i, n)
}

/// A complete graph for `n` agents: one valid link per agent.
pub open spec fn valid_graph(links: Seq<FriendFoe>, n: int) -> bool {
    links.len() == n && valid_links(links, n)
}

/// Progress of the rejection sampling: the links fixed so far, in agent
/// order, and the friend already accepted for the next agent, if any.
pub struct DraftView {
    pub links: Seq<FriendFoe>,
    pub pending: Option<usize>,
}

/// One drawn index offered to the sampler of a population of `n`: the next
/// agent (`links.len()`) first takes any index other than itself as friend,
/// then any index other than itself and that friend as foe; any other index
/// is rejected. Once every agent has its link, draws change nothing.
pub open spec fn draft_step(n: int, s: DraftView, drawn: usize) -> DraftView {
    let me = s.links.len();
    if me >= n {
        s
    } else {
        match s.pending {
            None => if drawn as int != me {
                DraftView { links: s.links, pending: Some(drawn) }
            } else {
                s
            },
            Some(friend) => if drawn as int != me && drawn != friend {
                DraftView {
                    links: s.links.push(FriendFoe { friend, foe: drawn }),
                    pending: None,
                }
            } else {
                s
            },
        }
    }
}

/// The sampler's state after the indices `draws` were offered, in order, to a
/// fresh sampler.
pub open spec fn draft_after(n: int, draws: Seq<usize>) -> DraftView
    decreases draws.len(),
{
    if draws.len() == 0 {
        DraftView { links: Seq::empty(), pending: None }
    } else {
        draft_step(n, draft_after(n, draws.drop_last()), draws.last())
    }
}

/// What holds of every state the sampler can reach.
pub open spec fn draft_ok(n: int, s: DraftView) -> bool {
    &&& s.links.len() <= n
    &&& valid_links(s.links, n)
    &&& (s.pending matches Some(f) ==> f < n && f as int != s.links.len())
    &&& (s.links.len() == n ==> s.pending is None)
}

/// Whatever indices below `n` are drawn, every link the sampler fixes obeys
/// the graph's rules: no agent is its own friend or foe, and no agent's foe
/// is its friend.
pub proof fn lemma_sampled_links_valid(n: int, draws: Seq<usize>)
    requires
        0 <= n,
        forall|k: int| 0 <= k < draws.len() ==> draws[k] < n,
    ensures
        draft_ok(n, draft_after(n, draws)),
        valid_links(draft_after(n, draws).links, n),
    decreases draws.len(),
{
    if draws.len() > 0 {
        let prev = draws.drop_last();
        lemma_sampled_links_valid(n, prev);
        let s = draft_after(n, prev);
        let t = draft_step(n, s, draws.last());
        assert(draws.last() == draws[draws.len() - 1]);
        assert forall|i: int| 0 <= i < t.links.len() implies #[trigger] valid_link(t.links[i], i, n) by {
            if i < s.links.len() {
                assert(t.links[i] == s.links[i]);
                assert(valid_link(s.links[i], i, n));
            }
        }
    }
}

/// Rejection sampler that turns drawn indices into a relationship graph.
pub struct RelationDraft {
    agent_count: usize,
    links: Vec<FriendFoe>,
    pending: Option<usize>,
}

impl RelationDraft {
    pub closed spec fn view(&self) -> DraftView {
        DraftView { links: self.links@, pending: self.pending }
    }

    pub closed spec fn agent_count_spec(&self) -> nat {
        self.agent_count as nat
    }

    pub open spec fn wf(&self) -> bool {
        draft_ok(self.agent_count_spec() as int, self.view())
    }

    /// A sampler for `agent_count` agents that has seen no draw yet.
    pub fn new(agent_count: usize) -> (r: RelationDraft)
        ensures
            r.wf(),
            r.agent_count_spec() == agent_count,
            r.view() == draft_after(agent_count as int, Seq::empty()),
    {
        RelationDraft { agent_count, links: Vec::new(), pending: None }
    }

    pub fn agent_count(&self) -> (r: usize)
        ensures
            r == self.agent_count_spec(),
    {
        self.agent_count
    }

    /// Whether every agent has its friend and foe.
    pub fn is_complete(&self) -> (r: bool)
        requires
            self.wf(),
        ensures
            r == (self.view().links.len() == self.agent_count_spec()),
    {
        self.links.len() == self.agent_count
    }

    /// Offers one drawn index: it is accepted or rejected as `draft_step` says.
    pub fn offer(&mut self, drawn: usize)
        requires
            old(self).wf(),
            drawn < old(self).agent_count_spec(),
        ensures
            final(self).wf(),
            final(self).agent_count_spec() == old(self).agent_count_spec(),
            final(self).view() == draft_step(
                old(self).agent_count_spec() as int,
                old(self).view(),
                drawn,
            ),
    {
        let ghost n = self.agent_count as int;
        let ghost s = self.view();
        let me = self.links.len();
        if me < self.agent_count {
            match self.pending {
                None => {
                    if drawn != me {
                        self.pending = Some(drawn);
                    }
                },
                Some(friend) => {
                    if drawn != me && drawn != friend {
                        self.links.push(FriendFoe { friend, foe: drawn });
                        self.pending = None;
                        assert forall|i: int| 0 <= i < self.links@.len() implies #[trigger] valid_link(self.links@[i], i, n) by {
                            if i < s.links.len() {
                                assert(valid_link(s.links[i], i, n));
                            }
                        }
                    }
                },
            }
        }
        assert(self.view() =~= draft_step(n, s, drawn));
    }

    /// The links fixed so far, in agent order.
    pub fn links(&self) -> (r: Vec<FriendFoe>)
        ensures
            r@ == self.view().links,
    {
        self.links.clone()
    }
}

} // verus!
