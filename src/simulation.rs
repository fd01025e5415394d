//! The simulation core: lifecycle, captured settings, random stream and the
//! agent records with their relationship graph.
use crate::relations::{draft_after, lemma_sampled_links_valid, valid_graph, FriendFoe, RelationDraft};
use crate::rng::{draw_index, seeded};
use crate::settings::{settings_error, validate_settings, ConfigError, RunConfig, SettingsChecks, MIN_AGENTS};
use crate::steering::{choose_heading, heading_of, AgentBehaviour, BlindBehavour, Heading};
use rand_pcg::Pcg32;
use vstd::prelude::*;

verus! {

/// Lifecycle of a run: `NotInit` until the first start, `Start` while the
/// population is generated, then `Run`, which pausing and resuming toggle
/// with `Pause`. Ticks happen only in `Run`.
#[derive(Clone, Copy, Debug, PartialEq, Eq, Structural, Hash)]
pub enum SimulationState {
    NotInit,
    Start,
    Run,
    Pause,
}

/// One agent: its behaviour and the indices of its friend and foe.
#[derive(Clone, Copy, Debug, PartialEq, Eq, Structural)]
pub struct Agent {
    pub behaviour: AgentBehaviour,
    pub friend: usize,
    pub foe: usize,
}

/// What an agent sees at the start of a tick.
#[derive(Clone, Copy, Debug, PartialEq, Eq, Structural)]
pub struct Sight {
    pub friend: bool,
    pub foe: bool,
}

/// Why generation of the relationship graph gave up.
#[derive(Clone, Copy, Debug, PartialEq, Eq, Structural)]
pub enum GenerationError {
    /// `MAX_DRAWS` indices were drawn without completing the graph.
    DrawLimitReached,
}

/// Upper bound on the indices drawn for one graph. With at least three agents
/// each draw is accepted with probability at least one third, so the bound is
/// out of reach in practice; it only makes the sampling loop finite.
pub const MAX_DRAWS: u64 = 0xffff_ffff_ffff_ffff;

pub open spec fn link_of(a: Agent) -> FriendFoe {
    FriendFoe { friend: a.friend, foe: a.foe }
}

/// The relationship graph held by a sequence of agents.
pub open spec fn links_of(agents: Seq<Agent>) -> Seq<FriendFoe> {
    agents.map_values(|a: Agent| link_of(a))
}

/// The parts of a simulation that contracts speak of.
pub struct SimView {
    pub state: SimulationState,
    pub config: RunConfig,
    pub agents: Seq<Agent>,
}

/// The view after a pause: only the state changes.
pub open spec fn paused(v: SimView) -> SimView {
    SimView { state: SimulationState::Pause, ..v }
}

/// The view after a resume: only the state changes.
pub open spec fn resumed(v: SimView) -> SimView {
    SimView { state: SimulationState::Run, ..v }
}

/// Pausing a running simulation and resuming it gives back exactly the
/// simulation that was paused.
pub proof fn lemma_pause_resume_restores(v: SimView)
    requires
        v.state == SimulationState::Run,
    ensures
        resumed(paused(v)) == v,
        paused(v).agents == v.agents,
        paused(v).config == v.config,
{
}

/// The simulation core.
pub struct Simulation {
    state: SimulationState,
    config: RunConfig,
    rng: Pcg32,
    agents: Vec<Agent>,
    /// The indices drawn from `rng` to build the current relationship graph.
    drawn: Ghost<Seq<usize>>,
}

impl Simulation {
    pub closed spec fn view(&self) -> SimView {
        SimView { state: self.state, config: self.config, agents: self.agents@ }
    }

    /// The random stream, which contracts only compare.
    pub closed spec fn stream(&self) -> Pcg32 {
        self.rng
    }

    /// The indices drawn from the stream to build the current relationship
    /// graph, in the order they were drawn.
    pub closed spec fn drawn(&self) -> Seq<usize> {
        self.drawn@
    }

    /// Well-formedness: no agents before a population is generated; during a
    /// run, one agent per configured slot and a valid relationship graph,
    /// which is the one that rejection sampling makes of the drawn indices.
    pub open spec fn wf(&self) -> bool {
        let v = self.view();
        match v.state {
            SimulationState::NotInit => v.agents.len() == 0,
            SimulationState::Start => v.agents.len() == 0 && v.config.agent_count >= MIN_AGENTS,
            _ => {
                &&& v.config.agent_count >= MIN_AGENTS
                &&& valid_graph(links_of(v.agents), v.config.agent_count as int)
                &&& links_of(v.agents) == draft_after(v.config.agent_count as int, self.drawn()).links
            },
        }
    }

    /// A simulation that has not started, with the default configuration.
    pub fn new() -> (r: Simulation)
        ensures
            r.wf(),
            r.view().state == SimulationState::NotInit,
            r.view().agents.len() == 0,
            r.view().config == (RunConfig {
                seed: 0,
                agent_count: 30,
                use_vision_limit: false,
                blind_behaviour: BlindBehavour::NoMove,
            }),
    {
        let config = RunConfig::default();
        Simulation {
            state: SimulationState::NotInit,
            config,
            rng: seeded(config.seed),
            agents: Vec::new(),
            drawn: Ghost(Seq::empty()),
        }
    }

    /// Starts (or restarts) a run, from any state. Settings that break a rule
    /// are rejected before anything changes. Otherwise the previous agents
    /// are discarded, `config` is captured, the stream is reseeded from
    /// `config.seed`, and the simulation waits in `Start` for the agents'
    /// behaviours (drawn by the host from `rng_mut`) to be handed to
    /// `populate`.
    pub fn start(&mut self, config: RunConfig, checks: SettingsChecks) -> (r: Result<(), ConfigError>)
        requires
            old(self).wf(),
        ensures
            final(self).wf(),
            settings_error(config.agent_count, checks) matches Some(e) ==> {
                &&& r == Err::<(), ConfigError>(e)
                &&& final(self).view() == old(self).view()
                &&& final(self).stream() == old(self).stream()
                &&& final(self).drawn() == old(self).drawn()
            },
            settings_error(config.agent_count, checks) is None ==> {
                &&& r is Ok
                &&& final(self).view() == (SimView {
                    state: SimulationState::Start,
                    config,
                    agents: Seq::empty(),
                })
                &&& final(self).drawn() == Seq::<usize>::empty()
            },
    {
        match validate_settings(config.agent_count, checks) {
            Err(e) => Err(e),
            Ok(()) => {
                self.agents = Vec::new();
                self.config = config;
                self.rng = seeded(config.seed);
                self.drawn = Ghost(Seq::empty());
                self.state = SimulationState::Start;
                Ok(())
            },
        }
    }

    /// The random stream, for the draws the host makes itself (behaviours,
    /// positions, wandering angles).
    pub fn rng_mut(&mut self) -> (r: &mut Pcg32)
        ensures
            final(self).view() == old(self).view(),
            final(self).drawn() == old(self).drawn(),
            final(self).stream() == *final(r),
    {
        &mut self.rng
    }

    /// Gives the agents created by the host (one behaviour each, in creation
    /// order) their friends and foes by rejection sampling: for each agent in
    /// order, indices are drawn until one other than itself comes (its
    /// friend), then until one other than itself and its friend comes (its
    /// foe). The indices drawn by this call are recorded in `drawn()`; the
    /// graph is what the sampler makes of them. On success the run begins;
    /// after `MAX_DRAWS` draws without a complete graph, generation gives up
    /// and the simulation stays in `Start`.
    pub fn populate(&mut self, behaviours: Vec<AgentBehaviour>) -> (r: Result<(), GenerationError>)
        requires
            old(self).wf(),
            old(self).view().state == SimulationState::Start,
            behaviours@.len() == old(self).view().config.agent_count,
        ensures
            final(self).wf(),
            final(self).view().config == old(self).view().config,
            r is Ok ==> {
                let v = final(self).view();
                let n = v.config.agent_count as int;
                &&& v.state == SimulationState::Run
                &&& v.agents.len() == n
                &&& valid_graph(links_of(v.agents), n)
                &&& forall|i: int| 0 <= i < n ==> (#[trigger] v.agents[i]).behaviour == behaviours@[i]
                &&& links_of(v.agents) == draft_after(n, final(self).drawn()).links
            },
            r is Err ==> {
                let n = old(self).view().config.agent_count as int;
                &&& final(self).view() == old(self).view()
                &&& final(self).drawn().len() == MAX_DRAWS
                &&& draft_after(n, final(self).drawn()).links.len() < n
            },
            forall|k: int|
                0 <= k < final(self).drawn().len() ==> #[trigger] final(self).drawn()[k]
                    < old(self).view().config.agent_count,
            final(self).drawn().len() <= MAX_DRAWS,
    {
        let n = self.config.agent_count;
        let mut draft = RelationDraft::new(n);
        let mut budget: u64 = MAX_DRAWS;
        self.drawn = Ghost(Seq::empty());
        while !draft.is_complete() && budget > 0
            invariant
                n >= MIN_AGENTS,
                n == old(self).view().config.agent_count,
                self.drawn().len() + budget == MAX_DRAWS,
                draft.wf(),
                draft.agent_count_spec() == n,
                forall|k: int| 0 <= k < self.drawn().len() ==> #[trigger] self.drawn()[k] < n,
                draft.view() == draft_after(n as int, self.drawn()),
                self.view() == old(self).view(),
            decreases budget,
        {
            let d = draw_index(&mut self.rng, n);
            draft.offer(d);
            let ghost prev = self.drawn();
            self.drawn = Ghost(self.drawn@.push(d));
            assert(self.drawn().drop_last() =~= prev);
            budget = budget - 1;
        }
        if !draft.is_complete() {
            return Err(GenerationError::DrawLimitReached);
        }
        let links = draft.links();
        proof {
            lemma_sampled_links_valid(n as int, self.drawn());
        }
        let mut agents: Vec<Agent> = Vec::new();
        let mut i: usize = 0;
        while i < n
            invariant
                links@.len() == n,
                behaviours@.len() == n,
                i <= n,
                agents@.len() == i,
                forall|j: int| 0 <= j < i ==> #[trigger] link_of(agents@[j]) == links@[j],
                forall|j: int| 0 <= j < i ==> (#[trigger] agents@[j]).behaviour == behaviours@[j],
            decreases n - i,
        {
            let link = links[i];
            agents.push(Agent { behaviour: behaviours[i], friend: link.friend, foe: link.foe });
            i = i + 1;
        }
        assert(links_of(agents@) =~= links@);
        self.agents = agents;
        self.state = SimulationState::Run;
        Ok(())
    }

    /// Stops ticking; nothing but the state changes.
    pub fn pause(&mut self)
        requires
            old(self).wf(),
            old(self).view().state == SimulationState::Run,
        ensures
            final(self).wf(),
            final(self).view() == paused(old(self).view()),
            final(self).stream() == old(self).stream(),
            final(self).drawn() == old(self).drawn(),
    {
        self.state = SimulationState::Pause;
    }

    /// Resumes ticking from exactly where the run was paused.
    pub fn resume(&mut self)
        requires
            old(self).wf(),
            old(self).view().state == SimulationState::Pause,
        ensures
            final(self).wf(),
            final(self).view() == resumed(old(self).view()),
            final(self).stream() == old(self).stream(),
            final(self).drawn() == old(self).drawn(),
    {
        self.state = SimulationState::Run;
    }

    pub fn state(&self) -> (r: SimulationState)
        ensures
            r == self.view().state,
    {
        self.state
    }

    /// Whether ticks happen now: only while running.
    pub fn is_running(&self) -> (r: bool)
        ensures
            r == (self.view().state == SimulationState::Run),
    {
        match self.state {
            SimulationState::Run => true,
            _ => false,
        }
    }

    pub fn config(&self) -> (r: RunConfig)
        ensures
            r == self.view().config,
    {
        self.config
    }

    pub fn agent_count(&self) -> (r: usize)
        ensures
            r == self.view().agents.len(),
    {
        self.agents.len()
    }

    /// The agent at index `i`; during a run its friend and foe are indices of
    /// agents too.
    pub fn agent(&self, i: usize) -> (r: Agent)
        requires
            i < self.view().agents.len(),
        ensures
            r == self.view().agents[i as int],
    {
        self.agents[i]
    }

    /// The heading of an agent that sees its friend and foe as given, under
    /// the captured vision settings.
    pub fn heading(&self, can_see_friend: bool, can_see_foe: bool) -> (r: Heading)
        ensures
            r == heading_of(
                self.view().config.use_vision_limit,
                self.view().config.blind_behaviour,
                can_see_friend,
                can_see_foe,
            ),
    {
        choose_heading(self.config.use_vision_limit, self.config.blind_behaviour, can_see_friend, can_see_foe)
    }

    /// The headings of all agents for one tick, decided together from what
    /// each agent saw at the start of the tick (`sight[i]` for agent `i`), so
    /// that no agent's decision depends on another agent's move this tick.
    pub fn plan_tick(&self, sight: &Vec<Sight>) -> (r: Vec<Heading>)
        requires
            sight@.len() == self.view().agents.len(),
        ensures
            r@.len() == sight@.len(),
            forall|i: int|
                0 <= i < sight@.len() ==> #[trigger] r@[i] == heading_of(
                    self.view().config.use_vision_limit,
                    self.view().config.blind_behaviour,
                    sight@[i].friend,
                    sight@[i].foe,
                ),
    {
        let mut plan: Vec<Heading> = Vec::new();
        let mut i: usize = 0;
        while i < sight.len()
            invariant
                i <= sight@.len(),
                plan@.len() == i,
                forall|j: int|
                    0 <= j < i ==> #[trigger] plan@[j] == heading_of(
                        self.view().config.use_vision_limit,
                        self.view().config.blind_behaviour,
                        sight@[j].friend,
                        sight@[j].foe,
                    ),
            decreases sight@.len() - i,
        {
            let s = sight[i];
            plan.push(self.heading(s.friend, s.foe));
            i = i + 1;
        }
        plan
    }
}

} // verus!
