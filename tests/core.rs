use heroes_cowards::relations::{FriendFoe, RelationDraft};
use heroes_cowards::settings::{validate_settings, ConfigError, RunConfig, SettingsChecks, SimulationDebug};
use heroes_cowards::simulation::{Agent, Sight, Simulation, SimulationState};
use heroes_cowards::steering::{choose_heading, draws_random_angle, foe_sign, AgentBehaviour, BlindBehavour, Heading};
use rand::Rng;

fn all_ok() -> SettingsChecks {
    SettingsChecks {
        proportion_in_unit_range: true,
        arena_size_positive: true,
        vision_limit_non_negative: true,
    }
}

fn config(seed: u64, agent_count: usize) -> RunConfig {
    RunConfig {
        seed,
        agent_count,
        use_vision_limit: false,
        blind_behaviour: BlindBehavour::NoMove,
    }
}

/// Starts a run the way the host does: behaviours and positions are drawn
/// from the core's stream, then the relationship graph is generated.
fn run(seed: u64, agent_count: usize, heroe_proportion: f64, arena_size: f32) -> (Simulation, Vec<(f32, f32)>) {
    let mut sim = Simulation::new();
    sim.start(config(seed, agent_count), all_ok()).unwrap();
    let mut kinds = Vec::new();
    let mut positions = Vec::new();
    for _ in 0..agent_count {
        let rng = sim.rng_mut();
        let kind = if rng.gen_bool(heroe_proportion) {
            AgentBehaviour::Heroe
        } else {
            AgentBehaviour::Coward
        };
        let x = rng.gen_range(-arena_size..arena_size);
        let y = rng.gen_range(-arena_size..arena_size);
        kinds.push(kind);
        positions.push((x, y));
    }
    sim.populate(kinds).unwrap();
    (sim, positions)
}

fn agents_of(sim: &Simulation) -> Vec<Agent> {
    (0..sim.agent_count()).map(|i| sim.agent(i)).collect()
}

fn assert_valid_graph(sim: &Simulation) {
    let n = sim.agent_count();
    for i in 0..n {
        let a = sim.agent(i);
        assert!(a.friend < n && a.foe < n);
        assert_ne!(a.friend, i);
        assert_ne!(a.foe, i);
        assert_ne!(a.foe, a.friend);
    }
}

#[test]
fn relationship_invariants_hold_for_many_seeds() {
    for seed in 0..50u64 {
        for n in [3usize, 4, 7, 30] {
            let (sim, _) = run(seed, n, 0.5, 300.0);
            assert_eq!(sim.state(), SimulationState::Run);
            assert_eq!(sim.agent_count(), n);
            assert_valid_graph(&sim);
        }
    }
}

#[test]
fn same_seed_reproduces_population() {
    let (a, pa) = run(7, 30, 0.5, 300.0);
    let (b, pb) = run(7, 30, 0.5, 300.0);
    assert_eq!(agents_of(&a), agents_of(&b));
    assert_eq!(pa, pb);
    let mut a = a;
    let mut b = b;
    assert_eq!(a.rng_mut().clone(), b.rng_mut().clone());
}

#[test]
fn different_seeds_give_different_graphs() {
    let (a, _) = run(1, 30, 0.5, 300.0);
    let (b, _) = run(2, 30, 0.5, 300.0);
    assert_ne!(agents_of(&a), agents_of(&b));
}

#[test]
fn scenario_all_heroes_seed_42() {
    let (sim, positions) = run(42, 3, 1.0, 100.0);
    assert_eq!(sim.agent_count(), 3);
    for i in 0..3 {
        assert_eq!(sim.agent(i).behaviour, AgentBehaviour::Heroe);
        assert!(positions[i].0 >= -100.0 && positions[i].0 < 100.0);
        assert!(positions[i].1 >= -100.0 && positions[i].1 < 100.0);
    }
    assert_valid_graph(&sim);
    let (again, positions_again) = run(42, 3, 1.0, 100.0);
    assert_eq!(positions, positions_again);
    assert_eq!(agents_of(&sim), agents_of(&again));
}

#[test]
fn restart_discards_previous_population() {
    let (mut sim, _) = run(3, 10, 0.5, 300.0);
    sim.start(config(3, 5), all_ok()).unwrap();
    assert_eq!(sim.state(), SimulationState::Start);
    assert_eq!(sim.agent_count(), 0);
    assert_eq!(sim.config().agent_count, 5);
}

#[test]
fn too_few_agents_rejected_before_creation() {
    for n in [0usize, 1, 2] {
        let mut sim = Simulation::new();
        let before = sim.rng_mut().clone();
        assert_eq!(sim.start(config(42, n), all_ok()), Err(ConfigError::TooFewAgents));
        assert_eq!(sim.state(), SimulationState::NotInit);
        assert_eq!(sim.agent_count(), 0);
        assert_eq!(sim.rng_mut().clone(), before);
    }
}

#[test]
fn rejected_restart_keeps_running_population() {
    let (mut sim, _) = run(9, 6, 0.5, 300.0);
    let agents = agents_of(&sim);
    let bad = SettingsChecks { arena_size_positive: false, ..all_ok() };
    assert_eq!(sim.start(config(9, 6), bad), Err(ConfigError::ArenaSizeNotPositive));
    assert_eq!(sim.state(), SimulationState::Run);
    assert_eq!(agents_of(&sim), agents);
}

#[test]
fn settings_errors_in_order() {
    assert_eq!(validate_settings(3, all_ok()), Ok(()));
    assert_eq!(validate_settings(2, all_ok()), Err(ConfigError::TooFewAgents));
    let none = SettingsChecks {
        proportion_in_unit_range: false,
        arena_size_positive: false,
        vision_limit_non_negative: false,
    };
    assert_eq!(validate_settings(1, none), Err(ConfigError::TooFewAgents));
    assert_eq!(validate_settings(3, none), Err(ConfigError::HeroProportionOutOfRange));
    let arena = SettingsChecks { proportion_in_unit_range: true, ..none };
    assert_eq!(validate_settings(3, arena), Err(ConfigError::ArenaSizeNotPositive));
    let vision = SettingsChecks { vision_limit_non_negative: false, ..all_ok() };
    assert_eq!(validate_settings(100, vision), Err(ConfigError::VisionLimitNegative));
}

#[test]
fn blind_no_move_agent_stands_still() {
    let h = choose_heading(true, BlindBehavour::NoMove, false, false);
    assert_eq!(h, Heading::Still);
    assert!(!draws_random_angle(h));
}

#[test]
fn blind_random_move_agent_wanders() {
    let h = choose_heading(true, BlindBehavour::RandomMove, false, false);
    assert_eq!(h, Heading::Wander);
    assert!(draws_random_angle(h));
}

#[test]
fn heading_table() {
    for blind in [BlindBehavour::NoMove, BlindBehavour::RandomMove] {
        for f in [false, true] {
            for o in [false, true] {
                assert_eq!(choose_heading(false, blind, f, o), Heading::FriendAndFoe);
            }
        }
        assert_eq!(choose_heading(true, blind, true, true), Heading::FriendAndFoe);
        assert_eq!(choose_heading(true, blind, true, false), Heading::FriendOnly);
        assert_eq!(choose_heading(true, blind, false, true), Heading::FoeOnly);
    }
}

#[test]
fn simulation_heading_uses_captured_settings() {
    let mut sim = Simulation::new();
    let cfg = RunConfig {
        seed: 1,
        agent_count: 4,
        use_vision_limit: true,
        blind_behaviour: BlindBehavour::NoMove,
    };
    sim.start(cfg, all_ok()).unwrap();
    assert_eq!(sim.heading(false, false), Heading::Still);
    assert_eq!(sim.heading(false, true), Heading::FoeOnly);
}

#[test]
fn hero_and_coward_foe_terms_have_opposite_signs() {
    assert_eq!(foe_sign(AgentBehaviour::Heroe), 1);
    assert_eq!(foe_sign(AgentBehaviour::Coward), -1);
    // Same geometry: foe at offset (5, -2) from the agent.
    let (dx, dy) = (5i32, -2i32);
    let hero = foe_sign(AgentBehaviour::Heroe) as i32;
    let coward = foe_sign(AgentBehaviour::Coward) as i32;
    assert!(hero * dx * dx + hero * dy * dy > 0);
    assert!(coward * dx * dx + coward * dy * dy < 0);
}

#[test]
fn pause_then_resume_changes_nothing_but_state() {
    let (mut sim, _) = run(11, 8, 0.5, 300.0);
    let agents = agents_of(&sim);
    let stream = sim.rng_mut().clone();
    assert!(sim.is_running());
    sim.pause();
    assert_eq!(sim.state(), SimulationState::Pause);
    assert!(!sim.is_running());
    assert_eq!(agents_of(&sim), agents);
    sim.resume();
    assert_eq!(sim.state(), SimulationState::Run);
    assert!(sim.is_running());
    assert_eq!(agents_of(&sim), agents);
    assert_eq!(sim.rng_mut().clone(), stream);
}

#[test]
fn draft_rejects_self_and_friend_as_foe() {
    let mut d = RelationDraft::new(3);
    assert_eq!(d.agent_count(), 3);
    d.offer(0); // agent 0 cannot befriend itself
    d.offer(1); // friend 1
    d.offer(1); // foe cannot be the friend
    d.offer(0); // foe cannot be itself
    d.offer(2); // foe 2
    assert_eq!(d.links(), vec![FriendFoe { friend: 1, foe: 2 }]);
    assert!(!d.is_complete());
    d.offer(2); // agent 1: friend 2
    d.offer(0); // foe 0
    d.offer(2); // agent 2 cannot befriend itself
    d.offer(0); // friend 0
    d.offer(0); // foe cannot be the friend
    d.offer(2); // foe cannot be itself
    d.offer(1); // foe 1
    assert!(d.is_complete());
    d.offer(0); // ignored once complete
    assert_eq!(
        d.links(),
        vec![
            FriendFoe { friend: 1, foe: 2 },
            FriendFoe { friend: 2, foe: 0 },
            FriendFoe { friend: 0, foe: 1 },
        ]
    );
}

#[test]
fn defaults() {
    let c = RunConfig::default();
    assert_eq!(c.seed, 0);
    assert_eq!(c.agent_count, 30);
    assert!(!c.use_vision_limit);
    assert_eq!(c.blind_behaviour, BlindBehavour::NoMove);
    let d = SimulationDebug::default();
    assert!(!d.display_friend_links && !d.display_foe_links && !d.center_of_mass && !d.deviation);
    let sim = Simulation::new();
    assert_eq!(sim.state(), SimulationState::NotInit);
    assert_eq!(sim.agent_count(), 0);
}

#[test]
fn tick_plan_follows_each_agents_sight() {
    let mut sim = Simulation::new();
    let cfg = RunConfig {
        seed: 5,
        agent_count: 4,
        use_vision_limit: true,
        blind_behaviour: BlindBehavour::RandomMove,
    };
    sim.start(cfg, all_ok()).unwrap();
    let kinds = vec![AgentBehaviour::Heroe, AgentBehaviour::Coward, AgentBehaviour::Heroe, AgentBehaviour::Coward];
    sim.populate(kinds).unwrap();
    let sight = vec![
        Sight { friend: true, foe: true },
        Sight { friend: true, foe: false },
        Sight { friend: false, foe: true },
        Sight { friend: false, foe: false },
    ];
    assert_eq!(
        sim.plan_tick(&sight),
        vec![Heading::FriendAndFoe, Heading::FriendOnly, Heading::FoeOnly, Heading::Wander]
    );
}
