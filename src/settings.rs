//! The parts of a run's settings that the core keeps, and their validation.
use crate::steering::BlindBehavour;
use vstd::prelude::*;

verus! {

/// Why a run could not start.
#[derive(Clone, Copy, Debug, PartialEq, Eq, Structural)]
pub enum ConfigError {
    /// Fewer than three agents: a friend and a distinct foe cannot be found
    /// for every agent.
    TooFewAgents,
    /// The hero proportion lies outside `[0, 1]`.
    HeroProportionOutOfRange,
    /// The arena's half-width is not positive.
    ArenaSizeNotPositive,
    /// The vision limit is negative.
    VisionLimitNegative,
}

/// The smallest population for which every agent has a friend and a foe.
pub const MIN_AGENTS: usize = 3;

/// Outcomes of the range checks on the real-valued settings (the hero
/// proportion, the arena size, the vision limit), which the host evaluates.
#[derive(Clone, Copy, Debug, PartialEq, Eq, Structural)]
pub struct SettingsChecks {
    pub proportion_in_unit_range: bool,
    pub arena_size_positive: bool,
    pub vision_limit_non_negative: bool,
}

/// The settings the core captures when a run starts.
#[derive(Clone, Copy, Debug, PartialEq, Eq, Structural)]
pub struct RunConfig {
    pub seed: u64,
    pub agent_count: usize,
    pub use_vision_limit: bool,
    pub blind_behaviour: BlindBehavour,
}

/// The first rule that the settings break, in the order agent count, hero
/// proportion, arena size, vision limit; `None` when they are acceptable.
pub open spec fn settings_error(agent_count: usize, checks: SettingsChecks) -> Option<ConfigError> {
    if agent_count < MIN_AGENTS {
        Some(ConfigError::TooFewAgents)
    } else if !checks.proportion_in_unit_range {
        Some(ConfigError::HeroProportionOutOfRange)
    } else if !checks.arena_size_positive {
        Some(ConfigError::ArenaSizeNotPositive)
    } else if !checks.vision_limit_non_negative {
        Some(ConfigError::VisionLimitNegative)
    } else {
        None
    }
}

/// Accepts the settings, or names the first rule they break.
pub fn validate_settings(agent_count: usize, checks: SettingsChecks) -> (r: Result<(), ConfigError>)
    ensures
        r is Ok <==> settings_error(agent_count, checks) is None,
        settings_error(agent_count, checks) matches Some(e) ==> r == Err::<(), ConfigError>(e),
{
    if agent_count < MIN_AGENTS {
        Err(ConfigError::TooFewAgents)
    } else if !checks.proportion_in_unit_range {
        Err(ConfigError::HeroProportionOutOfRange)
    } else if !checks.arena_size_positive {
        Err(ConfigError::ArenaSizeNotPositive)
    } else if !checks.vision_limit_non_negative {
        Err(ConfigError::VisionLimitNegative)
    } else {
        Ok(())
    }
}

impl Default for RunConfig {
    fn default() -> (r: RunConfig)
        ensures
            r == (RunConfig {
                seed: 0,
                agent_count: 30,
                use_vision_limit: false,
                blind_behaviour: BlindBehavour::NoMove,
            }),
    {
        RunConfig {
            seed: 0,
            agent_count: 30,
            use_vision_limit: false,
            blind_behaviour: BlindBehavour::NoMove,
        }
    }
}

/// Which debug overlays the host draws; the core only carries them.
#[derive(Clone, Copy, Debug, PartialEq, Eq, Structural)]
pub struct SimulationDebug {
    pub display_friend_links: bool,
    pub display_foe_links: bool,
    pub center_of_mass: bool,
    pub deviation: bool,
}

impl Default for SimulationDebug {
    fn default() -> (r: SimulationDebug)
        ensures
            !r.display_friend_links && !r.display_foe_links && !r.center_of_mass && !r.deviation,
    {
        SimulationDebug {
            display_friend_links: false,
            display_foe_links: false,
            center_of_mass: false,
            deviation: false,
        }
    }
}

} // verus!
