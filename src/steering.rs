//! Which steering terms an agent combines on a tick, and the sign of its foe
//! term. The vector arithmetic itself is done by the host in floating point.
use vstd::prelude::*;

verus! {

/// How an agent relates to its foe.
#[derive(Clone, Copy, Debug, PartialEq, Eq, Structural)]
pub enum AgentBehaviour {
    /// Moves toward its foe.
    Heroe,
    /// Moves away from its foe.
    Coward,
}

/// What an agent does when it sees neither its friend nor its foe.
#[derive(Clone, Copy, Debug, PartialEq, Eq, Structural)]
pub enum BlindBehavour {
    NoMove,
    RandomMove,
}

/// The direction an agent wants on this tick, before normalisation.
#[derive(Clone, Copy, Debug, PartialEq, Eq, Structural)]
pub enum Heading {
    /// `to_friend + to_foe`.
    FriendAndFoe,
    /// `to_friend` alone.
    FriendOnly,
    /// `to_foe` alone.
    FoeOnly,
    /// The zero vector: the agent stands still.
    Still,
    /// The previous velocity interpolated toward a freshly drawn random angle.
    Wander,
}

/// The heading table: without a vision limit both terms count; with one,
/// only the terms within sight count, and a blind agent follows its policy.
pub open spec fn heading_of(
    use_vision_limit: bool,
    blind: BlindBehavour,
    can_see_friend: bool,
    can_see_foe: bool,
) -> Heading {
    if !use_vision_limit || (can_see_friend && can_see_foe) {
        Heading::FriendAndFoe
    } else if can_see_friend {
        Heading::FriendOnly
    } else if can_see_foe {
        Heading::FoeOnly
    } else {
        match blind {
            BlindBehavour::NoMove => Heading::Still,
            BlindBehavour::RandomMove => Heading::Wander,
        }
    }
}

/// Chooses the heading of one agent from what it can see.
pub fn choose_heading(
    use_vision_limit: bool,
    blind: BlindBehavour,
    can_see_friend: bool,
    can_see_foe: bool,
) -> (r: Heading)
    ensures
        r == heading_of(use_vision_limit, blind, can_see_friend, can_see_foe),
{
    if !use_vision_limit || (can_see_friend && can_see_foe) {
        Heading::FriendAndFoe
    } else if can_see_friend {
        Heading::FriendOnly
    } else if can_see_foe {
        Heading::FoeOnly
    } else {
        match blind {
            BlindBehavour::NoMove => Heading::Still,
            BlindBehavour::RandomMove => Heading::Wander,
        }
    }
}

/// Whether the heading consumes a draw from the random stream.
pub fn draws_random_angle(h: Heading) -> (r: bool)
    ensures
        r == (h == Heading::Wander),
{
    match h {
        Heading::Wander => true,
        _ => false,
    }
}

pub open spec fn foe_sign_of(b: AgentBehaviour) -> int {
    match b {
        AgentBehaviour::Heroe => 1,
        AgentBehaviour::Coward => -1,
    }
}

/// The factor applied to `foe_position - own_position` to get the foe term:
/// a hero heads toward its foe, a coward away from it.
pub fn foe_sign(b: AgentBehaviour) -> (r: i8)
    ensures
        r as int == foe_sign_of(b),
{
    match b {
        AgentBehaviour::Heroe => 1,
        AgentBehaviour::Coward => -1,
    }
}

/// The foe term of an agent whose foe lies at offset `(dx, dy)` from it.
pub open spec fn foe_term(b: AgentBehaviour, dx: int, dy: int) -> (int, int) {
    (foe_sign_of(b) * dx, foe_sign_of(b) * dy)
}

/// Given a hero and a coward with the same friend and foe geometry and no
/// vision limit, both combine friend and foe terms, and the component of the
/// foe term along the direction to the foe is positive for the hero and
/// negative for the coward.
pub proof fn lemma_behaviour_sign(
    blind: BlindBehavour,
    can_see_friend: bool,
    can_see_foe: bool,
    dx: int,
    dy: int,
)
    requires
        dx != 0 || dy != 0,
    ensures
        heading_of(false, blind, can_see_friend, can_see_foe) == Heading::FriendAndFoe,
        ({
            let h = foe_term(AgentBehaviour::Heroe, dx, dy);
            h.0 * dx + h.1 * dy > 0
        }),
        ({
            let c = foe_term(AgentBehaviour::Coward, dx, dy);
            c.0 * dx + c.1 * dy < 0
        }),
{
    assert(dx * dx + dy * dy > 0) by (nonlinear_arith)
        requires
            dx != 0 || dy != 0,
    ;
    assert((-1 * dx) * dx + (-1 * dy) * dy == -(dx * dx + dy * dy)) by (nonlinear_arith);
}

} // verus!
