//! Per-frame agent state: target assignment from pointer input, unconditional
//! manual-override clearing on movement keys, velocity refresh and position
//! integration, and the observable agent state machine.

use vstd::prelude::*;
use crate::vec3::{Vec3I, fits, fits_vec, spec_add_scaled};
use crate::bridge::Island;

verus! {

/// Tuning of one agent, consumed by the external path-steering library.
#[derive(Clone, Copy, PartialEq, Eq, Structural, Debug)]
pub struct AgentSettings {
    /// Radius of the agent.
    pub radius: i64,
    /// Speed the agent aims for.
    pub desired_speed: i64,
    /// Speed the agent never exceeds.
    pub max_speed: i64,
}

/// A moving entity. The external steering library writes `desired_velocity`
/// each tick; this core owns `target`, `velocity` and `translation`.
#[derive(Clone, Copy, PartialEq, Eq, Debug)]
pub struct Agent {
    /// Local translation of the agent's transform.
    pub translation: Vec3I,
    /// Kinematic velocity, copied from `desired_velocity` each tick.
    pub velocity: Vec3I,
    /// Velocity the steering library wants, written externally each tick.
    pub desired_velocity: Vec3I,
    /// Navigation target, if one is set.
    pub target: Option<Vec3I>,
    /// Steering tuning of this agent.
    pub settings: AgentSettings,
}

/// Everything of two agents agrees except possibly the target.
pub open spec fn same_but_target(a: Agent, b: Agent) -> bool {
    &&& a.translation == b.translation
    &&& a.velocity == b.velocity
    &&& a.desired_velocity == b.desired_velocity
    &&& a.settings == b.settings
}

/// A ray cast from the active camera through the pointer, in world space.
#[derive(Clone, Copy, PartialEq, Eq, Structural, Debug)]
pub struct PointerRay {
    /// Where the ray starts.
    pub origin: Vec3I,
    /// Direction of the ray; one unit of hit distance advances by this much.
    pub direction: Vec3I,
}

/// On a primary pointer press with a ray and a hit, the sole (or first)
/// agent's target becomes exactly `ray.origin + ray.direction * distance`,
/// overwriting any previous target; every other field and agent is untouched.
/// A missing ray, a miss, or an absent agent is a silent no-op.
pub fn set_target_on_click(
    agents: &mut Vec<Agent>,
    ray: Option<PointerRay>,
    hit: Option<i64>,
) -> (set_to: Option<Vec3I>)
    requires
        ray matches Some(r) ==> fits_vec(r.origin) && fits_vec(r.direction),
        hit matches Some(d) ==> fits(d as int),
    ensures
        final(agents)@.len() == old(agents)@.len(),
        !(ray is Some && hit is Some && old(agents)@.len() > 0) ==> final(agents)@ == old(agents)@
            && set_to is None,
        ray is Some && hit is Some && old(agents)@.len() > 0 ==> (set_to matches Some(t) && t@
            == spec_add_scaled(ray->Some_0.origin@, ray->Some_0.direction@, hit->Some_0 as int)),
        ray is Some && hit is Some && old(agents)@.len() > 0 ==> final(agents)@[0].target == set_to
            && same_but_target(old(agents)@[0], final(agents)@[0]),
        forall|i: int| 1 <= i < old(agents)@.len() ==> final(agents)@[i] == old(agents)@[i],
{
    match (ray, hit) {
        (Some(r), Some(d)) => {
            if agents.len() > 0 {
                let t = r.origin.add_scaled(r.direction, d);
                let a = agents[0];
                agents[0] = Agent { target: Some(t), ..a };
                Some(t)
            } else {
                None
            }
        },
        _ => None,
    }
}

/// The keys this core reacts to.
#[derive(Clone, Copy, PartialEq, Eq, Structural, Debug)]
pub enum InputKey {
    /// Forward movement.
    KeyW,
    /// Left movement.
    KeyA,
    /// Backward movement.
    KeyS,
    /// Right movement.
    KeyD,
    /// Forward movement.
    ArrowUp,
    /// Backward movement.
    ArrowDown,
    /// Left movement.
    ArrowLeft,
    /// Right movement.
    ArrowRight,
    /// Requests navmesh generation.
    F1,
    /// Prints the agents' states.
    F2,
    /// Toggles debug visualization.
    F12,
}

/// Whether a key belongs to the fixed set of manual-movement keys.
pub open spec fn is_movement_key(k: InputKey) -> bool {
    match k {
        InputKey::KeyW | InputKey::KeyA | InputKey::KeyS | InputKey::KeyD => true,
        InputKey::ArrowUp | InputKey::ArrowDown | InputKey::ArrowLeft | InputKey::ArrowRight
            => true,
        _ => false,
    }
}

/// Whether some held key is a movement key.
pub open spec fn contains_movement(keys: Seq<InputKey>) -> bool {
    exists|i: int| 0 <= i < keys.len() && is_movement_key(#[trigger] keys[i])
}

/// Runtime counterpart of `is_movement_key`.
pub fn movement_key(k: InputKey) -> (b: bool)
    ensures
        b == is_movement_key(k),
{
    match k {
        InputKey::KeyW | InputKey::KeyA | InputKey::KeyS | InputKey::KeyD => true,
        InputKey::ArrowUp | InputKey::ArrowDown | InputKey::ArrowLeft | InputKey::ArrowRight
            => true,
        _ => false,
    }
}

/// Whether any held key is a movement key.
pub fn any_movement_pressed(keys: &Vec<InputKey>) -> (b: bool)
    ensures
        b == contains_movement(keys@),
{
    let mut i: usize = 0;
    while i < keys.len()
        invariant
            0 <= i <= keys@.len(),
            forall|j: int| 0 <= j < i ==> !is_movement_key(#[trigger] keys@[j]),
        decreases keys@.len() - i,
    {
        if movement_key(keys[i]) {
            return true;
        }
        i = i + 1;
    }
    false
}

/// On any held movement key, removes the target from every agent
/// unconditionally, whatever its current state; nothing else changes. With no
/// movement key held, nothing changes at all.
pub fn clear_targets_on_input(agents: &mut Vec<Agent>, keys: &Vec<InputKey>)
    ensures
        final(agents)@.len() == old(agents)@.len(),
        contains_movement(keys@) ==> forall|i: int|
            0 <= i < old(agents)@.len() ==> (#[trigger] final(agents)@[i]).target is None
                && same_but_target(old(agents)@[i], final(agents)@[i]),
        !contains_movement(keys@) ==> final(agents)@ == old(agents)@,
{
    if any_movement_pressed(keys) {
        let n = agents.len();
        let mut i: usize = 0;
        while i < n
            invariant
                n == agents@.len(),
                agents@.len() == old(agents)@.len(),
                0 <= i <= n,
                forall|j: int|
                    0 <= j < i ==> (#[trigger] agents@[j]).target is None && same_but_target(
                        old(agents)@[j],
                        agents@[j],
                    ),
                forall|j: int| i <= j < n ==> agents@[j] == old(agents)@[j],
            decreases n - i,
        {
            let a = agents[i];
            agents[i] = Agent { target: None, ..a };
            i = i + 1;
        }
    }
}

/// One input pass of a tick: the pointer click is applied first, the
/// movement-key clear after it, so the manual override always wins — if a
/// movement key is held, every agent ends the pass without a target, click or
/// no click.
pub fn input_tick(
    agents: &mut Vec<Agent>,
    ray: Option<PointerRay>,
    hit: Option<i64>,
    keys: &Vec<InputKey>,
) -> (set_to: Option<Vec3I>)
    requires
        ray matches Some(r) ==> fits_vec(r.origin) && fits_vec(r.direction),
        hit matches Some(d) ==> fits(d as int),
    ensures
        final(agents)@.len() == old(agents)@.len(),
        forall|i: int|
            0 <= i < old(agents)@.len() ==> same_but_target(
                old(agents)@[i],
                #[trigger] final(agents)@[i],
            ),
        ray is Some && hit is Some && old(agents)@.len() > 0 ==> (set_to matches Some(t) && t@
            == spec_add_scaled(ray->Some_0.origin@, ray->Some_0.direction@, hit->Some_0 as int)),
        !(ray is Some && hit is Some && old(agents)@.len() > 0) ==> set_to is None,
        contains_movement(keys@) ==> forall|i: int|
            0 <= i < old(agents)@.len() ==> (#[trigger] final(agents)@[i]).target is None,
        !contains_movement(keys@) && !(ray is Some && hit is Some && old(agents)@.len() > 0)
            ==> final(agents)@ == old(agents)@,
        !contains_movement(keys@) && ray is Some && hit is Some && old(agents)@.len() > 0
            ==> final(agents)@[0].target == set_to && (forall|i: int|
            1 <= i < old(agents)@.len() ==> final(agents)@[i] == old(agents)@[i]),
{
    let set_to = set_target_on_click(agents, ray, hit);
    clear_targets_on_input(agents, keys);
    set_to
}

/// Phase one of the steering tick: every agent's kinematic velocity becomes
/// its externally computed desired velocity, verbatim — no smoothing,
/// clamping or filtering.
pub fn refresh_velocities(agents: &mut Vec<Agent>)
    ensures
        final(agents)@.len() == old(agents)@.len(),
        forall|i: int|
            0 <= i < old(agents)@.len() ==> (#[trigger] final(agents)@[i]) == (Agent {
                velocity: old(agents)@[i].desired_velocity,
                ..old(agents)@[i]
            }),
{
    let n = agents.len();
    let mut i: usize = 0;
    while i < n
        invariant
            n == agents@.len(),
            agents@.len() == old(agents)@.len(),
            0 <= i <= n,
            forall|j: int|
                0 <= j < i ==> (#[trigger] agents@[j]) == (Agent {
                    velocity: old(agents)@[j].desired_velocity,
                    ..old(agents)@[j]
                }),
            forall|j: int| i <= j < n ==> agents@[j] == old(agents)@[j],
        decreases n - i,
    {
        let a = agents[i];
        agents[i] = Agent { velocity: a.desired_velocity, ..a };
        i = i + 1;
    }
}

/// Phase two of the steering tick: every agent's local translation advances
/// by exactly `velocity * delta`. The velocity handed in here is already in
/// the agent's local frame; with an identity parent frame it coincides with
/// the world-space kinematic velocity.
pub fn integrate_positions(agents: &mut Vec<Agent>, delta: i64)
    requires
        0 <= delta,
        fits(delta as int),
        forall|i: int|
            0 <= i < old(agents)@.len() ==> fits_vec((#[trigger] old(agents)@[i]).translation)
                && fits_vec(old(agents)@[i].velocity),
    ensures
        final(agents)@.len() == old(agents)@.len(),
        forall|i: int|
            0 <= i < old(agents)@.len() ==> (#[trigger] final(agents)@[i]).translation@
                == spec_add_scaled(
                old(agents)@[i].translation@,
                old(agents)@[i].velocity@,
                delta as int,
            ) && final(agents)@[i].velocity == old(agents)@[i].velocity
                && final(agents)@[i].desired_velocity == old(agents)@[i].desired_velocity
                && final(agents)@[i].target == old(agents)@[i].target
                && final(agents)@[i].settings == old(agents)@[i].settings,
{
    let n = agents.len();
    let mut i: usize = 0;
    while i < n
        invariant
            n == agents@.len(),
            agents@.len() == old(agents)@.len(),
            0 <= delta,
            fits(delta as int),
            forall|j: int|
                0 <= j < n ==> fits_vec((#[trigger] old(agents)@[j]).translation) && fits_vec(
                    old(agents)@[j].velocity,
                ),
            0 <= i <= n,
            forall|j: int|
                0 <= j < i ==> (#[trigger] agents@[j]).translation@ == spec_add_scaled(
                    old(agents)@[j].translation@,
                    old(agents)@[j].velocity@,
                    delta as int,
                ) && same_but_target(
                    Agent { translation: old(agents)@[j].translation, ..agents@[j] },
                    old(agents)@[j],
                ) && agents@[j].target == old(agents)@[j].target,
            forall|j: int| i <= j < n ==> agents@[j] == old(agents)@[j],
        decreases n - i,
    {
        let a = agents[i];
        let moved = a.translation.add_scaled(a.velocity, delta);
        agents[i] = Agent { translation: moved, ..a };
        i = i + 1;
    }
}

/// One steering tick: the velocity refresh runs strictly before the position
/// integration, so the motion applied this tick is exactly the steering
/// library's decision of this tick — `translation + desired_velocity * delta`
/// — with no one-frame staleness.
pub fn steering_tick(agents: &mut Vec<Agent>, delta: i64)
    requires
        0 <= delta,
        fits(delta as int),
        forall|i: int|
            0 <= i < old(agents)@.len() ==> fits_vec((#[trigger] old(agents)@[i]).translation)
                && fits_vec(old(agents)@[i].desired_velocity),
    ensures
        final(agents)@.len() == old(agents)@.len(),
        forall|i: int|
            0 <= i < old(agents)@.len() ==> (#[trigger] final(agents)@[i]).translation@
                == spec_add_scaled(
                old(agents)@[i].translation@,
                old(agents)@[i].desired_velocity@,
                delta as int,
            ) && final(agents)@[i].velocity == old(agents)@[i].desired_velocity
                && final(agents)@[i].desired_velocity == old(agents)@[i].desired_velocity
                && final(agents)@[i].target == old(agents)@[i].target
                && final(agents)@[i].settings == old(agents)@[i].settings,
{
    refresh_velocities(agents);
    integrate_positions(agents, delta);
}

/// The observable navigation state of an agent.
#[derive(Clone, Copy, PartialEq, Eq, Structural, Debug)]
pub enum AgentState {
    /// No target; no externally driven motion expected.
    Idle,
    /// A target is set and steering drives the agent toward it.
    Seeking,
    /// The target was forcibly cleared by manual input.
    ManualOverride,
}

/// What an agent observes in one tick.
#[derive(Clone, Copy, PartialEq, Eq, Structural, Debug)]
pub enum AgentEvent {
    /// A pointer ray hit and a target was assigned.
    TargetAssigned,
    /// The steering library reports the target reached.
    TargetReached,
    /// A pointer ray missed; an existing target stays until replaced or
    /// cleared.
    RayMissed,
    /// A movement key is held.
    MovementKeyPressed,
    /// No movement key is held any more and no new target has been issued.
    MovementReleased,
}

/// The agent state machine. Every pair not written out leaves the state as it
/// is; in particular a ray miss never clears a seeking agent.
pub open spec fn spec_step(s: AgentState, e: AgentEvent) -> AgentState {
    match (s, e) {
        (AgentState::Idle, AgentEvent::TargetAssigned) => AgentState::Seeking,
        (AgentState::Seeking, AgentEvent::TargetReached) => AgentState::Idle,
        (AgentState::Idle, AgentEvent::MovementKeyPressed) => AgentState::ManualOverride,
        (AgentState::Seeking, AgentEvent::MovementKeyPressed) => AgentState::ManualOverride,
        (AgentState::ManualOverride, AgentEvent::MovementReleased) => AgentState::Idle,
        _ => s,
    }
}

/// The state every agent starts in.
pub fn initial_state() -> (r: AgentState)
    ensures
        r == AgentState::Idle,
{
    AgentState::Idle
}

/// Advances the agent state machine by one observed event.
pub fn step(s: AgentState, e: AgentEvent) -> (r: AgentState)
    ensures
        r == spec_step(s, e),
{
    match (s, e) {
        (AgentState::Idle, AgentEvent::TargetAssigned) => AgentState::Seeking,
        (AgentState::Seeking, AgentEvent::TargetReached) => AgentState::Idle,
        (AgentState::Idle, AgentEvent::MovementKeyPressed) => AgentState::ManualOverride,
        (AgentState::Seeking, AgentEvent::MovementKeyPressed) => AgentState::ManualOverride,
        (AgentState::ManualOverride, AgentEvent::MovementReleased) => AgentState::Idle,
        _ => s,
    }
}

/// Point-sampling tuning of a navigation world.
#[derive(Clone, Copy, PartialEq, Eq, Structural, Debug)]
pub struct PointSampleDistance {
    /// How far sideways a sampled point may land from a query point.
    pub horizontal_distance: i64,
    /// How far above the query point a sample may land.
    pub distance_above: i64,
    /// How far below the query point a sample may land.
    pub distance_below: i64,
    /// Preference of vertical over horizontal distance.
    pub vertical_preference_ratio: i64,
}

/// Tuning a navigation world is created with.
#[derive(Clone, Copy, PartialEq, Eq, Structural, Debug)]
pub struct ArchipelagoOptions {
    /// Point-sampling distances.
    pub point_sample_distance: PointSampleDistance,
    /// Agent radius the remaining defaults derive from.
    pub agent_radius: i64,
}

/// A navigation world: its tuning, its islands and its agents.
pub struct Archipelago {
    /// Tuning parameters fixed at creation.
    pub options: ArchipelagoOptions,
    /// The static navigable regions of this world.
    pub islands: Vec<Island>,
    /// The moving agents of this world.
    pub agents: Vec<Agent>,
}

impl Archipelago {
    /// A fresh navigation world with the given tuning and no members.
    pub fn new(options: ArchipelagoOptions) -> (r: Archipelago)
        ensures
            r.options == options,
            r.islands@.len() == 0,
            r.agents@.len() == 0,
    {
        Archipelago { options, islands: Vec::new(), agents: Vec::new() }
    }

    /// Adds an island without navigation coverage and returns its id.
    pub fn spawn_island(&mut self) -> (id: usize)
        requires
            old(self).islands@.len() < usize::MAX,
        ensures
            id == old(self).islands@.len(),
            final(self).islands@ == old(self).islands@.push(Island { nav_mesh: None }),
            final(self).agents@ == old(self).agents@,
            final(self).options == old(self).options,
    {
        let id = self.islands.len();
        self.islands.push(Island::new());
        id
    }

    /// Adds an agent and returns its id.
    pub fn spawn_agent(&mut self, agent: Agent) -> (id: usize)
        requires
            old(self).agents@.len() < usize::MAX,
        ensures
            id == old(self).agents@.len(),
            final(self).agents@ == old(self).agents@.push(agent),
            final(self).islands@ == old(self).islands@,
            final(self).options == old(self).options,
    {
        let id = self.agents.len();
        self.agents.push(agent);
        id
    }
}

} // verus!
