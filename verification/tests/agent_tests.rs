use nav_core::agent::{
    Agent, AgentEvent, AgentSettings, AgentState, Archipelago, ArchipelagoOptions, InputKey,
    PointSampleDistance, PointerRay, any_movement_pressed, clear_targets_on_input, initial_state,
    input_tick, set_target_on_click, steering_tick, step,
};
use nav_core::debug::DebugToggle;
use nav_core::vec3::Vec3I;

fn v(x: i64, y: i64, z: i64) -> Vec3I {
    Vec3I { x, y, z }
}

fn agent_at(x: i64, y: i64, z: i64) -> Agent {
    Agent {
        translation: v(x, y, z),
        velocity: v(0, 0, 0),
        desired_velocity: v(0, 0, 0),
        target: None,
        settings: AgentSettings { radius: 1500, desired_speed: 2000, max_speed: 3000 },
    }
}

#[test]
fn click_sets_exact_target() {
    let mut agents = vec![agent_at(0, 0, 0), agent_at(9, 9, 9)];
    let ray = PointerRay { origin: v(1, 2, 3), direction: v(10, 0, -2) };
    let set_to = set_target_on_click(&mut agents, Some(ray), Some(7));
    // Exactly origin + direction * distance.
    assert_eq!(set_to, Some(v(71, 2, -11)));
    assert_eq!(agents[0].target, Some(v(71, 2, -11)));
    assert_eq!(agents[0].translation, v(0, 0, 0));
    assert_eq!(agents[1], agent_at(9, 9, 9));
}

#[test]
fn click_overwrites_previous_target() {
    let mut agents = vec![agent_at(0, 0, 0)];
    agents[0].target = Some(v(5, 5, 5));
    let ray = PointerRay { origin: v(0, 0, 0), direction: v(1, 0, 0) };
    set_target_on_click(&mut agents, Some(ray), Some(4));
    assert_eq!(agents[0].target, Some(v(4, 0, 0)));
}

#[test]
fn ray_miss_is_silent_no_op() {
    let mut agents = vec![agent_at(0, 0, 0)];
    agents[0].target = Some(v(5, 5, 5));
    let ray = PointerRay { origin: v(0, 0, 0), direction: v(1, 0, 0) };
    let set_to = set_target_on_click(&mut agents, Some(ray), None);
    assert_eq!(set_to, None);
    // A miss does not clear an existing target.
    assert_eq!(agents[0].target, Some(v(5, 5, 5)));
}

#[test]
fn click_without_agent_is_no_op() {
    let mut agents: Vec<Agent> = vec![];
    let ray = PointerRay { origin: v(0, 0, 0), direction: v(1, 0, 0) };
    let set_to = set_target_on_click(&mut agents, Some(ray), Some(4));
    assert_eq!(set_to, None);
    assert!(agents.is_empty());
}

#[test]
fn movement_key_clears_every_target() {
    let mut agents = vec![agent_at(0, 0, 0), agent_at(1, 1, 1)];
    agents[0].target = Some(v(5, 5, 5));
    agents[1].target = Some(v(6, 6, 6));
    clear_targets_on_input(&mut agents, &vec![InputKey::F2, InputKey::ArrowLeft]);
    assert_eq!(agents[0].target, None);
    assert_eq!(agents[1].target, None);
    assert_eq!(agents[1].translation, v(1, 1, 1));
}

#[test]
fn non_movement_keys_clear_nothing() {
    let mut agents = vec![agent_at(0, 0, 0)];
    agents[0].target = Some(v(5, 5, 5));
    clear_targets_on_input(&mut agents, &vec![InputKey::F1, InputKey::F12]);
    assert_eq!(agents[0].target, Some(v(5, 5, 5)));
}

#[test]
fn movement_key_classification() {
    assert!(any_movement_pressed(&vec![InputKey::KeyW]));
    assert!(any_movement_pressed(&vec![InputKey::KeyA, InputKey::F1]));
    assert!(any_movement_pressed(&vec![InputKey::ArrowDown]));
    assert!(!any_movement_pressed(&vec![InputKey::F1, InputKey::F2, InputKey::F12]));
    assert!(!any_movement_pressed(&vec![]));
}

#[test]
fn override_beats_click_in_same_tick() {
    let mut agents = vec![agent_at(0, 0, 0), agent_at(1, 1, 1)];
    agents[1].target = Some(v(6, 6, 6));
    let ray = PointerRay { origin: v(1, 2, 3), direction: v(10, 0, -2) };
    // A click and a held movement key in the same tick: the clear wins.
    input_tick(&mut agents, Some(ray), Some(7), &vec![InputKey::KeyS]);
    assert_eq!(agents[0].target, None);
    assert_eq!(agents[1].target, None);
}

#[test]
fn tick_without_movement_sets_target() {
    let mut agents = vec![agent_at(0, 0, 0)];
    let ray = PointerRay { origin: v(1, 2, 3), direction: v(10, 0, -2) };
    let set_to = input_tick(&mut agents, Some(ray), Some(7), &vec![InputKey::F2]);
    assert_eq!(set_to, Some(v(71, 2, -11)));
    assert_eq!(agents[0].target, Some(v(71, 2, -11)));
}

#[test]
fn steering_tick_integrates_position() {
    // 2 units/s is 2 milliunits per millisecond; 0.1 s is 100 ms. The agent
    // must end at 0.2 units = 200 milliunits.
    let mut agents = vec![agent_at(0, 0, 0)];
    agents[0].desired_velocity = v(2, 0, 0);
    steering_tick(&mut agents, 100);
    assert_eq!(agents[0].translation, v(200, 0, 0));
    assert_eq!(agents[0].velocity, v(2, 0, 0));
}

#[test]
fn steering_tick_uses_fresh_velocity() {
    // The velocity refresh runs before the integration, so a stale kinematic
    // velocity never moves the agent.
    let mut agents = vec![agent_at(0, 0, 0)];
    agents[0].velocity = v(1, 0, 0);
    agents[0].desired_velocity = v(5, 0, 0);
    steering_tick(&mut agents, 10);
    assert_eq!(agents[0].translation, v(50, 0, 0));
}

#[test]
fn state_machine_follows_transitions() {
    let s = initial_state();
    assert_eq!(s, AgentState::Idle);
    let s = step(s, AgentEvent::TargetAssigned);
    assert_eq!(s, AgentState::Seeking);
    // A ray miss leaves a seeking agent seeking.
    let s = step(s, AgentEvent::RayMissed);
    assert_eq!(s, AgentState::Seeking);
    let s = step(s, AgentEvent::TargetReached);
    assert_eq!(s, AgentState::Idle);
    let s = step(s, AgentEvent::MovementKeyPressed);
    assert_eq!(s, AgentState::ManualOverride);
    // Still overridden while a target arrives under held keys.
    let s = step(s, AgentEvent::TargetAssigned);
    assert_eq!(s, AgentState::ManualOverride);
    let s = step(s, AgentEvent::MovementReleased);
    assert_eq!(s, AgentState::Idle);
    assert_eq!(
        step(AgentState::Seeking, AgentEvent::MovementKeyPressed),
        AgentState::ManualOverride
    );
}

#[test]
fn debug_toggle_flips_only_the_flag() {
    let mut d = DebugToggle::new();
    assert!(!d.enabled);
    d.toggle();
    assert!(d.enabled);
    d.toggle();
    assert!(!d.enabled);
}

#[test]
fn archipelago_spawns_members_in_order() {
    let options = ArchipelagoOptions {
        point_sample_distance: PointSampleDistance {
            horizontal_distance: 600,
            distance_above: 1000,
            distance_below: 2000,
            vertical_preference_ratio: 2000,
        },
        agent_radius: 600,
    };
    let mut world = Archipelago::new(options);
    assert_eq!(world.options, options);
    assert_eq!(world.spawn_island(), 0);
    assert_eq!(world.spawn_island(), 1);
    assert_eq!(world.spawn_agent(agent_at(0, 0, 0)), 0);
    assert_eq!(world.islands.len(), 2);
    assert_eq!(world.islands[0].nav_mesh, None);
    assert_eq!(world.agents.len(), 1);
}
