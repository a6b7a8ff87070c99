use game_controllers::character::{
    spawn_player, update_action_force, update_gravity_force, update_movement_force,
    update_player, update_player_pos, update_player_speed, update_player_state,
    CharacterActions, CharacterForces, CharacterMovement, CharacterMovementController,
    CharacterSpeed, CharacterSpeedSettings, CharacterState, GRAVITY,
};
use game_controllers::vector::Vec3;

const ALL_STATES: [CharacterState; 6] = [
    CharacterState::Idle,
    CharacterState::Walk,
    CharacterState::Run,
    CharacterState::Crouch,
    CharacterState::Slide,
    CharacterState::Jump,
];

const DIRECTIONS: [CharacterMovement; 4] = [
    CharacterMovement::Left,
    CharacterMovement::Right,
    CharacterMovement::Back,
    CharacterMovement::Forward,
];

/// The directions whose bit is set in `mask`.
fn held(mask: usize) -> Vec<CharacterMovement> {
    let mut list = Vec::new();
    for (i, direction) in DIRECTIONS.iter().enumerate() {
        if mask & (1 << i) != 0 {
            list.push(*direction);
        }
    }
    list
}

#[test]
fn character_starts_idle_at_speed_one() {
    assert_eq!(CharacterState::default(), CharacterState::Idle);
    assert_eq!(CharacterSpeed::default(), CharacterSpeed(1));
}

#[test]
fn speed_as_fixed_point() {
    assert_eq!(CharacterSpeed(10).get(), 10_000_000);
    assert_eq!(CharacterSpeed(0).get(), 0);
    assert_eq!(CharacterSpeed(u32::MAX).get(), 4_294_967_295_000_000);
}

#[test]
fn forces_start_at_zero() {
    let forces = CharacterForces::default();
    assert_eq!(forces.gravity, Vec3::zero());
    assert_eq!(forces.movement, Vec3::zero());
    assert_eq!(forces.actions, Vec3::zero());
}

#[test]
fn player_spawns_with_its_settings() {
    let player = spawn_player();
    assert_eq!(
        player.speed,
        CharacterSpeedSettings {
            base: CharacterSpeed(10),
            run: CharacterSpeed(20),
            crouch: CharacterSpeed(5),
            slide: CharacterSpeed(25),
        }
    );
    assert_eq!(player.forces, CharacterForces::default());
    assert_eq!(player.jump_force, 30_000_000);
    assert_eq!(player.height, 2_000_000);
    assert_eq!(player.mass, 30_000_000);
    assert!(!player.grounded());
}

#[test]
fn set_grounded_changes_the_flag_only() {
    let mut player = spawn_player();
    player.set_grounded(true);
    assert!(player.grounded());
    assert_eq!(player, CharacterMovementController { grounded: true, ..spawn_player() });
    player.set_grounded(false);
    assert!(!player.grounded());
    assert_eq!(player, spawn_player());
}

#[test]
fn character_directions_are_unit_vectors() {
    assert_eq!(CharacterMovement::Right.into_vec(), Vec3::new(1_000_000, 0, 0));
    assert_eq!(CharacterMovement::Left.into_vec(), Vec3::new(-1_000_000, 0, 0));
    assert_eq!(CharacterMovement::Back.into_vec(), Vec3::new(0, 0, 1_000_000));
    assert_eq!(CharacterMovement::Forward.into_vec(), Vec3::new(0, 0, -1_000_000));
}

#[test]
fn gravity_constant() {
    assert_eq!(GRAVITY, 9_810_000);
}

#[test]
fn gravity_is_zero_after_a_grounded_tick() {
    let mut player = spawn_player();
    player.forces.gravity = Vec3::new(0, -88_290_000, 0);
    player.forces.movement = Vec3::new(1, 2, 3);
    player.forces.actions = Vec3::new(4, 5, 6);
    player.set_grounded(true);
    let before = player;
    update_gravity_force(&mut player, 100_000);
    assert_eq!(player.forces.gravity, Vec3::zero());
    assert_eq!(
        player,
        CharacterMovementController {
            forces: CharacterForces { gravity: Vec3::zero(), ..before.forces },
            ..before
        }
    );
}

#[test]
fn gravity_accumulates_over_three_airborne_ticks() {
    let mut player = spawn_player();
    assert_eq!(player.mass, 30_000_000);
    update_gravity_force(&mut player, 100_000);
    assert_eq!(player.forces.gravity, Vec3::new(0, -29_430_000, 0));
    update_gravity_force(&mut player, 100_000);
    assert_eq!(player.forces.gravity, Vec3::new(0, -58_860_000, 0));
    update_gravity_force(&mut player, 100_000);
    assert_eq!(player.forces.gravity, Vec3::new(0, -88_290_000, 0));
    assert_eq!(player.forces.gravity.length(), 88_290_000);
}

#[test]
fn gravity_grows_downward_with_every_airborne_tick() {
    let mut player = spawn_player();
    let ticks: [i64; 6] = [1, 16_667, 100_000, 5, 1_000_000, 33_333];
    for dt in ticks {
        let before = player.forces.gravity;
        update_gravity_force(&mut player, dt);
        assert!(player.forces.gravity.y < before.y);
        assert_eq!(player.forces.gravity.x, 0);
        assert_eq!(player.forces.gravity.z, 0);
    }
}

#[test]
fn gravity_resets_when_landing_and_builds_up_again() {
    let mut player = spawn_player();
    update_gravity_force(&mut player, 100_000);
    update_gravity_force(&mut player, 100_000);
    player.set_grounded(true);
    update_gravity_force(&mut player, 100_000);
    assert_eq!(player.forces.gravity, Vec3::zero());
    player.set_grounded(false);
    update_gravity_force(&mut player, 100_000);
    assert_eq!(player.forces.gravity, Vec3::new(0, -29_430_000, 0));
}

#[test]
fn gravity_stops_at_the_end_of_the_range() {
    let mut player = spawn_player();
    player.forces.gravity = Vec3::new(0, i64::MIN + 5, 0);
    update_gravity_force(&mut player, 100_000);
    assert_eq!(player.forces.gravity, Vec3::new(0, i64::MIN, 0));
    update_gravity_force(&mut player, 100_000);
    assert_eq!(player.forces.gravity, Vec3::new(0, i64::MIN, 0));
}

#[test]
fn gravity_leaves_the_other_forces_alone() {
    let mut player = spawn_player();
    player.forces.movement = Vec3::new(1, 2, 3);
    player.forces.actions = Vec3::new(4, 5, 6);
    let before = player;
    update_gravity_force(&mut player, 100_000);
    assert_eq!(
        player,
        CharacterMovementController {
            forces: CharacterForces { gravity: Vec3::new(0, -29_430_000, 0), ..before.forces },
            ..before
        }
    );
}

#[test]
fn movement_force_along_one_direction_is_the_speed() {
    let mut player = spawn_player();
    update_movement_force(&mut player, &vec![CharacterMovement::Right], CharacterSpeed(10));
    assert_eq!(player.forces.movement, Vec3::new(10_000_000, 0, 0));
    update_movement_force(&mut player, &vec![CharacterMovement::Forward], CharacterSpeed(20));
    assert_eq!(player.forces.movement, Vec3::new(0, 0, -20_000_000));
}

#[test]
fn movement_force_on_a_diagonal_is_clamped_to_the_speed() {
    let mut player = spawn_player();
    let diagonal = vec![CharacterMovement::Right, CharacterMovement::Back];
    update_movement_force(&mut player, &diagonal, CharacterSpeed(10));
    assert_eq!(player.forces.movement, Vec3::new(7_071_067, 0, 7_071_067));
    let other = vec![CharacterMovement::Left, CharacterMovement::Forward];
    update_movement_force(&mut player, &other, CharacterSpeed(10));
    assert_eq!(player.forces.movement, Vec3::new(-7_071_067, 0, -7_071_067));
}

#[test]
fn movement_force_of_opposing_directions_is_zero() {
    let mut player = spawn_player();
    let opposing = vec![CharacterMovement::Left, CharacterMovement::Right];
    update_movement_force(&mut player, &opposing, CharacterSpeed(10));
    assert_eq!(player.forces.movement, Vec3::zero());
    update_movement_force(&mut player, &held(15), CharacterSpeed(10));
    assert_eq!(player.forces.movement, Vec3::zero());
}

#[test]
fn movement_force_without_input_is_zero() {
    let mut player = spawn_player();
    player.forces.movement = Vec3::new(10_000_000, 0, 0);
    update_movement_force(&mut player, &vec![], CharacterSpeed(10));
    assert_eq!(player.forces.movement, Vec3::zero());
}

#[test]
fn movement_force_is_not_carried_over() {
    let mut player = spawn_player();
    update_movement_force(&mut player, &vec![CharacterMovement::Right], CharacterSpeed(10));
    update_movement_force(&mut player, &vec![CharacterMovement::Back], CharacterSpeed(10));
    assert_eq!(player.forces.movement, Vec3::new(0, 0, 10_000_000));
}

#[test]
fn movement_force_never_exceeds_the_speed() {
    let speeds: [u32; 6] = [0, 1, 5, 10, 25, u32::MAX];
    for mask in 0..16 {
        for speed in speeds {
            let mut player = spawn_player();
            update_movement_force(&mut player, &held(mask), CharacterSpeed(speed));
            let bound = CharacterSpeed(speed).get() as u128;
            assert!(player.forces.movement.length_squared() <= bound * bound);
            assert_eq!(player.forces.movement.y, 0);
        }
    }
}

#[test]
fn movement_force_of_a_repeated_direction_is_clamped() {
    let mut player = spawn_player();
    let twice = vec![CharacterMovement::Right, CharacterMovement::Right];
    update_movement_force(&mut player, &twice, CharacterSpeed(10));
    assert_eq!(player.forces.movement, Vec3::new(10_000_000, 0, 0));
}

#[test]
fn movement_force_leaves_the_other_forces_alone() {
    let mut player = spawn_player();
    player.forces.gravity = Vec3::new(0, -5, 0);
    player.forces.actions = Vec3::new(4, 5, 6);
    let before = player;
    update_movement_force(&mut player, &vec![CharacterMovement::Left], CharacterSpeed(5));
    assert_eq!(
        player,
        CharacterMovementController {
            forces: CharacterForces { movement: Vec3::new(-5_000_000, 0, 0), ..before.forces },
            ..before
        }
    );
}

#[test]
fn speed_follows_the_state() {
    let player = spawn_player();
    let before = CharacterSpeed(7);
    assert_eq!(update_player_speed(&player, CharacterState::Run, before), CharacterSpeed(20));
    assert_eq!(update_player_speed(&player, CharacterState::Walk, before), CharacterSpeed(10));
    assert_eq!(update_player_speed(&player, CharacterState::Slide, before), CharacterSpeed(25));
    assert_eq!(update_player_speed(&player, CharacterState::Crouch, before), CharacterSpeed(5));
}

#[test]
fn speed_stays_in_idle_and_jump() {
    let player = spawn_player();
    let before = CharacterSpeed(7);
    assert_eq!(update_player_speed(&player, CharacterState::Idle, before), before);
    assert_eq!(update_player_speed(&player, CharacterState::Jump, before), before);
}

#[test]
fn jump_action_force_is_straight_up() {
    let mut player = spawn_player();
    assert_eq!(player.jump_force, 30_000_000);
    player.forces.movement = Vec3::new(5_000_000, 0, -3_000_000);
    player.forces.gravity = Vec3::new(0, -1_000_000, 0);
    update_action_force(&mut player, CharacterState::Jump);
    assert_eq!(player.forces.actions, Vec3::new(0, 30_000_000, 0));
    assert_eq!(player.forces.movement, Vec3::new(5_000_000, 0, -3_000_000));
    assert_eq!(player.forces.gravity, Vec3::new(0, -1_000_000, 0));
}

#[test]
fn slide_action_force_is_the_movement_force() {
    let mut player = spawn_player();
    player.forces.movement = Vec3::new(5_000_000, 0, 0);
    update_action_force(&mut player, CharacterState::Slide);
    assert_eq!(player.forces.actions, Vec3::new(5_000_000, 0, 0));
    assert_eq!(player.forces.movement, Vec3::new(5_000_000, 0, 0));
}

#[test]
fn other_states_have_no_action_force() {
    for state in [
        CharacterState::Idle,
        CharacterState::Walk,
        CharacterState::Run,
        CharacterState::Crouch,
    ] {
        let mut player = spawn_player();
        player.forces.movement = Vec3::new(5_000_000, 0, 0);
        player.forces.actions = Vec3::new(1, 2, 3);
        update_action_force(&mut player, state);
        assert_eq!(player.forces.actions, Vec3::zero());
    }
}

#[test]
fn displacement_is_the_sum_of_the_forces_times_dt() {
    let mut player = spawn_player();
    player.forces.movement = Vec3::new(1_000_000, 0, -4_000_000);
    player.forces.actions = Vec3::new(0, 2_000_000, 0);
    player.forces.gravity = Vec3::new(0, -5_000_000, 0);
    // (1, -3, -4) * 0.5
    assert_eq!(update_player_pos(&player, 500_000), Vec3::new(500_000, -1_500_000, -2_000_000));
    assert_eq!(update_player_pos(&player, 0), Vec3::zero());
}

#[test]
fn state_stays_in_the_air() {
    let player = spawn_player();
    let everything =
        vec![CharacterActions::Jump, CharacterActions::Sprint, CharacterActions::Crouch];
    for state in ALL_STATES {
        assert_eq!(update_player_state(&player, state, &held(3), &everything), state);
        assert_eq!(update_player_state(&player, state, &vec![], &vec![]), state);
    }
}

#[test]
fn state_on_the_ground_without_input_is_idle() {
    let mut player = spawn_player();
    player.set_grounded(true);
    for state in ALL_STATES {
        assert_eq!(update_player_state(&player, state, &vec![], &vec![]), CharacterState::Idle);
        assert_eq!(
            update_player_state(&player, state, &vec![], &vec![CharacterActions::Sprint]),
            CharacterState::Idle
        );
    }
}

#[test]
fn state_on_the_ground_walks_and_runs() {
    let mut player = spawn_player();
    player.set_grounded(true);
    let moving = vec![CharacterMovement::Forward];
    for state in ALL_STATES {
        assert_eq!(update_player_state(&player, state, &moving, &vec![]), CharacterState::Walk);
        assert_eq!(
            update_player_state(&player, state, &moving, &vec![CharacterActions::Sprint]),
            CharacterState::Run
        );
    }
}

#[test]
fn state_on_the_ground_jumps_first() {
    let mut player = spawn_player();
    player.set_grounded(true);
    let everything =
        vec![CharacterActions::Crouch, CharacterActions::Sprint, CharacterActions::Jump];
    for state in ALL_STATES {
        assert_eq!(
            update_player_state(&player, state, &held(1), &everything),
            CharacterState::Jump
        );
        assert_eq!(
            update_player_state(&player, state, &vec![], &vec![CharacterActions::Jump]),
            CharacterState::Jump
        );
    }
}

#[test]
fn state_on_the_ground_crouches_and_slides() {
    let mut player = spawn_player();
    player.set_grounded(true);
    let crouch = vec![CharacterActions::Crouch];
    let moving = vec![CharacterMovement::Left];
    assert_eq!(
        update_player_state(&player, CharacterState::Run, &moving, &crouch),
        CharacterState::Slide
    );
    assert_eq!(
        update_player_state(&player, CharacterState::Slide, &moving, &crouch),
        CharacterState::Slide
    );
    assert_eq!(
        update_player_state(&player, CharacterState::Run, &vec![], &crouch),
        CharacterState::Crouch
    );
    for state in [
        CharacterState::Idle,
        CharacterState::Walk,
        CharacterState::Crouch,
        CharacterState::Jump,
    ] {
        assert_eq!(update_player_state(&player, state, &moving, &crouch), CharacterState::Crouch);
    }
    let sprinting = vec![CharacterActions::Sprint, CharacterActions::Crouch];
    assert_eq!(
        update_player_state(&player, CharacterState::Walk, &moving, &sprinting),
        CharacterState::Crouch
    );
}

#[test]
fn grounded_idle_tick_asks_for_no_movement() {
    let mut player = spawn_player();
    player.set_grounded(true);
    player.forces.gravity = Vec3::new(0, -88_290_000, 0);
    player.forces.movement = Vec3::new(10_000_000, 0, 0);
    player.forces.actions = Vec3::new(0, 30_000_000, 0);
    let (speed, request) =
        update_player(&mut player, CharacterState::Idle, CharacterSpeed(10), &vec![], 16_667);
    assert_eq!(request, Vec3::zero());
    assert_eq!(speed, CharacterSpeed(10));
    assert_eq!(player.forces, CharacterForces::default());
}

#[test]
fn airborne_walking_tick() {
    let mut player = spawn_player();
    let (speed, request) = update_player(
        &mut player,
        CharacterState::Walk,
        CharacterSpeed(1),
        &vec![CharacterMovement::Right],
        100_000,
    );
    assert_eq!(speed, CharacterSpeed(10));
    assert_eq!(player.forces.gravity, Vec3::new(0, -29_430_000, 0));
    assert_eq!(player.forces.movement, Vec3::new(10_000_000, 0, 0));
    assert_eq!(player.forces.actions, Vec3::zero());
    // (10, -29.43, 0) * 0.1
    assert_eq!(request, Vec3::new(1_000_000, -2_943_000, 0));
}

#[test]
fn slide_tick_takes_the_movement_force_of_the_tick_before() {
    let mut player = spawn_player();
    player.set_grounded(true);
    player.forces.movement = Vec3::new(20_000_000, 0, 0);
    let (speed, request) = update_player(
        &mut player,
        CharacterState::Slide,
        CharacterSpeed(20),
        &vec![CharacterMovement::Back],
        100_000,
    );
    assert_eq!(speed, CharacterSpeed(25));
    assert_eq!(player.forces.actions, Vec3::new(20_000_000, 0, 0));
    assert_eq!(player.forces.movement, Vec3::new(0, 0, 25_000_000));
    assert_eq!(player.forces.gravity, Vec3::zero());
    assert_eq!(request, Vec3::new(2_000_000, 0, 2_500_000));
}

#[test]
fn jump_tick_on_the_ground() {
    let mut player = spawn_player();
    player.set_grounded(true);
    let (speed, request) = update_player(
        &mut player,
        CharacterState::Jump,
        CharacterSpeed(10),
        &vec![CharacterMovement::Forward],
        100_000,
    );
    assert_eq!(speed, CharacterSpeed(10));
    assert_eq!(player.forces.actions, Vec3::new(0, 30_000_000, 0));
    assert_eq!(request, Vec3::new(0, 3_000_000, -1_000_000));
}

#[test]
fn tick_matches_its_phases() {
    for state in ALL_STATES {
        for mask in 0..16 {
            for grounded in [false, true] {
                let mut whole = spawn_player();
                whole.set_grounded(grounded);
                whole.forces.gravity = Vec3::new(0, -1_000_000, 0);
                whole.forces.movement = Vec3::new(3_000_000, 0, 4_000_000);
                let mut stepwise = whole;
                let (speed, request) =
                    update_player(&mut whole, state, CharacterSpeed(3), &held(mask), 20_000);
                let next = update_player_speed(&stepwise, state, CharacterSpeed(3));
                update_gravity_force(&mut stepwise, 20_000);
                update_action_force(&mut stepwise, state);
                update_movement_force(&mut stepwise, &held(mask), next);
                assert_eq!(speed, next);
                assert_eq!(whole, stepwise);
                assert_eq!(request, update_player_pos(&stepwise, 20_000));
            }
        }
    }
}
