//! The kinematic character controller: the forces that act on the character, the movement it
//! asks for in each tick, and the states that steer both.
//!
//! One tick runs in this order: the speed follows the state, gravity follows the grounded flag
//! of the tick before, the action force follows the state, the movement force follows the held
//! directions and the speed, and the three forces add up to the movement that is asked for. The
//! host resolves that movement against the world and hands the new grounded flag back, from
//! which the state of the next tick follows.
use crate::fixed::{ceil_sqrt, lemma_floor_sqrt_exists, saturate, truncated_quotient, SCALE};
use crate::vector::{lemma_clamp_length_bound, Vec3};
use vstd::prelude::*;

verus! {

/// The acceleration of gravity.
pub const GRAVITY: i64 = 9_810_000;

/// What the character is doing.
#[derive(Clone, Copy, Debug, PartialEq, Eq, Hash, Structural)]
pub enum CharacterState {
    Idle,
    Walk,
    Run,
    Crouch,
    Slide,
    Jump,
}

impl Default for CharacterState {
    /// The character starts idle.
    fn default() -> (r: CharacterState)
        ensures
            r == CharacterState::Idle,
    {
        CharacterState::Idle
    }
}

/// A speed in whole units.
#[derive(Clone, Copy, Debug, PartialEq, Eq, Hash, Structural)]
pub struct CharacterSpeed(pub u32);

impl CharacterSpeed {
    /// The speed as a fixed-point number.
    pub open spec fn spec_get(self) -> i64 {
        (self.0 * SCALE) as i64
    }

    /// The speed as a fixed-point number.
    #[verifier::when_used_as_spec(spec_get)]
    pub fn get(self) -> (r: i64)
        ensures
            r == self.spec_get(),
            r == self.0 * SCALE,
    {
        assert(0 <= self.0 * SCALE <= 0xffff_ffff * SCALE) by (nonlinear_arith)
            requires
                0 <= self.0 <= 0xffff_ffff,
                SCALE == 1_000_000,
        ;
        (self.0 as i64) * SCALE
    }
}

impl Default for CharacterSpeed {
    /// The speed before any state has set one.
    fn default() -> (r: CharacterSpeed)
        ensures
            r == CharacterSpeed(1),
    {
        CharacterSpeed(1)
    }
}

/// The speed that goes with each state that has one.
#[derive(Clone, Copy, Debug, PartialEq, Eq, Structural)]
pub struct CharacterSpeedSettings {
    pub base: CharacterSpeed,
    pub run: CharacterSpeed,
    pub crouch: CharacterSpeed,
    pub slide: CharacterSpeed,
}

/// The three forces on the character. They are added up, never blended, so that each can be
/// set and reset alone.
#[derive(Clone, Copy, Debug, PartialEq, Eq, Structural)]
pub struct CharacterForces {
    /// Builds up while the character is in the air.
    pub gravity: Vec3,
    /// From the held directions; set anew in every tick.
    pub movement: Vec3,
    /// From the state; set anew in every tick.
    pub actions: Vec3,
}

impl Default for CharacterForces {
    fn default() -> (r: CharacterForces)
        ensures
            r == (CharacterForces {
                gravity: Vec3::zero(),
                movement: Vec3::zero(),
                actions: Vec3::zero(),
            }),
    {
        CharacterForces { gravity: Vec3::zero(), movement: Vec3::zero(), actions: Vec3::zero() }
    }
}

/// The character: its settings, the forces on it, and whether it stood on the ground after its
/// last movement.
#[derive(Clone, Copy, Debug, PartialEq, Eq, Structural)]
pub struct CharacterMovementController {
    pub speed: CharacterSpeedSettings,
    pub forces: CharacterForces,
    pub jump_force: i64,
    pub grounded: bool,
    pub height: i64,
    pub mass: i64,
}

impl CharacterMovementController {
    /// Whether the character stood on the ground after its last movement.
    pub fn grounded(&self) -> (r: bool)
        ensures
            r == self.grounded,
    {
        self.grounded
    }

    /// Records whether the character stands on the ground after the movement of this tick.
    pub fn set_grounded(&mut self, grounded: bool)
        ensures
            *final(self) == (CharacterMovementController { grounded, ..*old(self) }),
    {
        self.grounded = grounded;
    }
}

/// A direction in which the character can be moved.
#[derive(Clone, Copy, Debug, PartialEq, Eq, Structural)]
pub enum CharacterMovement {
    Left,
    Right,
    Back,
    Forward,
}

impl CharacterMovement {
    /// The unit vector of this direction: right is `+x`, back is `+z`.
    pub open spec fn spec_into_vec(self) -> Vec3 {
        match self {
            CharacterMovement::Right => Vec3 { x: SCALE, y: 0, z: 0 },
            CharacterMovement::Left => Vec3 { x: -SCALE as i64, y: 0, z: 0 },
            CharacterMovement::Back => Vec3 { x: 0, y: 0, z: SCALE },
            CharacterMovement::Forward => Vec3 { x: 0, y: 0, z: -SCALE as i64 },
        }
    }

    /// The unit vector of this direction.
    #[verifier::when_used_as_spec(spec_into_vec)]
    pub fn into_vec(self) -> (r: Vec3)
        ensures
            r == self.into_vec(),
    {
        match self {
            CharacterMovement::Right => Vec3::new(SCALE, 0, 0),
            CharacterMovement::Left => Vec3::new(-SCALE, 0, 0),
            CharacterMovement::Back => Vec3::new(0, 0, SCALE),
            CharacterMovement::Forward => Vec3::new(0, 0, -SCALE),
        }
    }
}

/// An action of the character other than a direction.
#[derive(Clone, Copy, Debug, PartialEq, Eq, Structural)]
pub enum CharacterActions {
    Jump,
    Sprint,
    Crouch,
}

/// The character as it starts: in the air, with no force on it.
pub fn spawn_player() -> (r: CharacterMovementController)
    ensures
        r == (CharacterMovementController {
            speed: CharacterSpeedSettings {
                base: CharacterSpeed(10),
                run: CharacterSpeed(20),
                crouch: CharacterSpeed(5),
                slide: CharacterSpeed(25),
            },
            forces: CharacterForces {
                gravity: Vec3::zero(),
                movement: Vec3::zero(),
                actions: Vec3::zero(),
            },
            jump_force: 30_000_000,
            grounded: false,
            height: 2_000_000,
            mass: 30_000_000,
        }),
{
    CharacterMovementController {
        speed: CharacterSpeedSettings {
            base: CharacterSpeed(10),
            run: CharacterSpeed(20),
            crouch: CharacterSpeed(5),
            slide: CharacterSpeed(25),
        },
        forces: CharacterForces::default(),
        jump_force: 30_000_000,
        grounded: false,
        height: 2_000_000,
        mass: 30_000_000,
    }
}

/// What gravity adds to its force over a tick of length `dt` on a character of the given mass:
/// the acceleration of gravity, downward, times the mass, times `dt`.
pub open spec fn gravity_impulse(mass: i64, dt: i64) -> Vec3 {
    (Vec3 { x: 0, y: -GRAVITY as i64, z: 0 }).scaled(mass).scaled(dt)
}

/// The force of gravity after a tick of length `dt`: none on the ground, and what was there
/// plus the tick's impulse in the air.
pub open spec fn next_gravity(character: CharacterMovementController, dt: i64) -> Vec3 {
    if character.grounded {
        Vec3::zero()
    } else {
        character.forces.gravity.plus(gravity_impulse(character.mass, dt))
    }
}

/// Resets the force of gravity on the ground, and builds it up in the air.
pub fn update_gravity_force(character: &mut CharacterMovementController, dt: i64)
    ensures
        *final(character) == (CharacterMovementController {
            forces: CharacterForces {
                gravity: next_gravity(*old(character), dt),
                ..old(character).forces
            },
            ..*old(character)
        }),
        old(character).grounded ==> final(character).forces.gravity == Vec3::zero(),
{
    if character.grounded {
        character.forces.gravity = Vec3::zero();
    } else {
        let impulse = Vec3::new(0, -GRAVITY, 0).scaled(character.mass).scaled(dt);
        character.forces.gravity = character.forces.gravity.plus(impulse);
    }
}

/// In the air the force of gravity grows downward with every tick whose impulse points down,
/// until it has reached the end of the `i64` range.
pub proof fn lemma_gravity_accumulates(character: CharacterMovementController, dt: i64)
    requires
        !character.grounded,
        gravity_impulse(character.mass, dt).y < 0,
        character.forces.gravity.y > i64::MIN,
    ensures
        next_gravity(character, dt).y < character.forces.gravity.y,
        next_gravity(character, dt).x == character.forces.gravity.x,
        next_gravity(character, dt).z == character.forces.gravity.z,
{
    assert(truncated_quotient(0 * character.mass, SCALE as int) == 0) by (nonlinear_arith);
    assert(truncated_quotient(0 * dt, SCALE as int) == 0) by (nonlinear_arith);
}

/// The impulse of gravity points down for every mass of one unit or more and every tick of
/// positive length.
pub proof fn lemma_gravity_impulse_points_down(mass: i64, dt: i64)
    requires
        mass >= SCALE,
        dt > 0,
    ensures
        gravity_impulse(mass, dt).y < 0,
{
    let weight = truncated_quotient(-GRAVITY * mass, SCALE as int);
    assert(-GRAVITY * mass <= -GRAVITY * SCALE) by (nonlinear_arith)
        requires
            mass >= SCALE,
            GRAVITY == 9_810_000,
    ;
    assert(GRAVITY * mass <= 9_810_000 * i64::MAX) by (nonlinear_arith)
        requires
            mass <= i64::MAX,
            GRAVITY == 9_810_000,
    ;
    assert(weight <= -GRAVITY);
    let w = saturate(weight);
    assert(w <= -GRAVITY);
    assert(w * dt <= -GRAVITY * dt) by (nonlinear_arith)
        requires
            w <= -GRAVITY,
            dt > 0,
    ;
    assert(-GRAVITY * dt <= -GRAVITY) by (nonlinear_arith)
        requires
            dt >= 1,
            GRAVITY == 9_810_000,
    ;
}

/// The sum of the unit vectors of the held directions.
pub open spec fn direction_sum(movement: Seq<CharacterMovement>) -> Vec3
    decreases movement.len(),
{
    if movement.len() == 0 {
        Vec3::zero()
    } else {
        direction_sum(movement.drop_last()).plus(movement.last().into_vec())
    }
}

/// The movement force: the sum of the held directions times the speed, shortened to the speed
/// where it is longer.
pub open spec fn movement_force(movement: Seq<CharacterMovement>, speed: CharacterSpeed) -> Vec3 {
    direction_sum(movement).scaled(speed.get()).clamp_length(speed.get() as u64)
}

/// Whatever directions are held, the movement force is no greater than the speed.
pub proof fn lemma_movement_force_bound(movement: Seq<CharacterMovement>, speed: CharacterSpeed)
    ensures
        movement_force(movement, speed).spec_length_squared() <= speed.get() * speed.get(),
{
    lemma_clamp_length_bound(
        direction_sum(movement).scaled(speed.get()),
        speed.get() as u64,
    );
}

/// The movement force is horizontal: no direction adds to its `y`.
pub proof fn lemma_movement_force_is_horizontal(
    movement: Seq<CharacterMovement>,
    speed: CharacterSpeed,
)
    ensures
        direction_sum(movement).y == 0,
        movement_force(movement, speed).y == 0,
    decreases movement.len(),
{
    if movement.len() > 0 {
        lemma_movement_force_is_horizontal(movement.drop_last(), speed);
    }
    assert(truncated_quotient(0 * speed.get(), SCALE as int) == 0) by (nonlinear_arith);
    let scaled = direction_sum(movement).scaled(speed.get());
    let max = speed.get() as u64;
    if scaled.spec_length_squared() > max * max {
        assert(scaled.spec_length_squared() >= 0) by (nonlinear_arith)
            requires
                max * max >= 0,
                scaled.spec_length_squared() > max * max,
        ;
        lemma_floor_sqrt_exists(scaled.spec_length_squared());
        let len = ceil_sqrt(scaled.spec_length_squared());
        assert(len > 0);
        assert(truncated_quotient(0 * max, len) == 0) by (nonlinear_arith)
            requires
                len > 0,
        ;
    }
}

/// Sets the movement force from the held directions and the speed.
pub fn update_movement_force(
    character: &mut CharacterMovementController,
    movement: &Vec<CharacterMovement>,
    speed: CharacterSpeed,
)
    ensures
        *final(character) == (CharacterMovementController {
            forces: CharacterForces {
                movement: movement_force(movement@, speed),
                ..old(character).forces
            },
            ..*old(character)
        }),
        final(character).forces.movement.spec_length_squared() <= speed.get()
            * speed.get(),
{
    let speed: i64 = speed.get();
    let mut total = Vec3::zero();
    let mut i: usize = 0;
    while i < movement.len()
        invariant
            i <= movement.len(),
            total == direction_sum(movement@.take(i as int)),
        decreases movement.len() - i,
    {
        proof {
            assert(movement@.take(i + 1).drop_last() == movement@.take(i as int));
        }
        total = total.plus(movement[i].into_vec());
        i += 1;
    }
    proof {
        assert(movement@.take(movement.len() as int) == movement@);
    }
    character.forces.movement = total.scaled(speed).clamp_length(speed as u64);
}

/// The speed that a state sets: its own where it has one, the one before where it has none.
pub open spec fn next_speed(
    settings: CharacterSpeedSettings,
    state: CharacterState,
    speed: CharacterSpeed,
) -> CharacterSpeed {
    match state {
        CharacterState::Run => settings.run,
        CharacterState::Walk => settings.base,
        CharacterState::Slide => settings.slide,
        CharacterState::Crouch => settings.crouch,
        _ => speed,
    }
}

/// The speed to go on with in the given state.
pub fn update_player_speed(
    character: &CharacterMovementController,
    state: CharacterState,
    speed: CharacterSpeed,
) -> (r: CharacterSpeed)
    ensures
        r == next_speed(character.speed, state, speed),
{
    match state {
        CharacterState::Run => character.speed.run,
        CharacterState::Walk => character.speed.base,
        CharacterState::Slide => character.speed.slide,
        CharacterState::Crouch => character.speed.crouch,
        _ => speed,
    }
}

/// The action force of a state: the movement force in a slide, the jump force straight up in a
/// jump, none in any other state.
pub open spec fn action_force(
    character: CharacterMovementController,
    state: CharacterState,
) -> Vec3 {
    match state {
        CharacterState::Slide => character.forces.movement,
        CharacterState::Jump => Vec3 { x: 0, y: character.jump_force, z: 0 },
        _ => Vec3::zero(),
    }
}

/// Sets the action force from the state.
pub fn update_action_force(character: &mut CharacterMovementController, state: CharacterState)
    ensures
        *final(character) == (CharacterMovementController {
            forces: CharacterForces {
                actions: action_force(*old(character), state),
                ..old(character).forces
            },
            ..*old(character)
        }),
{
    let move_direction = character.forces.movement;
    let force = match state {
        CharacterState::Slide => move_direction,
        CharacterState::Jump => Vec3::new(0, character.jump_force, 0),
        _ => Vec3::zero(),
    };
    character.forces.actions = force;
}

/// The movement that the forces ask for over a tick of length `dt`, in the character's frame:
/// their sum times `dt`.
pub open spec fn displacement(forces: CharacterForces, dt: i64) -> Vec3 {
    forces.movement.plus(forces.actions).plus(forces.gravity).scaled(dt)
}

/// The movement to ask for in this tick, in the character's frame.
pub fn update_player_pos(character: &CharacterMovementController, dt: i64) -> (r: Vec3)
    ensures
        r == displacement(character.forces, dt),
{
    let gravity = character.forces.gravity;
    let movement = character.forces.movement;
    let actions = character.forces.actions;
    movement.plus(actions).plus(gravity).scaled(dt)
}

/// The state that follows from the grounded flag and the held input. In the air the state
/// stays as it is. On the ground a jump comes first; then a crouch, which is a slide where the
/// character moves and was running or sliding; then a run or a walk where it moves; and idle
/// where nothing is held.
pub open spec fn next_state(
    state: CharacterState,
    grounded: bool,
    moving: bool,
    jump: bool,
    sprint: bool,
    crouch: bool,
) -> CharacterState {
    if !grounded {
        state
    } else if jump {
        CharacterState::Jump
    } else if crouch {
        if moving && (state == CharacterState::Run || state == CharacterState::Slide) {
            CharacterState::Slide
        } else {
            CharacterState::Crouch
        }
    } else if moving {
        if sprint {
            CharacterState::Run
        } else {
            CharacterState::Walk
        }
    } else {
        CharacterState::Idle
    }
}

/// Whether `action` is in `list`.
fn contains(list: &Vec<CharacterActions>, action: CharacterActions) -> (r: bool)
    ensures
        r == list@.contains(action),
{
    let mut i: usize = 0;
    while i < list.len()
        invariant
            i <= list.len(),
            forall|j: int| 0 <= j < i ==> list@[j] != action,
        decreases list.len() - i,
    {
        if list[i] == action {
            return true;
        }
        i += 1;
    }
    false
}

/// The state to go on with, from the grounded flag, the held directions and the held actions.
pub fn update_player_state(
    character: &CharacterMovementController,
    state: CharacterState,
    movement: &Vec<CharacterMovement>,
    actions: &Vec<CharacterActions>,
) -> (r: CharacterState)
    ensures
        r == next_state(
            state,
            character.grounded,
            movement@.len() > 0,
            actions@.contains(CharacterActions::Jump),
            actions@.contains(CharacterActions::Sprint),
            actions@.contains(CharacterActions::Crouch),
        ),
{
    if !character.grounded {
        return state;
    }
    let moving: bool = movement.len() > 0;
    if contains(actions, CharacterActions::Jump) {
        CharacterState::Jump
    } else if contains(actions, CharacterActions::Crouch) {
        if moving && (state == CharacterState::Run || state == CharacterState::Slide) {
            CharacterState::Slide
        } else {
            CharacterState::Crouch
        }
    } else if moving {
        if contains(actions, CharacterActions::Sprint) {
            CharacterState::Run
        } else {
            CharacterState::Walk
        }
    } else {
        CharacterState::Idle
    }
}

/// The character after the force phases of a tick: gravity from the grounded flag, the action
/// force from the state and the movement force of the tick before, and the movement force from
/// the held directions and the speed.
pub open spec fn next_forces(
    character: CharacterMovementController,
    state: CharacterState,
    speed: CharacterSpeed,
    movement: Seq<CharacterMovement>,
    dt: i64,
) -> CharacterForces {
    CharacterForces {
        gravity: next_gravity(character, dt),
        movement: movement_force(movement, next_speed(character.speed, state, speed)),
        actions: action_force(character, state),
    }
}

/// On the ground, with no direction held and in a state other than a slide or a jump, a tick
/// leaves no force on the character and asks for no movement, whatever forces were there.
pub proof fn lemma_grounded_tick_without_input_is_still(
    character: CharacterMovementController,
    state: CharacterState,
    speed: CharacterSpeed,
    dt: i64,
)
    requires
        character.grounded,
        state != CharacterState::Slide,
        state != CharacterState::Jump,
    ensures
        next_forces(character, state, speed, Seq::empty(), dt) == (CharacterForces {
            gravity: Vec3::zero(),
            movement: Vec3::zero(),
            actions: Vec3::zero(),
        }),
        displacement(next_forces(character, state, speed, Seq::empty(), dt), dt) == Vec3::zero(),
{
    let pace = next_speed(character.speed, state, speed).get();
    let none = Seq::<CharacterMovement>::empty();
    assert(direction_sum(none) == Vec3::zero());
    assert(truncated_quotient(0 * pace, SCALE as int) == 0) by (nonlinear_arith);
    assert(direction_sum(none).scaled(pace) == Vec3::zero());
    assert(0 <= (pace as u64) * (pace as u64)) by (nonlinear_arith);
    assert(Vec3::zero().clamp_length(pace as u64) == Vec3::zero());
    assert(truncated_quotient(0 * dt, SCALE as int) == 0) by (nonlinear_arith);
}

/// Runs one tick up to the movement that it asks for: the speed, gravity, the action force and
/// the movement force, in this order. Returns the speed to go on with and the movement to ask
/// for, in the character's frame.
pub fn update_player(
    character: &mut CharacterMovementController,
    state: CharacterState,
    speed: CharacterSpeed,
    movement: &Vec<CharacterMovement>,
    dt: i64,
) -> (r: (CharacterSpeed, Vec3))
    ensures
        r.0 == next_speed(old(character).speed, state, speed),
        *final(character) == (CharacterMovementController {
            forces: next_forces(*old(character), state, speed, movement@, dt),
            ..*old(character)
        }),
        r.1 == displacement(final(character).forces, dt),
{
    let speed = update_player_speed(character, state, speed);
    update_gravity_force(character, dt);
    update_action_force(character, state);
    update_movement_force(character, movement, speed);
    (speed, update_player_pos(character, dt))
}

} // verus!
