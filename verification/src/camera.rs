//! The debug camera rig: its modes, and what each kind of input does to it in each mode.
//!
//! The rig does not hold the camera's orientation. Updates that depend on it are handed out in
//! the camera's own frame, for the host to turn into the world's frame.
use crate::fixed::{negated, product, ratio, saturate, sum, truncated_quotient, SCALE};
use crate::vector::Vec3;
use vstd::prelude::*;

verus! {

/// The factor by which the sensitivity boost multiplies the movement sensitivity.
pub const SENS_BOOST: u64 = 5;

/// The mode of the camera. It decides which updates apply, see [`CameraState::behaviors`].
#[derive(Clone, Copy, Debug, PartialEq, Eq, Hash, Structural)]
pub enum CameraState {
    /// Moves, turns, pans and zooms freely.
    FreeFloat,
    /// Moves only.
    Locked,
    /// Turns only.
    Fps,
    /// Moves and turns while the move trigger is held, and pans.
    Editor,
}

/// The updates that apply in a mode.
#[derive(Clone, Copy, Debug, PartialEq, Eq, Structural)]
pub struct CameraBehaviors {
    pub rotation: bool,
    pub position: bool,
    pub pan: bool,
    pub zoom: bool,
}

impl CameraState {
    /// The mode after the toggle: `Editor` from `FreeFloat`, `FreeFloat` from any other mode.
    pub open spec fn spec_toggled(self) -> CameraState {
        if self == CameraState::FreeFloat {
            CameraState::Editor
        } else {
            CameraState::FreeFloat
        }
    }

    /// The updates that apply in this mode.
    pub open spec fn spec_behaviors(self) -> CameraBehaviors {
        CameraBehaviors {
            rotation: self != CameraState::Locked,
            position: self != CameraState::Fps,
            pan: self == CameraState::Editor || self == CameraState::FreeFloat,
            zoom: self == CameraState::FreeFloat,
        }
    }

    /// The mode that the toggle action leads to.
    #[verifier::when_used_as_spec(spec_toggled)]
    pub fn toggled(self) -> (r: CameraState)
        ensures
            r == self.spec_toggled(),
    {
        match self {
            CameraState::FreeFloat => CameraState::Editor,
            _ => CameraState::FreeFloat,
        }
    }

    /// The updates that apply in this mode.
    #[verifier::when_used_as_spec(spec_behaviors)]
    pub fn behaviors(self) -> (r: CameraBehaviors)
        ensures
            r == self.spec_behaviors(),
    {
        match self {
            CameraState::FreeFloat => CameraBehaviors {
                rotation: true,
                position: true,
                pan: true,
                zoom: true,
            },
            CameraState::Locked => CameraBehaviors {
                rotation: false,
                position: true,
                pan: false,
                zoom: false,
            },
            CameraState::Fps => CameraBehaviors {
                rotation: true,
                position: false,
                pan: false,
                zoom: false,
            },
            CameraState::Editor => CameraBehaviors {
                rotation: true,
                position: true,
                pan: true,
                zoom: false,
            },
        }
    }
}

impl Default for CameraState {
    /// The camera starts in `FreeFloat`.
    fn default() -> (r: CameraState)
        ensures
            r == CameraState::FreeFloat,
    {
        CameraState::FreeFloat
    }
}

/// Toggling twice from `FreeFloat` or from `Editor` leads back to where it started.
pub proof fn lemma_toggle_is_involution(state: CameraState)
    requires
        state == CameraState::FreeFloat || state == CameraState::Editor,
    ensures
        state.toggled().toggled() == state,
{
}

/// From any mode the toggle leads to `FreeFloat` or to `Editor`, never to `Locked` or `Fps`.
pub proof fn lemma_toggle_reaches_free_float_or_editor(state: CameraState)
    ensures
        state.toggled() == CameraState::FreeFloat || state.toggled() == CameraState::Editor,
        state != CameraState::FreeFloat ==> state.toggled() == CameraState::FreeFloat,
{
}

/// A direction in which the camera can be moved.
#[derive(Clone, Copy, Debug, PartialEq, Eq, Structural)]
pub enum CameraMovement {
    Left,
    Right,
    Back,
    Forward,
    Up,
    Down,
}

impl CameraMovement {
    /// The unit vector of this direction: right is `+x`, up is `+y`, back is `+z`.
    pub open spec fn spec_into_vec(self) -> Vec3 {
        match self {
            CameraMovement::Up => Vec3 { x: 0, y: SCALE, z: 0 },
            CameraMovement::Down => Vec3 { x: 0, y: -SCALE as i64, z: 0 },
            CameraMovement::Right => Vec3 { x: SCALE, y: 0, z: 0 },
            CameraMovement::Left => Vec3 { x: -SCALE as i64, y: 0, z: 0 },
            CameraMovement::Back => Vec3 { x: 0, y: 0, z: SCALE },
            CameraMovement::Forward => Vec3 { x: 0, y: 0, z: -SCALE as i64 },
        }
    }

    /// Whether this direction is along the world's vertical axis whatever the camera's
    /// orientation.
    pub open spec fn spec_is_vertical(self) -> bool {
        self == CameraMovement::Up || self == CameraMovement::Down
    }

    /// The unit vector of this direction.
    #[verifier::when_used_as_spec(spec_into_vec)]
    pub fn into_vec(self) -> (r: Vec3)
        ensures
            r == self.spec_into_vec(),
    {
        match self {
            CameraMovement::Up => Vec3::new(0, SCALE, 0),
            CameraMovement::Down => Vec3::new(0, -SCALE, 0),
            CameraMovement::Right => Vec3::new(SCALE, 0, 0),
            CameraMovement::Left => Vec3::new(-SCALE, 0, 0),
            CameraMovement::Back => Vec3::new(0, 0, SCALE),
            CameraMovement::Forward => Vec3::new(0, 0, -SCALE),
        }
    }

    /// Whether this direction is along the world's vertical axis.
    #[verifier::when_used_as_spec(spec_is_vertical)]
    pub fn is_vertical(self) -> (r: bool)
        ensures
            r == self.spec_is_vertical(),
    {
        match self {
            CameraMovement::Up => true,
            CameraMovement::Down => true,
            _ => false,
        }
    }
}

/// The settings of the camera rig.
#[derive(Clone, Copy, Debug, PartialEq, Eq, Structural)]
pub struct DebugCamera {
    /// The point that the camera orbits.
    pub focus: Vec3,
    /// The distance from the focus.
    pub radius: i64,
    /// Distance moved per unit of movement input.
    pub move_sens: i64,
    /// Angle turned per unit of look input, and field of view narrowed per unit of scroll.
    pub look_sens: i64,
    /// Kept with the rig; no update reads it.
    pub zoom_sens: i64,
    /// Kept with the rig; no update reads it.
    pub upside_down: bool,
}

impl DebugCamera {
    /// The settings that a rig starts with.
    pub open spec fn spec_default() -> DebugCamera {
        DebugCamera {
            focus: Vec3::zero(),
            radius: 5_000_000,
            move_sens: 5_000,
            look_sens: 5_000,
            zoom_sens: 100_000,
            upside_down: false,
        }
    }
}

impl Default for DebugCamera {
    fn default() -> (r: DebugCamera)
        ensures
            r == DebugCamera::spec_default(),
    {
        DebugCamera {
            focus: Vec3::zero(),
            radius: 5_000_000,
            move_sens: 5_000,
            look_sens: 5_000,
            zoom_sens: 100_000,
            upside_down: false,
        }
    }
}

/// An action that the camera answers to.
#[derive(Clone, Copy, Debug, PartialEq, Eq, Structural)]
pub enum CameraAction {
    /// A look input of its own. No update reads it: the camera turns by `Pan`.
    Rotate,
    /// While held, movement and look input apply outside `FreeFloat` too.
    MoveTrigger,
    /// The pointer motion, which turns the camera or pans it.
    Pan,
    /// While held, the pointer motion pans the camera.
    PanTrigger,
    /// The scroll motion.
    Zoom,
    /// While held, the camera moves faster.
    SensTrigger,
    /// Switches between `FreeFloat` and `Editor`.
    FreeFloatToggle,
}

/// The two values of a two-dimensional input, such as a pointer motion.
#[derive(Clone, Copy, Debug, PartialEq, Eq, Structural)]
pub struct AxisPair {
    pub x: i64,
    pub y: i64,
}

/// What the input layer reports of the camera's actions in one tick.
pub struct CameraInput {
    /// The actions that are held.
    pub pressed: Vec<CameraAction>,
    /// The actions that were pressed since the last tick.
    pub just_pressed: Vec<CameraAction>,
    /// The actions that were released since the last tick.
    pub just_released: Vec<CameraAction>,
    /// The pointer motion since the last tick, the axis pair of `Pan`.
    pub pan: AxisPair,
    /// The scroll motion since the last tick, the axis pair of `Zoom`.
    pub zoom: AxisPair,
}

/// Whether `action` is in `list`.
fn contains(list: &Vec<CameraAction>, action: CameraAction) -> (r: bool)
    ensures
        r == list@.contains(action),
{
    let mut i: usize = 0;
    while i < list.len()
        invariant
            i <= list.len(),
            forall|j: int| 0 <= j < i ==> list@[j] != action,
        decreases list.len() - i,
    {
        if list[i] == action {
            return true;
        }
        i += 1;
    }
    false
}

impl CameraInput {
    /// Whether `action` is held.
    pub fn pressed(&self, action: CameraAction) -> (r: bool)
        ensures
            r == self.pressed@.contains(action),
    {
        contains(&self.pressed, action)
    }

    /// Whether `action` was pressed since the last tick.
    pub fn just_pressed(&self, action: CameraAction) -> (r: bool)
        ensures
            r == self.just_pressed@.contains(action),
    {
        contains(&self.just_pressed, action)
    }

    /// Whether `action` was released since the last tick.
    pub fn just_released(&self, action: CameraAction) -> (r: bool)
        ensures
            r == self.just_released@.contains(action),
    {
        contains(&self.just_released, action)
    }
}

/// The movement sensitivity after a tick: multiplied by `SENS_BOOST` where the boost was
/// pressed, then divided by it where the boost was released.
pub open spec fn next_move_sens(move_sens: i64, boost_pressed: bool, boost_released: bool) -> i64 {
    let raised = if boost_pressed {
        saturate(move_sens * SENS_BOOST)
    } else {
        move_sens
    };
    if boost_released {
        saturate(truncated_quotient(raised as int, SENS_BOOST as int))
    } else {
        raised
    }
}

/// Applies the sensitivity boost to the rig and the mode toggle to the mode, and returns the
/// mode to go on with.
pub fn update_camera_state(
    camera: &mut DebugCamera,
    actions: &CameraInput,
    state: CameraState,
) -> (next: CameraState)
    ensures
        *final(camera) == (DebugCamera {
            move_sens: next_move_sens(
                old(camera).move_sens,
                actions.just_pressed@.contains(CameraAction::SensTrigger),
                actions.just_released@.contains(CameraAction::SensTrigger),
            ),
            ..*old(camera)
        }),
        next == if actions.just_pressed@.contains(CameraAction::FreeFloatToggle) {
            state.toggled()
        } else {
            state
        },
{
    if actions.just_pressed(CameraAction::SensTrigger) {
        camera.move_sens = ratio(camera.move_sens, SENS_BOOST, 1);
    }
    if actions.just_released(CameraAction::SensTrigger) {
        camera.move_sens = ratio(camera.move_sens, 1, SENS_BOOST);
    }
    if actions.just_pressed(CameraAction::FreeFloatToggle) {
        state.toggled()
    } else {
        state
    }
}

/// Pressing the boost in one tick and releasing it in a later one leaves the movement
/// sensitivity as it was, as long as the boosted value fits the `i64` range.
pub proof fn lemma_boost_round_trip(move_sens: i64)
    requires
        i64::MIN <= move_sens * SENS_BOOST <= i64::MAX,
    ensures
        next_move_sens(next_move_sens(move_sens, true, false), false, true) == move_sens,
        next_move_sens(move_sens, true, true) == move_sens,
{
}

/// Whether the movement and look updates apply: always in `FreeFloat`, elsewhere while the
/// move trigger is held.
pub open spec fn move_triggered(actions: CameraInput, state: CameraState) -> bool {
    state == CameraState::FreeFloat || actions.pressed@.contains(CameraAction::MoveTrigger)
}

/// The offset of a pan in the camera's frame: with the pointer's motion along the camera's
/// `x`, against it along the camera's `y`, each scaled by the movement sensitivity.
pub open spec fn pan_offset(move_sens: i64, motion: AxisPair) -> Vec3 {
    Vec3 { x: product(move_sens, motion.x), y: negated(product(move_sens, motion.y)), z: 0 }
}

/// The offset, in the camera's frame, by which the pointer's motion pans the camera in this
/// tick; `None` where the mode has no pan or the pan trigger is not held.
pub fn update_camera_pan(
    camera: &DebugCamera,
    actions: &CameraInput,
    state: CameraState,
) -> (r: Option<Vec3>)
    ensures
        r == if state.behaviors().pan && actions.pressed@.contains(CameraAction::PanTrigger) {
            Some(pan_offset(camera.move_sens, actions.pan))
        } else {
            None
        },
{
    if state.behaviors().pan && actions.pressed(CameraAction::PanTrigger) {
        let dx: i64 = product(camera.move_sens, actions.pan.x);
        let dy: i64 = product(camera.move_sens, actions.pan.y);
        Some(Vec3::new(dx, negated(dy), 0))
    } else {
        None
    }
}

/// The field of view after a scroll: narrowed by the scroll's `y` times the look sensitivity.
pub open spec fn zoomed_fov(fov: i64, look_sens: i64, scroll: AxisPair) -> i64 {
    sum(fov, product(negated(scroll.y), look_sens))
}

/// Changes the field of view by the scroll motion. Nothing happens where the mode has no zoom
/// or the scroll motion is zero.
pub fn update_camera_zoom(
    camera: &DebugCamera,
    actions: &CameraInput,
    state: CameraState,
    fov: &mut i64,
)
    ensures
        *final(fov) == if state.behaviors().zoom && (actions.zoom.x != 0 || actions.zoom.y
            != 0) {
            zoomed_fov(*old(fov), camera.look_sens, actions.zoom)
        } else {
            *old(fov)
        },
{
    if !state.behaviors().zoom {
        return ;
    }
    if actions.zoom.x == 0 && actions.zoom.y == 0 {
        return ;
    }
    *fov = sum(*fov, product(negated(actions.zoom.y), camera.look_sens));
}

/// A turn of the camera: first by `yaw` about the world's vertical axis, then by `pitch` about
/// the camera's own `x` axis.
#[derive(Clone, Copy, Debug, PartialEq, Eq, Structural)]
pub struct CameraRotation {
    pub yaw: i64,
    pub pitch: i64,
}

/// The turn that a pointer motion asks for: against the motion, scaled by the look sensitivity.
pub open spec fn look_rotation(look_sens: i64, motion: AxisPair) -> CameraRotation {
    CameraRotation {
        yaw: product(negated(motion.x), look_sens),
        pitch: product(negated(motion.y), look_sens),
    }
}

/// The turn by which the pointer's motion rotates the camera in this tick; `None` where the
/// mode has no rotation, or the mode is not `FreeFloat` and the move trigger is not held.
pub fn update_camera_rot(
    camera: &DebugCamera,
    actions: &CameraInput,
    state: CameraState,
) -> (r: Option<CameraRotation>)
    ensures
        r == if state.behaviors().rotation && move_triggered(*actions, state) {
            Some(look_rotation(camera.look_sens, actions.pan))
        } else {
            None
        },
{
    if !state.behaviors().rotation {
        return None;
    }
    let triggered: bool = actions.pressed(CameraAction::MoveTrigger);
    if state == CameraState::FreeFloat || triggered {
        Some(
            CameraRotation {
                yaw: product(negated(actions.pan.x), camera.look_sens),
                pitch: product(negated(actions.pan.y), camera.look_sens),
            },
        )
    } else {
        None
    }
}

/// A move of the camera: by `local` in the camera's frame and by `world` in the world's frame.
#[derive(Clone, Copy, Debug, PartialEq, Eq, Structural)]
pub struct CameraTranslation {
    pub local: Vec3,
    pub world: Vec3,
}

/// The move that the held directions add up to, each taken at the movement sensitivity. The
/// vertical directions go to the world's frame, the others to the camera's.
pub open spec fn movement_offset(movement: Seq<CameraMovement>, move_sens: i64) -> CameraTranslation
    decreases movement.len(),
{
    if movement.len() == 0 {
        CameraTranslation { local: Vec3::zero(), world: Vec3::zero() }
    } else {
        let before = movement_offset(movement.drop_last(), move_sens);
        let step = movement.last().into_vec().scaled(move_sens);
        if movement.last().is_vertical() {
            CameraTranslation { local: before.local, world: before.world.plus(step) }
        } else {
            CameraTranslation { local: before.local.plus(step), world: before.world }
        }
    }
}

/// The move that the held directions ask for in this tick; `None` where the mode has no
/// movement, or the mode is not `FreeFloat` and the move trigger is not held.
pub fn update_camera_pos(
    camera: &DebugCamera,
    movement: &Vec<CameraMovement>,
    actions: &CameraInput,
    state: CameraState,
) -> (r: Option<CameraTranslation>)
    ensures
        r == if state.behaviors().position && move_triggered(*actions, state) {
            Some(movement_offset(movement@, camera.move_sens))
        } else {
            None
        },
{
    if !state.behaviors().position {
        return None;
    }
    let triggered: bool = actions.pressed(CameraAction::MoveTrigger);
    if !(state == CameraState::FreeFloat || triggered) {
        return None;
    }
    let mut offset = CameraTranslation { local: Vec3::zero(), world: Vec3::zero() };
    let mut i: usize = 0;
    while i < movement.len()
        invariant
            i <= movement.len(),
            offset == movement_offset(movement@.take(i as int), camera.move_sens),
        decreases movement.len() - i,
    {
        let step = movement[i].into_vec().scaled(camera.move_sens);
        proof {
            assert(movement@.take(i + 1).drop_last() == movement@.take(i as int));
        }
        if movement[i].is_vertical() {
            offset.world = offset.world.plus(step);
        } else {
            offset.local = offset.local.plus(step);
        }
        i += 1;
    }
    proof {
        assert(movement@.take(movement.len() as int) == movement@);
    }
    Some(offset)
}

/// Where the camera starts, and the rig it starts with: at the default settings, with the
/// focus at the origin and the radius the camera's distance from it.
pub fn spawn_camera() -> (r: (Vec3, DebugCamera))
    ensures
        r.0 == (Vec3 { x: -2_000_000i64, y: 2_500_000, z: 5_000_000 }),
        r.1 == (DebugCamera { radius: r.0.length(), ..DebugCamera::spec_default() }),
        r.1.radius == 5_937_171,
{
    let translation = Vec3::new(-2_000_000, 2_500_000, 5_000_000);
    let radius: i64 = translation.length();
    proof {
        crate::fixed::lemma_floor_sqrt_unique(5_937_171, translation.spec_length_squared());
    }
    let mut rig = DebugCamera::default();
    rig.radius = radius;
    (translation, rig)
}

} // verus!
