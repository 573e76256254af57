use vstd::prelude::*;
use crate::orientation::Orientation;

verus! {

/// Look sensitivity that a new camera starts with: 100 millidegrees, a
/// tenth of a degree, per input count.
pub const DEFAULT_SENSITIVITY: u32 = 100;

/// A direction of movement relative to the camera's own basis.
#[derive(Clone, Copy, Debug, PartialEq, Eq, Structural)]
pub enum Direction {
    Up,
    Down,
    Left,
    Right,
    Forward,
    Backward,
}

/// The key bound to each direction: E and Q rise and sink, A and D strafe,
/// W and S go forward and back. Other keys are bound to none.
pub open spec fn key_direction(key: char) -> Option<Direction> {
    if key == 'E' {
        Some(Direction::Up)
    } else if key == 'Q' {
        Some(Direction::Down)
    } else if key == 'A' {
        Some(Direction::Left)
    } else if key == 'D' {
        Some(Direction::Right)
    } else if key == 'W' {
        Some(Direction::Forward)
    } else if key == 'S' {
        Some(Direction::Backward)
    } else {
        None
    }
}

impl Direction {
    /// The direction bound to `key`, if any.
    pub fn from_key(key: char) -> (r: Option<Direction>)
        ensures
            r == key_direction(key),
    {
        match key {
            'E' => Some(Direction::Up),
            'Q' => Some(Direction::Down),
            'A' => Some(Direction::Left),
            'D' => Some(Direction::Right),
            'W' => Some(Direction::Forward),
            'S' => Some(Direction::Backward),
            _ => None,
        }
    }
}

/// The six movement-intent flags: which directions are being held.
#[derive(Clone, Copy, Debug, PartialEq, Eq, Structural)]
pub struct MovementIntent {
    pub up: bool,
    pub down: bool,
    pub left: bool,
    pub right: bool,
    pub forward: bool,
    pub backward: bool,
}

/// Signed coefficients of the movement vector over the camera basis: the
/// vector is `up * up_vector + right * right_vector + front * front_vector`.
#[derive(Clone, Copy, Debug, PartialEq, Eq, Structural)]
pub struct MoveAxes {
    pub up: i8,
    pub right: i8,
    pub front: i8,
}

/// +1 for a held flag, -1 for its opposite, 0 for both or neither.
pub open spec fn signed(plus: bool, minus: bool) -> int {
    (if plus { 1int } else { 0int }) - (if minus { 1int } else { 0int })
}

fn signed_exec(plus: bool, minus: bool) -> (r: i8)
    ensures
        r as int == signed(plus, minus),
{
    let p: i8 = if plus { 1 } else { 0 };
    let m: i8 = if minus { 1 } else { 0 };
    p - m
}

impl MoveAxes {
    /// All three coefficients are zero: held intents cancel or none is held.
    pub open spec fn is_zero_spec(&self) -> bool {
        self.up == 0 && self.right == 0 && self.front == 0
    }

    /// Squared length of the movement vector over an orthonormal basis.
    pub open spec fn norm_sq_spec(&self) -> int {
        self.up * self.up + self.right * self.right + self.front * self.front
    }

    pub fn is_zero(&self) -> (r: bool)
        ensures
            r == self.is_zero_spec(),
    {
        self.up == 0 && self.right == 0 && self.front == 0
    }

    /// Squared length of the movement vector, for normalising it; zero
    /// exactly when all coefficients are zero.
    pub fn norm_sq(&self) -> (r: u16)
        ensures
            r as int == self.norm_sq_spec(),
            (r == 0) == self.is_zero_spec(),
    {
        let u = self.up as i32;
        let ri = self.right as i32;
        let f = self.front as i32;
        assert(0 <= u * u <= 16384 && 0 <= ri * ri <= 16384 && 0 <= f * f <= 16384)
            by (nonlinear_arith)
            requires
                -128 <= u <= 127,
                -128 <= ri <= 127,
                -128 <= f <= 127,
        ;
        assert((u * u == 0) == (u == 0) && (ri * ri == 0) == (ri == 0) && (f * f == 0) == (f == 0))
            by (nonlinear_arith)
        ;
        (u * u + ri * ri + f * f) as u16
    }
}

impl MovementIntent {
    /// These flags with the one for `d` set to `active`.
    pub open spec fn with(self, d: Direction, active: bool) -> MovementIntent {
        match d {
            Direction::Up => MovementIntent { up: active, ..self },
            Direction::Down => MovementIntent { down: active, ..self },
            Direction::Left => MovementIntent { left: active, ..self },
            Direction::Right => MovementIntent { right: active, ..self },
            Direction::Forward => MovementIntent { forward: active, ..self },
            Direction::Backward => MovementIntent { backward: active, ..self },
        }
    }

    /// No flag is held.
    pub open spec fn is_idle(&self) -> bool {
        !self.up && !self.down && !self.left && !self.right && !self.forward && !self.backward
    }

    /// The combined movement: each axis sums its two opposing flags.
    pub open spec fn axes_spec(&self) -> MoveAxes {
        MoveAxes {
            up: signed(self.up, self.down) as i8,
            right: signed(self.right, self.left) as i8,
            front: signed(self.forward, self.backward) as i8,
        }
    }

    pub fn none() -> (r: MovementIntent)
        ensures
            r.is_idle(),
    {
        MovementIntent {
            up: false,
            down: false,
            left: false,
            right: false,
            forward: false,
            backward: false,
        }
    }

    /// Records that `d` is held (`active`) or released.
    pub fn set(&mut self, d: Direction, active: bool)
        ensures
            *final(self) == old(self).with(d, active),
    {
        match d {
            Direction::Up => self.up = active,
            Direction::Down => self.down = active,
            Direction::Left => self.left = active,
            Direction::Right => self.right = active,
            Direction::Forward => self.forward = active,
            Direction::Backward => self.backward = active,
        }
    }

    pub fn axes(&self) -> (r: MoveAxes)
        ensures
            r == self.axes_spec(),
            -1 <= r.up <= 1,
            -1 <= r.right <= 1,
            -1 <= r.front <= 1,
    {
        MoveAxes {
            up: signed_exec(self.up, self.down),
            right: signed_exec(self.right, self.left),
            front: signed_exec(self.forward, self.backward),
        }
    }
}

/// What a camera holds apart from its position: look sensitivity, the
/// yaw/pitch orientation and the movement-intent flags.
#[derive(Clone, Copy, Debug, PartialEq, Eq, Structural)]
pub struct CameraState {
    /// Angle units (millidegrees) turned per input count.
    pub mouse_sensitivity: u32,
    pub rotation: Orientation,
    pub intent: MovementIntent,
}

impl CameraState {
    pub open spec fn wf(&self) -> bool {
        self.rotation.wf()
    }

    /// The movement that the next time step integrates: `None` when the
    /// combined intent vector is null, else its coefficients.
    pub open spec fn movement_spec(&self) -> Option<MoveAxes> {
        if self.intent.axes_spec().is_zero_spec() {
            None
        } else {
            Some(self.intent.axes_spec())
        }
    }

    /// A camera looking along yaw 0, pitch 0, with no intent held.
    pub fn new() -> (r: CameraState)
        ensures
            r.mouse_sensitivity == DEFAULT_SENSITIVITY,
            r.rotation.yaw == 0,
            r.rotation.pitch == 0,
            r.intent.is_idle(),
            r.wf(),
    {
        CameraState {
            mouse_sensitivity: DEFAULT_SENSITIVITY,
            rotation: Orientation::zero(),
            intent: MovementIntent::none(),
        }
    }

    /// Turns by a pointer delta of `(dx, dy)` counts scaled by the
    /// sensitivity, wrapping both angles into one turn.
    pub fn process_input_cursor(&mut self, dx: i32, dy: i32)
        ensures
            final(self).rotation == old(self).rotation.turned(
                dx as int,
                dy as int,
                old(self).mouse_sensitivity as int,
            ),
            final(self).mouse_sensitivity == old(self).mouse_sensitivity,
            final(self).intent == old(self).intent,
            final(self).wf(),
    {
        let k = self.mouse_sensitivity;
        self.rotation.turn(dx, dy, k);
    }

    /// Records that direction `d` is held (`active`) or released.
    pub fn set_movement_intent(&mut self, d: Direction, active: bool)
        ensures
            *final(self) == (CameraState { intent: old(self).intent.with(d, active), ..*old(self) }),
    {
        self.intent.set(d, active);
    }

    /// Applies a key press (`pressed`) or release to the flag bound to
    /// `key`; a key bound to no direction changes nothing.
    pub fn process_input_keyboard(&mut self, key: char, pressed: bool)
        ensures
            *final(self) == match key_direction(key) {
                Some(d) => CameraState { intent: old(self).intent.with(d, pressed), ..*old(self) },
                None => *old(self),
            },
    {
        match Direction::from_key(key) {
            Some(d) => self.set_movement_intent(d, pressed),
            None => {},
        }
    }

    /// The movement that a time step integrates, or `None` when held
    /// intents cancel or none is held; the position is then left alone.
    pub fn movement(&self) -> (r: Option<MoveAxes>)
        ensures
            r == self.movement_spec(),
            r matches Some(a) ==> -1 <= a.up <= 1 && -1 <= a.right <= 1 && -1 <= a.front <= 1,
    {
        let a = self.intent.axes();
        if a.is_zero() {
            None
        } else {
            Some(a)
        }
    }
}

/// With no intent held, a time step of any length moves the camera by
/// nothing.
pub proof fn lemma_idle_does_not_move(c: CameraState)
    requires
        c.intent.is_idle(),
    ensures
        c.movement_spec() is None,
{
}

/// Holding a direction together with its opposite cancels on that axis:
/// with only such pairs held the camera stays put.
pub proof fn lemma_opposites_cancel(c: CameraState)
    requires
        c.intent.up == c.intent.down,
        c.intent.left == c.intent.right,
        c.intent.forward == c.intent.backward,
    ensures
        c.movement_spec() is None,
{
}

} // verus!
