use vstd::prelude::*;

verus! {

/// Angle units in one degree: angles are held in millidegrees.
pub const UNITS_PER_DEGREE: u32 = 1000;

/// One full turn, in angle units.
pub const FULL_TURN: u32 = 360_000;

/// The angle `a` (in angle units) wrapped into `[0, FULL_TURN)`.
pub open spec fn wrap(a: int) -> int {
    a % (FULL_TURN as int)
}

/// Yaw and pitch of the camera, each in angle units.
#[derive(Clone, Copy, Debug, PartialEq, Eq, Structural)]
pub struct Orientation {
    pub yaw: u32,
    pub pitch: u32,
}

impl Orientation {
    /// Both angles lie in `[0, FULL_TURN)`.
    pub open spec fn wf(&self) -> bool {
        self.yaw < FULL_TURN && self.pitch < FULL_TURN
    }

    /// The orientation after turning by `(dx, dy)` input counts at
    /// `sensitivity` angle units per count.
    pub open spec fn turned(self, dx: int, dy: int, sensitivity: int) -> Orientation {
        Orientation {
            yaw: wrap(self.yaw + dx * sensitivity) as u32,
            pitch: wrap(self.pitch + dy * sensitivity) as u32,
        }
    }

    pub fn zero() -> (r: Orientation)
        ensures
            r.yaw == 0,
            r.pitch == 0,
            r.wf(),
    {
        Orientation { yaw: 0, pitch: 0 }
    }

    /// Adds `delta * sensitivity` to each angle and wraps the sum into
    /// `[0, FULL_TURN)`.
    pub fn turn(&mut self, dx: i32, dy: i32, sensitivity: u32)
        ensures
            *final(self) == old(self).turned(dx as int, dy as int, sensitivity as int),
            final(self).wf(),
    {
        self.yaw = wrap_angle(self.yaw, dx, sensitivity);
        self.pitch = wrap_angle(self.pitch, dy, sensitivity);
    }
}

/// `angle + delta * sensitivity`, wrapped into `[0, FULL_TURN)`.
fn wrap_angle(angle: u32, delta: i32, sensitivity: u32) -> (r: u32)
    ensures
        r as int == wrap(angle + delta * sensitivity),
        r < FULL_TURN,
{
    proof {
        let d = delta as int;
        let k = sensitivity as int;
        assert(-0x8000_0000_0000_0000 <= d * k < 0x8000_0000_0000_0000) by (nonlinear_arith)
            requires
                -0x8000_0000 <= d < 0x8000_0000,
                0 <= k < 0x1_0000_0000,
        ;
    }
    let step: i128 = (delta as i128) * (sensitivity as i128);
    let total: i128 = angle as i128 + step;
    let w = total.checked_rem_euclid(FULL_TURN as i128);
    match w {
        Some(v) => v as u32,
        None => 0,
    }
}

/// Wrapping after each of two turns is the same as wrapping once after
/// their sum.
pub proof fn lemma_wrap_add(a: int, b: int)
    ensures
        wrap(wrap(a) + b) == wrap(a + b),
{
    vstd::arithmetic::div_mod::lemma_add_mod_noop(a, b, FULL_TURN as int);
    vstd::arithmetic::div_mod::lemma_mod_twice(b, FULL_TURN as int);
    vstd::arithmetic::div_mod::lemma_add_mod_noop(wrap(a), b, FULL_TURN as int);
}

/// A zero look delta leaves a well-formed orientation as it is, however
/// often it is applied.
pub proof fn lemma_zero_delta_is_identity(o: Orientation, sensitivity: int)
    requires
        o.wf(),
    ensures
        o.turned(0, 0, sensitivity) == o,
{
    vstd::arithmetic::div_mod::lemma_small_mod(o.yaw as nat, FULL_TURN as nat);
    vstd::arithmetic::div_mod::lemma_small_mod(o.pitch as nat, FULL_TURN as nat);
}

/// The orientation after turning by each delta of `ds` in order.
pub open spec fn turned_by_all(o: Orientation, ds: Seq<(int, int)>, sensitivity: int) -> Orientation
    decreases ds.len(),
{
    if ds.len() == 0 {
        o
    } else {
        turned_by_all(o.turned(ds[0].0, ds[0].1, sensitivity), ds.drop_first(), sensitivity)
    }
}

/// Sum of the horizontal components of `ds`.
pub open spec fn sum_dx(ds: Seq<(int, int)>) -> int
    decreases ds.len(),
{
    if ds.len() == 0 {
        0
    } else {
        ds[0].0 + sum_dx(ds.drop_first())
    }
}

/// Sum of the vertical components of `ds`.
pub open spec fn sum_dy(ds: Seq<(int, int)>) -> int
    decreases ds.len(),
{
    if ds.len() == 0 {
        0
    } else {
        ds[0].1 + sum_dy(ds.drop_first())
    }
}

/// Turning by a series of deltas lands where one turn by their sum lands.
pub proof fn lemma_turns_compose(o: Orientation, ds: Seq<(int, int)>, sensitivity: int)
    requires
        o.wf(),
    ensures
        turned_by_all(o, ds, sensitivity) == (Orientation {
            yaw: wrap(o.yaw + sensitivity * sum_dx(ds)) as u32,
            pitch: wrap(o.pitch + sensitivity * sum_dy(ds)) as u32,
        }),
    decreases ds.len(),
{
    if ds.len() == 0 {
        vstd::arithmetic::div_mod::lemma_small_mod(o.yaw as nat, FULL_TURN as nat);
        vstd::arithmetic::div_mod::lemma_small_mod(o.pitch as nat, FULL_TURN as nat);
    } else {
        let o1 = o.turned(ds[0].0, ds[0].1, sensitivity);
        assert(0 <= wrap(o.yaw + ds[0].0 * sensitivity) < FULL_TURN);
        assert(0 <= wrap(o.pitch + ds[0].1 * sensitivity) < FULL_TURN);
        assert(o1.wf());
        let rest = ds.drop_first();
        lemma_turns_compose(o1, rest, sensitivity);
        lemma_wrap_add(o.yaw + ds[0].0 * sensitivity, sensitivity * sum_dx(rest));
        lemma_wrap_add(o.pitch + ds[0].1 * sensitivity, sensitivity * sum_dy(rest));
        vstd::arithmetic::mul::lemma_mul_is_distributive_add(sensitivity, ds[0].0, sum_dx(rest));
        vstd::arithmetic::mul::lemma_mul_is_distributive_add(sensitivity, ds[0].1, sum_dy(rest));
        vstd::arithmetic::mul::lemma_mul_is_commutative(sensitivity, ds[0].0);
        vstd::arithmetic::mul::lemma_mul_is_commutative(sensitivity, ds[0].1);
    }
}

/// Look deltas that add up to exactly one full turn on each axis leave a
/// well-formed orientation where it started.
pub proof fn lemma_full_turn_is_identity(o: Orientation, ds: Seq<(int, int)>, sensitivity: int)
    requires
        o.wf(),
        sensitivity * sum_dx(ds) == FULL_TURN,
        sensitivity * sum_dy(ds) == FULL_TURN,
    ensures
        turned_by_all(o, ds, sensitivity) == o,
{
    lemma_turns_compose(o, ds, sensitivity);
    vstd::arithmetic::div_mod::lemma_mod_add_multiples_vanish(o.yaw as int, FULL_TURN as int);
    vstd::arithmetic::div_mod::lemma_mod_add_multiples_vanish(o.pitch as int, FULL_TURN as int);
    vstd::arithmetic::div_mod::lemma_small_mod(o.yaw as nat, FULL_TURN as nat);
    vstd::arithmetic::div_mod::lemma_small_mod(o.pitch as nat, FULL_TURN as nat);
}

} // verus!
