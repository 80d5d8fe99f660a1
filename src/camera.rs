use vstd::prelude::*;

verus! {

/// Number of fixed-point steps in one world unit (or one scroll line, or one
/// unit of sensitivity): the controller's values are kept in thousandths.
pub const MILLI: i64 = 1000;

/// Orbit camera settings and its distance from the focus point, in thousandths.
#[derive(PartialEq, Eq, Structural, Clone, Copy, Debug)]
pub struct CameraController {
    pub sensitivity: i64,
    pub zoom_sensitivity: i64,
    pub distance: i64,
    pub min_distance: i64,
    pub max_distance: i64,
    pub pan_speed: i64,
}

/// Marker for the point the camera orbits.
#[derive(PartialEq, Eq, Structural, Clone, Copy, Debug)]
pub struct CameraFocus;

/// `v` brought into `[lo, hi]`.
pub open spec fn clamp_spec(v: int, lo: int, hi: int) -> int {
    if v < lo {
        lo
    } else if v > hi {
        hi
    } else {
        v
    }
}

/// `a / d` rounded toward zero.
pub open spec fn div_toward_zero(a: int, d: int) -> int {
    if a >= 0 {
        a / d
    } else {
        -((-a) / d)
    }
}

/// Distance after one zoom input: `distance - scroll * zoom_sensitivity`,
/// kept within `[min_distance, max_distance]`.
pub open spec fn zoomed(c: CameraController, scroll: int) -> int {
    clamp_spec(
        c.distance - div_toward_zero(scroll * c.zoom_sensitivity, MILLI as int),
        c.min_distance as int,
        c.max_distance as int,
    )
}

/// Distance after a sequence of zoom inputs, applied in order.
pub open spec fn distance_after(c: CameraController, scrolls: Seq<i64>) -> int
    decreases scrolls.len(),
{
    if scrolls.len() == 0 {
        c.distance as int
    } else {
        let d = distance_after(c, scrolls.drop_last());
        zoomed(CameraController { distance: d as i64, ..c }, scrolls.last() as int)
    }
}

impl CameraController {
    /// The bounds are ordered and the distance lies within them.
    pub open spec fn wf(self) -> bool {
        &&& 0 <= self.min_distance <= self.max_distance
        &&& self.min_distance <= self.distance <= self.max_distance
        &&& 0 <= self.zoom_sensitivity <= i32::MAX
    }

    /// Sensitivity 0.1, zoom sensitivity 0.1, distance 20 within [5, 100], pan speed 10.
    pub open spec fn initial() -> Self {
        CameraController {
            sensitivity: 100,
            zoom_sensitivity: 100,
            distance: 20_000,
            min_distance: 5_000,
            max_distance: 100_000,
            pan_speed: 10_000,
        }
    }

    /// The controller a game starts with.
    pub fn new() -> (r: Self)
        ensures
            r == Self::initial(),
            r.wf(),
    {
        CameraController {
            sensitivity: 100,
            zoom_sensitivity: 100,
            distance: 20_000,
            min_distance: 5_000,
            max_distance: 100_000,
            pan_speed: 10_000,
        }
    }

    /// Moves the camera toward the focus by `scroll` (in thousandths of a
    /// scroll line) times the zoom sensitivity, within the distance bounds.
    pub fn apply_zoom(&mut self, scroll: i64)
        requires
            old(self).wf(),
        ensures
            final(self).distance == zoomed(*old(self), scroll as int),
            final(self).wf(),
            *final(self) == (CameraController { distance: final(self).distance, ..*old(self) }),
    {
        let s: i128 = scroll as i128;
        let z: i128 = self.zoom_sensitivity as i128;
        assert(-0x8000_0000_0000_0000 * 0x7fff_ffff <= s * z <= 0x7fff_ffff_ffff_ffff * 0x7fff_ffff)
            by (nonlinear_arith)
            requires
                -0x8000_0000_0000_0000 <= s <= 0x7fff_ffff_ffff_ffff,
                0 <= z <= 0x7fff_ffff,
        ;
        let product: i128 = s * z;
        let step: i128 = if product >= 0 {
            product / (MILLI as i128)
        } else {
            -((-product) / (MILLI as i128))
        };
        let target: i128 = self.distance as i128 - step;
        let clamped: i128 = if target < self.min_distance as i128 {
            self.min_distance as i128
        } else if target > self.max_distance as i128 {
            self.max_distance as i128
        } else {
            target
        };
        self.distance = clamped as i64;
    }
}

impl Default for CameraController {
    fn default() -> (r: Self)
        ensures
            r == Self::initial(),
    {
        Self::new()
    }
}

/// Clamping is idempotent: a value already clamped into `[lo, hi]` stays put.
pub proof fn lemma_clamp_idempotent(v: int, lo: int, hi: int)
    requires
        lo <= hi,
    ensures
        lo <= clamp_spec(v, lo, hi) <= hi,
        clamp_spec(clamp_spec(v, lo, hi), lo, hi) == clamp_spec(v, lo, hi),
{
}

/// After any sequence of zoom inputs the distance stays within
/// `[min_distance, max_distance]`.
pub proof fn lemma_zoom_sequence_in_bounds(c: CameraController, scrolls: Seq<i64>)
    requires
        c.wf(),
    ensures
        c.min_distance <= distance_after(c, scrolls) <= c.max_distance,
    decreases scrolls.len(),
{
    if scrolls.len() > 0 {
        lemma_zoom_sequence_in_bounds(c, scrolls.drop_last());
    }
}

/// Movement keys held this frame.
#[derive(PartialEq, Eq, Structural, Clone, Copy, Debug)]
pub struct MovementKeys {
    pub forward: bool,
    pub left: bool,
    pub back: bool,
    pub right: bool,
}

/// Pan direction in the camera's horizontal frame: `forward` along the flattened
/// view direction, `right` along the flattened right vector, each -1, 0 or 1.
#[derive(PartialEq, Eq, Structural, Clone, Copy, Debug)]
pub struct PanAxes {
    pub forward: i8,
    pub right: i8,
}

pub open spec fn key_axis(plus: bool, minus: bool) -> int {
    (if plus { 1int } else { 0int }) - (if minus { 1int } else { 0int })
}

impl MovementKeys {
    pub open spec fn any_held(self) -> bool {
        self.forward || self.left || self.back || self.right
    }

    /// Some key is held whose opposite is not.
    pub open spec fn has_net_motion(self) -> bool {
        self.forward != self.back || self.left != self.right
    }
}

impl PanAxes {
    pub open spec fn is_zero(self) -> bool {
        self.forward == 0 && self.right == 0
    }

    /// Squared length of the combined direction before it is normalised.
    pub open spec fn length_squared(self) -> int {
        self.forward * self.forward + self.right * self.right
    }
}

/// Combines the held keys: forward minus back, right minus left.
pub fn pan_axes(keys: MovementKeys) -> (r: PanAxes)
    ensures
        r.forward == key_axis(keys.forward, keys.back),
        r.right == key_axis(keys.right, keys.left),
{
    let mut forward: i8 = 0;
    let mut right: i8 = 0;
    if keys.forward {
        forward = forward + 1;
    }
    if keys.left {
        right = right - 1;
    }
    if keys.back {
        forward = forward - 1;
    }
    if keys.right {
        right = right + 1;
    }
    PanAxes { forward, right }
}

/// With no movement key held the pan direction is zero; with keys held that
/// do not cancel out it is non-zero, so it normalises to unit length.
pub proof fn lemma_pan_direction(keys: MovementKeys, r: PanAxes)
    requires
        r.forward == key_axis(keys.forward, keys.back),
        r.right == key_axis(keys.right, keys.left),
    ensures
        !keys.any_held() ==> r.is_zero(),
        r.is_zero() <==> !keys.has_net_motion(),
        keys.has_net_motion() ==> 1 <= r.length_squared() <= 2,
{
}

/// Whether pointer motion turns the camera this frame: only while the left
/// control key and the left mouse button are both held.
pub fn rotation_active(control_held: bool, left_button_held: bool) -> (r: bool)
    ensures
        r == (control_held && left_button_held),
{
    control_held && left_button_held
}

} // verus!
