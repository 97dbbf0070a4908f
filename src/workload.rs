use vstd::prelude::*;

use vstd::arithmetic::div_mod::{
    lemma_div_is_ordered, lemma_fundamental_div_mod, lemma_fundamental_div_mod_converse,
};

use crate::curve::{bezier_num, round_ratio, Curve};
use crate::transition::{map_pair, ControlPoint, Point, Transition};

verus! {

/// The phases that a [`Workload`] goes through, over and over.
#[derive(Debug, Clone, Copy, PartialEq, Eq, Hash, Structural)]
pub enum WorkloadPhase {
    Min,
    Up,
    Max,
    Down,
}

/// The amount of work to do at any given second, as records per second.
///
/// The workload stays at `min` for `min_sec`, rises along a curve for `up_sec`,
/// stays at `max` for `max_sec` and falls along a curve for `down_sec`; then it
/// starts again.
#[derive(Debug, Clone, Copy, PartialEq, Eq)]
pub struct Workload {
    min: u32,
    min_sec: u32,
    max: u32,
    max_sec: u32,
    up_sec: u32,
    up_curve: Option<Curve>,
    down_sec: u32,
    down_curve: Option<Curve>,
}

/// What a [`Workload`] holds, as mathematical values.
pub struct WorkloadView {
    pub min: int,
    pub min_sec: int,
    pub max: int,
    pub max_sec: int,
    pub up_sec: int,
    pub up_curve: Option<Curve>,
    pub down_sec: int,
    pub down_curve: Option<Curve>,
}

impl WorkloadView {
    /// End of the "min" phase within a cycle.
    pub open spec fn min_end(self) -> int {
        self.min_sec
    }

    /// End of the "up" phase within a cycle.
    pub open spec fn up_end(self) -> int {
        self.min_sec + self.up_sec
    }

    /// End of the "max" phase within a cycle.
    pub open spec fn max_end(self) -> int {
        self.min_sec + self.up_sec + self.max_sec
    }

    /// Length of a cycle.
    pub open spec fn cycle(self) -> int {
        self.min_sec + self.up_sec + self.max_sec + self.down_sec
    }

    pub open spec fn wf(self) -> bool {
        &&& 0 <= self.min < self.max <= u32::MAX
        &&& 0 < self.min_sec
        &&& 0 < self.max_sec
        &&& 0 <= self.up_sec
        &&& 0 <= self.down_sec
        &&& self.cycle() <= u32::MAX
        &&& (self.up_curve is Some <==> self.up_sec > 0)
        &&& (self.down_curve is Some <==> self.down_sec > 0)
    }

    /// The phase at second `sec`.
    pub open spec fn phase_at(self, sec: int) -> WorkloadPhase {
        let n = sec % self.cycle();
        if n < self.min_end() {
            WorkloadPhase::Min
        } else if n < self.up_end() {
            WorkloadPhase::Up
        } else if n < self.max_end() {
            WorkloadPhase::Max
        } else {
            WorkloadPhase::Down
        }
    }

    /// Records per second at second `sec`: the curves are evaluated at the fraction
    /// of their phase that has gone by.
    pub open spec fn rate_at(self, sec: int) -> int {
        let n = sec % self.cycle();
        match self.phase_at(sec) {
            WorkloadPhase::Min => self.min,
            WorkloadPhase::Up => self.up_curve.unwrap().y_at(n - self.min_end(), self.up_sec),
            WorkloadPhase::Max => self.max,
            WorkloadPhase::Down => self.down_curve.unwrap().y_at(
                n - self.max_end(),
                self.down_sec,
            ),
        }
    }
}

/// The curve through `p0` and `p3` with the given middle control points, if any.
pub open spec fn curve_through(
    p0: Point,
    p3: Point,
    ctrl: Option<(ControlPoint, ControlPoint)>,
) -> Option<Curve> {
    match ctrl {
        Option::None => Option::None,
        Option::Some((p1, p2)) => Option::Some(Curve { p0, p1, p2, p3 }),
    }
}

/// The workload that a configuration describes; a transition of
/// [`Transition::Immediate`] makes its phase last no time.
pub open spec fn schedule(
    min: u32,
    min_sec: u32,
    max: u32,
    max_sec: u32,
    up: Transition,
    up_sec: u32,
    down: Transition,
    down_sec: u32,
) -> WorkloadView {
    let up_p0 = Point { x: min_sec, y: min };
    let up_p3 = Point { x: (min_sec + up_sec) as u32, y: max };
    let down_p0 = Point { x: (min_sec + up_sec + max_sec) as u32, y: max };
    let down_p3 = Point { x: (min_sec + up_sec + max_sec + down_sec) as u32, y: min };
    WorkloadView {
        min: min as int,
        min_sec: min_sec as int,
        max: max as int,
        max_sec: max_sec as int,
        up_sec: if up == Transition::Immediate { 0 } else { up_sec as int },
        up_curve: curve_through(up_p0, up_p3, map_pair(up_p0, up_p3, up.unit_pts_up())),
        down_sec: if down == Transition::Immediate { 0 } else { down_sec as int },
        down_curve: curve_through(down_p0, down_p3, map_pair(down_p0, down_p3, down.unit_pts_down())),
    }
}

/// What a valid configuration of a workload asks.
pub open spec fn valid_config(
    min: u32,
    min_sec: u32,
    max: u32,
    max_sec: u32,
    up: Transition,
    up_sec: u32,
    down: Transition,
    down_sec: u32,
) -> bool {
    &&& min < max
    &&& 0 < min_sec
    &&& 0 < max_sec
    &&& (up != Transition::Immediate ==> 0 < up_sec)
    &&& (down != Transition::Immediate ==> 0 < down_sec)
    &&& min_sec + up_sec + max_sec + down_sec <= u32::MAX
}

impl View for Workload {
    type V = WorkloadView;

    closed spec fn view(&self) -> WorkloadView {
        WorkloadView {
            min: self.min as int,
            min_sec: self.min_sec as int,
            max: self.max as int,
            max_sec: self.max_sec as int,
            up_sec: self.up_sec as int,
            up_curve: self.up_curve,
            down_sec: self.down_sec as int,
            down_curve: self.down_curve,
        }
    }
}

impl Workload {
    pub open spec fn wf(&self) -> bool {
        self@.wf()
    }

    pub fn new(
        min: u32,
        min_sec: u32,
        max: u32,
        max_sec: u32,
        up_transition: Transition,
        up_sec: u32,
        down_transition: Transition,
        down_sec: u32,
    ) -> (w: Workload)
        requires
            valid_config(
                min,
                min_sec,
                max,
                max_sec,
                up_transition,
                up_sec,
                down_transition,
                down_sec,
            ),
        ensures
            w@ == schedule(
                min,
                min_sec,
                max,
                max_sec,
                up_transition,
                up_sec,
                down_transition,
                down_sec,
            ),
            w.wf(),
    {
        // P0/P3 for the "up" phase
        let up_p0 = Point { x: min_sec, y: min };
        let up_p3 = Point { x: min_sec + up_sec, y: max };

        // P0/P3 for the "down" phase
        let down_p0 = Point { x: min_sec + up_sec + max_sec, y: max };
        let down_p3 = Point { x: min_sec + up_sec + max_sec + down_sec, y: min };

        // the duration and curve of each ramp depend on its transition
        let (up_sec, up_curve) = match up_transition.ctrl_pts_up(up_p0, up_p3) {
            None => (0, None),
            Some((p1, p2)) => (up_sec, Some(Curve { p0: up_p0, p1, p2, p3: up_p3 })),
        };
        let (down_sec, down_curve) = match down_transition.ctrl_pts_down(down_p0, down_p3) {
            None => (0, None),
            Some((p1, p2)) => (down_sec, Some(Curve { p0: down_p0, p1, p2, p3: down_p3 })),
        };

        Workload { min, min_sec, max, max_sec, up_sec, up_curve, down_sec, down_curve }
    }

    /// How long the "min" phase lasts, in seconds.
    pub fn min_duration_sec(&self) -> (r: u32)
        requires
            self.wf(),
        ensures
            r == self@.min_end(),
    {
        self.min_sec
    }

    /// How long before the "max" phase starts, in seconds.
    pub fn before_max_duration_sec(&self) -> (r: u32)
        requires
            self.wf(),
        ensures
            r == self@.up_end(),
    {
        self.min_sec + self.up_sec
    }

    /// How long before the "max" phase ends, in seconds.
    pub fn after_max_duration_sec(&self) -> (r: u32)
        requires
            self.wf(),
        ensures
            r == self@.max_end(),
    {
        self.min_sec + self.up_sec + self.max_sec
    }

    /// How long before the "down" phase ends, in seconds: the length of a cycle.
    pub fn overall_duration_sec(&self) -> (r: u32)
        requires
            self.wf(),
        ensures
            r == self@.cycle(),
    {
        self.min_sec + self.up_sec + self.max_sec + self.down_sec
    }

    /// Where `sec` falls within its cycle.
    fn normalize_sec(&self, sec: u64) -> (r: u32)
        requires
            self.wf(),
        ensures
            r == sec as int % self@.cycle(),
    {
        (sec % self.overall_duration_sec() as u64) as u32
    }

    /// The phase that the workload is in at second `sec`.
    pub fn phase_at(&self, sec: u64) -> (r: WorkloadPhase)
        requires
            self.wf(),
        ensures
            r == self@.phase_at(sec as int),
    {
        let nor_sec = self.normalize_sec(sec);

        if nor_sec < self.min_duration_sec() {
            WorkloadPhase::Min
        } else if nor_sec < self.before_max_duration_sec() {
            WorkloadPhase::Up
        } else if nor_sec < self.after_max_duration_sec() {
            WorkloadPhase::Max
        } else {
            WorkloadPhase::Down
        }
    }

    /// The number of records per second at second `sec`.
    pub fn records_per_sec_at(&self, sec: u64) -> (r: u32)
        requires
            self.wf(),
        ensures
            r == self@.rate_at(sec as int),
    {
        let nor_sec = self.normalize_sec(sec);

        match self.phase_at(sec) {
            WorkloadPhase::Min => self.min,
            WorkloadPhase::Up => {
                let curve = self.up_curve.unwrap();
                curve.point_y_at(nor_sec - self.min_sec, self.up_sec)
            },
            WorkloadPhase::Max => self.max,
            WorkloadPhase::Down => {
                let curve = self.down_curve.unwrap();
                curve.point_y_at(nor_sec - self.after_max_duration_sec(), self.down_sec)
            },
        }
    }
}

/// The transitions whose ramps never turn back: the rate only rises while going up,
/// and only falls while going down.
pub open spec fn is_easing(t: Transition) -> bool {
    t == Transition::Linear || t == Transition::EaseIn || t == Transition::EaseOut || t
        == Transition::EaseInOut
}

/// Without ramps a workload is a square wave: `min` for the first `min_sec` seconds
/// of every cycle of `min_sec + max_sec` seconds, `max` for the rest.
pub proof fn lemma_square_wave(
    min: u32,
    min_sec: u32,
    max: u32,
    max_sec: u32,
    up_sec: u32,
    down_sec: u32,
    sec: u64,
)
    requires
        valid_config(
            min,
            min_sec,
            max,
            max_sec,
            Transition::Immediate,
            up_sec,
            Transition::Immediate,
            down_sec,
        ),
    ensures
        ({
            let w = schedule(
                min,
                min_sec,
                max,
                max_sec,
                Transition::Immediate,
                up_sec,
                Transition::Immediate,
                down_sec,
            );
            &&& w.cycle() == min_sec + max_sec
            &&& w.rate_at(sec as int) == (if (sec as int) % (min_sec + max_sec) < min_sec {
                min as int
            } else {
                max as int
            })
        }),
{
}

/// Each phase starts at the rate that it comes from: `min` where the cycle and the
/// ramp up start, `max` where the "max" phase and the ramp down start.
pub proof fn lemma_phase_start_rates(
    min: u32,
    min_sec: u32,
    max: u32,
    max_sec: u32,
    up: Transition,
    up_sec: u32,
    down: Transition,
    down_sec: u32,
    cycles: nat,
)
    requires
        valid_config(min, min_sec, max, max_sec, up, up_sec, down, down_sec),
    ensures
        ({
            let w = schedule(min, min_sec, max, max_sec, up, up_sec, down, down_sec);
            let base = cycles as int * w.cycle();
            &&& w.rate_at(base) == min
            &&& up != Transition::Immediate ==> w.phase_at(base + w.min_end())
                == WorkloadPhase::Up && w.rate_at(base + w.min_end()) == min
            &&& w.phase_at(base + w.up_end()) == WorkloadPhase::Max && w.rate_at(
                base + w.up_end(),
            ) == max
            &&& down != Transition::Immediate ==> w.phase_at(base + w.max_end())
                == WorkloadPhase::Down && w.rate_at(base + w.max_end()) == max
        }),
{
    let w = schedule(min, min_sec, max, max_sec, up, up_sec, down, down_sec);
    let m = w.cycle();
    lemma_offset_in_cycle(cycles, m, 0);
    lemma_offset_in_cycle(cycles, m, w.min_end());
    lemma_offset_in_cycle(cycles, m, w.up_end());
    if up != Transition::Immediate {
        lemma_curve_start(w.up_curve.unwrap(), w.up_sec);
    }
    if down != Transition::Immediate {
        lemma_offset_in_cycle(cycles, m, w.max_end());
        lemma_curve_start(w.down_curve.unwrap(), w.down_sec);
    }
}

/// Over consecutive seconds of a ramp of an easing transition, the rate never
/// falls going up and never rises going down.
pub proof fn lemma_ramps_monotone(
    min: u32,
    min_sec: u32,
    max: u32,
    max_sec: u32,
    up: Transition,
    up_sec: u32,
    down: Transition,
    down_sec: u32,
    sec: u64,
)
    requires
        valid_config(min, min_sec, max, max_sec, up, up_sec, down, down_sec),
    ensures
        ({
            let w = schedule(min, min_sec, max, max_sec, up, up_sec, down, down_sec);
            &&& is_easing(up) && w.phase_at(sec as int) == WorkloadPhase::Up && w.phase_at(
                sec + 1,
            ) == WorkloadPhase::Up ==> w.rate_at(sec as int) <= w.rate_at(sec + 1)
            &&& is_easing(down) && w.phase_at(sec as int) == WorkloadPhase::Down && w.phase_at(
                sec + 1,
            ) == WorkloadPhase::Down ==> w.rate_at(sec as int) >= w.rate_at(sec + 1)
        }),
{
    let w = schedule(min, min_sec, max, max_sec, up, up_sec, down, down_sec);
    let m = w.cycle();
    lemma_next_second(sec as int, m);
    let n = sec as int % m;
    if is_easing(up) && w.phase_at(sec as int) == WorkloadPhase::Up && w.phase_at(sec + 1)
        == WorkloadPhase::Up {
        assert((sec + 1) % m == n + 1);
        lemma_rising(min as int, max as int, n - w.min_end(), w.up_sec);
    }
    if is_easing(down) && w.phase_at(sec as int) == WorkloadPhase::Down && w.phase_at(sec + 1)
        == WorkloadPhase::Down {
        if n + 1 == m {
            assert((sec + 1) % m == 0);
        }
        assert((sec + 1) % m == n + 1);
        lemma_falling(min as int, max as int, n - w.max_end(), w.down_sec);
    }
}

/// A second `x` into cycle number `c` falls at `x` within its cycle.
proof fn lemma_offset_in_cycle(c: nat, m: int, x: int)
    requires
        0 <= x < m,
    ensures
        (c as int * m + x) % m == x,
{
    lemma_fundamental_div_mod_converse(c as int * m + x, m, c as int, x);
}

/// The second after `s` is one further within the cycle, or starts the next one.
proof fn lemma_next_second(s: int, m: int)
    requires
        0 <= s,
        0 < m,
    ensures
        s % m + 1 < m ==> (s + 1) % m == s % m + 1,
        s % m + 1 == m ==> (s + 1) % m == 0,
{
    lemma_fundamental_div_mod(s, m);
    let q = s / m;
    let r = s % m;
    if r + 1 < m {
        assert(s + 1 == q * m + (r + 1)) by (nonlinear_arith)
            requires
                s == m * q + r,
        ;
        lemma_fundamental_div_mod_converse(s + 1, m, q, r + 1);
    } else if r + 1 == m {
        assert(s + 1 == (q + 1) * m + 0) by (nonlinear_arith)
            requires
                s == m * q + r,
                r + 1 == m,
        ;
        lemma_fundamental_div_mod_converse(s + 1, m, q + 1, 0);
    }
}

/// A curve starts at its first end point.
proof fn lemma_curve_start(c: Curve, d: int)
    requires
        0 < d,
    ensures
        c.y_at(0, d) == c.p0.y,
{
    let y0 = c.p0.y as int;
    let den = d * d * d;
    assert(d * d * d * y0 + 3 * d * d * 0 * (c.p1.y as int) + 3 * d * 0 * 0 * (c.p2.y as int) + 0
        * 0 * 0 * (c.p3.y as int) == den * y0) by (nonlinear_arith)
        requires
            den == d * d * d,
    ;
    assert(0 < den) by (nonlinear_arith)
        requires
            0 < d,
            den == d * d * d,
    ;
    assert(2 * (den * y0) + den == y0 * (2 * den) + den) by (nonlinear_arith);
    lemma_fundamental_div_mod_converse(2 * (den * y0) + den, 2 * den, y0, den);
}

/// `3 d k² - 2 k³`: the share, scaled by `d³`, that a ramp of an easing transition
/// has covered at `k / d`.
spec fn ramp_share(k: int, d: int) -> int {
    3 * d * k * k - 2 * k * k * k
}

proof fn lemma_ramp_share_grows(k: int, d: int)
    requires
        0 <= k,
        k + 1 <= d,
    ensures
        ramp_share(k, d) <= ramp_share(k + 1, d),
{
    assert(ramp_share(k + 1, d) - ramp_share(k, d) == 6 * k * (d - k - 1) + 3 * d - 2)
        by (nonlinear_arith);
    assert(0 <= 6 * k * (d - k - 1)) by (nonlinear_arith)
        requires
            0 <= k,
            0 <= d - k - 1,
    ;
}

/// A curve whose middle control points sit at its end points' rates moves by
/// the ramp share from its first rate to its last one.
proof fn lemma_bezier_ends(a: int, b: int, k: int, d: int)
    ensures
        bezier_num(a, a, b, b, k, d) == a * (d * d * d) + (b - a) * ramp_share(k, d),
{
    let j = d - k;
    let u = j * j * j + 3 * j * j * k;
    let v = 3 * j * k * k + k * k * k;
    assert(u + v == d * d * d) by (nonlinear_arith)
        requires
            j + k == d,
            u == j * j * j + 3 * j * j * k,
            v == 3 * j * k * k + k * k * k,
    ;
    assert(v == 3 * d * k * k - 2 * k * k * k) by (nonlinear_arith)
        requires
            j == d - k,
            v == 3 * j * k * k + k * k * k,
    ;
    assert(j * j * j * a + 3 * j * j * k * a + 3 * j * k * k * b + k * k * k * b == a * u + b * v)
        by (nonlinear_arith)
        requires
            u == j * j * j + 3 * j * j * k,
            v == 3 * j * k * k + k * k * k,
    ;
    assert(a * u + b * v == a * (u + v) + (b - a) * v) by (nonlinear_arith);
}

proof fn lemma_rising(a: int, b: int, k: int, d: int)
    requires
        a < b,
        0 <= a,
        0 <= k,
        k + 1 < d,
    ensures
        round_ratio(bezier_num(a, a, b, b, k, d), d * d * d) <= round_ratio(
            bezier_num(a, a, b, b, k + 1, d),
            d * d * d,
        ),
{
    let den = d * d * d;
    lemma_bezier_ends(a, b, k, d);
    lemma_bezier_ends(a, b, k + 1, d);
    lemma_ramp_share_grows(k, d);
    assert((b - a) * ramp_share(k, d) <= (b - a) * ramp_share(k + 1, d)) by (nonlinear_arith)
        requires
            a < b,
            ramp_share(k, d) <= ramp_share(k + 1, d),
    ;
    assert(0 < den) by (nonlinear_arith)
        requires
            0 < d,
            den == d * d * d,
    ;
    lemma_div_is_ordered(
        2 * bezier_num(a, a, b, b, k, d) + den,
        2 * bezier_num(a, a, b, b, k + 1, d) + den,
        2 * den,
    );
}

proof fn lemma_falling(a: int, b: int, k: int, d: int)
    requires
        a < b,
        0 <= a,
        0 <= k,
        k + 1 < d,
    ensures
        round_ratio(bezier_num(b, b, a, a, k, d), d * d * d) >= round_ratio(
            bezier_num(b, b, a, a, k + 1, d),
            d * d * d,
        ),
{
    let den = d * d * d;
    lemma_bezier_ends(b, a, k, d);
    lemma_bezier_ends(b, a, k + 1, d);
    lemma_ramp_share_grows(k, d);
    assert((a - b) * ramp_share(k, d) >= (a - b) * ramp_share(k + 1, d)) by (nonlinear_arith)
        requires
            a < b,
            ramp_share(k, d) <= ramp_share(k + 1, d),
    ;
    assert(0 < den) by (nonlinear_arith)
        requires
            0 < d,
            den == d * d * d,
    ;
    lemma_div_is_ordered(
        2 * bezier_num(b, b, a, a, k + 1, d) + den,
        2 * bezier_num(b, b, a, a, k, d) + den,
        2 * den,
    );
}

} // verus!
