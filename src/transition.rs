use vstd::prelude::*;

verus! {

/// The shape of a passage from the "min" phase to the "max" phase (the "up" phase),
/// or back (the "down" phase).
///
/// A transition names the two middle control points `P1` and `P2` of a cubic Bézier
/// curve, given in the unit square; `P0` and `P3` come from the phase itself.
#[derive(Debug, Clone, Copy, PartialEq, Eq, Structural)]
pub enum Transition {
    /// Immediate transition, with no in-between values.
    Immediate,
    /// Constant increments: up (0,0) (1,1), down (0,1) (1,0).
    Linear,
    /// Slow start: up (.5,0) (1,1), down (.5,1) (1,0).
    EaseIn,
    /// Slow end: up (0,0) (.5,1), down (0,1) (.5,0).
    EaseOut,
    /// Slow start and end: up (.5,0) (.5,1), down (.5,1) (.5,0).
    EaseInOut,
    /// Fastest at the start: up (0,1) (0,1), down (1,1) (1,1).
    SpikeIn,
    /// Fastest at the end: up (1,0) (1,0), down (0,0) (0,0).
    SpikeOut,
    /// Fast at both ends: up (0,1) (1,0), down (0,0) (1,1).
    SpikeInOut,
}

/// A point in the plane of a workload: `x` in seconds, `y` in records per second.
#[derive(Debug, Clone, Copy, PartialEq, Eq, Structural)]
pub struct Point {
    pub x: u32,
    pub y: u32,
}

/// A control point in the unit square. The tables put `x` at the start, the middle
/// or the end (`x_halves` is 0, 1 or 2) and `y` at the bottom or the top (0 or 1).
#[derive(Debug, Clone, Copy, PartialEq, Eq, Structural)]
pub struct UnitPoint {
    pub x_halves: u8,
    pub y: u8,
}

/// A middle control point, mapped between two end points: `x` is held in half
/// seconds, since a unit point may sit mid-way; `y` is a whole rate.
#[derive(Debug, Clone, Copy, PartialEq, Eq, Structural)]
pub struct ControlPoint {
    pub x_halves: u64,
    pub y: u32,
}

pub open spec fn unit(x_halves: u8, y: u8) -> UnitPoint {
    UnitPoint { x_halves, y }
}

/// Twice the value found between `a` and `b` at `t_halves / 2`, where `t == 0` maps
/// to the smaller of the two and `t == 1` to the larger.
pub open spec fn between_halves(a: int, b: int, t_halves: int) -> int {
    let lo = if a <= b { a } else { b };
    let hi = if a <= b { b } else { a };
    2 * lo + (hi - lo) * t_halves
}

/// The value between `a` and `b` at `t`, where `t` is 0 or 1.
pub open spec fn between(a: int, b: int, t: int) -> int {
    let lo = if a <= b { a } else { b };
    let hi = if a <= b { b } else { a };
    lo + (hi - lo) * t
}

/// The control point that `u` stands for, in the box spanned by `p0` and `p3`.
pub open spec fn map_unit(p0: Point, p3: Point, u: UnitPoint) -> ControlPoint {
    ControlPoint {
        x_halves: between_halves(p0.x as int, p3.x as int, u.x_halves as int) as u64,
        y: between(p0.y as int, p3.y as int, u.y as int) as u32,
    }
}

pub open spec fn map_pair(
    p0: Point,
    p3: Point,
    pts: Option<(UnitPoint, UnitPoint)>,
) -> Option<(ControlPoint, ControlPoint)> {
    match pts {
        Option::None => Option::None,
        Option::Some((a, b)) => Option::Some((map_unit(p0, p3, a), map_unit(p0, p3, b))),
    }
}

pub open spec fn valid_unit(u: UnitPoint) -> bool {
    u.x_halves <= 2 && u.y <= 1
}

impl Transition {
    /// `P1` and `P2` of the "up" phase, in the unit square.
    pub open spec fn unit_pts_up(self) -> Option<(UnitPoint, UnitPoint)> {
        match self {
            Transition::Immediate => Option::None,
            Transition::Linear => Option::Some((unit(0, 0), unit(2, 1))),
            Transition::EaseIn => Option::Some((unit(1, 0), unit(2, 1))),
            Transition::EaseOut => Option::Some((unit(0, 0), unit(1, 1))),
            Transition::EaseInOut => Option::Some((unit(1, 0), unit(1, 1))),
            Transition::SpikeIn => Option::Some((unit(0, 1), unit(0, 1))),
            Transition::SpikeOut => Option::Some((unit(2, 0), unit(2, 0))),
            Transition::SpikeInOut => Option::Some((unit(0, 1), unit(2, 0))),
        }
    }

    /// `P1` and `P2` of the "down" phase, in the unit square.
    pub open spec fn unit_pts_down(self) -> Option<(UnitPoint, UnitPoint)> {
        match self {
            Transition::Immediate => Option::None,
            Transition::Linear => Option::Some((unit(0, 1), unit(2, 0))),
            Transition::EaseIn => Option::Some((unit(1, 1), unit(2, 0))),
            Transition::EaseOut => Option::Some((unit(0, 1), unit(1, 0))),
            Transition::EaseInOut => Option::Some((unit(1, 1), unit(1, 0))),
            Transition::SpikeIn => Option::Some((unit(2, 1), unit(2, 1))),
            Transition::SpikeOut => Option::Some((unit(0, 0), unit(0, 0))),
            Transition::SpikeInOut => Option::Some((unit(0, 0), unit(2, 1))),
        }
    }

    fn unit_pts(&self, up: bool) -> (r: Option<(UnitPoint, UnitPoint)>)
        ensures
            r == (if up { self.unit_pts_up() } else { self.unit_pts_down() }),
            r matches Option::Some((a, b)) ==> valid_unit(a) && valid_unit(b),
    {
        let u = |x_halves: u8, y: u8| -> (p: UnitPoint)
            ensures
                p == unit(x_halves, y),
            { UnitPoint { x_halves, y } };
        if up {
            match self {
                Transition::Immediate => None,
                Transition::Linear => Some((u(0, 0), u(2, 1))),
                Transition::EaseIn => Some((u(1, 0), u(2, 1))),
                Transition::EaseOut => Some((u(0, 0), u(1, 1))),
                Transition::EaseInOut => Some((u(1, 0), u(1, 1))),
                Transition::SpikeIn => Some((u(0, 1), u(0, 1))),
                Transition::SpikeOut => Some((u(2, 0), u(2, 0))),
                Transition::SpikeInOut => Some((u(0, 1), u(2, 0))),
            }
        } else {
            match self {
                Transition::Immediate => None,
                Transition::Linear => Some((u(0, 1), u(2, 0))),
                Transition::EaseIn => Some((u(1, 1), u(2, 0))),
                Transition::EaseOut => Some((u(0, 1), u(1, 0))),
                Transition::EaseInOut => Some((u(1, 1), u(1, 0))),
                Transition::SpikeIn => Some((u(2, 1), u(2, 1))),
                Transition::SpikeOut => Some((u(0, 0), u(0, 0))),
                Transition::SpikeInOut => Some((u(0, 0), u(2, 1))),
            }
        }
    }

    /// The control points `P1` and `P2` of the "up" phase from `p0` to `p3`;
    /// `None` for [`Transition::Immediate`].
    pub fn ctrl_pts_up(&self, p0: Point, p3: Point) -> (r: Option<(ControlPoint, ControlPoint)>)
        ensures
            r == map_pair(p0, p3, self.unit_pts_up()),
    {
        match self.unit_pts(true) {
            None => None,
            Some((p1_t, p2_t)) => Some(map_p1t_p2t_to_p0_p3(p0, p3, p1_t, p2_t)),
        }
    }

    /// The control points `P1` and `P2` of the "down" phase from `p0` to `p3`;
    /// `None` for [`Transition::Immediate`].
    pub fn ctrl_pts_down(&self, p0: Point, p3: Point) -> (r: Option<(ControlPoint, ControlPoint)>)
        ensures
            r == map_pair(p0, p3, self.unit_pts_down()),
    {
        match self.unit_pts(false) {
            None => None,
            Some((p1_t, p2_t)) => Some(map_p1t_p2t_to_p0_p3(p0, p3, p1_t, p2_t)),
        }
    }
}

/// Finds the control points `P1` and `P2` between `P0` and `P3`, from their place in
/// the unit square.
fn map_p1t_p2t_to_p0_p3(p0: Point, p3: Point, p1_t: UnitPoint, p2_t: UnitPoint) -> (r: (
    ControlPoint,
    ControlPoint,
))
    requires
        valid_unit(p1_t),
        valid_unit(p2_t),
    ensures
        r == (map_unit(p0, p3, p1_t), map_unit(p0, p3, p2_t)),
{
    (
        ControlPoint {
            x_halves: between_x(p0.x, p3.x, p1_t.x_halves),
            y: between_y(p0.y, p3.y, p1_t.y),
        },
        ControlPoint {
            x_halves: between_x(p0.x, p3.x, p2_t.x_halves),
            y: between_y(p0.y, p3.y, p2_t.y),
        },
    )
}

/// Twice the in-between value of `a` and `b` at `t_halves / 2`.
fn between_x(a: u32, b: u32, t_halves: u8) -> (r: u64)
    requires
        t_halves <= 2,
    ensures
        r == between_halves(a as int, b as int, t_halves as int),
{
    let lo = if a <= b { a } else { b } as u64;
    let hi = if a <= b { b } else { a } as u64;
    assert((hi - lo) * (t_halves as u64) <= 2 * 0xffff_ffff) by (nonlinear_arith)
        requires
            hi - lo <= 0xffff_ffff,
            t_halves <= 2,
    ;
    2 * lo + (hi - lo) * (t_halves as u64)
}

/// The in-between value of `a` and `b` at `t`, where `t` is 0 or 1.
fn between_y(a: u32, b: u32, t: u8) -> (r: u32)
    requires
        t <= 1,
    ensures
        r == between(a as int, b as int, t as int),
{
    let lo = if a <= b { a } else { b };
    let hi = if a <= b { b } else { a };
    if t == 0 {
        lo
    } else {
        assert(t == 1);
        hi
    }
}

} // verus!
