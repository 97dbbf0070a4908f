use ksunami::transition::{ControlPoint, Point, Transition};

fn pt(x: u32, y: u32) -> Point {
    Point { x, y }
}

fn coord(p: ControlPoint) -> (f64, f64) {
    (p.x_halves as f64 / 2.0, p.y as f64)
}

#[test]
fn test_none() {
    assert_eq!(Transition::Immediate.ctrl_pts_up(pt(0, 0), pt(1, 1)), None);
}

#[test]
fn test_linear() {
    let (p1, p2) = Transition::Linear.ctrl_pts_up(pt(1, 2), pt(30, 40)).unwrap();
    assert_eq!(coord(p1), (1., 2.));
    assert_eq!(coord(p2), (30., 40.));

    let (p1, p2) = Transition::Linear.ctrl_pts_down(pt(1, 40), pt(30, 2)).unwrap();
    assert_eq!(coord(p1), (1., 40.));
    assert_eq!(coord(p2), (30., 2.));
}

#[test]
fn test_ease_in() {
    let (p1, p2) = Transition::EaseIn.ctrl_pts_up(pt(1, 2), pt(32, 44)).unwrap();
    assert_eq!(coord(p1), (16.5, 2.));
    assert_eq!(coord(p2), (32., 44.));

    let (p1, p2) = Transition::EaseIn.ctrl_pts_down(pt(1, 44), pt(32, 2)).unwrap();
    assert_eq!(coord(p1), (16.5, 44.));
    assert_eq!(coord(p2), (32., 2.));
}

#[test]
fn test_ease_out() {
    let (p1, p2) = Transition::EaseOut.ctrl_pts_up(pt(1, 2), pt(32, 44)).unwrap();
    assert_eq!(coord(p1), (1., 2.));
    assert_eq!(coord(p2), (16.5, 44.));

    let (p1, p2) = Transition::EaseOut.ctrl_pts_down(pt(1, 44), pt(32, 2)).unwrap();
    assert_eq!(coord(p1), (1., 44.));
    assert_eq!(coord(p2), (16.5, 2.));
}

#[test]
fn test_ease_in_out() {
    let (p1, p2) = Transition::EaseInOut.ctrl_pts_up(pt(11, 3), pt(35, 50)).unwrap();
    assert_eq!(coord(p1), (23., 3.));
    assert_eq!(coord(p2), (23., 50.));

    let (p1, p2) = Transition::EaseInOut.ctrl_pts_down(pt(11, 50), pt(35, 3)).unwrap();
    assert_eq!(coord(p1), (23., 50.));
    assert_eq!(coord(p2), (23., 3.));
}

#[test]
fn test_spike_in() {
    let (p1, p2) = Transition::SpikeIn.ctrl_pts_up(pt(11, 3), pt(35, 50)).unwrap();
    assert_eq!(coord(p1), (11., 50.));
    assert_eq!(coord(p2), (11., 50.));

    let (p1, p2) = Transition::SpikeIn.ctrl_pts_down(pt(11, 50), pt(35, 3)).unwrap();
    assert_eq!(coord(p1), (35., 50.));
    assert_eq!(coord(p2), (35., 50.));
}

#[test]
fn test_spike_out() {
    let (p1, p2) = Transition::SpikeOut.ctrl_pts_up(pt(11, 3), pt(35, 50)).unwrap();
    assert_eq!(coord(p1), (35., 3.));
    assert_eq!(coord(p2), (35., 3.));

    let (p1, p2) = Transition::SpikeOut.ctrl_pts_down(pt(11, 50), pt(35, 3)).unwrap();
    assert_eq!(coord(p1), (11., 3.));
    assert_eq!(coord(p2), (11., 3.));
}

#[test]
fn test_spike_in_out() {
    let (p1, p2) = Transition::SpikeInOut.ctrl_pts_up(pt(11, 3), pt(35, 50)).unwrap();
    assert_eq!(coord(p1), (11., 50.));
    assert_eq!(coord(p2), (35., 3.));

    let (p1, p2) = Transition::SpikeInOut.ctrl_pts_down(pt(11, 50), pt(35, 3)).unwrap();
    assert_eq!(coord(p1), (11., 3.));
    assert_eq!(coord(p2), (35., 50.));
}

#[test]
fn odd_span_puts_mid_point_on_a_half() {
    let (p1, _) = Transition::EaseIn.ctrl_pts_up(pt(0, 0), pt(3, 10)).unwrap();
    assert_eq!(p1, ControlPoint { x_halves: 3, y: 0 });
}
