use std::collections::HashMap;

use ksunami::transition::Transition;
use ksunami::workload::{Workload, WorkloadPhase};

#[test]
fn test_up_linear_down_none() {
    let w = Workload::new(1, 20, 100, 5, Transition::Linear, 3, Transition::Immediate, 0);

    // min_sec=20 + up_sec=3 + max_sec=5 + down_sec=0
    assert_eq!(28, w.overall_duration_sec());

    for sec in 0u64..=19u64 {
        assert_eq!(1, w.records_per_sec_at(sec));
    }

    assert_eq!(1, w.records_per_sec_at(20));
    assert_eq!(27, w.records_per_sec_at(21));
    assert_eq!(74, w.records_per_sec_at(22));

    for sec in 23u64..=27u64 {
        assert_eq!(100, w.records_per_sec_at(sec));
    }

    for sec in 28u64..=47u64 {
        assert_eq!(1, w.records_per_sec_at(sec));
    }

    assert_eq!(1, w.records_per_sec_at(48));
    assert_eq!(27, w.records_per_sec_at(49));
    assert_eq!(74, w.records_per_sec_at(50));

    for sec in 51u64..=55u64 {
        assert_eq!(100, w.records_per_sec_at(sec));
    }
}

#[test]
fn test_up_spike_out_down_ease_in() {
    let w = Workload::new(3, 60, 100, 5, Transition::SpikeOut, 20, Transition::EaseIn, 20);

    let mut occurrences: HashMap<WorkloadPhase, u32> = HashMap::new();

    let mut prev = 0;
    for sec in 0u64..(w.overall_duration_sec() as u64 * 10u64) {
        let curr = w.records_per_sec_at(sec);

        let sec_phase = w.phase_at(sec);
        *occurrences.entry(sec_phase).or_insert(0) += 1;

        match sec_phase {
            WorkloadPhase::Min => assert_eq!(curr, 3),
            WorkloadPhase::Up => assert!(curr >= prev),
            WorkloadPhase::Max => assert_eq!(curr, 100),
            WorkloadPhase::Down => assert!(curr <= prev),
        }

        prev = curr;
    }

    assert_eq!(600, occurrences.get(&WorkloadPhase::Min).cloned().unwrap());
    assert_eq!(200, occurrences.get(&WorkloadPhase::Up).cloned().unwrap());
    assert_eq!(50, occurrences.get(&WorkloadPhase::Max).cloned().unwrap());
    assert_eq!(200, occurrences.get(&WorkloadPhase::Down).cloned().unwrap());
}

#[test]
fn square_wave_without_ramps() {
    let w = Workload::new(7, 4, 90, 3, Transition::Immediate, 10, Transition::Immediate, 10);
    assert_eq!(7, w.overall_duration_sec());
    for sec in 0u64..70 {
        let expected = if sec % 7 < 4 { 7 } else { 90 };
        assert_eq!(expected, w.records_per_sec_at(sec));
    }
}

#[test]
fn phase_starts_at_the_rate_it_comes_from() {
    let kinds = [
        Transition::Linear,
        Transition::EaseIn,
        Transition::EaseOut,
        Transition::EaseInOut,
        Transition::SpikeIn,
        Transition::SpikeOut,
        Transition::SpikeInOut,
    ];
    for up in kinds {
        for down in kinds {
            let w = Workload::new(5, 10, 500, 4, up, 7, down, 9);
            let cycle = w.overall_duration_sec() as u64;
            for c in 0u64..3 {
                let base = c * cycle;
                assert_eq!(5, w.records_per_sec_at(base));
                assert_eq!(WorkloadPhase::Up, w.phase_at(base + 10));
                assert_eq!(5, w.records_per_sec_at(base + 10));
                assert_eq!(500, w.records_per_sec_at(base + 17));
                assert_eq!(WorkloadPhase::Down, w.phase_at(base + 21));
                assert_eq!(500, w.records_per_sec_at(base + 21));
            }
        }
    }
}

#[test]
fn easing_ramps_are_monotone() {
    for kind in [Transition::Linear, Transition::EaseIn, Transition::EaseOut, Transition::EaseInOut] {
        let w = Workload::new(2, 5, 1000, 5, kind, 13, kind, 11);
        for sec in 5u64..17 {
            assert!(w.records_per_sec_at(sec) <= w.records_per_sec_at(sec + 1));
        }
        for sec in 23u64..33 {
            assert!(w.records_per_sec_at(sec) >= w.records_per_sec_at(sec + 1));
        }
    }
}

#[test]
fn ramp_values_are_rounded_bezier_ordinates() {
    // Linear up over 2 seconds from 0 to 101: at t = 1/2 the curve is at 50.5, rounded up.
    let w = Workload::new(0, 1, 101, 1, Transition::Linear, 2, Transition::Immediate, 0);
    assert_eq!(0, w.records_per_sec_at(1));
    assert_eq!(51, w.records_per_sec_at(2));
    // SpikeIn up over 4 seconds from 0 to 64: at t = 1/4 the curve is at 64 * (1 - (3/4)^3) = 37.
    let w = Workload::new(0, 1, 64, 1, Transition::SpikeIn, 4, Transition::Immediate, 0);
    assert_eq!(37, w.records_per_sec_at(2));
    assert_eq!(WorkloadPhase::Up, w.phase_at(2));
}

#[test]
fn durations_add_up() {
    let w = Workload::new(1, 20, 100, 5, Transition::Linear, 3, Transition::EaseOut, 4);
    assert_eq!(20, w.min_duration_sec());
    assert_eq!(23, w.before_max_duration_sec());
    assert_eq!(28, w.after_max_duration_sec());
    assert_eq!(32, w.overall_duration_sec());
}

#[test]
fn largest_rates_stay_within_range() {
    let w = Workload::new(0, 1, u32::MAX, 1, Transition::SpikeInOut, u32::MAX - 3, Transition::EaseIn, 1);
    for sec in [1u64, 2, 1000, 4_000_000_000, u32::MAX as u64 - 3] {
        let r = w.records_per_sec_at(sec);
        assert!(r <= u32::MAX);
    }
    assert_eq!(u32::MAX, w.records_per_sec_at(u32::MAX as u64 - 2));
}
