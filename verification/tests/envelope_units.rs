//! Unit behaviour of the envelope arithmetic: interpolation, breakpoint
//! ramps, exponential curve ratios and release decay.
use wahdio::envelope::envelope_acc_step;
use wahdio::envelope::interp_val;
use wahdio::envelope::interp_val_until;
use wahdio::envelope::latest_breakpoint;
use wahdio::envelope::TimedVolumeAdjustment;
use wahdio::envelope::RELEASE_BASIC_RATIO_Q32;
use wahdio::fixed::root_ratio_down_q32;
use wahdio::fixed::root_ratio_up_q32;
use wahdio::fixed::ONE_Q32;

#[test]
fn interpolation_values() {
    // endpoints and midpoint of a falling range
    assert_eq!(interp_val(0, (1488, 1200)), 1488);
    assert_eq!(interp_val(24, (1488, 1200)), 1200);
    assert_eq!(interp_val(12, (1488, 1200)), 1344);
    // rising range, truncating division
    assert_eq!(interp_val_until(1, (0, 10), 3), 3);
    assert_eq!(interp_val_until(2, (0, 10), 3), 6);
    // an empty span yields the midpoint
    assert_eq!(interp_val_until(5, (10, 20), 0), 15);
    // a downward slope never undershoots zero
    assert_eq!(interp_val_until(10, (2, 0), 5), 0);
}

#[test]
fn interpolation_is_monotone_on_rising_ranges() {
    let mut last = 0;
    for step in 0..=24 {
        let v = interp_val(step, (100, 900));
        assert!(v >= last);
        last = v;
    }
}

#[test]
fn breakpoint_lookup() {
    let table = vec![
        TimedVolumeAdjustment { time: 1, volume: 28 },
        TimedVolumeAdjustment { time: 2, volume: 96 },
        TimedVolumeAdjustment { time: 5, volume: 204 },
    ];
    assert_eq!(latest_breakpoint(&table, 0, 4), 4);
    assert_eq!(latest_breakpoint(&table, 1, 4), 28);
    assert_eq!(latest_breakpoint(&table, 3, 4), 96);
    assert_eq!(latest_breakpoint(&table, 5, 4), 204);
    assert_eq!(latest_breakpoint(&table, 100, 4), 204);
}

#[test]
fn downward_curve_ratio_lands_near_target() {
    // (94/1488)^(1/192) applied 192 times carries 1488 close to 94
    let ratio = root_ratio_down_q32(94, 1488, 192);
    assert!(ratio < ONE_Q32);
    let mut acc: u64 = 1488u64 << 32;
    for _ in 0..192 {
        acc = envelope_acc_step(acc, ratio);
    }
    let landed = acc >> 32;
    assert!(landed >= 92 && landed <= 96, "landed at {}", landed);
}

#[test]
fn upward_curve_ratio_lands_near_target() {
    let ratio = root_ratio_up_q32(800, 100, 64);
    assert!(ratio > ONE_Q32);
    let mut acc: u64 = 100u64 << 32;
    for _ in 0..64 {
        acc = envelope_acc_step(acc, ratio);
    }
    let landed = acc >> 32;
    assert!(landed >= 780 && landed <= 820, "landed at {}", landed);
}

#[test]
fn release_decay_is_strict_and_bounded() {
    // the fixed release curve strictly shrinks the accumulator each tick
    // and silences a full-scale voice within a bounded tick count
    let mut acc: u64 = 2047u64 << 32;
    let mut ticks = 0;
    while acc >> 32 > 1 {
        let next = envelope_acc_step(acc, RELEASE_BASIC_RATIO_Q32);
        assert!(next < acc);
        acc = next;
        ticks += 1;
        assert!(ticks < 100);
    }
    // ln(2047) / 0.17 is about 45 ticks
    assert!(ticks >= 40 && ticks <= 50, "took {} ticks", ticks);
}
