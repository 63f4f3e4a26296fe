use tuimodplayer::control::{ControlField, ControlSpec, ModuleControl, pow_u64};

#[test]
fn tempo_clamps_at_upper_bound() {
    // Range [-48, 48], step 1, starting at 0: after 200 increments the
    // stored index is exactly 48, never higher.
    let mut f = ControlField::new(ControlSpec::tempo());
    assert_eq!(f.value(), 0);
    for _ in 0..200 {
        f.inc();
    }
    assert_eq!(f.value(), 48);
}

#[test]
fn tempo_clamps_at_lower_bound() {
    let mut f = ControlField::new(ControlSpec::tempo());
    for _ in 0..200 {
        f.dec();
    }
    assert_eq!(f.value(), -48);
}

#[test]
fn volume_ramping_clamps_both_ways() {
    let mut f = ControlField::new(ControlSpec::volume_ramping());
    assert_eq!(f.value(), -1);
    for _ in 0..30 {
        f.inc();
    }
    assert_eq!(f.value(), 10);
    for _ in 0..30 {
        f.dec();
    }
    assert_eq!(f.value(), -1);
}

#[test]
fn logarithmic_mapping_is_exact_at_integer_exponents() {
    // Index 24, base 2, denominator 24 gives 2.0; index -24 gives 0.5.
    let mut f = ControlField::new(ControlSpec::tempo());
    for _ in 0..24 {
        f.inc();
    }
    assert_eq!(f.value(), 24);
    assert_eq!(f.output_log_exact(), Some((2, 1)));

    let mut g = ControlField::new(ControlSpec::tempo());
    for _ in 0..24 {
        g.dec();
    }
    assert_eq!(g.value(), -24);
    assert_eq!(g.output_log_exact(), Some((1, 2)));
}

#[test]
fn logarithmic_mapping_is_none_at_fractional_exponents() {
    let mut f = ControlField::new(ControlSpec::tempo());
    f.inc();
    assert_eq!(f.value(), 1);
    assert_eq!(f.output_log_exact(), None);
}

#[test]
fn filter_taps_are_powers_of_two() {
    let f = ControlField::new(ControlSpec::filter_taps());
    assert_eq!(f.value(), 3);
    assert_eq!(f.output_log_exact(), Some((8, 1)));
    let mut g = ControlField::new(ControlSpec::filter_taps());
    g.dec();
    g.dec();
    g.dec();
    assert_eq!(g.value(), 0);
    assert_eq!(g.output_log_exact(), Some((1, 1)));
}

#[test]
fn linear_outputs() {
    let g = ControlField::new(ControlSpec::gain());
    assert_eq!(g.output_linear(), 0);
    let mut s = ControlField::new(ControlSpec::stereo_separation());
    assert_eq!(s.output_linear(), 100);
    s.inc();
    assert_eq!(s.value(), 105);
    assert_eq!(s.output_linear(), 105);
}

#[test]
fn default_control_values() {
    let c = ModuleControl::default();
    assert_eq!(c.tempo.value(), 0);
    assert_eq!(c.pitch.value(), 0);
    assert_eq!(c.gain.value(), 0);
    assert_eq!(c.stereo_separation.value(), 100);
    assert_eq!(c.filter_taps.value(), 3);
    assert_eq!(c.volume_ramping.value(), -1);
    assert!(!c.repeat);
}

#[test]
fn control_mutators_touch_one_field() {
    let mut c = ModuleControl::default();
    c.tempo_up();
    assert_eq!(c.tempo.value(), 1);
    assert_eq!(c.pitch.value(), 0);
    c.pitch_down();
    assert_eq!(c.pitch.value(), -1);
    c.toggle_repeat();
    assert!(c.repeat);
    c.toggle_repeat();
    assert!(!c.repeat);
    c.gain_up();
    assert_eq!(c.gain.value(), 1);
    assert_eq!(c.gain.output_linear(), 100);
}

#[test]
fn pow_u64_computes_and_overflows() {
    assert_eq!(pow_u64(2, 10), Some(1024));
    assert_eq!(pow_u64(2, 63), Some(1u64 << 63));
    assert_eq!(pow_u64(2, 64), None);
    assert_eq!(pow_u64(1, 200), Some(1));
}
