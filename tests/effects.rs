use light_show::color::Color;
use light_show::fx::{self, ColorMapOp, ColorOp, Timing};
use light_show::period::{phase, Pd};
use light_show::show::State;
use light_show::time::{Arg, Message};
use light_show::units::FULL;

fn at(phi: u64) -> Timing {
    Timing { t: 0, phi, bpm: 120000 }
}

#[test]
fn period_arithmetic() {
    assert_eq!(Pd(1, 4).fr(), 250_000);
    assert_eq!(Pd(3, 1).fr(), 3_000_000);
    assert_eq!(Pd(1, 4).mul(2), Pd(2, 4));
    assert_eq!(Pd(1, 4).div(2), Pd(1, 8));
    assert_eq!(phase(500_000, Pd(1, 1)), 32767);
    assert_eq!(phase(1_500_000, Pd(1, 1)), 32767);
    assert_eq!(phase(123, Pd(0, 1)), 0);
}

#[test]
fn free_running_position() {
    let mut s = State::default();
    s.tick(2000, Some(120000));
    assert_eq!(s.t0, 2000);
    assert_eq!(s.t, 2000);
    assert_eq!(s.phi, 4_000_000);
    assert_eq!(Pd(1, 4).fr(), 250_000);
    s.tick(9000, Some(120000));
    assert_eq!(s.phi, 2_000_000);
    s.tick(9500, None);
    assert_eq!(s.t0, 9500);
    assert_eq!(s.t, 9000);
}

#[test]
fn periodic_waveforms_repeat() {
    let c = Color::rgb(FULL, 0, 0);
    let ops = vec![
        fx::sin(Pd(1, 1), 32768, 16384),
        fx::tri(Pd(2, 1), 0, FULL),
        fx::pulse(Pd(1, 2), FULL, 0),
        fx::pulse_short(Pd(1, 1), FULL, 0),
        fx::strobe(Pd(1, 4), 32768, 0, FULL),
        fx::ramp(Pd(1, 1)),
    ];
    let periods = [1_000_000u64, 2_000_000, 500_000, 1_000_000, 250_000, 1_000_000];
    for (op, p) in ops.iter().zip(periods.iter()) {
        for phi in [0u64, 123_456, 777_777] {
            assert_eq!(op.apply(&at(phi), c), op.apply(&at(phi + p), c));
        }
    }
}

#[test]
fn waveform_values() {
    let c = Color::rgb(FULL, 0, 0);
    assert_eq!(fx::sin(Pd(1, 1), 32768, 16384).apply(&at(0), c).a, 32768);
    assert_eq!(fx::sin(Pd(1, 1), 32768, 16384).apply(&at(250_000), c).a, 49151);
    assert_eq!(fx::tri(Pd(1, 1), 0, FULL).apply(&at(500_000), c).a, 65534);
    assert_eq!(fx::tri(Pd(1, 1), 0, FULL).apply(&at(0), c).a, 0);
    assert_eq!(fx::pulse(Pd(1, 1), FULL, 0).apply(&at(0), c).a, FULL);
    assert_eq!(fx::pulse_short(Pd(1, 1), FULL, 0).apply(&at(300_000), c).a, 0);
    assert_eq!(fx::strobe(Pd(1, 1), 16384, 100, 200).apply(&at(100_000), c).a, 200);
    assert_eq!(fx::strobe(Pd(1, 1), 16384, FULL, 0).apply(&at(100_000), c).a, 0);
    assert_eq!(fx::strobe(Pd(1, 1), 16384, 0, FULL).apply(&at(100_000), c).a, FULL);
    assert_eq!(fx::strobe(Pd(1, 1), 16384, 0, FULL).apply(&at(600_000), c).a, 0);
    assert_eq!(fx::ramp(Pd(1, 1)).apply(&at(500_000), c).a, 32767);
    assert_eq!(fx::alpha(100).apply(&at(0), c), Color::argb(100, FULL, 0, 0));
    assert_eq!(fx::id().apply(&at(5), c), c);
    assert_eq!(fx::off().apply(&at(5), c), c);
}

#[test]
fn once_runs_one_period_then_latches() {
    let at = Timing { t: 1000, phi: 200_000, bpm: 120000 };
    let op = fx::once(Pd(1, 1), fx::ramp(Pd(1, 1)), at);
    let ramp = fx::ramp(Pd(1, 1));
    let c = Color::rgb(0, FULL, 0);
    let tm = |t: u64, phi: u64| Timing { t, phi, bpm: 120000 };
    for (t, phi) in [(1000, 500_000), (1250, 777_000), (500, 10), (1499, 999_999)] {
        assert_eq!(op.apply(&tm(t, phi), c), ramp.apply(&tm(t, phi), c));
    }
    assert_eq!(op.apply(&tm(1250, 777_000), c).a, 50920);
    let end = op.apply(&tm(1600, 3), c);
    assert_eq!(end.a, 13106);
    assert_eq!(op.apply(&tm(5000, 900_000), c), end);
    assert_eq!(op.apply(&Timing { t: 1_000_000, phi: 42, bpm: 90000 }, c), end);
}

#[test]
fn once_matches_inner_at_activation() {
    let at = Timing { t: 0, phi: 0, bpm: 120000 };
    let now = Timing { t: 0, phi: 500_000, bpm: 120000 };
    let c = Color::rgb(FULL, 0, 0);
    assert_eq!(fx::once(Pd(1, 1), fx::ramp(Pd(1, 1)), at).apply(&now, c).a, 32767);
}

#[test]
fn compose_applies_rightmost_first() {
    let white = Color::w(FULL);
    let op = ColorMapOp::value(white).compose(fx::alpha(32768));
    let c = op.apply(&at(0), Color::rgb(FULL, 0, 0));
    assert_eq!(c, Color::aw(32768, FULL));
    let op2 = fx::alpha(32768).compose(ColorMapOp::value(white));
    assert_eq!(op2.apply(&at(0), Color::rgb(FULL, 0, 0)), Color::aw(32768, FULL));
}

#[test]
fn colour_sources() {
    assert_eq!(ColorOp::value(Color::rgb(1, 2, 3)).apply(&at(9)), Color::rgb(1, 2, 3));
    assert_eq!(ColorOp::from(Color::rgb(1, 2, 3)), ColorOp::Value(Color::rgb(1, 2, 3)));
    let r = fx::rainbow(Pd(3, 1));
    assert_eq!(r.apply(&at(0)), Color::rgb(FULL, 0, 0));
    assert_eq!(r.apply(&at(1_000_000)), Color::rgb(0, FULL, 0));
    assert_eq!(r.apply(&at(2_000_000)), Color::rgb(0, 0, FULL));
    assert_eq!(r.apply(&at(3_000_000)), Color::rgb(FULL, 0, 0));
}

#[test]
fn state_slots_and_phase_shift() {
    let mut s = State::default();
    assert_eq!(s.color0(), Color::w(FULL));
    s.color1 = fx::rainbow(Pd(3, 1));
    s.map1 = fx::alpha(32768);
    assert_eq!(s.color1(), Color::argb(32768, FULL, 0, 0));
    assert_eq!(s.color1_phase(Pd(3, 1), 21845), Color::argb(32768, 0, FULL, 0));
    s.map0 = fx::ramp(Pd(1, 1));
    s.phi = 250_000;
    assert_eq!(s.phi(Pd(1, 1)), 16383);
    assert_eq!(s.color0().a, 16383);
    assert_eq!(s.color0_phase(Pd(1, 1), 32768).a, 49151);
}

#[test]
fn phase_shift_does_not_wrap_the_measure() {
    let mut s = State::default();
    s.map0 = fx::ramp(Pd(3, 1));
    s.phi = 15_500_000;
    // 15.5 + 1.5 beats is 17 beats: phase 2/3 of a 3-beat period.
    assert_eq!(s.color0_phase(Pd(3, 1), 32768).a, fx::ramp(Pd(3, 1)).apply(&Timing { t: 0, phi: 17_000_000, bpm: 120000 }, Color::w(FULL)).a);
    assert_eq!(s.color0_phase(Pd(3, 1), 32768).a, 43690);
}

#[test]
fn tick_and_faders_keep_bindings() {
    let mut s = State::default();
    s.map0 = fx::alpha(7);
    s.off = true;
    s.tick(2000, Some(120000));
    s.slider(1, 5);
    assert_eq!(s.map0.apply(&s.timing(), Color::w(FULL)).a, 7);
    assert!(s.off);
    assert_eq!(s.alpha, FULL);
}

#[test]
fn transport_messages_drive_the_clock() {
    let mut s = State::default();
    let m = |a: &str, x: i64| Message { addr: a.to_string(), args: vec![Arg::Micro(x)] };
    assert!(s.transport(&m("/vdj/time", 12_345_678)));
    assert_eq!(s.t, 12345);
    assert!(s.transport(&m("/vdj/phase16", 250_000)));
    assert_eq!(s.phi, 4_000_000);
    assert!(s.transport(&m("/vdj/phase16", 1_250_000)));
    assert_eq!(s.phi, 4_000_000);
    assert!(s.transport(&m("/vdj/phase16", 1_000_000)));
    assert_eq!(s.phi, 0);
    assert!(s.transport(&m("/vdj/phase16", 250_000)));
    assert!(s.transport(&m("/vdj/bpm", 128_000_000)));
    assert_eq!(s.bpm, 128000);
    assert!(!s.transport(&m("/vdj/bpm", -1)));
    assert!(!s.transport(&m("/other", 5)));
    assert!(!s.transport(&Message { addr: "/vdj/time".to_string(), args: vec![Arg::Int(3)] }));
    assert_eq!((s.t, s.phi, s.bpm), (12345, 4_000_000, 128000));
}

#[test]
fn faders_and_master_level() {
    let mut s = State::default();
    s.slider(0, 1000);
    s.slider(1, 2000);
    s.slider(2, 3000);
    s.slider(7, 4000);
    assert_eq!((s.alpha, s.fr0, s.fr1), (1000, 2000, 3000));
    assert_eq!(s.master(), 1000);
    s.off = true;
    assert_eq!(s.master(), 0);
}

#[test]
fn beat_pulse_on_rising_edge() {
    let mut s = State::default();
    s.phi = 100_000;
    assert!(s.beat_edge());
    assert!(!s.beat_edge());
    s.phi = 600_000;
    assert!(!s.beat_edge());
    s.phi = 1_050_000;
    assert!(s.beat_edge());
    s.viz_beat = false;
    s.phi = 1_600_000;
    assert!(!s.beat_edge());
}

#[test]
fn visual_period_in_milliseconds() {
    let mut s = State::default();
    assert_eq!(s.viz_period_ms(), Some(500));
    s.viz_pd = Pd(1, 4);
    assert_eq!(s.viz_period_ms(), Some(125));
    s.bpm = 0;
    assert_eq!(s.viz_period_ms(), None);
}
