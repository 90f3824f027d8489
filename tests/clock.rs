use light_show::time::{divided_beat, Arg, Message, Outcome, Time};

fn msg(addr: &str, args: Vec<Arg>) -> Message {
    Message { addr: addr.to_string(), args }
}

#[test]
fn new_clock_defaults() {
    let t = Time::new(4);
    assert_eq!(t.quantum(), 4);
    assert_eq!(t.bpm(), 120000);
    assert_eq!(t.beat(), 0);
}

#[test]
fn tempo_message_replaces_bpm() {
    let mut t = Time::new(4);
    assert_eq!(t.handle(&msg("/bpm", vec![Arg::Micro(128_500_000)])), Outcome::Tempo(128500));
    assert_eq!(t.bpm(), 128500);
    assert_eq!(t.beat(), 0);
}

#[test]
fn beat_message_wraps_modulo_two_to_sixteen() {
    let mut t = Time::new(4);
    assert_eq!(t.handle(&msg("/beats", vec![Arg::Int(70000)])), Outcome::Beat(4464));
    assert_eq!(t.beat(), 4464);
    assert_eq!(t.handle(&msg("/beats", vec![Arg::Int(-1)])), Outcome::Beat(65535));
    assert_eq!(t.handle(&msg("/beats", vec![Arg::Int(12)])), Outcome::Beat(12));
    assert_eq!(t.beat(), 12);
}

#[test]
fn malformed_messages_change_nothing() {
    let mut t = Time::new(4);
    assert_eq!(t.handle(&msg("/bpm", vec![Arg::Int(3)])), Outcome::Malformed);
    assert_eq!(t.handle(&msg("/bpm", vec![])), Outcome::Malformed);
    assert_eq!(t.handle(&msg("/bpm", vec![Arg::Micro(-5_000_000)])), Outcome::Malformed);
    assert_eq!(t.handle(&msg("/beats", vec![Arg::Micro(1)])), Outcome::Malformed);
    assert_eq!(t.handle(&msg("/beats", vec![Arg::Other])), Outcome::Malformed);
    assert_eq!(t.handle(&msg("/other", vec![Arg::Int(1)])), Outcome::Ignored);
    assert_eq!(t, Time::new(4));
}

#[test]
fn subdivision_step() {
    let t = Time::new(4);
    assert_eq!(t.divisor(1, 1), Some(4));
    assert_eq!(t.divisor(1, 2), Some(2));
    assert_eq!(t.divisor(3, 2), Some(6));
    assert_eq!(t.divisor(1, 8), None);
    assert_eq!(t.divisor(1, 0), None);
    assert_eq!(Time::new(300).divisor(300, 1), None);
}

#[test]
fn subdivision_delivers_quotients_of_multiples() {
    let delivered: Vec<(u16, u16)> =
        (0u16..20).filter_map(|j| divided_beat(4, j).map(|i| (j, i))).collect();
    assert_eq!(delivered, vec![(0, 0), (4, 1), (8, 2), (12, 3), (16, 4)]);
    assert_eq!(divided_beat(3, 7), None);
    assert_eq!(divided_beat(1, 65535), Some(65535));
}
