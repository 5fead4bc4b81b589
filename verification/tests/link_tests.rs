use snapblaster::events::Event;
use snapblaster::link::{
    link_status, next_bar_beat, peer_count, transport_time, wait_time_ms, LinkClock,
};

#[test]
fn status_is_connected_with_peers_while_enabled() {
    assert_eq!(link_status(true, 2), Event::LinkStatusChanged { connected: true, peers: 2 });
    assert_eq!(link_status(true, 0), Event::LinkStatusChanged { connected: false, peers: 0 });
    assert_eq!(link_status(false, 2), Event::LinkStatusChanged { connected: false, peers: 2 });
    assert_eq!(peer_count(7), 7);
    assert_eq!(peer_count(0), 0);
}

#[test]
fn next_bar_is_the_next_multiple_of_the_bar_length() {
    let bar = 4_000_000;
    assert_eq!(next_bar_beat(0, bar), 0);
    assert_eq!(next_bar_beat(9_999, bar), 9_999);
    assert_eq!(next_bar_beat(10_000, bar), 4_000_000);
    assert_eq!(next_bar_beat(1_500_000, bar), 4_000_000);
    assert_eq!(next_bar_beat(4_000_000, bar), 4_000_000);
    assert_eq!(next_bar_beat(7_999_999, bar), 8_000_000);
    assert_eq!(next_bar_beat(5_000_000, 3_000_000), 6_000_000);
    assert_eq!(next_bar_beat(-1_500_000, bar), -1_500_000);
    assert_eq!(next_bar_beat(i64::MAX, bar), i64::MAX);
    assert_eq!(next_bar_beat(i64::MIN, bar), i64::MIN);
}

#[test]
fn wait_is_in_whole_milliseconds() {
    assert_eq!(wait_time_ms(2_500_000, 1_000_000), 1_500);
    assert_eq!(wait_time_ms(1_000_999, 1_000_000), 0);
    assert_eq!(wait_time_ms(1_001_000, 1_000_000), 1);
    assert_eq!(wait_time_ms(1_000_000, 1_000_000), 0);
    assert_eq!(wait_time_ms(1_000_000, 2_000_000), 0);
    assert_eq!(wait_time_ms(i64::MAX, i64::MIN), u64::MAX / 1000);
    assert_eq!(wait_time_ms(0, -5_000), 5);
}

#[test]
fn transport_time_is_never_negative() {
    assert_eq!(transport_time(5), 5);
    assert_eq!(transport_time(0), 0);
    assert_eq!(transport_time(-5), 0);
    assert_eq!(transport_time(i64::MAX), i64::MAX as u64);
}

#[test]
fn a_new_clock_knows_the_default_tempo() {
    assert_eq!(LinkClock::new(), LinkClock { last_beat: 0, last_bar: 0, last_tempo: 120_000 });
}

#[test]
fn the_clock_announces_beats_and_bars_once() {
    let bar = 4_000_000;
    let mut clock = LinkClock::new();
    assert_eq!(clock.observe(500_000, bar, 120_000), vec![]);
    assert_eq!(
        clock.observe(1_250_000, bar, 120_000),
        vec![Event::BeatOccurred { beat: 1, phase: 1_250_000 }]
    );
    assert_eq!(clock.observe(1_900_000, bar, 120_000), vec![]);
    assert_eq!(
        clock.observe(4_100_000, bar, 120_000),
        vec![Event::BeatOccurred { beat: 4, phase: 100_000 }, Event::BarOccurred { bar: 1 }]
    );
    assert_eq!(clock.observe(4_200_000, bar, 120_000), vec![]);
    assert_eq!(clock, LinkClock { last_beat: 4, last_bar: 1, last_tempo: 120_000 });
}

#[test]
fn the_clock_announces_a_tempo_that_changed() {
    let bar = 4_000_000;
    let mut clock = LinkClock::new();
    assert_eq!(clock.observe(0, bar, 120_010), vec![]);
    assert_eq!(clock.observe(0, bar, 119_990), vec![]);
    assert_eq!(clock.observe(0, bar, 120_011), vec![Event::LinkTempoChanged { tempo: 120_011 }]);
    assert_eq!(clock.last_tempo, 120_011);
    assert_eq!(clock.observe(0, bar, 120_000), vec![Event::LinkTempoChanged { tempo: 120_000 }]);
    assert_eq!(
        clock.observe(1_000_000, bar, 90_000),
        vec![Event::LinkTempoChanged { tempo: 90_000 }, Event::BeatOccurred { beat: 1, phase: 1_000_000 }]
    );
    assert_eq!(clock.observe(1_000_000, bar, u32::MAX), vec![Event::LinkTempoChanged { tempo: u32::MAX }]);
    assert_eq!(clock.observe(1_000_000, bar, 0), vec![Event::LinkTempoChanged { tempo: 0 }]);
}

#[test]
fn before_the_timeline_there_is_beat_zero() {
    let bar = 4_000_000;
    let mut clock = LinkClock { last_beat: 3, last_bar: 2, last_tempo: 120_000 };
    assert_eq!(
        clock.observe(-500_000, bar, 120_000),
        vec![Event::BeatOccurred { beat: 0, phase: 3_500_000 }, Event::BarOccurred { bar: 0 }]
    );
    let mut other = LinkClock { last_beat: 3, last_bar: 0, last_tempo: 120_000 };
    assert_eq!(
        other.observe(-8_000_000, bar, 120_000),
        vec![Event::BeatOccurred { beat: 0, phase: 0 }]
    );
    let mut far = LinkClock { last_beat: 3, last_bar: 0, last_tempo: 120_000 };
    assert_eq!(far.observe(i64::MIN, 3, 120_000), vec![Event::BeatOccurred { beat: 0, phase: 1 }]);
}

#[test]
fn far_positions_are_held_within_range() {
    let mut clock = LinkClock::new();
    let events = clock.observe(i64::MAX, 1, 120_000);
    assert_eq!(
        events,
        vec![Event::BeatOccurred { beat: u32::MAX, phase: 0 }, Event::BarOccurred { bar: u32::MAX }]
    );
}
