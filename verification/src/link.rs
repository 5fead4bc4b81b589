use crate::curve::DEFAULT_TEMPO;
use crate::events::{Event, EventView};
use vstd::prelude::*;

verus! {

/// Beat positions and bar lengths are counted in millionths of a beat.
pub const BEAT_UNIT: i64 = 1_000_000;

/// A bar of four beats, the length that holds until another is set.
pub const DEFAULT_QUANTUM: i64 = 4_000_000;

/// A tempo that differs from the last known one by more than this
/// (thousandths of a beat per minute) has changed.
pub const TEMPO_TOLERANCE: u32 = 10;

/// A position less than this (millionths of a beat) into a bar is at its
/// beginning.
pub const BAR_TOLERANCE: i64 = 10_000;

/// What the tempo clock remembers between two looks at the session: the
/// last beat and bar that it announced, and the last tempo.
#[derive(Clone, Copy, Debug, PartialEq, Eq, Structural)]
pub struct LinkClock {
    pub last_beat: u32,
    pub last_bar: u32,
    /// Thousandths of a beat per minute.
    pub last_tempo: u32,
}

/// A count of peers as a `usize`; a count that does not fit counts as none.
pub open spec fn peers_of(raw: u64) -> usize {
    if raw <= usize::MAX {
        raw as usize
    } else {
        0
    }
}

/// The answer to a request for the status: connected means enabled with at
/// least one peer.
pub open spec fn status_of(enabled: bool, raw_peers: u64) -> EventView {
    EventView::LinkStatusChanged {
        connected: enabled && peers_of(raw_peers) > 0,
        peers: peers_of(raw_peers),
    }
}

/// How far into its bar a position is, counted from the bar's beginning
/// towards the position: never negative at or after the start of the
/// timeline, never positive before it.
pub open spec fn into_bar(position: int, quantum: int) -> int {
    if position >= 0 {
        position % quantum
    } else {
        -((-position) % quantum)
    }
}

/// The beats (in millionths) from a position to the beginning of the next
/// bar; none where the position is at a bar's beginning, within the
/// tolerance, or before the start of the timeline.
pub open spec fn to_next_bar(position: int, quantum: int) -> int {
    if into_bar(position, quantum) < BAR_TOLERANCE {
        0
    } else {
        quantum - into_bar(position, quantum)
    }
}

/// `value` held within the range of an `i64`.
pub open spec fn clamped_i64(value: int) -> int {
    if value > i64::MAX {
        i64::MAX as int
    } else if value < i64::MIN {
        i64::MIN as int
    } else {
        value
    }
}

/// `value` held within the range of a `u32`.
pub open spec fn clamped_u32(value: int) -> int {
    if value > u32::MAX {
        u32::MAX as int
    } else if value < 0 {
        0
    } else {
        value
    }
}

/// The milliseconds to wait from `now` until `then`, both in microseconds,
/// rounded down; nothing where `then` is not in the future.
pub open spec fn wait_of(then: int, now: int) -> int {
    if then > now {
        (then - now) / 1000
    } else {
        0
    }
}

/// The beat that a position lies in: the whole beats before it, none before
/// the start of the timeline.
pub open spec fn beat_of(position: int) -> int {
    clamped_u32(position / 1_000_000)
}

/// The bar that a position lies in: the whole bars before it, none before
/// the start of the timeline.
pub open spec fn bar_of(position: int, quantum: int) -> int {
    clamped_u32(position / quantum)
}

/// Whether a tempo differs from the last known one by more than the
/// tolerance.
pub open spec fn tempo_changed(last: u32, tempo: u32) -> bool {
    tempo > last + TEMPO_TOLERANCE || last > tempo + TEMPO_TOLERANCE
}

/// What the clock remembers after a look at the session.
pub open spec fn observed(clock: LinkClock, position: int, quantum: int, tempo: u32) -> LinkClock {
    let beat = beat_of(position) as u32;
    let bar = bar_of(position, quantum) as u32;
    LinkClock {
        last_tempo: if tempo_changed(clock.last_tempo, tempo) {
            tempo
        } else {
            clock.last_tempo
        },
        last_beat: beat,
        last_bar: if beat != clock.last_beat {
            bar
        } else {
            clock.last_bar
        },
    }
}

/// What the clock announces after a look at the session: a tempo that
/// changed, then a beat that is not the last announced one, then, with such
/// a beat, a bar that is not the last announced one.
pub open spec fn announced(clock: LinkClock, position: int, quantum: int, tempo: u32) -> Seq<
    EventView,
> {
    let beat = beat_of(position) as u32;
    let bar = bar_of(position, quantum) as u32;
    let phase = (position % quantum) as u64;
    let tempo_part = if tempo_changed(clock.last_tempo, tempo) {
        seq![EventView::LinkTempoChanged { tempo }]
    } else {
        Seq::empty()
    };
    let beat_part = if beat != clock.last_beat {
        seq![EventView::BeatOccurred { beat, phase }]
    } else {
        Seq::empty()
    };
    let bar_part = if beat != clock.last_beat && bar != clock.last_bar {
        seq![EventView::BarOccurred { bar }]
    } else {
        Seq::empty()
    };
    tempo_part + beat_part + bar_part
}

/// A count of peers as a `usize`.
pub fn peer_count(raw: u64) -> (peers: usize)
    ensures
        peers == peers_of(raw),
{
    if raw <= usize::MAX as u64 {
        raw as usize
    } else {
        0
    }
}

/// The answer to a request for the status.
pub fn link_status(enabled: bool, raw_peers: u64) -> (event: Event)
    ensures
        event@ == status_of(enabled, raw_peers),
{
    let peers = peer_count(raw_peers);
    Event::LinkStatusChanged { connected: enabled && peers > 0, peers }
}

/// The position (in millionths of a beat) at which the next bar begins: the
/// position itself where it is at a bar's beginning or before the start of
/// the timeline.
pub fn next_bar_beat(position: i64, quantum: i64) -> (beat: i64)
    requires
        quantum > 0,
    ensures
        beat == clamped_i64(position + to_next_bar(position as int, quantum as int)),
{
    if position < 0 {
        return position;
    }
    let inside: i64 = position % quantum;
    if inside < BAR_TOLERANCE {
        position
    } else {
        let ahead: i64 = quantum - inside;
        if position > i64::MAX - ahead {
            i64::MAX
        } else {
            position + ahead
        }
    }
}

/// The milliseconds to wait from `now_micros` until `next_bar_micros`.
pub fn wait_time_ms(next_bar_micros: i64, now_micros: i64) -> (wait: u64)
    ensures
        wait == wait_of(next_bar_micros as int, now_micros as int),
{
    if next_bar_micros > now_micros {
        let span: i128 = next_bar_micros as i128 - now_micros as i128;
        ((span as u128) / 1000) as u64
    } else {
        0
    }
}

/// A time of the session's clock as the transport wants it: never negative.
pub fn transport_time(micros: i64) -> (time: u64)
    ensures
        time == if micros >= 0 {
            micros as int
        } else {
            0
        },
{
    if micros >= 0 {
        micros as u64
    } else {
        0
    }
}

impl LinkClock {
    /// A clock that has announced nothing yet, at the default tempo.
    pub fn new() -> (clock: LinkClock)
        ensures
            clock == (LinkClock { last_beat: 0, last_bar: 0, last_tempo: DEFAULT_TEMPO }),
    {
        LinkClock { last_beat: 0, last_bar: 0, last_tempo: DEFAULT_TEMPO }
    }

    /// Takes a look at the session, at position `position` (millionths of a
    /// beat) with bars of `quantum` (millionths of a beat) at tempo `tempo`
    /// (thousandths of a beat per minute), and hands back what to announce.
    pub fn observe(&mut self, position: i64, quantum: i64, tempo: u32) -> (events: Vec<Event>)
        requires
            quantum > 0,
        ensures
            *final(self) == observed(*old(self), position as int, quantum as int, tempo),
            crate::events::events_view(events@) == announced(
                *old(self),
                position as int,
                quantum as int,
                tempo,
            ),
    {
        let mut events: Vec<Event> = Vec::new();
        let changed = (tempo as u64) > (self.last_tempo as u64) + (TEMPO_TOLERANCE as u64) || (
        self.last_tempo as u64) > (tempo as u64) + (TEMPO_TOLERANCE as u64);
        if changed {
            self.last_tempo = tempo;
            events.push(Event::LinkTempoChanged { tempo });
        }
        let beat: u32;
        let bar: u32;
        let phase: u64;
        if position >= 0 {
            let beats: i64 = position / 1_000_000;
            beat = if beats > u32::MAX as i64 {
                u32::MAX
            } else {
                beats as u32
            };
            let bars: i64 = position / quantum;
            bar = if bars > u32::MAX as i64 {
                u32::MAX
            } else {
                bars as u32
            };
            phase = (position % quantum) as u64;
        } else {
            beat = 0;
            bar = 0;
            let back: u64 = ((-(position as i128)) as u128 % (quantum as u128)) as u64;
            phase = if back == 0 {
                0
            } else {
                quantum as u64 - back
            };
            proof {
                lemma_negative_position(position as int, quantum as int);
            }
        }
        if beat != self.last_beat {
            self.last_beat = beat;
            events.push(Event::BeatOccurred { beat, phase });
            if bar != self.last_bar {
                self.last_bar = bar;
                events.push(Event::BarOccurred { bar });
            }
        }
        assert(crate::events::events_view(events@) =~= announced(
            *old(self),
            position as int,
            quantum as int,
            tempo,
        ));
        events
    }
}

/// Before the start of the timeline every quotient is negative, and the
/// remainder is the bar's length less what the mirrored position has left
/// over.
pub proof fn lemma_negative_position(position: int, quantum: int)
    requires
        position < 0,
        quantum > 0,
    ensures
        position / 1_000_000 < 0,
        position / quantum < 0,
        position % quantum == if (-position) % quantum == 0 {
            0
        } else {
            quantum - (-position) % quantum
        },
{
    vstd::arithmetic::div_mod::lemma_fundamental_div_mod(position, quantum);
    vstd::arithmetic::div_mod::lemma_fundamental_div_mod(-position, quantum);
    vstd::arithmetic::div_mod::lemma_mod_bound(position, quantum);
    vstd::arithmetic::div_mod::lemma_mod_bound(-position, quantum);
    let q = position / quantum;
    let r = position % quantum;
    let q2 = (-position) / quantum;
    let r2 = (-position) % quantum;
    assert(q < 0) by (nonlinear_arith)
        requires
            position == quantum * q + r,
            0 <= r < quantum,
            position < 0,
            quantum > 0,
    ;
    if r2 == 0 {
        assert(position == (-q2) * quantum + 0) by (nonlinear_arith)
            requires
                -position == quantum * q2 + r2,
                r2 == 0,
        ;
        vstd::arithmetic::div_mod::lemma_fundamental_div_mod_converse(
            position,
            quantum,
            -q2,
            0,
        );
    } else {
        assert(position == (-q2 - 1) * quantum + (quantum - r2)) by (nonlinear_arith)
            requires
                -position == quantum * q2 + r2,
        ;
        vstd::arithmetic::div_mod::lemma_fundamental_div_mod_converse(
            position,
            quantum,
            -q2 - 1,
            quantum - r2,
        );
    }
}

} // verus!
