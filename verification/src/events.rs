use vstd::prelude::*;

verus! {

/// The easing applied to a morph's progress before interpolation.
#[derive(Clone, Copy, Debug, PartialEq, Eq, Structural)]
pub enum MorphCurve {
    Linear,
    Exponential,
    Logarithmic,
    SCurve,
}

/// Everything that travels over the event bus.
///
/// Fractions are fixed point: `progress` counts millionths of the whole
/// morph, `phase` millionths of a beat, `tempo` thousandths of a beat per
/// minute.
#[derive(Clone, Debug, PartialEq, Eq)]
pub enum Event {
    PadPressed { pad: u8, velocity: u8 },
    PadReleased { pad: u8, velocity: u8 },
    CCValueChanged { param_id: usize, value: u8 },
    BeatOccurred { beat: u32, phase: u64 },
    BarOccurred { bar: u32 },
    SnapSelected { bank: usize, snap_id: usize },
    ParameterEdited { param_id: usize, value: u8 },
    BankSelected { bank_id: usize },
    GenerateAIValues { bank_id: usize, snap_id: usize },
    AIGenerationCompleted { bank_id: usize, snap_id: usize, values: Vec<u8> },
    AIGenerationFailed { bank_id: usize, snap_id: usize, error: String },
    MorphInitiated {
        from_snap: usize,
        to_snap: usize,
        duration_bars: u8,
        curve_type: MorphCurve,
        quantize: bool,
    },
    MorphProgressed { progress: u32, current_values: Vec<u8> },
    MorphCompleted,
    ProjectLoaded,
    ProjectSaved,
    Shutdown,
    LinkStatusChanged { connected: bool, peers: usize },
    LinkTempoChanged { tempo: u32 },
    LinkTransportChanged { playing: bool },
    RequestLinkStatus,
    RequestLinkTempo,
    RequestNextBarTime,
    NextBarTime { wait_time_ms: u64 },
    RequestUpdateLEDs,
}

/// An [`Event`] as a mathematical value.
pub enum EventView {
    PadPressed { pad: u8, velocity: u8 },
    PadReleased { pad: u8, velocity: u8 },
    CCValueChanged { param_id: usize, value: u8 },
    BeatOccurred { beat: u32, phase: u64 },
    BarOccurred { bar: u32 },
    SnapSelected { bank: usize, snap_id: usize },
    ParameterEdited { param_id: usize, value: u8 },
    BankSelected { bank_id: usize },
    GenerateAIValues { bank_id: usize, snap_id: usize },
    AIGenerationCompleted { bank_id: usize, snap_id: usize, values: Seq<u8> },
    AIGenerationFailed { bank_id: usize, snap_id: usize, error: Seq<char> },
    MorphInitiated {
        from_snap: usize,
        to_snap: usize,
        duration_bars: u8,
        curve_type: MorphCurve,
        quantize: bool,
    },
    MorphProgressed { progress: u32, current_values: Seq<u8> },
    MorphCompleted,
    ProjectLoaded,
    ProjectSaved,
    Shutdown,
    LinkStatusChanged { connected: bool, peers: usize },
    LinkTempoChanged { tempo: u32 },
    LinkTransportChanged { playing: bool },
    RequestLinkStatus,
    RequestLinkTempo,
    RequestNextBarTime,
    NextBarTime { wait_time_ms: u64 },
    RequestUpdateLEDs,
}

impl View for Event {
    type V = EventView;

    open spec fn view(&self) -> EventView {
        match *self {
            Event::PadPressed { pad, velocity } => EventView::PadPressed { pad, velocity },
            Event::PadReleased { pad, velocity } => EventView::PadReleased { pad, velocity },
            Event::CCValueChanged { param_id, value } => EventView::CCValueChanged {
                param_id,
                value,
            },
            Event::BeatOccurred { beat, phase } => EventView::BeatOccurred { beat, phase },
            Event::BarOccurred { bar } => EventView::BarOccurred { bar },
            Event::SnapSelected { bank, snap_id } => EventView::SnapSelected { bank, snap_id },
            Event::ParameterEdited { param_id, value } => EventView::ParameterEdited {
                param_id,
                value,
            },
            Event::BankSelected { bank_id } => EventView::BankSelected { bank_id },
            Event::GenerateAIValues { bank_id, snap_id } => EventView::GenerateAIValues {
                bank_id,
                snap_id,
            },
            Event::AIGenerationCompleted { bank_id, snap_id, values } => {
                EventView::AIGenerationCompleted { bank_id, snap_id, values: values@ }
            },
            Event::AIGenerationFailed { bank_id, snap_id, error } => {
                EventView::AIGenerationFailed { bank_id, snap_id, error: error@ }
            },
            Event::MorphInitiated { from_snap, to_snap, duration_bars, curve_type, quantize } => {
                EventView::MorphInitiated { from_snap, to_snap, duration_bars, curve_type, quantize }
            },
            Event::MorphProgressed { progress, current_values } => EventView::MorphProgressed {
                progress,
                current_values: current_values@,
            },
            Event::MorphCompleted => EventView::MorphCompleted,
            Event::ProjectLoaded => EventView::ProjectLoaded,
            Event::ProjectSaved => EventView::ProjectSaved,
            Event::Shutdown => EventView::Shutdown,
            Event::LinkStatusChanged { connected, peers } => EventView::LinkStatusChanged {
                connected,
                peers,
            },
            Event::LinkTempoChanged { tempo } => EventView::LinkTempoChanged { tempo },
            Event::LinkTransportChanged { playing } => EventView::LinkTransportChanged { playing },
            Event::RequestLinkStatus => EventView::RequestLinkStatus,
            Event::RequestLinkTempo => EventView::RequestLinkTempo,
            Event::RequestNextBarTime => EventView::RequestNextBarTime,
            Event::NextBarTime { wait_time_ms } => EventView::NextBarTime { wait_time_ms },
            Event::RequestUpdateLEDs => EventView::RequestUpdateLEDs,
        }
    }
}

impl EventView {
    /// The name under which an event is logged.
    pub open spec fn kind_name(self) -> Seq<char> {
        match self {
            EventView::PadPressed { .. } => "PadPressed"@,
            EventView::PadReleased { .. } => "PadReleased"@,
            EventView::CCValueChanged { .. } => "CCValueChanged"@,
            EventView::BeatOccurred { .. } => "BeatOccurred"@,
            EventView::BarOccurred { .. } => "BarOccurred"@,
            EventView::SnapSelected { .. } => "SnapSelected"@,
            EventView::ParameterEdited { .. } => "ParameterEdited"@,
            EventView::BankSelected { .. } => "BankSelected"@,
            EventView::GenerateAIValues { .. } => "GenerateAIValues"@,
            EventView::AIGenerationCompleted { .. } => "AIGenerationCompleted"@,
            EventView::AIGenerationFailed { .. } => "AIGenerationFailed"@,
            EventView::MorphInitiated { .. } => "MorphInitiated"@,
            EventView::MorphProgressed { .. } => "MorphProgressed"@,
            EventView::MorphCompleted => "MorphCompleted"@,
            EventView::ProjectLoaded => "ProjectLoaded"@,
            EventView::ProjectSaved => "ProjectSaved"@,
            EventView::Shutdown => "Shutdown"@,
            EventView::LinkStatusChanged { .. } => "LinkStatusChanged"@,
            EventView::LinkTempoChanged { .. } => "LinkTempoChanged"@,
            EventView::LinkTransportChanged { .. } => "LinkTransportChanged"@,
            EventView::RequestLinkStatus => "RequestLinkStatus"@,
            EventView::RequestLinkTempo => "RequestLinkTempo"@,
            EventView::RequestNextBarTime => "RequestNextBarTime"@,
            EventView::NextBarTime { .. } => "NextBarTime"@,
            EventView::RequestUpdateLEDs => "RequestUpdateLEDs"@,
        }
    }

    /// Whether a subscriber under load must still see this event.
    pub open spec fn high_priority(self) -> bool {
        self is PadPressed || self is ParameterEdited || self is CCValueChanged || self is Shutdown
    }
}

impl Event {
    /// A short name of the event's kind.
    pub fn event_type(&self) -> (name: &'static str)
        ensures
            name@ == self@.kind_name(),
    {
        match self {
            Event::PadPressed { .. } => "PadPressed",
            Event::PadReleased { .. } => "PadReleased",
            Event::CCValueChanged { .. } => "CCValueChanged",
            Event::BeatOccurred { .. } => "BeatOccurred",
            Event::BarOccurred { .. } => "BarOccurred",
            Event::SnapSelected { .. } => "SnapSelected",
            Event::ParameterEdited { .. } => "ParameterEdited",
            Event::BankSelected { .. } => "BankSelected",
            Event::GenerateAIValues { .. } => "GenerateAIValues",
            Event::AIGenerationCompleted { .. } => "AIGenerationCompleted",
            Event::AIGenerationFailed { .. } => "AIGenerationFailed",
            Event::MorphInitiated { .. } => "MorphInitiated",
            Event::MorphProgressed { .. } => "MorphProgressed",
            Event::MorphCompleted => "MorphCompleted",
            Event::ProjectLoaded => "ProjectLoaded",
            Event::ProjectSaved => "ProjectSaved",
            Event::Shutdown => "Shutdown",
            Event::LinkStatusChanged { .. } => "LinkStatusChanged",
            Event::LinkTempoChanged { .. } => "LinkTempoChanged",
            Event::LinkTransportChanged { .. } => "LinkTransportChanged",
            Event::RequestLinkStatus => "RequestLinkStatus",
            Event::RequestLinkTempo => "RequestLinkTempo",
            Event::RequestNextBarTime => "RequestNextBarTime",
            Event::NextBarTime { .. } => "NextBarTime",
            Event::RequestUpdateLEDs => "RequestUpdateLEDs",
        }
    }

    /// True for pad presses, parameter edits, CC changes and shutdown.
    pub fn is_high_priority(&self) -> (high: bool)
        ensures
            high == self@.high_priority(),
    {
        match self {
            Event::PadPressed { .. } => true,
            Event::ParameterEdited { .. } => true,
            Event::CCValueChanged { .. } => true,
            Event::Shutdown => true,
            _ => false,
        }
    }
}

/// The views of a run of events, in order.
pub open spec fn events_view(events: Seq<Event>) -> Seq<EventView> {
    events.map_values(|e: Event| e@)
}

} // verus!
