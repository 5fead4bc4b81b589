use crate::curve::{
    apply_curve, curved, effective_tempo, interpolate_values, interpolated_values, morph_micros,
    morph_total_micros, progress_at, progress_of, tempo_or_default, value_at, value_or_default,
};
use crate::effects::{effects_view, lemma_effects_view_push, published, Effect, EffectView};
use crate::events::{Event, EventView, MorphCurve};
use crate::model::{
    overlaid, overlay_values, pad_values, padded, ActiveMorph, ActiveMorphView, ProjectState,
    StateView, PROGRESS_ONE,
};
use vstd::prelude::*;

verus! {

/// How long the engine waits for an answer of the tempo clock.
pub const REPLY_TIMEOUT_MS: u64 = 200;

/// The time between two steps of a running morph: thirty steps a second.
pub const TICK_INTERVAL_MS: u64 = 33;

/// Where the morph engine stands.
#[derive(Clone, Copy, Debug, PartialEq, Eq, Structural)]
pub enum EnginePhase {
    /// No morph in flight.
    Idle,
    /// Quantizing: asked the tempo clock whether it has peers.
    AwaitingStatus,
    /// Quantizing: asked the tempo clock for the time to the next bar.
    AwaitingBarTime,
    /// Quantizing: waiting for the bar to begin.
    WaitingForBar,
    /// Asked the tempo clock for the tempo.
    AwaitingTempo,
    /// Stepping from the first snap's values to the second's.
    Running,
    /// Shut down; nothing is handled any more.
    Terminated,
}

/// The morph that the engine has in flight: its own copy of what it morphs
/// between, taken when the morph began.
#[derive(Debug, PartialEq, Eq)]
pub struct MorphTask {
    pub from_snap: usize,
    pub to_snap: usize,
    pub duration_bars: u8,
    pub curve: MorphCurve,
    pub quantize: bool,
    /// The number of parameters when the morph began.
    pub param_count: usize,
    pub from_values: Vec<u8>,
    pub to_values: Vec<u8>,
    /// The value last published for each parameter.
    pub last_sent: Vec<u8>,
    /// The morph's length; fixed when it starts to run.
    pub total_micros: u64,
}

/// The engine that carries out one morph at a time.
#[derive(Debug, PartialEq, Eq)]
pub struct MorphEngine {
    pub phase: EnginePhase,
    pub task: Option<MorphTask>,
}

pub struct TaskView {
    pub from_snap: usize,
    pub to_snap: usize,
    pub duration_bars: u8,
    pub curve: MorphCurve,
    pub quantize: bool,
    pub param_count: usize,
    pub from_values: Seq<u8>,
    pub to_values: Seq<u8>,
    pub last_sent: Seq<u8>,
    pub total_micros: u64,
}

pub struct EngineView {
    pub phase: EnginePhase,
    pub task: Option<TaskView>,
}

impl View for MorphTask {
    type V = TaskView;

    open spec fn view(&self) -> TaskView {
        TaskView {
            from_snap: self.from_snap,
            to_snap: self.to_snap,
            duration_bars: self.duration_bars,
            curve: self.curve,
            quantize: self.quantize,
            param_count: self.param_count,
            from_values: self.from_values@,
            to_values: self.to_values@,
            last_sent: self.last_sent@,
            total_micros: self.total_micros,
        }
    }
}

impl View for MorphEngine {
    type V = EngineView;

    open spec fn view(&self) -> EngineView {
        EngineView {
            phase: self.phase,
            task: match self.task {
                Some(task) => Some(task@),
                None => None,
            },
        }
    }
}

/// The first `n` of `values`, the mid-point where there are fewer.
pub open spec fn snapshot(values: Seq<u8>, n: nat) -> Seq<u8> {
    Seq::new(n, |i: int| value_or_default(values, i))
}

/// Whether parameter `i` has to be published again: it has a value that
/// differs from the one last sent.
pub open spec fn changed_at(last_sent: Seq<u8>, values: Seq<u8>, i: int) -> bool {
    0 <= i < values.len() && (i >= last_sent.len() || last_sent[i] != values[i])
}

/// The CC changes among the first `n` parameters, in parameter order.
pub open spec fn cc_changes_upto(last_sent: Seq<u8>, values: Seq<u8>, n: nat) -> Seq<EventView>
    decreases n,
{
    if n == 0 {
        Seq::empty()
    } else {
        let before = cc_changes_upto(last_sent, values, (n - 1) as nat);
        if changed_at(last_sent, values, n - 1) {
            before.push(
                EventView::CCValueChanged { param_id: (n - 1) as usize, value: values[n - 1] },
            )
        } else {
            before
        }
    }
}

/// One `CCValueChanged` for every parameter whose value differs from the one
/// last sent, in parameter order.
pub open spec fn cc_changes(last_sent: Seq<u8>, values: Seq<u8>) -> Seq<EventView> {
    cc_changes_upto(last_sent, values, values.len())
}

impl EngineView {
    pub open spec fn idle() -> EngineView {
        EngineView { phase: EnginePhase::Idle, task: None }
    }

    /// Whether a morph is in flight.
    pub open spec fn busy(self) -> bool {
        self.task is Some && !(self.phase is Idle) && !(self.phase is Terminated)
    }

    /// The coarse state: no morph, quantizing, running, or shut down.
    pub open spec fn quantizing(self) -> bool {
        self.phase is AwaitingStatus || self.phase is AwaitingBarTime || self.phase
            is WaitingForBar || self.phase is AwaitingTempo
    }
}

/// Whether a morph between snaps `from` and `to` of the current bank can
/// begin: the bank and both snaps exist.
pub open spec fn morph_valid(s: StateView, from: usize, to: usize) -> bool {
    s.bank_in_range() && from < s.project.banks[s.current_bank as int].snaps.len() && to
        < s.project.banks[s.current_bank as int].snaps.len()
}

/// The task of a morph that begins now.
pub open spec fn new_task(
    s: StateView,
    from: usize,
    to: usize,
    bars: u8,
    curve: MorphCurve,
    quantize: bool,
) -> TaskView {
    let n = s.project.parameters.len();
    let snaps = s.project.banks[s.current_bank as int].snaps;
    TaskView {
        from_snap: from,
        to_snap: to,
        duration_bars: bars,
        curve,
        quantize,
        param_count: n as usize,
        from_values: snapshot(snaps[from as int].values, n),
        to_values: snapshot(snaps[to as int].values, n),
        last_sent: snapshot(snaps[from as int].values, n),
        total_micros: 0,
    }
}

/// What the model records of a morph that begins now.
pub open spec fn new_record(task: TaskView) -> ActiveMorphView {
    ActiveMorphView {
        from_snap: task.from_snap,
        to_snap: task.to_snap,
        duration_bars: task.duration_bars,
        curve: task.curve,
        progress: 0,
        from_values: task.from_values,
        to_values: task.to_values,
        current_values: task.from_values,
    }
}

/// The engine asks for the tempo and waits for the answer.
pub open spec fn tempo_requested(e: EngineView) -> (EngineView, Seq<EffectView>) {
    (
        EngineView { phase: EnginePhase::AwaitingTempo, ..e },
        seq![
            EffectView::Publish(EventView::RequestLinkTempo),
            EffectView::AwaitReply { timeout_ms: REPLY_TIMEOUT_MS },
        ],
    )
}

/// A morph is asked for. A morph in flight is given up first. Then, if the
/// current bank has both snaps, the new morph is recorded in the model with
/// the values of both snaps as they are now, and the engine turns to the
/// tempo clock: for the next bar if `quantize`, else for the tempo.
pub open spec fn initiated(
    e: EngineView,
    s: StateView,
    from: usize,
    to: usize,
    bars: u8,
    curve: MorphCurve,
    quantize: bool,
) -> (EngineView, StateView, Seq<EffectView>) {
    if e.phase is Terminated {
        (e, s, Seq::empty())
    } else {
        let stop = if e.busy() {
            seq![EffectView::StopTimers]
        } else {
            Seq::empty()
        };
        if !morph_valid(s, from, to) {
            (EngineView::idle(), s, stop)
        } else {
            let task = new_task(s, from, to, bars, curve, quantize);
            let recorded = StateView { active_morph: Some(new_record(task)), ..s };
            if quantize {
                (
                    EngineView { phase: EnginePhase::AwaitingStatus, task: Some(task) },
                    recorded,
                    stop + seq![
                        EffectView::Publish(EventView::RequestLinkStatus),
                        EffectView::AwaitReply { timeout_ms: REPLY_TIMEOUT_MS },
                    ],
                )
            } else {
                let (asking, ask) = tempo_requested(
                    EngineView { phase: EnginePhase::Idle, task: Some(task) },
                );
                (asking, recorded, stop + ask)
            }
        }
    }
}

/// The tempo clock said whether it has peers. With peers the engine asks
/// for the time to the next bar, without it goes on to the tempo.
pub open spec fn status_replied(e: EngineView, connected: bool) -> (EngineView, Seq<EffectView>) {
    if e.phase is AwaitingStatus && e.task is Some {
        if connected {
            (
                EngineView { phase: EnginePhase::AwaitingBarTime, ..e },
                seq![
                    EffectView::Publish(EventView::RequestNextBarTime),
                    EffectView::AwaitReply { timeout_ms: REPLY_TIMEOUT_MS },
                ],
            )
        } else {
            tempo_requested(e)
        }
    } else {
        (e, Seq::empty())
    }
}

/// The tempo clock said how long it is to the next bar. The engine waits
/// that long, or goes on to the tempo at once if the bar begins now.
pub open spec fn bar_time_replied(e: EngineView, wait_ms: u64) -> (EngineView, Seq<EffectView>) {
    if e.phase is AwaitingBarTime && e.task is Some {
        if wait_ms > 0 {
            (
                EngineView { phase: EnginePhase::WaitingForBar, ..e },
                seq![EffectView::WaitForBar { wait_ms }],
            )
        } else {
            tempo_requested(e)
        }
    } else {
        (e, Seq::empty())
    }
}

/// The morph starts to run at the tempo that the clock gave, or at the
/// default tempo where it gave none.
pub open spec fn started(e: EngineView, reply: Option<u32>) -> (EngineView, Seq<EffectView>) {
    if e.phase is AwaitingTempo && e.task is Some {
        let task = e.task->0;
        (
            EngineView {
                phase: EnginePhase::Running,
                task: Some(
                    TaskView {
                        total_micros: morph_micros(task.duration_bars, tempo_or_default(reply)) as u64,
                        ..task
                    },
                ),
            },
            seq![EffectView::StartTicker { interval_ms: TICK_INTERVAL_MS }],
        )
    } else {
        (e, Seq::empty())
    }
}

/// The engine's timer fired. An answer about the bar that did not come, or
/// the bar that has come, ends quantizing: the engine asks for the tempo. A
/// tempo that did not come starts the morph at the default tempo.
pub open spec fn timer_fired(e: EngineView) -> (EngineView, Seq<EffectView>) {
    if e.task is Some && (e.phase is AwaitingStatus || e.phase is AwaitingBarTime || e.phase
        is WaitingForBar) {
        tempo_requested(e)
    } else {
        started(e, None)
    }
}

/// The model after a morph to `to_snap` came to its end with `values`: the
/// values, padded to the parameters that the project has by now, become the
/// values of that snap of the current bank, if there is one, the snap is
/// selected, and no morph is recorded.
pub open spec fn completed(s: StateView, to_snap: usize, values: Seq<u8>) -> StateView {
    let b = s.current_bank as int;
    StateView {
        project: if s.project.has_snap(b, to_snap as int) {
            let snap = s.project.snap(b, to_snap as int);
            s.project.with_snap(
                b,
                to_snap as int,
                snap.with_values(padded(values, s.project.parameters.len())),
            )
        } else {
            s.project
        },
        current_snap: to_snap,
        active_morph: None,
        ..s
    }
}

/// What a step of a running morph publishes before its end: the CC changes
/// and the progress.
pub open spec fn step_events(task: TaskView, elapsed: u64) -> Seq<EventView> {
    let progress = progress_of(elapsed as int, task.total_micros as int) as u32;
    let values = step_values(task, elapsed);
    cc_changes(task.last_sent, values).push(
        EventView::MorphProgressed { progress, current_values: values },
    )
}

/// The values of a running morph `elapsed` microseconds after its start.
pub open spec fn step_values(task: TaskView, elapsed: u64) -> Seq<u8> {
    interpolated_values(
        task.from_values,
        task.to_values,
        curved(progress_of(elapsed as int, task.total_micros as int), task.curve),
        task.param_count as nat,
    )
}

/// What a morph publishes at its end: a CC change for every parameter that
/// is not at its target yet, the whole progress, and the completion.
pub open spec fn final_events(task: TaskView) -> Seq<EventView> {
    cc_changes(task.last_sent, task.to_values).push(
        EventView::MorphProgressed { progress: PROGRESS_ONE, current_values: task.to_values },
    ).push(EventView::MorphCompleted)
}

/// A tick, `elapsed` microseconds after the morph started to run.
///
/// If the model records no morph any more, the morph was cancelled: the
/// engine gives it up and publishes nothing. If the morph's time is over,
/// the morph ends. Otherwise it takes one step.
pub open spec fn ticked(e: EngineView, s: StateView, elapsed: u64) -> (
    EngineView,
    StateView,
    Seq<EffectView>,
) {
    if e.phase is Running && e.task is Some {
        let task = e.task->0;
        match s.active_morph {
            None => (EngineView::idle(), s, seq![EffectView::StopTimers]),
            Some(record) => if elapsed >= task.total_micros {
                (
                    EngineView::idle(),
                    completed(s, record.to_snap, task.to_values),
                    published(final_events(task)).push(EffectView::StopTimers),
                )
            } else {
                let values = step_values(task, elapsed);
                (
                    EngineView {
                        task: Some(
                            TaskView { last_sent: overlaid(task.last_sent, values), ..task },
                        ),
                        ..e
                    },
                    StateView {
                        active_morph: Some(
                            ActiveMorphView {
                                progress: progress_of(
                                    elapsed as int,
                                    task.total_micros as int,
                                ) as u32,
                                current_values: values,
                                ..record
                            },
                        ),
                        ..s
                    },
                    published(step_events(task, elapsed)),
                )
            },
        }
    } else {
        (e, s, Seq::empty())
    }
}

/// Shutdown: a morph in flight is given up, and nothing is handled any more.
pub open spec fn shut_down(e: EngineView) -> (EngineView, Seq<EffectView>) {
    (
        EngineView { phase: EnginePhase::Terminated, task: None },
        if e.busy() {
            seq![EffectView::StopTimers]
        } else {
            Seq::empty()
        },
    )
}

/// What the engine does with one event from the bus.
pub open spec fn handled(e: EngineView, s: StateView, event: EventView) -> (
    EngineView,
    StateView,
    Seq<EffectView>,
) {
    match event {
        EventView::MorphInitiated { from_snap, to_snap, duration_bars, curve_type, quantize } => {
            initiated(e, s, from_snap, to_snap, duration_bars, curve_type, quantize)
        },
        EventView::LinkStatusChanged { connected, peers } => {
            let (next, effects) = status_replied(e, connected);
            (next, s, effects)
        },
        EventView::NextBarTime { wait_time_ms } => {
            let (next, effects) = bar_time_replied(e, wait_time_ms);
            (next, s, effects)
        },
        EventView::LinkTempoChanged { tempo } => {
            let (next, effects) = started(e, Some(tempo));
            (next, s, effects)
        },
        EventView::Shutdown => {
            let (next, effects) = shut_down(e);
            (next, s, effects)
        },
        _ => (e, s, Seq::empty()),
    }
}

/// The first `n` of `values`, the mid-point where there are fewer.
pub fn take_snapshot(values: &Vec<u8>, n: usize) -> (taken: Vec<u8>)
    ensures
        taken@ == snapshot(values@, n as nat),
{
    let mut taken: Vec<u8> = Vec::new();
    let mut i: usize = 0;
    while i < n
        invariant
            i <= n,
            taken@.len() == i,
            forall|k: int| 0 <= k < i ==> taken@[k] == value_or_default(values@, k),
        decreases n - i,
    {
        taken.push(value_at(values, i));
        i += 1;
    }
    assert(taken@ =~= snapshot(values@, n as nat));
    taken
}

/// Appends to `effects` one `CCValueChanged` for every parameter whose value
/// in `values` differs from the one last sent, in parameter order, and
/// records in `last_sent` what was sent.
pub fn send_morph_cc_values(effects: &mut Vec<Effect>, values: &Vec<u8>, last_sent: &mut Vec<u8>)
    ensures
        effects_view(final(effects)@) == effects_view(old(effects)@) + published(
            cc_changes(old(last_sent)@, values@),
        ),
        final(last_sent)@ == overlaid(old(last_sent)@, values@),
{
    let mut i: usize = 0;
    while i < values.len()
        invariant
            i <= values.len(),
            effects_view(effects@) == effects_view(old(effects)@) + published(
                cc_changes_upto(old(last_sent)@, values@, i as nat),
            ),
        decreases values.len() - i,
    {
        let value = values[i];
        let differs = if i < last_sent.len() {
            last_sent[i] != value
        } else {
            true
        };
        proof {
            assert(differs == changed_at(old(last_sent)@, values@, i as int));
        }
        if differs {
            let ghost before = effects@;
            let change = Event::CCValueChanged { param_id: i, value };
            effects.push(Effect::Publish(change));
            proof {
                lemma_effects_view_push(before, Effect::Publish(change));
                let sofar = cc_changes_upto(old(last_sent)@, values@, i as nat);
                assert(published(sofar.push(change@)) =~= published(sofar).push(
                    EffectView::Publish(change@),
                ));
                assert(effects_view(effects@) =~= effects_view(old(effects)@) + published(
                    cc_changes_upto(old(last_sent)@, values@, (i + 1) as nat),
                ));
            }
        }
        i += 1;
    }
    overlay_values(last_sent, values);
}

/// Appends the publication of one event to `effects`.
fn publish(effects: &mut Vec<Effect>, event: Event)
    ensures
        effects_view(final(effects)@) == effects_view(old(effects)@).push(
            EffectView::Publish(event@),
        ),
{
    proof {
        lemma_effects_view_push(effects@, Effect::Publish(event));
    }
    effects.push(Effect::Publish(event));
}

/// Appends one effect to `effects`.
fn push_effect(effects: &mut Vec<Effect>, effect: Effect)
    ensures
        effects_view(final(effects)@) == effects_view(old(effects)@).push(effect@),
{
    proof {
        lemma_effects_view_push(effects@, effect);
    }
    effects.push(effect);
}

/// Ends the morph that the model records: stores `final_values`, padded to
/// the parameters, as the values of its target snap in the current bank,
/// selects that snap, clears the record, and appends the whole progress and
/// the completion to `effects`. Where the model records no morph, nothing
/// happens.
pub fn complete_morph(state: &mut ProjectState, effects: &mut Vec<Effect>, final_values: &Vec<u8>)
    ensures
        match old(state)@.active_morph {
            Some(record) => {
                &&& final(state)@ == completed(old(state)@, record.to_snap, final_values@)
                &&& effects_view(final(effects)@) == effects_view(old(effects)@).push(
                    EffectView::Publish(
                        EventView::MorphProgressed {
                            progress: PROGRESS_ONE,
                            current_values: final_values@,
                        },
                    ),
                ).push(EffectView::Publish(EventView::MorphCompleted))
            },
            None => final(state)@ == old(state)@ && final(effects)@ == old(effects)@,
        },
{
    let to_snap = match &state.active_morph {
        Some(record) => record.to_snap,
        None => {
            return ;
        },
    };
    let b = state.current_bank;
    state.current_snap = to_snap;
    state.active_morph = None;
    if b < state.project.banks.len() {
        if to_snap < state.project.banks[b].snaps.len() {
            let mut values = final_values.clone();
            pad_values(&mut values, state.project.parameters.len());
            state.project.banks[b].snaps[to_snap].values = values;
        }
    }
    proof {
        let want = completed(old(state)@, to_snap, final_values@);
        if old(state)@.project.has_snap(b as int, to_snap as int) {
            assert(state@.project.banks[b as int].snaps =~= want.project.banks[b as int].snaps);
        }
        assert(state@.project.banks =~= want.project.banks);
        assert(state@.project.parameters =~= want.project.parameters);
    }
    publish(
        effects,
        Event::MorphProgressed { progress: PROGRESS_ONE, current_values: final_values.clone() },
    );
    publish(effects, Event::MorphCompleted);
}

impl MorphEngine {
    /// An engine with no morph in flight.
    pub fn new() -> (engine: MorphEngine)
        ensures
            engine@ == EngineView::idle(),
    {
        MorphEngine { phase: EnginePhase::Idle, task: None }
    }

    /// Whether a morph is in flight.
    pub fn is_busy(&self) -> (busy: bool)
        ensures
            busy == self@.busy(),
    {
        let waiting = match self.phase {
            EnginePhase::Idle => false,
            EnginePhase::Terminated => false,
            _ => true,
        };
        self.task.is_some() && waiting
    }

    /// Turns to the tempo clock for the tempo.
    fn request_tempo(&mut self, effects: &mut Vec<Effect>)
        ensures
            final(self)@ == tempo_requested(old(self)@).0,
            effects_view(final(effects)@) == effects_view(old(effects)@) + tempo_requested(
                old(self)@,
            ).1,
    {
        self.phase = EnginePhase::AwaitingTempo;
        publish(effects, Event::RequestLinkTempo);
        push_effect(effects, Effect::AwaitReply { timeout_ms: REPLY_TIMEOUT_MS });
        assert(effects_view(effects@) =~= effects_view(old(effects)@) + tempo_requested(
            old(self)@,
        ).1);
    }

    /// Begins a morph from snap `from_snap` to snap `to_snap` of the current
    /// bank. A morph in flight is given up first.
    pub fn initiate(
        &mut self,
        state: &mut ProjectState,
        from_snap: usize,
        to_snap: usize,
        duration_bars: u8,
        curve: MorphCurve,
        quantize: bool,
    ) -> (effects: Vec<Effect>)
        ensures
            final(self)@ == initiated(
                old(self)@,
                old(state)@,
                from_snap,
                to_snap,
                duration_bars,
                curve,
                quantize,
            ).0,
            final(state)@ == initiated(
                old(self)@,
                old(state)@,
                from_snap,
                to_snap,
                duration_bars,
                curve,
                quantize,
            ).1,
            effects_view(effects@) == initiated(
                old(self)@,
                old(state)@,
                from_snap,
                to_snap,
                duration_bars,
                curve,
                quantize,
            ).2,
    {
        let ghost want = initiated(
            old(self)@,
            old(state)@,
            from_snap,
            to_snap,
            duration_bars,
            curve,
            quantize,
        );
        let mut effects: Vec<Effect> = Vec::new();
        if let EnginePhase::Terminated = self.phase {
            assert(effects_view(effects@) =~= want.2);
            return effects;
        }
        if self.is_busy() {
            push_effect(&mut effects, Effect::StopTimers);
        }
        let ghost stop = effects_view(effects@);
        assert(stop =~= if old(self)@.busy() {
            seq![EffectView::StopTimers]
        } else {
            Seq::empty()
        });
        let b = state.current_bank;
        let valid = b < state.project.banks.len() && from_snap < state.project.banks[b].snaps.len()
            && to_snap < state.project.banks[b].snaps.len();
        if !valid {
            self.phase = EnginePhase::Idle;
            self.task = None;
            return effects;
        }
        let n = state.project.parameters.len();
        let from_values = take_snapshot(&state.project.banks[b].snaps[from_snap].values, n);
        let to_values = take_snapshot(&state.project.banks[b].snaps[to_snap].values, n);
        let task = MorphTask {
            from_snap,
            to_snap,
            duration_bars,
            curve,
            quantize,
            param_count: n,
            from_values: from_values.clone(),
            to_values: to_values.clone(),
            last_sent: from_values.clone(),
            total_micros: 0,
        };
        proof {
            let t = new_task(old(state)@, from_snap, to_snap, duration_bars, curve, quantize);
            assert(task@.from_values =~= t.from_values);
            assert(task@.to_values =~= t.to_values);
            assert(task@.last_sent =~= t.last_sent);
            assert(task@ == t);
        }
        let current_values = from_values.clone();
        state.active_morph = Some(
            ActiveMorph {
                from_snap,
                to_snap,
                duration_bars,
                curve,
                progress: 0,
                from_values,
                to_values,
                current_values,
            },
        );
        self.task = Some(task);
        if quantize {
            self.phase = EnginePhase::AwaitingStatus;
            publish(&mut effects, Event::RequestLinkStatus);
            push_effect(&mut effects, Effect::AwaitReply { timeout_ms: REPLY_TIMEOUT_MS });
            assert(effects_view(effects@) =~= want.2);
        } else {
            self.phase = EnginePhase::Idle;
            self.request_tempo(&mut effects);
            assert(effects_view(effects@) =~= want.2);
        }
        effects
    }

    /// Takes the tempo clock's word on whether it has peers.
    pub fn on_link_status(&mut self, connected: bool) -> (effects: Vec<Effect>)
        ensures
            final(self)@ == status_replied(old(self)@, connected).0,
            effects_view(effects@) == status_replied(old(self)@, connected).1,
    {
        let mut effects: Vec<Effect> = Vec::new();
        let awaiting = match self.phase {
            EnginePhase::AwaitingStatus => true,
            _ => false,
        };
        if awaiting && self.task.is_some() {
            if connected {
                self.phase = EnginePhase::AwaitingBarTime;
                publish(&mut effects, Event::RequestNextBarTime);
                push_effect(&mut effects, Effect::AwaitReply { timeout_ms: REPLY_TIMEOUT_MS });
            } else {
                self.request_tempo(&mut effects);
            }
        }
        assert(effects_view(effects@) =~= status_replied(old(self)@, connected).1);
        effects
    }

    /// Takes the tempo clock's word on the time to the next bar.
    pub fn on_next_bar_time(&mut self, wait_time_ms: u64) -> (effects: Vec<Effect>)
        ensures
            final(self)@ == bar_time_replied(old(self)@, wait_time_ms).0,
            effects_view(effects@) == bar_time_replied(old(self)@, wait_time_ms).1,
    {
        let mut effects: Vec<Effect> = Vec::new();
        let awaiting = match self.phase {
            EnginePhase::AwaitingBarTime => true,
            _ => false,
        };
        if awaiting && self.task.is_some() {
            if wait_time_ms > 0 {
                self.phase = EnginePhase::WaitingForBar;
                push_effect(&mut effects, Effect::WaitForBar { wait_ms: wait_time_ms });
            } else {
                self.request_tempo(&mut effects);
            }
        }
        assert(effects_view(effects@) =~= bar_time_replied(old(self)@, wait_time_ms).1);
        effects
    }

    /// Starts the morph running at the tempo `reply`, in thousandths of a
    /// beat per minute, or at the default tempo where there is none.
    pub fn on_tempo(&mut self, reply: Option<u32>) -> (effects: Vec<Effect>)
        ensures
            final(self)@ == started(old(self)@, reply).0,
            effects_view(effects@) == started(old(self)@, reply).1,
    {
        let mut effects: Vec<Effect> = Vec::new();
        let awaiting = match self.phase {
            EnginePhase::AwaitingTempo => true,
            _ => false,
        };
        if awaiting {
            match &mut self.task {
                Some(task) => {
                    task.total_micros = morph_total_micros(
                        task.duration_bars,
                        effective_tempo(reply),
                    );
                    self.phase = EnginePhase::Running;
                    push_effect(&mut effects, Effect::StartTicker { interval_ms: TICK_INTERVAL_MS });
                },
                None => {},
            }
        }
        assert(effects_view(effects@) =~= started(old(self)@, reply).1);
        effects
    }

    /// Takes note that the engine's timer fired.
    pub fn on_timer(&mut self) -> (effects: Vec<Effect>)
        ensures
            final(self)@ == timer_fired(old(self)@).0,
            effects_view(effects@) == timer_fired(old(self)@).1,
    {
        let quantizing = match self.phase {
            EnginePhase::AwaitingStatus => true,
            EnginePhase::AwaitingBarTime => true,
            EnginePhase::WaitingForBar => true,
            _ => false,
        };
        if quantizing && self.task.is_some() {
            let mut effects: Vec<Effect> = Vec::new();
            self.request_tempo(&mut effects);
            assert(effects_view(effects@) =~= timer_fired(old(self)@).1);
            effects
        } else {
            self.on_tempo(None)
        }
    }

    /// Takes one tick of a running morph, `elapsed_micros` after it started
    /// to run.
    pub fn on_tick(&mut self, state: &mut ProjectState, elapsed_micros: u64) -> (effects: Vec<
        Effect,
    >)
        ensures
            final(self)@ == ticked(old(self)@, old(state)@, elapsed_micros).0,
            final(state)@ == ticked(old(self)@, old(state)@, elapsed_micros).1,
            effects_view(effects@) == ticked(old(self)@, old(state)@, elapsed_micros).2,
    {
        let ghost want = ticked(old(self)@, old(state)@, elapsed_micros);
        let mut effects: Vec<Effect> = Vec::new();
        let running = match self.phase {
            EnginePhase::Running => true,
            _ => false,
        };
        if !running || self.task.is_none() {
            assert(effects_view(effects@) =~= want.2);
            return effects;
        }
        if state.active_morph.is_none() {
            self.phase = EnginePhase::Idle;
            self.task = None;
            push_effect(&mut effects, Effect::StopTimers);
            assert(effects_view(effects@) =~= want.2);
            return effects;
        }
        let mut task = match self.task.take() {
            Some(task) => task,
            None => {
                return effects;
            },
        };
        let ghost before = task@;
        if elapsed_micros >= task.total_micros {
            send_morph_cc_values(&mut effects, &task.to_values, &mut task.last_sent);
            complete_morph(state, &mut effects, &task.to_values);
            push_effect(&mut effects, Effect::StopTimers);
            self.phase = EnginePhase::Idle;
            proof {
                let changes = cc_changes(before.last_sent, before.to_values);
                let progress = EventView::MorphProgressed {
                    progress: PROGRESS_ONE,
                    current_values: before.to_values,
                };
                assert(published(changes.push(progress).push(EventView::MorphCompleted))
                    =~= published(changes).push(EffectView::Publish(progress)).push(
                    EffectView::Publish(EventView::MorphCompleted),
                ));
                assert(effects_view(effects@) =~= want.2);
            }
            return effects;
        }
        let progress = progress_at(elapsed_micros, task.total_micros);
        let eased = apply_curve(progress, task.curve);
        let values = interpolate_values(
            &task.from_values,
            &task.to_values,
            eased,
            task.param_count,
        );
        assert(values@ == step_values(before, elapsed_micros));
        send_morph_cc_values(&mut effects, &values, &mut task.last_sent);
        let current_values = values.clone();
        match &mut state.active_morph {
            Some(record) => {
                record.progress = progress;
                record.current_values = current_values;
            },
            None => {},
        }
        publish(&mut effects, Event::MorphProgressed { progress, current_values: values });
        self.task = Some(task);
        proof {
            let changes = cc_changes(before.last_sent, step_values(before, elapsed_micros));
            let event = EventView::MorphProgressed {
                progress,
                current_values: step_values(before, elapsed_micros),
            };
            assert(published(changes.push(event)) =~= published(changes).push(
                EffectView::Publish(event),
            ));
            assert(effects_view(effects@) =~= want.2);
        }
        effects
    }

    /// Gives up a morph in flight and stops handling anything.
    pub fn shutdown(&mut self) -> (effects: Vec<Effect>)
        ensures
            final(self)@ == shut_down(old(self)@).0,
            effects_view(effects@) == shut_down(old(self)@).1,
    {
        let mut effects: Vec<Effect> = Vec::new();
        if self.is_busy() {
            push_effect(&mut effects, Effect::StopTimers);
        }
        self.phase = EnginePhase::Terminated;
        self.task = None;
        assert(effects_view(effects@) =~= shut_down(old(self)@).1);
        effects
    }

    /// Handles one event from the bus: a morph that is asked for, the tempo
    /// clock's answers, and shutdown. Every other event is left alone.
    pub fn handle_event(&mut self, state: &mut ProjectState, event: &Event) -> (effects: Vec<
        Effect,
    >)
        ensures
            final(self)@ == handled(old(self)@, old(state)@, event@).0,
            final(state)@ == handled(old(self)@, old(state)@, event@).1,
            effects_view(effects@) == handled(old(self)@, old(state)@, event@).2,
    {
        match event {
            Event::MorphInitiated { from_snap, to_snap, duration_bars, curve_type, quantize } => {
                self.initiate(state, *from_snap, *to_snap, *duration_bars, *curve_type, *quantize)
            },
            Event::LinkStatusChanged { connected, peers } => self.on_link_status(*connected),
            Event::NextBarTime { wait_time_ms } => self.on_next_bar_time(*wait_time_ms),
            Event::LinkTempoChanged { tempo } => self.on_tempo(Some(*tempo)),
            Event::Shutdown => self.shutdown(),
            _ => {
                let effects: Vec<Effect> = Vec::new();
                assert(effects_view(effects@) =~= handled(old(self)@, old(state)@, event@).2);
                effects
            },
        }
    }
}

} // verus!
