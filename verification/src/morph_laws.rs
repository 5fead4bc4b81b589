use crate::curve::{
    curved, lemma_curved_in_range, lemma_curved_monotonic, lemma_interpolated_constant,
    lemma_interpolated_monotonic, lemma_progress_in_range, lemma_progress_monotonic, progress_of,
};
use crate::effects::{published, EffectView};
use crate::events::{EventView, MorphCurve};
use crate::model::{overlaid, StateView, MAX_U7, PROGRESS_ONE};
use crate::morph::{
    cc_changes, cc_changes_upto, changed_at, final_events, initiated, morph_valid, new_record,
    new_task, step_events, step_values, ticked, EngineView, TaskView,
};
use vstd::prelude::*;

verus! {

/// The value that `effect` publishes for parameter `i`, if it is a CC change
/// of that parameter.
pub open spec fn cc_value_for(effect: EffectView, i: usize) -> Option<u8> {
    match effect {
        EffectView::Publish(EventView::CCValueChanged { param_id, value }) => if param_id == i {
            Some(value)
        } else {
            None
        },
        _ => None,
    }
}

/// The value of the last CC change of parameter `i` among `effects`.
pub open spec fn last_cc(effects: Seq<EffectView>, i: usize) -> Option<u8>
    decreases effects.len(),
{
    if effects.len() == 0 {
        None
    } else {
        match cc_value_for(effects.last(), i) {
            Some(value) => Some(value),
            None => last_cc(effects.drop_last(), i),
        }
    }
}

/// The later of two answers to "what was sent last".
pub open spec fn or_earlier(later: Option<u8>, earlier: Option<u8>) -> Option<u8> {
    match later {
        Some(value) => Some(value),
        None => earlier,
    }
}

/// What a run of ticks does, one after the other, each `ticks[k]`
/// microseconds after the morph started to run, with nobody else touching
/// the model in between.
pub open spec fn ticked_all(e: EngineView, s: StateView, ticks: Seq<u64>) -> (
    EngineView,
    StateView,
    Seq<EffectView>,
)
    decreases ticks.len(),
{
    if ticks.len() == 0 {
        (e, s, Seq::empty())
    } else {
        let first = ticked(e, s, ticks[0]);
        let rest = ticked_all(first.0, first.1, ticks.drop_first());
        (rest.0, rest.1, first.2 + rest.2)
    }
}

/// Whether one of the ticks comes at or after the morph's end.
pub open spec fn reaches_end(ticks: Seq<u64>, total: u64) -> bool {
    exists|k: int| 0 <= k < ticks.len() && #[trigger] ticks[k] >= total
}

/// A task as it is when its morph starts to run: every vector has one value
/// per parameter, and what was last sent is what the morph starts from.
pub open spec fn fresh(task: TaskView) -> bool {
    &&& task.from_values.len() == task.param_count
    &&& task.to_values.len() == task.param_count
    &&& task.last_sent == task.from_values
}

/// A task in the middle of its run: every vector has one value per
/// parameter.
pub open spec fn sized(task: TaskView) -> bool {
    &&& task.from_values.len() == task.param_count
    &&& task.to_values.len() == task.param_count
    &&& task.last_sent.len() == task.param_count
}

/// An engine that runs `task` on a model that records a morph.
pub open spec fn running(e: EngineView, s: StateView, task: TaskView) -> bool {
    e.phase is Running && e.task == Some(task) && s.active_morph is Some
}

/// No effect is a CC change of parameter `i` exactly if there is no last one.
pub proof fn lemma_last_cc_none(effects: Seq<EffectView>, i: usize)
    ensures
        last_cc(effects, i) is None <==> forall|k: int|
            0 <= k < effects.len() ==> cc_value_for(#[trigger] effects[k], i) is None,
    decreases effects.len(),
{
    if effects.len() > 0 {
        lemma_last_cc_none(effects.drop_last(), i);
        if last_cc(effects, i) is None {
            assert forall|k: int| 0 <= k < effects.len() implies cc_value_for(
                #[trigger] effects[k],
                i,
            ) is None by {
                if k < effects.len() - 1 {
                    assert(effects.drop_last()[k] == effects[k]);
                }
            }
        } else {
            if cc_value_for(effects.last(), i) is None {
                let k = choose|k: int|
                    0 <= k < effects.drop_last().len() && !(cc_value_for(
                        #[trigger] effects.drop_last()[k],
                        i,
                    ) is None);
                assert(effects[k] == effects.drop_last()[k]);
            }
        }
    }
}

/// The last CC change of two runs in a row is the second run's, or the
/// first's where the second has none.
pub proof fn lemma_last_cc_concat(a: Seq<EffectView>, b: Seq<EffectView>, i: usize)
    ensures
        last_cc(a + b, i) == or_earlier(last_cc(b, i), last_cc(a, i)),
    decreases b.len(),
{
    if b.len() == 0 {
        assert(a + b =~= a);
    } else {
        assert((a + b).last() == b.last());
        assert((a + b).drop_last() =~= a + b.drop_last());
        lemma_last_cc_concat(a, b.drop_last(), i);
    }
}

/// Appending an effect that is no CC change of parameter `i` leaves the
/// last one as it was.
pub proof fn lemma_last_cc_push_other(a: Seq<EffectView>, effect: EffectView, i: usize)
    requires
        cc_value_for(effect, i) is None,
    ensures
        last_cc(a.push(effect), i) == last_cc(a, i),
{
    assert(a.push(effect).drop_last() =~= a);
}

/// Among the CC changes of the first `n` parameters, the one of parameter
/// `i` is there exactly if `i` is among them and its value changed.
pub proof fn lemma_last_cc_of_changes(last_sent: Seq<u8>, values: Seq<u8>, n: nat, i: usize)
    requires
        n <= values.len() <= usize::MAX,
    ensures
        last_cc(published(cc_changes_upto(last_sent, values, n)), i) == if i < n && changed_at(
            last_sent,
            values,
            i as int,
        ) {
            Some(values[i as int])
        } else {
            None
        },
    decreases n,
{
    if n == 0 {
    } else {
        let before = cc_changes_upto(last_sent, values, (n - 1) as nat);
        lemma_last_cc_of_changes(last_sent, values, (n - 1) as nat, i);
        if changed_at(last_sent, values, n - 1) {
            let change = EventView::CCValueChanged {
                param_id: (n - 1) as usize,
                value: values[n - 1],
            };
            assert(published(before.push(change)) =~= published(before).push(
                EffectView::Publish(change),
            ));
            assert(published(before).push(EffectView::Publish(change)).drop_last() =~= published(
                before,
            ));
        }
    }
}

/// What one step before the end says last about parameter `i`: its new
/// value if that differs from the one last sent, else nothing.
pub proof fn lemma_last_cc_of_step(task: TaskView, elapsed: u64, i: usize)
    requires
        sized(task),
        i < task.param_count,
    ensures
        last_cc(published(step_events(task, elapsed)), i) == if task.last_sent[i as int]
            != step_values(task, elapsed)[i as int] {
            Some(step_values(task, elapsed)[i as int])
        } else {
            None
        },
{
    let values = step_values(task, elapsed);
    let changes = cc_changes(task.last_sent, values);
    let progress = EventView::MorphProgressed {
        progress: progress_of(elapsed as int, task.total_micros as int) as u32,
        current_values: values,
    };
    lemma_last_cc_of_changes(task.last_sent, values, values.len(), i);
    assert(published(changes.push(progress)) =~= published(changes).push(
        EffectView::Publish(progress),
    ));
    lemma_last_cc_push_other(published(changes), EffectView::Publish(progress), i);
}

/// What the end of a morph says last about parameter `i`: its target if
/// that differs from the one last sent, else nothing.
pub proof fn lemma_last_cc_of_end(task: TaskView, i: usize)
    requires
        sized(task),
        i < task.param_count,
    ensures
        last_cc(published(final_events(task)).push(EffectView::StopTimers), i)
            == if task.last_sent[i as int] != task.to_values[i as int] {
            Some(task.to_values[i as int])
        } else {
            None
        },
{
    let changes = cc_changes(task.last_sent, task.to_values);
    let progress = EventView::MorphProgressed {
        progress: PROGRESS_ONE,
        current_values: task.to_values,
    };
    lemma_last_cc_of_changes(task.last_sent, task.to_values, task.to_values.len(), i);
    assert(published(changes.push(progress).push(EventView::MorphCompleted)) =~= published(
        changes,
    ).push(EffectView::Publish(progress)).push(EffectView::Publish(EventView::MorphCompleted)));
    lemma_last_cc_push_other(published(changes), EffectView::Publish(progress), i);
    lemma_last_cc_push_other(
        published(changes).push(EffectView::Publish(progress)),
        EffectView::Publish(EventView::MorphCompleted),
        i,
    );
    lemma_last_cc_push_other(published(final_events(task)), EffectView::StopTimers, i);
}

/// An engine without a running morph does nothing on a tick.
pub proof fn lemma_idle_ticks_are_silent(e: EngineView, s: StateView, ticks: Seq<u64>)
    requires
        !(e.phase is Running) || e.task is None,
    ensures
        ticked_all(e, s, ticks) == (e, s, Seq::<EffectView>::empty()),
    decreases ticks.len(),
{
    if ticks.len() > 0 {
        lemma_idle_ticks_are_silent(e, s, ticks.drop_first());
        assert(Seq::<EffectView>::empty() + Seq::<EffectView>::empty() =~= Seq::<
            EffectView,
        >::empty());
    }
}

/// Between equal values of a valid snap, a step leaves the value where it is.
pub proof fn lemma_step_keeps_constant(task: TaskView, elapsed: u64, i: usize)
    requires
        sized(task),
        i < task.param_count,
        task.from_values[i as int] == task.to_values[i as int],
        task.from_values[i as int] <= MAX_U7,
    ensures
        step_values(task, elapsed)[i as int] == task.from_values[i as int],
{
    let c = curved(progress_of(elapsed as int, task.total_micros as int), task.curve);
    lemma_interpolated_constant(task.from_values[i as int] as int, c);
}

/// The run of a morph, seen from one parameter. `earlier` is what was said
/// last about parameter `i` before these ticks; what was last sent for it is
/// that value, or the value the morph started from if nothing was said yet.
///
/// Then, over these ticks: if the morph reaches its end and the parameter's
/// two values differ, the last thing said is the target; and if the two
/// values are equal and valid and nothing was said before, nothing is said.
pub proof fn lemma_run_of_parameter(
    e: EngineView,
    s: StateView,
    task: TaskView,
    ticks: Seq<u64>,
    i: usize,
    earlier: Option<u8>,
)
    requires
        running(e, s, task),
        sized(task),
        i < task.param_count,
        task.last_sent[i as int] == match earlier {
            Some(value) => value,
            None => task.from_values[i as int],
        },
    ensures
        ({
            let said = or_earlier(last_cc(ticked_all(e, s, ticks).2, i), earlier);
            &&& reaches_end(ticks, task.total_micros) && task.from_values[i as int]
                != task.to_values[i as int] ==> said == Some(task.to_values[i as int])
            &&& task.from_values[i as int] == task.to_values[i as int] && task.from_values[i as int]
                <= MAX_U7 && earlier is None ==> said is None
        }),
    decreases ticks.len(),
{
    if ticks.len() == 0 {
    } else {
        let elapsed = ticks[0];
        let first = ticked(e, s, elapsed);
        let rest = ticked_all(first.0, first.1, ticks.drop_first());
        lemma_last_cc_concat(first.2, rest.2, i);
        if elapsed >= task.total_micros {
            lemma_last_cc_of_end(task, i);
            lemma_idle_ticks_are_silent(first.0, first.1, ticks.drop_first());
        } else {
            let values = step_values(task, elapsed);
            let next = TaskView { last_sent: overlaid(task.last_sent, values), ..task };
            assert(overlaid(task.last_sent, values) =~= values);
            lemma_last_cc_of_step(task, elapsed, i);
            let said_now = or_earlier(last_cc(first.2, i), earlier);
            if task.from_values[i as int] == task.to_values[i as int] && task.from_values[i as int]
                <= MAX_U7 {
                lemma_step_keeps_constant(task, elapsed, i);
            }
            lemma_run_of_parameter(first.0, first.1, next, ticks.drop_first(), i, said_now);
            if reaches_end(ticks, task.total_micros) {
                let k = choose|k: int| 0 <= k < ticks.len() && #[trigger] ticks[k] >= task.total_micros;
                assert(k > 0);
                assert(ticks.drop_first()[k - 1] == ticks[k]);
                assert(reaches_end(ticks.drop_first(), task.total_micros));
            }
        }
    }
}

/// A parameter whose two values are equal gets no CC change at all, however
/// long the morph runs.
pub proof fn lemma_equal_values_stay_silent(
    e: EngineView,
    s: StateView,
    task: TaskView,
    ticks: Seq<u64>,
    i: usize,
)
    requires
        running(e, s, task),
        fresh(task),
        i < task.param_count,
        task.from_values[i as int] == task.to_values[i as int],
        task.from_values[i as int] <= MAX_U7,
    ensures
        forall|k: int|
            0 <= k < ticked_all(e, s, ticks).2.len() ==> cc_value_for(
                #[trigger] ticked_all(e, s, ticks).2[k],
                i,
            ) is None,
{
    lemma_run_of_parameter(e, s, task, ticks, i, None);
    lemma_last_cc_none(ticked_all(e, s, ticks).2, i);
}

/// A parameter whose two values differ ends on its target: the last CC
/// change that a morph publishes for it, once the morph has reached its end,
/// carries the target value.
pub proof fn lemma_last_value_is_target(
    e: EngineView,
    s: StateView,
    task: TaskView,
    ticks: Seq<u64>,
    i: usize,
)
    requires
        running(e, s, task),
        fresh(task),
        i < task.param_count,
        task.from_values[i as int] != task.to_values[i as int],
        reaches_end(ticks, task.total_micros),
    ensures
        last_cc(ticked_all(e, s, ticks).2, i) == Some(task.to_values[i as int]),
{
    lemma_run_of_parameter(e, s, task, ticks, i, None);
}

/// Progress never goes back: of two steps of one morph, the later publishes
/// at least the progress of the earlier, and neither more than the whole,
/// which the end publishes.
pub proof fn lemma_progress_never_decreases(task: TaskView, earlier: u64, later: u64)
    requires
        earlier <= later,
    ensures
        step_events(task, earlier).last() matches EventView::MorphProgressed {
            progress: first,
            ..
        } && step_events(task, later).last() matches EventView::MorphProgressed {
            progress: second,
            ..
        } && first <= second <= PROGRESS_ONE,
{
    lemma_progress_monotonic(earlier as int, later as int, task.total_micros as int);
}

/// A parameter moves one way only: of two steps of one morph, the later has
/// no smaller value for a parameter that rises, and no larger one for a
/// parameter that falls.
pub proof fn lemma_values_move_one_way(task: TaskView, earlier: u64, later: u64, i: usize)
    requires
        sized(task),
        i < task.param_count,
        earlier <= later,
    ensures
        task.from_values[i as int] <= task.to_values[i as int] ==> step_values(
            task,
            earlier,
        )[i as int] <= step_values(task, later)[i as int],
        task.to_values[i as int] <= task.from_values[i as int] ==> step_values(
            task,
            later,
        )[i as int] <= step_values(task, earlier)[i as int],
{
    let total = task.total_micros as int;
    lemma_progress_monotonic(earlier as int, later as int, total);
    let p = progress_of(earlier as int, total);
    let q = progress_of(later as int, total);
    lemma_curved_monotonic(p, q, task.curve);
    lemma_curved_in_range(p, task.curve);
    lemma_interpolated_monotonic(
        task.from_values[i as int] as int,
        task.to_values[i as int] as int,
        curved(p, task.curve),
        curved(q, task.curve),
    );
}

/// A new morph takes the place of the one before it: after a morph is asked
/// for between two snaps that exist, the one record that the model holds is
/// the new morph's, at no progress, the engine's task is the new morph's,
/// and nothing of the old morph's progress is published on the way.
pub proof fn lemma_new_morph_replaces_old(
    e: EngineView,
    s: StateView,
    from: usize,
    to: usize,
    bars: u8,
    curve: MorphCurve,
    quantize: bool,
)
    requires
        !(e.phase is Terminated),
        morph_valid(s, from, to),
        s.project.parameters.len() <= usize::MAX,
    ensures
        ({
            let after = initiated(e, s, from, to, bars, curve, quantize);
            let task = new_task(s, from, to, bars, curve, quantize);
            &&& after.0.task == Some(task)
            &&& fresh(task)
            &&& after.0.quantizing()
            &&& after.1.active_morph == Some(new_record(task))
            &&& new_record(task).well_formed()
            &&& forall|k: int|
                0 <= k < after.2.len() ==> !(#[trigger] after.2[k] matches EffectView::Publish(
                    EventView::MorphProgressed { .. },
                ))
        }),
{
}

/// A morph that begins at the selected snap keeps the model's invariant.
pub proof fn lemma_initiated_keeps_invariant(
    e: EngineView,
    s: StateView,
    to: usize,
    bars: u8,
    curve: MorphCurve,
    quantize: bool,
)
    requires
        s.consistent(),
    ensures
        initiated(e, s, s.current_snap, to, bars, curve, quantize).1.consistent(),
{
}

/// A tick keeps the model's invariant, unless it ends a morph whose target
/// the current bank does not have.
pub proof fn lemma_ticked_keeps_invariant(e: EngineView, s: StateView, elapsed: u64)
    requires
        s.consistent(),
        e.task matches Some(task) ==> sized(task) && (s.active_morph matches Some(record)
            ==> record.to_values.len() == task.param_count),
        s.active_morph matches Some(record) ==> s.project.has_snap(
            s.current_bank as int,
            record.to_snap as int,
        ),
    ensures
        ticked(e, s, elapsed).1.consistent(),
{
    if e.phase is Running && e.task is Some && s.active_morph is Some {
        let task = e.task->0;
        lemma_progress_in_range(elapsed as int, task.total_micros as int);
    }
}

/// Whether `effect` publishes the progress of a morph.
pub open spec fn is_progress(effect: EffectView) -> bool {
    effect matches EffectView::Publish(event) && event is MorphProgressed
}

/// How many of `effects` publish the progress of a morph.
pub open spec fn progress_count(effects: Seq<EffectView>) -> nat
    decreases effects.len(),
{
    if effects.len() == 0 {
        0
    } else {
        progress_count(effects.drop_last()) + if is_progress(effects.last()) {
            1nat
        } else {
            0nat
        }
    }
}

/// The ticks of a timer that skips what it missed and never catches up, and
/// that keeps a pace: tick `k` comes no earlier than `k * period` after the
/// start, so the first may come at once, and no later than `(k + 1) * slack`
/// after the start. All three are in microseconds.
pub open spec fn paced(ticks: Seq<u64>, period: int, slack: int) -> bool {
    forall|k: int| 0 <= k < ticks.len() ==> k * period <= #[trigger] ticks[k] <= (k + 1) * slack
}

/// The shortest morph, in microseconds, for which a timer of 33 ms publishes
/// at most 36 times a second: below it the step at the start and the one at
/// the end weigh more than the fifth that the bound allows.
pub const SHORTEST_PACED_MICROS: u64 = 351_064;

/// What two runs of effects publish of progress, they publish together.
pub proof fn lemma_progress_count_concat(a: Seq<EffectView>, b: Seq<EffectView>)
    ensures
        progress_count(a + b) == progress_count(a) + progress_count(b),
    decreases b.len(),
{
    if b.len() == 0 {
        assert(a + b =~= a);
    } else {
        assert((a + b).drop_last() =~= a + b.drop_last());
        lemma_progress_count_concat(a, b.drop_last());
    }
}

/// One more effect counts if it publishes progress.
pub proof fn lemma_progress_count_push(a: Seq<EffectView>, effect: EffectView)
    ensures
        progress_count(a.push(effect)) == progress_count(a) + if is_progress(effect) {
            1nat
        } else {
            0nat
        },
{
    assert(a.push(effect).drop_last() =~= a);
}

/// CC changes publish no progress.
proof fn lemma_cc_changes_hold_no_progress(last_sent: Seq<u8>, values: Seq<u8>, n: nat)
    ensures
        progress_count(published(cc_changes_upto(last_sent, values, n))) == 0,
    decreases n,
{
    if n == 0 {
        assert(published(cc_changes_upto(last_sent, values, n)) =~= Seq::<EffectView>::empty());
    } else {
        let before = cc_changes_upto(last_sent, values, (n - 1) as nat);
        lemma_cc_changes_hold_no_progress(last_sent, values, (n - 1) as nat);
        if changed_at(last_sent, values, n - 1) {
            let event = EventView::CCValueChanged { param_id: (n - 1) as usize, value: values[n - 1] };
            assert(published(before.push(event)) =~= published(before).push(
                EffectView::Publish(event),
            ));
            lemma_progress_count_push(published(before), EffectView::Publish(event));
        }
    }
}

/// A step of a running morph publishes its progress once.
pub proof fn lemma_step_publishes_progress_once(task: TaskView, elapsed: u64)
    ensures
        progress_count(published(step_events(task, elapsed))) == 1,
{
    let values = step_values(task, elapsed);
    let changes = cc_changes(task.last_sent, values);
    let progress = EventView::MorphProgressed {
        progress: progress_of(elapsed as int, task.total_micros as int) as u32,
        current_values: values,
    };
    lemma_cc_changes_hold_no_progress(task.last_sent, values, values.len());
    assert(published(changes.push(progress)) =~= published(changes).push(
        EffectView::Publish(progress),
    ));
    lemma_progress_count_push(published(changes), EffectView::Publish(progress));
}

/// The end of a morph publishes its progress once.
pub proof fn lemma_end_publishes_progress_once(task: TaskView)
    ensures
        progress_count(published(final_events(task)).push(EffectView::StopTimers)) == 1,
{
    let changes = cc_changes(task.last_sent, task.to_values);
    let progress = EventView::MorphProgressed {
        progress: PROGRESS_ONE,
        current_values: task.to_values,
    };
    lemma_cc_changes_hold_no_progress(task.last_sent, task.to_values, task.to_values.len());
    assert(published(changes.push(progress).push(EventView::MorphCompleted)) =~= published(
        changes,
    ).push(EffectView::Publish(progress)).push(EffectView::Publish(EventView::MorphCompleted)));
    lemma_progress_count_push(published(changes), EffectView::Publish(progress));
    lemma_progress_count_push(
        published(changes).push(EffectView::Publish(progress)),
        EffectView::Publish(EventView::MorphCompleted),
    );
    lemma_progress_count_push(published(final_events(task)), EffectView::StopTimers);
}

/// The count of a run whose first tick is tick `base` of the timer, after
/// `base` ticks that all came before the morph's end.
proof fn lemma_count_from(
    e: EngineView,
    s: StateView,
    task: TaskView,
    ticks: Seq<u64>,
    period: int,
    slack: int,
    base: int,
)
    requires
        running(e, s, task),
        reaches_end(ticks, task.total_micros),
        0 <= base,
        0 < period,
        (base - 1) * period < task.total_micros,
        forall|k: int|
            0 <= k < ticks.len() ==> (base + k) * period <= #[trigger] ticks[k] <= (base + k + 1)
                * slack,
    ensures
        ({
            let n = progress_count(ticked_all(e, s, ticks).2);
            &&& n >= 1
            &&& (base + n - 2) * period < task.total_micros
            &&& task.total_micros <= (base + n) * slack
        }),
    decreases ticks.len(),
{
    let elapsed = ticks[0];
    let first = ticked(e, s, elapsed);
    let rest = ticked_all(first.0, first.1, ticks.drop_first());
    lemma_progress_count_concat(first.2, rest.2);
    if elapsed >= task.total_micros {
        lemma_end_publishes_progress_once(task);
        lemma_idle_ticks_are_silent(first.0, first.1, ticks.drop_first());
    } else {
        let values = step_values(task, elapsed);
        let next = TaskView { last_sent: overlaid(task.last_sent, values), ..task };
        lemma_step_publishes_progress_once(task, elapsed);
        let k = choose|k: int| 0 <= k < ticks.len() && #[trigger] ticks[k] >= task.total_micros;
        assert(ticks.drop_first()[k - 1] == ticks[k]);
        assert forall|j: int| 0 <= j < ticks.drop_first().len() implies (base + 1 + j) * period
            <= #[trigger] ticks.drop_first()[j] <= (base + 1 + j + 1) * slack by {
            assert(ticks.drop_first()[j] == ticks[j + 1]);
        }
        lemma_count_from(first.0, first.1, next, ticks.drop_first(), period, slack, base + 1);
    }
}

/// A morph that is not given up publishes its progress once for every tick
/// up to its end. So with a paced timer the number of these events follows
/// the morph's length: it is less than the number of periods that fit into
/// that length, plus two, and `slack` fits into the length no more often.
pub proof fn lemma_progress_events_follow_the_timer(
    e: EngineView,
    s: StateView,
    task: TaskView,
    ticks: Seq<u64>,
    period: int,
    slack: int,
)
    requires
        running(e, s, task),
        reaches_end(ticks, task.total_micros),
        0 < period,
        paced(ticks, period, slack),
    ensures
        ({
            let n = progress_count(ticked_all(e, s, ticks).2);
            &&& n >= 1
            &&& (n - 2) * period < task.total_micros
            &&& task.total_micros <= n * slack
        }),
{
    assert((0 - 1) * period < task.total_micros) by (nonlinear_arith)
        requires
            0 < period,
            task.total_micros >= 0,
    ;
    lemma_count_from(e, s, task, ticks, period, slack, 0);
}

/// With the timer of 33 ms, and ticks that come at a rate of 24 a second or
/// more, a morph of `SHORTEST_PACED_MICROS` or longer publishes its progress
/// between 24 and 36 times for every second that it lasts: thirty times, a
/// fifth more or less.
pub proof fn lemma_progress_events_per_second(
    e: EngineView,
    s: StateView,
    task: TaskView,
    ticks: Seq<u64>,
)
    requires
        running(e, s, task),
        reaches_end(ticks, task.total_micros),
        paced(ticks, 33_000, 41_666),
        task.total_micros >= SHORTEST_PACED_MICROS,
    ensures
        24 * task.total_micros <= 1_000_000 * progress_count(ticked_all(e, s, ticks).2),
        1_000_000 * progress_count(ticked_all(e, s, ticks).2) <= 36 * task.total_micros,
{
    lemma_progress_events_follow_the_timer(e, s, task, ticks, 33_000, 41_666);
}

} // verus!
