use snapblaster::effects::Effect;
use snapblaster::events::{Event, MorphCurve};
use snapblaster::model::{ActiveMorph, Bank, Parameter, ProjectState, Snap};
use snapblaster::morph::{
    complete_morph, send_morph_cc_values, take_snapshot, EnginePhase, MorphEngine,
};
use snapblaster::router::handle_pad_pressed;

fn param(name: &str, cc: u8) -> Parameter {
    Parameter { name: name.to_string(), description: String::new(), cc }
}

fn snap(name: &str, values: Vec<u8>) -> Snap {
    Snap { name: name.to_string(), description: String::new(), values }
}

fn state_with(snaps: Vec<Snap>) -> ProjectState {
    let mut state = ProjectState::default();
    state.project.parameters = vec![param("a", 10), param("b", 20), param("c", 30)];
    state.project.banks = vec![Bank { name: "A".to_string(), snaps }];
    state
}

fn zero_to_full() -> ProjectState {
    state_with(vec![
        snap("zero", vec![0, 0, 0]),
        snap("full", vec![127, 127, 127]),
        snap("mid", vec![64, 64, 64]),
    ])
}

fn publish(event: Event) -> Effect {
    Effect::Publish(event)
}

/// Starts a morph without quantizing and lets the tempo request time out.
fn running(state: &mut ProjectState, from: usize, to: usize, bars: u8) -> MorphEngine {
    let mut engine = MorphEngine::new();
    engine.initiate(state, from, to, bars, MorphCurve::Linear, false);
    engine.on_timer();
    assert_eq!(engine.phase, EnginePhase::Running);
    engine
}

fn cc_values(effects: &[Effect], param: usize) -> Vec<u8> {
    let mut values = Vec::new();
    for effect in effects {
        if let Effect::Publish(Event::CCValueChanged { param_id, value }) = effect {
            if *param_id == param {
                values.push(*value);
            }
        }
    }
    values
}

fn run_to_end(engine: &mut MorphEngine, state: &mut ProjectState) -> Vec<Effect> {
    let mut all = Vec::new();
    let mut elapsed = 0u64;
    while engine.phase == EnginePhase::Running {
        elapsed += 33_000;
        all.extend(engine.on_tick(state, elapsed));
        assert!(elapsed < 1_000_000_000);
    }
    all
}

#[test]
fn a_new_engine_is_idle() {
    let engine = MorphEngine::new();
    assert_eq!(engine.phase, EnginePhase::Idle);
    assert!(engine.task.is_none());
    assert!(!engine.is_busy());
}

#[test]
fn snapshots_have_one_value_per_parameter() {
    assert_eq!(take_snapshot(&vec![1, 2, 3, 4], 3), vec![1, 2, 3]);
    assert_eq!(take_snapshot(&vec![1], 3), vec![1, 64, 64]);
    assert_eq!(take_snapshot(&vec![1, 2], 0), Vec::<u8>::new());
}

#[test]
fn initiating_records_the_morph_and_asks_for_the_status() {
    let mut state = zero_to_full();
    let mut engine = MorphEngine::new();
    let effects = engine.initiate(&mut state, 0, 1, 2, MorphCurve::Linear, true);
    assert_eq!(effects, vec![publish(Event::RequestLinkStatus), Effect::AwaitReply { timeout_ms: 200 }]);
    assert_eq!(engine.phase, EnginePhase::AwaitingStatus);
    assert!(engine.is_busy());
    assert_eq!(
        state.active_morph,
        Some(ActiveMorph {
            from_snap: 0,
            to_snap: 1,
            duration_bars: 2,
            curve: MorphCurve::Linear,
            progress: 0,
            from_values: vec![0, 0, 0],
            to_values: vec![127, 127, 127],
            current_values: vec![0, 0, 0],
        })
    );
    let task = engine.task.as_ref().unwrap();
    assert_eq!(task.param_count, 3);
    assert_eq!(task.last_sent, vec![0, 0, 0]);
    assert!(task.quantize);
}

#[test]
fn without_quantize_the_engine_asks_for_the_tempo_at_once() {
    let mut state = zero_to_full();
    let mut engine = MorphEngine::new();
    let effects = engine.initiate(&mut state, 0, 1, 2, MorphCurve::Linear, false);
    assert_eq!(effects, vec![publish(Event::RequestLinkTempo), Effect::AwaitReply { timeout_ms: 200 }]);
    assert_eq!(engine.phase, EnginePhase::AwaitingTempo);
}

#[test]
fn invalid_snaps_are_refused_and_leave_the_model_alone() {
    let mut state = zero_to_full();
    let mut engine = MorphEngine::new();
    assert_eq!(engine.initiate(&mut state, 0, 3, 2, MorphCurve::Linear, true), vec![]);
    assert_eq!(engine.initiate(&mut state, 7, 1, 2, MorphCurve::Linear, true), vec![]);
    assert_eq!(engine.phase, EnginePhase::Idle);
    assert!(state.active_morph.is_none());
    state.current_bank = 5;
    assert_eq!(engine.initiate(&mut state, 0, 1, 2, MorphCurve::Linear, true), vec![]);
    assert!(state.active_morph.is_none());
}

#[test]
fn an_invalid_request_still_gives_up_the_morph_in_flight() {
    let mut state = zero_to_full();
    let mut engine = running(&mut state, 0, 1, 2);
    let effects = engine.initiate(&mut state, 0, 9, 2, MorphCurve::Linear, true);
    assert_eq!(effects, vec![Effect::StopTimers]);
    assert_eq!(engine.phase, EnginePhase::Idle);
    assert!(engine.task.is_none());
    assert!(state.active_morph.is_some());
}

#[test]
fn quantizing_with_peers_waits_for_the_bar() {
    let mut state = zero_to_full();
    let mut engine = MorphEngine::new();
    engine.initiate(&mut state, 0, 1, 2, MorphCurve::Linear, true);
    assert_eq!(
        engine.on_link_status(true),
        vec![publish(Event::RequestNextBarTime), Effect::AwaitReply { timeout_ms: 200 }]
    );
    assert_eq!(engine.phase, EnginePhase::AwaitingBarTime);
    assert_eq!(engine.on_next_bar_time(500), vec![Effect::WaitForBar { wait_ms: 500 }]);
    assert_eq!(engine.phase, EnginePhase::WaitingForBar);
    assert_eq!(
        engine.on_timer(),
        vec![publish(Event::RequestLinkTempo), Effect::AwaitReply { timeout_ms: 200 }]
    );
    assert_eq!(engine.phase, EnginePhase::AwaitingTempo);
    assert_eq!(engine.on_tempo(Some(60_000)), vec![Effect::StartTicker { interval_ms: 33 }]);
    assert_eq!(engine.phase, EnginePhase::Running);
    assert_eq!(engine.task.as_ref().unwrap().total_micros, 8_000_000);
}

#[test]
fn quantizing_without_peers_goes_on_to_the_tempo() {
    let mut state = zero_to_full();
    let mut engine = MorphEngine::new();
    engine.initiate(&mut state, 0, 1, 2, MorphCurve::Linear, true);
    assert_eq!(
        engine.on_link_status(false),
        vec![publish(Event::RequestLinkTempo), Effect::AwaitReply { timeout_ms: 200 }]
    );
    assert_eq!(engine.phase, EnginePhase::AwaitingTempo);
}

#[test]
fn a_bar_that_begins_now_is_not_waited_for() {
    let mut state = zero_to_full();
    let mut engine = MorphEngine::new();
    engine.initiate(&mut state, 0, 1, 2, MorphCurve::Linear, true);
    engine.on_link_status(true);
    assert_eq!(
        engine.on_next_bar_time(0),
        vec![publish(Event::RequestLinkTempo), Effect::AwaitReply { timeout_ms: 200 }]
    );
    assert_eq!(engine.phase, EnginePhase::AwaitingTempo);
}

#[test]
fn quantization_times_out_and_the_morph_runs_at_120() {
    for bars in [1u8, 2, 4, 8, 16] {
        let mut state = zero_to_full();
        let mut engine = MorphEngine::new();
        engine.initiate(&mut state, 0, 1, bars, MorphCurve::Linear, true);
        assert_eq!(
            engine.on_timer(),
            vec![publish(Event::RequestLinkTempo), Effect::AwaitReply { timeout_ms: 200 }]
        );
        assert_eq!(engine.on_timer(), vec![Effect::StartTicker { interval_ms: 33 }]);
        assert_eq!(engine.phase, EnginePhase::Running);
        assert_eq!(engine.task.as_ref().unwrap().total_micros, bars as u64 * 2_000_000);
    }
}

#[test]
fn bar_time_timeout_skips_quantization() {
    let mut state = zero_to_full();
    let mut engine = MorphEngine::new();
    engine.initiate(&mut state, 0, 1, 2, MorphCurve::Linear, true);
    engine.on_link_status(true);
    engine.on_timer();
    assert_eq!(engine.phase, EnginePhase::AwaitingTempo);
}

#[test]
fn answers_that_nobody_waits_for_are_left_alone() {
    let mut state = zero_to_full();
    let mut engine = MorphEngine::new();
    assert_eq!(engine.on_link_status(true), vec![]);
    assert_eq!(engine.on_next_bar_time(10), vec![]);
    assert_eq!(engine.on_tempo(Some(100_000)), vec![]);
    assert_eq!(engine.on_timer(), vec![]);
    assert_eq!(engine.on_tick(&mut state, 10), vec![]);
    assert_eq!(engine.phase, EnginePhase::Idle);
    engine.initiate(&mut state, 0, 1, 2, MorphCurve::Linear, true);
    assert_eq!(engine.on_tempo(Some(100_000)), vec![]);
    assert_eq!(engine.on_next_bar_time(10), vec![]);
    assert_eq!(engine.on_tick(&mut state, 10), vec![]);
    assert_eq!(engine.phase, EnginePhase::AwaitingStatus);
}

#[test]
fn a_zero_tempo_counts_as_none() {
    let mut state = zero_to_full();
    let mut engine = MorphEngine::new();
    engine.initiate(&mut state, 0, 1, 1, MorphCurve::Linear, false);
    engine.on_tempo(Some(0));
    assert_eq!(engine.task.as_ref().unwrap().total_micros, 2_000_000);
}

#[test]
fn a_step_publishes_changes_then_progress() {
    let mut state = zero_to_full();
    let mut engine = running(&mut state, 0, 1, 2);
    let effects = engine.on_tick(&mut state, 2_000_000);
    assert_eq!(
        effects,
        vec![
            publish(Event::CCValueChanged { param_id: 0, value: 64 }),
            publish(Event::CCValueChanged { param_id: 1, value: 64 }),
            publish(Event::CCValueChanged { param_id: 2, value: 64 }),
            publish(Event::MorphProgressed { progress: 500_000, current_values: vec![64, 64, 64] }),
        ]
    );
    let record = state.active_morph.as_ref().unwrap();
    assert_eq!(record.progress, 500_000);
    assert_eq!(record.current_values, vec![64, 64, 64]);
    assert_eq!(engine.task.as_ref().unwrap().last_sent, vec![64, 64, 64]);
    assert_eq!(state.current_snap, 0);
}

#[test]
fn a_value_that_did_not_change_is_not_sent_again() {
    let mut state = zero_to_full();
    let mut engine = running(&mut state, 0, 1, 2);
    engine.on_tick(&mut state, 2_000_000);
    let effects = engine.on_tick(&mut state, 2_000_001);
    assert_eq!(
        effects,
        vec![publish(Event::MorphProgressed { progress: 500_000, current_values: vec![64, 64, 64] })]
    );
}

#[test]
fn the_end_sends_what_is_missing_and_completes() {
    let mut state = zero_to_full();
    let mut engine = running(&mut state, 0, 1, 2);
    engine.on_tick(&mut state, 2_000_000);
    let effects = engine.on_tick(&mut state, 4_000_000);
    assert_eq!(
        effects,
        vec![
            publish(Event::CCValueChanged { param_id: 0, value: 127 }),
            publish(Event::CCValueChanged { param_id: 1, value: 127 }),
            publish(Event::CCValueChanged { param_id: 2, value: 127 }),
            publish(Event::MorphProgressed { progress: 1_000_000, current_values: vec![127, 127, 127] }),
            publish(Event::MorphCompleted),
            Effect::StopTimers,
        ]
    );
    assert_eq!(engine.phase, EnginePhase::Idle);
    assert!(engine.task.is_none());
    assert!(state.active_morph.is_none());
    assert_eq!(state.current_snap, 1);
    assert_eq!(state.project.banks[0].snaps[1].values, vec![127, 127, 127]);
}

#[test]
fn modifier_plus_snap_morphs_to_the_target_in_four_seconds() {
    let mut state = zero_to_full();
    let mut engine = MorphEngine::new();
    handle_pad_pressed(&mut state, 1, 100);
    let routed = handle_pad_pressed(&mut state, 9, 100);
    let request = match &routed[0] {
        Effect::Publish(event) => event.clone(),
        other => panic!("no request: {other:?}"),
    };
    engine.handle_event(&mut state, &request);
    assert_eq!(engine.phase, EnginePhase::AwaitingStatus);
    engine.on_timer();
    engine.on_timer();
    assert_eq!(engine.task.as_ref().unwrap().total_micros, 4_000_000);
    let all = run_to_end(&mut engine, &mut state);
    assert_eq!(all[all.len() - 2], publish(Event::MorphCompleted));
    for param in 0..3 {
        let values = cc_values(&all, param);
        assert_eq!(*values.last().unwrap(), 127);
        assert!(values.windows(2).all(|w| w[0] < w[1]));
        assert!(values.iter().all(|v| *v <= 127));
    }
    let steps = all.iter().filter(|e| matches!(e, Effect::Publish(Event::MorphProgressed { .. }))).count();
    assert_eq!(steps, 122);
    assert!(steps as f64 >= 0.8 * 30.0 * 4.0 && steps as f64 <= 1.2 * 30.0 * 4.0);
    assert_eq!(state.current_snap, 1);
}

#[test]
fn published_progress_never_goes_back() {
    let mut state = zero_to_full();
    let mut engine = running(&mut state, 0, 1, 1);
    let all = run_to_end(&mut engine, &mut state);
    let mut last = 0u32;
    for effect in &all {
        if let Effect::Publish(Event::MorphProgressed { progress, .. }) = effect {
            assert!(*progress >= last);
            last = *progress;
        }
    }
    assert_eq!(last, 1_000_000);
}

#[test]
fn equal_values_are_never_published() {
    let mut state = state_with(vec![snap("a", vec![10, 20, 30]), snap("b", vec![10, 60, 30])]);
    let mut engine = running(&mut state, 0, 1, 1);
    let all = run_to_end(&mut engine, &mut state);
    assert_eq!(cc_values(&all, 0), Vec::<u8>::new());
    assert_eq!(cc_values(&all, 2), Vec::<u8>::new());
    let moved = cc_values(&all, 1);
    assert_eq!(*moved.last().unwrap(), 60);
    assert_eq!(moved.len(), 40);
}

#[test]
fn a_falling_parameter_ends_on_its_target() {
    let mut state = state_with(vec![snap("a", vec![100, 0, 5]), snap("b", vec![3, 127, 5])]);
    let mut engine = running(&mut state, 0, 1, 1);
    let all = run_to_end(&mut engine, &mut state);
    assert_eq!(*cc_values(&all, 0).last().unwrap(), 3);
    assert_eq!(*cc_values(&all, 1).last().unwrap(), 127);
    assert!(cc_values(&all, 0).windows(2).all(|w| w[0] > w[1]));
}

#[test]
fn a_cleared_record_stops_the_morph_in_silence() {
    let mut state = zero_to_full();
    let mut engine = running(&mut state, 0, 1, 2);
    engine.on_tick(&mut state, 500_000);
    let routed = handle_pad_pressed(&mut state, 10, 100);
    assert_eq!(routed[0], publish(Event::MorphCompleted));
    assert_eq!(routed[4], publish(Event::SnapSelected { bank: 0, snap_id: 2 }));
    assert_eq!(engine.on_tick(&mut state, 533_000), vec![Effect::StopTimers]);
    assert_eq!(engine.phase, EnginePhase::Idle);
    assert_eq!(engine.on_tick(&mut state, 566_000), vec![]);
    assert_eq!(state.current_snap, 2);
    assert_eq!(state.project.banks[0].snaps[1].values, vec![127, 127, 127]);
}

#[test]
fn a_new_morph_replaces_the_running_one() {
    let mut state = zero_to_full();
    let mut engine = running(&mut state, 0, 1, 2);
    engine.on_tick(&mut state, 1_000_000);
    let effects = engine.initiate(&mut state, 0, 2, 4, MorphCurve::Exponential, true);
    assert_eq!(
        effects,
        vec![Effect::StopTimers, publish(Event::RequestLinkStatus), Effect::AwaitReply { timeout_ms: 200 }]
    );
    let record = state.active_morph.as_ref().unwrap();
    assert_eq!(record.to_snap, 2);
    assert_eq!(record.progress, 0);
    assert_eq!(record.to_values, vec![64, 64, 64]);
    assert_eq!(record.curve, MorphCurve::Exponential);
    assert_eq!(engine.task.as_ref().unwrap().to_snap, 2);
    assert_eq!(engine.on_tick(&mut state, 1_033_000), vec![]);
}

#[test]
fn a_parameter_added_mid_morph_is_left_out_of_it() {
    let mut state = zero_to_full();
    let mut engine = running(&mut state, 0, 1, 1);
    engine.on_tick(&mut state, 500_000);
    state.add_parameter("late".to_string(), String::new(), 40);
    assert_eq!(state.project.parameters.len(), 4);
    let all = run_to_end(&mut engine, &mut state);
    assert_eq!(cc_values(&all, 3), Vec::<u8>::new());
    for param in 0..3 {
        assert_eq!(*cc_values(&all, param).last().unwrap(), 127);
    }
    assert_eq!(all[all.len() - 2], publish(Event::MorphCompleted));
    assert_eq!(state.project.parameters.len(), 4);
    assert_eq!(state.project.banks[0].snaps[1].values, vec![127, 127, 127, 64]);
    assert_eq!(state.current_snap, 1);
}

#[test]
fn shutdown_ends_the_engine() {
    let mut state = zero_to_full();
    let mut engine = running(&mut state, 0, 1, 2);
    assert_eq!(engine.handle_event(&mut state, &Event::Shutdown), vec![Effect::StopTimers]);
    assert_eq!(engine.phase, EnginePhase::Terminated);
    assert!(engine.task.is_none());
    assert_eq!(engine.initiate(&mut state, 0, 1, 2, MorphCurve::Linear, true), vec![]);
    assert_eq!(engine.phase, EnginePhase::Terminated);
    let mut idle = MorphEngine::new();
    assert_eq!(idle.shutdown(), vec![]);
}

#[test]
fn the_engine_reads_its_events_from_the_bus() {
    let mut state = zero_to_full();
    let mut engine = MorphEngine::new();
    let request = Event::MorphInitiated {
        from_snap: 0,
        to_snap: 1,
        duration_bars: 2,
        curve_type: MorphCurve::Linear,
        quantize: true,
    };
    engine.handle_event(&mut state, &request);
    assert_eq!(engine.handle_event(&mut state, &Event::PadPressed { pad: 1, velocity: 1 }), vec![]);
    engine.handle_event(&mut state, &Event::LinkStatusChanged { connected: true, peers: 2 });
    assert_eq!(engine.phase, EnginePhase::AwaitingBarTime);
    engine.handle_event(&mut state, &Event::NextBarTime { wait_time_ms: 12 });
    assert_eq!(engine.phase, EnginePhase::WaitingForBar);
    engine.on_timer();
    engine.handle_event(&mut state, &Event::LinkTempoChanged { tempo: 240_000 });
    assert_eq!(engine.phase, EnginePhase::Running);
    assert_eq!(engine.task.as_ref().unwrap().total_micros, 2_000_000);
}

#[test]
fn dedup_sends_only_what_differs() {
    let mut effects = Vec::new();
    let mut last = vec![1u8, 2, 3];
    send_morph_cc_values(&mut effects, &vec![1, 5, 3], &mut last);
    assert_eq!(effects, vec![publish(Event::CCValueChanged { param_id: 1, value: 5 })]);
    assert_eq!(last, vec![1, 5, 3]);
    send_morph_cc_values(&mut effects, &vec![1, 5, 3], &mut last);
    assert_eq!(effects.len(), 1);
    let mut short = vec![9u8];
    send_morph_cc_values(&mut effects, &vec![9, 8], &mut short);
    assert_eq!(effects[1], publish(Event::CCValueChanged { param_id: 1, value: 8 }));
    assert_eq!(short, vec![9, 8]);
}

#[test]
fn completing_without_a_record_does_nothing() {
    let mut state = zero_to_full();
    let mut effects = Vec::new();
    complete_morph(&mut state, &mut effects, &vec![1, 2, 3]);
    assert!(effects.is_empty());
    assert_eq!(state.current_snap, 0);
}

#[test]
fn completing_replaces_the_values_of_the_target() {
    let mut state = state_with(vec![snap("a", vec![0, 0, 0]), snap("b", vec![9, 8, 7, 6, 5])]);
    let mut engine = running(&mut state, 0, 1, 1);
    engine.on_tick(&mut state, 2_000_000);
    assert_eq!(state.project.banks[0].snaps[1].values, vec![9, 8, 7]);
    assert_eq!(state.current_snap, 1);
}

#[test]
fn completing_stores_the_final_values_padded_to_the_parameters() {
    let mut state = state_with(vec![snap("a", vec![0, 0, 0]), snap("b", vec![9, 8, 7, 6, 5])]);
    state.active_morph = Some(ActiveMorph {
        from_snap: 0,
        to_snap: 1,
        duration_bars: 1,
        curve: MorphCurve::Linear,
        progress: 0,
        from_values: vec![0, 0, 0],
        to_values: vec![1, 2, 3],
        current_values: vec![0, 0, 0],
    });
    let mut effects = Vec::new();
    complete_morph(&mut state, &mut effects, &vec![1, 2]);
    assert_eq!(state.project.banks[0].snaps[1].values, vec![1, 2, 64]);
    assert_eq!(state.current_snap, 1);
    assert!(state.active_morph.is_none());
    assert_eq!(
        effects,
        vec![
            publish(Event::MorphProgressed { progress: 1_000_000, current_values: vec![1, 2] }),
            publish(Event::MorphCompleted),
        ]
    );
}

#[test]
fn completing_on_a_bank_without_the_target_only_selects() {
    let mut state = zero_to_full();
    state.project.banks.push(Bank { name: "B".to_string(), snaps: vec![snap("x", vec![1, 1, 1])] });
    let mut engine = running(&mut state, 0, 2, 1);
    state.current_bank = 1;
    engine.on_tick(&mut state, 2_000_000);
    assert_eq!(state.current_snap, 2);
    assert_eq!(state.project.banks[1].snaps[0].values, vec![1, 1, 1]);
    assert!(state.active_morph.is_none());
}

fn progress_events(effects: &[Effect]) -> usize {
    effects
        .iter()
        .filter(|effect| matches!(effect, Effect::Publish(Event::MorphProgressed { .. })))
        .count()
}

#[test]
fn a_bar_at_120_publishes_its_progress_about_thirty_times_a_second() {
    let mut state = zero_to_full();
    let mut engine = running(&mut state, 0, 1, 1);
    let mut all = Vec::new();
    let mut tick = 0u64;
    while engine.phase == EnginePhase::Running {
        all.extend(engine.on_tick(&mut state, tick * 33_000));
        tick += 1;
    }
    // Ticks 0 to 60 come before the two seconds are over, tick 61 ends them.
    assert_eq!(progress_events(&all), 62);
    assert!(48 <= progress_events(&all) && progress_events(&all) <= 72);
    assert!(engine.on_tick(&mut state, 62 * 33_000).is_empty());
}

#[test]
fn skipped_ticks_are_not_made_up_for() {
    let mut state = zero_to_full();
    let mut engine = running(&mut state, 0, 1, 1);
    let mut all = Vec::new();
    // Every fifth tick of the timer is missed.
    for slot in 0u64..62 {
        if slot % 5 != 4 {
            all.extend(engine.on_tick(&mut state, slot * 33_000));
        }
    }
    assert_eq!(engine.phase, EnginePhase::Idle);
    assert_eq!(progress_events(&all), 50);
    assert!(48 <= progress_events(&all) && progress_events(&all) <= 72);
}

#[test]
fn a_very_short_morph_still_publishes_its_start_and_its_end() {
    let mut state = zero_to_full();
    let mut engine = MorphEngine::new();
    engine.initiate(&mut state, 0, 1, 1, MorphCurve::Linear, false);
    // 24000 BPM: a bar of ten milliseconds.
    engine.on_tempo(Some(24_000_000));
    assert_eq!(engine.phase, EnginePhase::Running);
    let mut all = engine.on_tick(&mut state, 0);
    all.extend(engine.on_tick(&mut state, 33_000));
    assert_eq!(engine.phase, EnginePhase::Idle);
    assert_eq!(progress_events(&all), 2);
}
