use snapblaster::effects::Effect;
use snapblaster::events::{Event, MorphCurve};
use snapblaster::model::{ActiveMorph, Bank, Parameter, ProjectState, Snap};
use snapblaster::router::{handle_pad_pressed, handle_pad_released, route_event};

fn param(name: &str, cc: u8) -> Parameter {
    Parameter { name: name.to_string(), description: String::new(), cc }
}

fn snap(name: &str, values: Vec<u8>) -> Snap {
    Snap { name: name.to_string(), description: String::new(), values }
}

fn state_with(snaps: Vec<Snap>) -> ProjectState {
    let mut state = ProjectState::default();
    state.project.parameters = vec![param("a", 10), param("b", 20), param("c", 30)];
    state.project.banks = vec![Bank { name: "A".to_string(), snaps }];
    state
}

fn refresh() -> Effect {
    Effect::Publish(Event::RequestUpdateLEDs)
}

fn a_morph(from: usize, to: usize) -> ActiveMorph {
    ActiveMorph {
        from_snap: from,
        to_snap: to,
        duration_bars: 2,
        curve: MorphCurve::Linear,
        progress: 0,
        from_values: vec![0, 0, 0],
        to_values: vec![127, 127, 127],
        current_values: vec![0, 0, 0],
    }
}

#[test]
fn plain_snap_select_sends_each_cc_in_order_and_publishes() {
    let mut state = state_with(vec![snap("one", vec![5, 50, 100])]);
    let effects = handle_pad_pressed(&mut state, 8, 100);
    assert_eq!(
        effects,
        vec![
            Effect::SendCc { channel: 0, cc: 10, value: 5 },
            Effect::SendCc { channel: 0, cc: 20, value: 50 },
            Effect::SendCc { channel: 0, cc: 30, value: 100 },
            Effect::Publish(Event::SnapSelected { bank: 0, snap_id: 0 }),
            refresh(),
        ]
    );
    assert_eq!(state.current_snap, 0);
}

#[test]
fn modifier_press_holds_it_and_sets_the_bars() {
    let bars = [1u8, 2, 4, 8, 16];
    for pad in 0..5u8 {
        let mut state = state_with(vec![snap("one", vec![0, 0, 0])]);
        let effects = handle_pad_pressed(&mut state, pad, 100);
        assert_eq!(effects, vec![refresh()]);
        assert_eq!(state.active_modifier, Some(pad));
        assert_eq!(state.morph_duration, bars[pad as usize]);
    }
}

#[test]
fn modifier_release_clears_only_the_held_one() {
    let mut state = state_with(vec![snap("one", vec![0, 0, 0])]);
    handle_pad_pressed(&mut state, 3, 100);
    assert_eq!(handle_pad_released(&mut state, 2, 0), vec![]);
    assert_eq!(state.active_modifier, Some(3));
    assert_eq!(handle_pad_released(&mut state, 3, 64), vec![refresh()]);
    assert_eq!(state.active_modifier, None);
    assert_eq!(state.morph_duration, 8);
    assert_eq!(handle_pad_released(&mut state, 3, 0), vec![]);
    assert_eq!(handle_pad_released(&mut state, 20, 0), vec![]);
}

#[test]
fn velocity_zero_press_is_a_release() {
    let mut state = state_with(vec![snap("one", vec![0, 0, 0]), snap("two", vec![1, 1, 1])]);
    handle_pad_pressed(&mut state, 1, 100);
    assert_eq!(handle_pad_pressed(&mut state, 1, 0), vec![refresh()]);
    assert_eq!(state.active_modifier, None);
    assert_eq!(handle_pad_pressed(&mut state, 9, 0), vec![]);
    assert_eq!(state.current_snap, 0);
}

#[test]
fn modifier_plus_snap_asks_for_a_morph() {
    let mut state = state_with(vec![snap("zero", vec![0, 0, 0]), snap("full", vec![127, 127, 127])]);
    handle_pad_pressed(&mut state, 1, 100);
    let effects = handle_pad_pressed(&mut state, 9, 100);
    assert_eq!(
        effects,
        vec![
            Effect::Publish(Event::MorphInitiated {
                from_snap: 0,
                to_snap: 1,
                duration_bars: 2,
                curve_type: MorphCurve::Linear,
                quantize: true,
            }),
            refresh(),
        ]
    );
    assert_eq!(state.current_snap, 0);
    assert!(state.active_morph.is_none());
}

#[test]
fn modifier_plus_current_snap_selects_it() {
    let mut state = state_with(vec![snap("zero", vec![1, 2, 3])]);
    handle_pad_pressed(&mut state, 0, 100);
    let effects = handle_pad_pressed(&mut state, 8, 100);
    assert_eq!(effects.len(), 5);
    assert_eq!(effects[3], Effect::Publish(Event::SnapSelected { bank: 0, snap_id: 0 }));
}

#[test]
fn mid_morph_plain_select_cancels_then_selects() {
    let mut state = state_with(vec![
        snap("zero", vec![0, 0, 0]),
        snap("full", vec![127, 127, 127]),
        snap("mid", vec![64, 64, 64]),
    ]);
    state.active_morph = Some(a_morph(0, 1));
    let effects = handle_pad_pressed(&mut state, 10, 100);
    assert_eq!(
        effects,
        vec![
            Effect::Publish(Event::MorphCompleted),
            Effect::SendCc { channel: 0, cc: 10, value: 64 },
            Effect::SendCc { channel: 0, cc: 20, value: 64 },
            Effect::SendCc { channel: 0, cc: 30, value: 64 },
            Effect::Publish(Event::SnapSelected { bank: 0, snap_id: 2 }),
            refresh(),
        ]
    );
    assert!(state.active_morph.is_none());
    assert_eq!(state.current_snap, 2);
}

#[test]
fn mid_morph_press_on_empty_slot_only_cancels() {
    let mut state = state_with(vec![snap("zero", vec![0, 0, 0]), snap("", vec![])]);
    state.active_morph = Some(a_morph(0, 0));
    assert_eq!(handle_pad_pressed(&mut state, 9, 1), vec![Effect::Publish(Event::MorphCompleted), refresh()]);
    assert!(state.active_morph.is_none());
    assert_eq!(handle_pad_pressed(&mut state, 9, 1), vec![]);
    assert_eq!(handle_pad_pressed(&mut state, 30, 1), vec![]);
    assert_eq!(state.current_snap, 0);
}

#[test]
fn mid_morph_modifier_press_leaves_the_morph() {
    let mut state = state_with(vec![snap("zero", vec![0, 0, 0]), snap("full", vec![1, 1, 1])]);
    state.active_morph = Some(a_morph(0, 1));
    handle_pad_pressed(&mut state, 2, 100);
    assert!(state.active_morph.is_some());
    handle_pad_released(&mut state, 2, 0);
    assert!(state.active_morph.is_some());
}

#[test]
fn bank_pads_select_banks_zero_to_two() {
    let mut state = state_with(vec![snap("zero", vec![0, 0, 0])]);
    state.project.banks.push(Bank { name: "B".to_string(), snaps: vec![snap("b", vec![1, 1, 1])] });
    assert_eq!(
        handle_pad_pressed(&mut state, 6, 100),
        vec![Effect::Publish(Event::BankSelected { bank_id: 1 }), refresh()]
    );
    assert_eq!(state.current_bank, 1);
    assert_eq!(handle_pad_pressed(&mut state, 7, 100), vec![]);
    assert_eq!(state.current_bank, 1);
    assert_eq!(
        handle_pad_pressed(&mut state, 5, 100),
        vec![Effect::Publish(Event::BankSelected { bank_id: 0 }), refresh()]
    );
    assert_eq!(state.current_bank, 0);
}

#[test]
fn a_bank_press_selects_the_first_snap_of_the_bank() {
    let mut state = state_with(vec![snap("zero", vec![0, 0, 0]), snap("one", vec![1, 1, 1])]);
    state.project.banks.push(Bank { name: "B".to_string(), snaps: vec![snap("b", vec![9])] });
    handle_pad_pressed(&mut state, 9, 100);
    assert_eq!(state.current_snap, 1);
    assert_eq!(
        handle_pad_pressed(&mut state, 6, 100),
        vec![Effect::Publish(Event::BankSelected { bank_id: 1 }), refresh()]
    );
    assert_eq!(state.current_bank, 1);
    assert_eq!(state.current_snap, 0);
    assert_eq!(state.project.banks[1].snaps[0].values, vec![9]);
}

#[test]
fn a_bank_without_snaps_is_not_selected() {
    let mut state = state_with(vec![snap("zero", vec![0, 0, 0]), snap("one", vec![1, 1, 1])]);
    state.project.banks.push(Bank { name: "B".to_string(), snaps: vec![] });
    state.active_morph = Some(a_morph(0, 1));
    assert_eq!(handle_pad_pressed(&mut state, 6, 100), vec![]);
    assert_eq!(state.current_bank, 0);
    assert_eq!(state.current_snap, 0);
    assert!(state.active_morph.is_some());
}

#[test]
fn a_bank_press_cancels_a_running_morph() {
    let mut state = state_with(vec![snap("zero", vec![0, 0, 0]), snap("one", vec![1, 1, 1])]);
    state.project.banks.push(Bank { name: "B".to_string(), snaps: vec![snap("b", vec![9, 9, 9])] });
    state.active_morph = Some(a_morph(0, 1));
    assert_eq!(
        handle_pad_pressed(&mut state, 6, 100),
        vec![
            Effect::Publish(Event::MorphCompleted),
            Effect::Publish(Event::BankSelected { bank_id: 1 }),
            refresh(),
        ]
    );
    assert!(state.active_morph.is_none());
    assert_eq!(state.current_bank, 1);
    assert_eq!(state.current_snap, 0);
}

#[test]
fn pads_beyond_the_grid_are_ignored() {
    let mut state = state_with(vec![snap("zero", vec![0, 0, 0])]);
    for pad in [64u8, 100, 255] {
        assert_eq!(handle_pad_pressed(&mut state, pad, 100), vec![]);
    }
    assert_eq!(state.current_snap, 0);
}

#[test]
fn selecting_x_then_y_then_x_sends_the_values_of_x_twice() {
    let mut state = state_with(vec![snap("x", vec![1, 2, 3]), snap("y", vec![4, 5, 6])]);
    let first = handle_pad_pressed(&mut state, 8, 100);
    handle_pad_pressed(&mut state, 9, 100);
    let again = handle_pad_pressed(&mut state, 8, 100);
    assert_eq!(first, again);
    assert_eq!(first[0], Effect::SendCc { channel: 0, cc: 10, value: 1 });
}

#[test]
fn short_snap_is_padded_when_selected() {
    let mut state = state_with(vec![snap("x", vec![1])]);
    let effects = handle_pad_pressed(&mut state, 8, 100);
    assert_eq!(effects[1], Effect::SendCc { channel: 0, cc: 20, value: 64 });
    assert_eq!(state.project.banks[0].snaps[0].values, vec![1, 64, 64]);
}

#[test]
fn only_pad_events_are_routed() {
    let mut state = state_with(vec![snap("x", vec![1, 2, 3]), snap("y", vec![4, 5, 6])]);
    assert_eq!(route_event(&mut state, &Event::Shutdown), vec![]);
    assert_eq!(route_event(&mut state, &Event::SnapSelected { bank: 0, snap_id: 1 }), vec![]);
    assert_eq!(state.current_snap, 0);
    let effects = route_event(&mut state, &Event::PadPressed { pad: 9, velocity: 1 });
    assert_eq!(effects.len(), 5);
    assert_eq!(state.current_snap, 1);
    route_event(&mut state, &Event::PadPressed { pad: 4, velocity: 1 });
    assert_eq!(state.morph_duration, 16);
    assert_eq!(route_event(&mut state, &Event::PadReleased { pad: 4, velocity: 0 }), vec![refresh()]);
    assert_eq!(state.active_modifier, None);
}

#[test]
fn invariant_holds_after_a_run_of_pad_events() {
    let mut state = state_with(vec![snap("x", vec![1, 2, 3]), snap("", vec![]), snap("z", vec![7, 8, 9])]);
    state.project.banks.push(Bank { name: "B".to_string(), snaps: vec![snap("b", vec![1])] });
    state.project.banks.push(Bank { name: "C".to_string(), snaps: vec![] });
    let presses: [(u8, u8); 16] = [
        (0, 9), (10, 9), (0, 0), (9, 9), (8, 9), (63, 9), (4, 9), (8, 9), (70, 9), (5, 9), (7, 9),
        (10, 1), (6, 9), (9, 9), (7, 9), (5, 9),
    ];
    for (pad, velocity) in presses {
        handle_pad_pressed(&mut state, pad, velocity);
        assert!(state.current_bank < state.project.banks.len());
        assert!(state.current_snap < state.project.banks[state.current_bank].snaps.len());
        assert!(matches!(state.active_modifier, None | Some(0..=4)));
        assert!([1u8, 2, 4, 8, 16].contains(&state.morph_duration));
    }
}
