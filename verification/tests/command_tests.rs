use snapblaster::commands::{generate_ai_values, select_bank, send_cc, send_current_snap};
use snapblaster::effects::Effect;
use snapblaster::events::Event;
use snapblaster::factory::needs_new_controller;
use snapblaster::model::{Bank, ModelError, Parameter, ProjectState, Snap};

fn snap(name: &str, values: Vec<u8>) -> Snap {
    Snap { name: name.to_string(), description: String::new(), values }
}

fn two_banks() -> ProjectState {
    let mut state = ProjectState::default();
    state.project.parameters = vec![
        Parameter { name: "a".to_string(), description: String::new(), cc: 10 },
        Parameter { name: "b".to_string(), description: String::new(), cc: 20 },
    ];
    state.project.banks = vec![
        Bank { name: "A".to_string(), snaps: vec![snap("one", vec![1, 2]), snap("two", vec![3])] },
        Bank { name: "B".to_string(), snaps: vec![snap("x", vec![7, 8, 9])] },
        Bank { name: "C".to_string(), snaps: vec![] },
    ];
    state
}

#[test]
fn the_current_snap_is_sent_as_far_as_it_has_values() {
    let mut state = two_banks();
    assert_eq!(
        send_current_snap(&state),
        Ok(vec![
            Effect::SendCc { channel: 0, cc: 10, value: 1 },
            Effect::SendCc { channel: 0, cc: 20, value: 2 },
        ])
    );
    state.current_snap = 1;
    assert_eq!(send_current_snap(&state), Ok(vec![Effect::SendCc { channel: 0, cc: 10, value: 3 }]));
    assert_eq!(state.project.banks[0].snaps[1].values, vec![3]);
    state.current_snap = 2;
    assert_eq!(send_current_snap(&state), Err(ModelError::SnapOutOfRange));
    state.current_bank = 3;
    assert_eq!(send_current_snap(&state), Err(ModelError::BankOutOfRange));
}

#[test]
fn one_value_of_a_parameter_is_sent_by_its_cc() {
    let state = two_banks();
    assert_eq!(send_cc(&state, 1, 99), Ok(Effect::SendCc { channel: 0, cc: 20, value: 99 }));
    assert_eq!(send_cc(&state, 2, 99), Err(ModelError::ParameterOutOfRange));
}

#[test]
fn selecting_a_bank_selects_its_first_snap() {
    let mut state = two_banks();
    state.current_snap = 1;
    let effects = select_bank(&mut state, 1).unwrap();
    assert_eq!(
        effects,
        vec![
            Effect::SendCc { channel: 0, cc: 10, value: 7 },
            Effect::SendCc { channel: 0, cc: 20, value: 8 },
            Effect::Publish(Event::BankSelected { bank_id: 1 }),
        ]
    );
    assert_eq!(state.current_bank, 1);
    assert_eq!(state.current_snap, 0);
}

#[test]
fn selecting_a_bank_without_snaps_sends_nothing() {
    let mut state = two_banks();
    state.current_snap = 1;
    assert_eq!(select_bank(&mut state, 2), Ok(vec![Effect::Publish(Event::BankSelected { bank_id: 2 })]));
    assert_eq!(state.current_bank, 2);
    assert_eq!(state.current_snap, 1);
    assert_eq!(select_bank(&mut state, 3), Err(ModelError::BankOutOfRange));
    assert_eq!(state.current_bank, 2);
}

#[test]
fn asking_for_generated_values_publishes_the_request() {
    assert_eq!(
        generate_ai_values(1, 2),
        Effect::Publish(Event::GenerateAIValues { bank_id: 1, snap_id: 2 })
    );
}

#[test]
fn another_controller_is_needed_when_the_name_differs() {
    assert!(needs_new_controller(None, "Launchpad X"));
    assert!(needs_new_controller(Some("Generic Controller"), "Launchpad X"));
    assert!(!needs_new_controller(Some("Launchpad X"), "Launchpad X"));
}
