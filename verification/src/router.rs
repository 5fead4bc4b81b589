use crate::effects::{cc_effects, effects_view, led_refresh, push_cc_effects, Effect, EffectView};
use crate::events::{Event, EventView, MorphCurve};
use crate::model::{cc_pairs, ProjectState, StateView};
use vstd::prelude::*;

verus! {

/// Pads 0 to 4 choose the length of the next morph while held.
pub const MODIFIER_PADS: u8 = 5;

/// Pads 5 to 7 select banks 0 to 2.
pub const FIRST_BANK_PAD: u8 = 5;

/// Pads 8 to 63 address snaps 0 to 55 of the current bank.
pub const FIRST_SNAP_PAD: u8 = 8;

/// The grid has pads 0 to 63, row by row from the top left.
pub const GRID_PADS: u8 = 64;

/// The bars that a held modifier pad stands for: 1, 2, 4, 8, 16.
pub open spec fn modifier_bars(pad: u8) -> u8 {
    if pad == 0 {
        1
    } else if pad == 1 {
        2
    } else if pad == 2 {
        4
    } else if pad == 3 {
        8
    } else {
        16
    }
}

/// Whether slot `snap_id` of the current bank holds a snap.
pub open spec fn selectable(s: StateView, snap_id: int) -> bool {
    s.project.has_snap(s.current_bank as int, snap_id) && !s.project.snap(
        s.current_bank as int,
        snap_id,
    ).is_empty_slot()
}

/// A modifier pad released: the modifier is cleared if it was that pad.
/// Releases of other pads change nothing.
pub open spec fn released(s: StateView, pad: u8) -> (StateView, Seq<EffectView>) {
    if pad < MODIFIER_PADS && s.active_modifier == Some(pad) {
        (StateView { active_modifier: None, ..s }, seq![led_refresh()])
    } else {
        (s, Seq::empty())
    }
}

/// A press on the snap grid. A running morph is cancelled first. Then, with
/// a modifier held and another populated snap pressed, a morph to it is
/// asked for; otherwise a populated snap is selected and its values sent.
pub open spec fn snap_pressed(s: StateView, snap_id: usize) -> (StateView, Seq<EffectView>) {
    let cancel = if s.active_morph is Some {
        seq![EffectView::Publish(EventView::MorphCompleted)]
    } else {
        Seq::empty()
    };
    let idle = StateView { active_morph: None, ..s };
    if selectable(s, snap_id as int) && s.active_modifier is Some && snap_id != s.current_snap {
        (
            idle,
            cancel + seq![
                EffectView::Publish(
                    EventView::MorphInitiated {
                        from_snap: s.current_snap,
                        to_snap: snap_id,
                        duration_bars: s.morph_duration,
                        curve_type: MorphCurve::Linear,
                        quantize: true,
                    },
                ),
                led_refresh(),
            ],
        )
    } else if selectable(s, snap_id as int) {
        let chosen = idle.select_snap(s.current_bank as int, snap_id as int);
        (
            chosen,
            cancel + cc_effects(
                cc_pairs(
                    chosen.project.parameters,
                    chosen.project.snap(s.current_bank as int, snap_id as int).values,
                ),
            ) + seq![
                EffectView::Publish(
                    EventView::SnapSelected { bank: s.current_bank, snap_id },
                ),
                led_refresh(),
            ],
        )
    } else if s.active_morph is Some {
        (idle, cancel + seq![led_refresh()])
    } else {
        (s, Seq::empty())
    }
}

/// A press on a bank pad. A bank that has a snap becomes the current one,
/// with its first snap selected, and a running morph is cancelled first. A
/// bank that the project does not have, or that has no snap to select,
/// leaves everything as it is.
pub open spec fn bank_pressed(s: StateView, bank_id: usize) -> (StateView, Seq<EffectView>) {
    if bank_id < s.project.banks.len() && s.project.banks[bank_id as int].snaps.len() > 0 {
        let cancel = if s.active_morph is Some {
            seq![EffectView::Publish(EventView::MorphCompleted)]
        } else {
            Seq::empty()
        };
        (
            (StateView { active_morph: None, ..s }).select_bank(bank_id as int),
            cancel + seq![
                EffectView::Publish(EventView::BankSelected { bank_id }),
                led_refresh(),
            ],
        )
    } else {
        (s, Seq::empty())
    }
}

/// What one pad press does to the state, and what it asks of the caller.
/// Velocity 0 is a release.
pub open spec fn pressed(s: StateView, pad: u8, velocity: u8) -> (StateView, Seq<EffectView>) {
    if velocity == 0 {
        released(s, pad)
    } else if pad < MODIFIER_PADS {
        (
            StateView { active_modifier: Some(pad), morph_duration: modifier_bars(pad), ..s },
            seq![led_refresh()],
        )
    } else if pad < FIRST_SNAP_PAD {
        bank_pressed(s, (pad - FIRST_BANK_PAD) as usize)
    } else if pad < GRID_PADS {
        snap_pressed(s, (pad - FIRST_SNAP_PAD) as usize)
    } else {
        (s, Seq::empty())
    }
}

/// What the router does with one event: pad presses and releases are
/// routed, every other event is left to others.
pub open spec fn routed(s: StateView, event: EventView) -> (StateView, Seq<EffectView>) {
    match event {
        EventView::PadPressed { pad, velocity } => pressed(s, pad, velocity),
        EventView::PadReleased { pad, velocity } => released(s, pad),
        _ => (s, Seq::empty()),
    }
}

/// The state after a run of events went through the router, one by one.
pub open spec fn routed_all(s: StateView, events: Seq<EventView>) -> StateView
    decreases events.len(),
{
    if events.len() == 0 {
        s
    } else {
        routed_all(routed(s, events[0]).0, events.drop_first())
    }
}

/// Modifier pad `pad` pressed: it is held from now on and fixes the length of
/// the next morph.
fn press_modifier(state: &mut ProjectState, pad: u8) -> (effects: Vec<Effect>)
    requires
        pad < MODIFIER_PADS,
    ensures
        final(state)@ == pressed(old(state)@, pad, 1).0,
        effects_view(effects@) == pressed(old(state)@, pad, 1).1,
{
    let bars: u8 = if pad == 0 {
        1
    } else if pad == 1 {
        2
    } else if pad == 2 {
        4
    } else if pad == 3 {
        8
    } else {
        16
    };
    state.active_modifier = Some(pad);
    state.morph_duration = bars;
    let mut effects: Vec<Effect> = Vec::new();
    effects.push(Effect::Publish(Event::RequestUpdateLEDs));
    assert(effects_view(effects@) =~= pressed(old(state)@, pad, 1).1);
    effects
}

/// Bank pad `pad` pressed: its bank becomes the current one, with its first
/// snap selected, if it has a snap.
fn press_bank(state: &mut ProjectState, pad: u8) -> (effects: Vec<Effect>)
    requires
        FIRST_BANK_PAD <= pad < FIRST_SNAP_PAD,
    ensures
        final(state)@ == pressed(old(state)@, pad, 1).0,
        effects_view(effects@) == pressed(old(state)@, pad, 1).1,
{
    let bank_id: usize = (pad - FIRST_BANK_PAD) as usize;
    let mut effects: Vec<Effect> = Vec::new();
    if bank_id < state.project.banks.len() && state.project.banks[bank_id].snaps.len() > 0 {
        if state.active_morph.is_some() {
            state.active_morph = None;
            effects.push(Effect::Publish(Event::MorphCompleted));
        }
        state.current_bank = bank_id;
        state.current_snap = 0;
        effects.push(Effect::Publish(Event::BankSelected { bank_id }));
        effects.push(Effect::Publish(Event::RequestUpdateLEDs));
    }
    assert(effects_view(effects@) =~= pressed(old(state)@, pad, 1).1);
    effects
}

/// Whether slot `snap_id` of the current bank holds a snap.
fn is_selectable(state: &ProjectState, snap_id: usize) -> (yes: bool)
    ensures
        yes == selectable(state@, snap_id as int),
{
    let b = state.current_bank;
    if b >= state.project.banks.len() {
        return false;
    }
    if snap_id >= state.project.banks[b].snaps.len() {
        return false;
    }
    !state.project.banks[b].snaps[snap_id].name.as_str().is_empty()
}

/// A press on slot `snap_id` of the snap grid.
fn press_snap(state: &mut ProjectState, snap_id: usize) -> (effects: Vec<Effect>)
    ensures
        final(state)@ == snap_pressed(old(state)@, snap_id).0,
        effects_view(effects@) == snap_pressed(old(state)@, snap_id).1,
{
    let mut effects: Vec<Effect> = Vec::new();
    let cancelled = state.active_morph.is_some();
    if cancelled {
        state.active_morph = None;
        effects.push(Effect::Publish(Event::MorphCompleted));
    }
    let ghost idle = state@;
    let ghost cancel = effects_view(effects@);
    assert(cancel =~= if old(state)@.active_morph is Some {
        seq![EffectView::Publish(EventView::MorphCompleted)]
    } else {
        Seq::empty()
    });
    assert(idle == (StateView { active_morph: None, ..old(state)@ }));
    let populated = is_selectable(state, snap_id);
    assert(populated == selectable(old(state)@, snap_id as int));
    if populated && state.active_modifier.is_some() && snap_id != state.current_snap {
        effects.push(
            Effect::Publish(
                Event::MorphInitiated {
                    from_snap: state.current_snap,
                    to_snap: snap_id,
                    duration_bars: state.morph_duration,
                    curve_type: MorphCurve::Linear,
                    quantize: true,
                },
            ),
        );
        effects.push(Effect::Publish(Event::RequestUpdateLEDs));
        assert(effects_view(effects@) =~= snap_pressed(old(state)@, snap_id).1);
    } else if populated {
        let bank = state.current_bank;
        match state.select_snap(bank, snap_id) {
            Ok(pairs) => {
                push_cc_effects(&mut effects, &pairs);
                effects.push(Effect::Publish(Event::SnapSelected { bank, snap_id }));
                effects.push(Effect::Publish(Event::RequestUpdateLEDs));
                assert(effects_view(effects@) =~= snap_pressed(old(state)@, snap_id).1);
            },
            Err(_) => {
                assert(false);
            },
        }
    } else if cancelled {
        effects.push(Effect::Publish(Event::RequestUpdateLEDs));
        assert(effects_view(effects@) =~= snap_pressed(old(state)@, snap_id).1);
    } else {
        assert(effects_view(effects@) =~= snap_pressed(old(state)@, snap_id).1);
    }
    effects
}

/// Routes a pad release: a released modifier pad stops being held.
pub fn handle_pad_released(state: &mut ProjectState, pad: u8, velocity: u8) -> (effects: Vec<
    Effect,
>)
    ensures
        final(state)@ == released(old(state)@, pad).0,
        effects_view(effects@) == released(old(state)@, pad).1,
{
    let mut effects: Vec<Effect> = Vec::new();
    let held = match state.active_modifier {
        Some(m) => m == pad,
        None => false,
    };
    if pad < MODIFIER_PADS && held {
        state.active_modifier = None;
        effects.push(Effect::Publish(Event::RequestUpdateLEDs));
    }
    assert(effects_view(effects@) =~= released(old(state)@, pad).1);
    effects
}

/// Routes a pad press into the model and hands back what has to be sent and
/// published, in order.
///
/// Pads 0 to 4 hold a modifier, pads 5 to 7 select a bank, pads 8 to 63
/// select a snap or, with a modifier held, ask for a morph to it. A press
/// with velocity 0 is a release. Every decision ends with a request to
/// redraw the LEDs; a press that decides nothing hands back nothing.
pub fn handle_pad_pressed(state: &mut ProjectState, pad: u8, velocity: u8) -> (effects: Vec<
    Effect,
>)
    ensures
        final(state)@ == pressed(old(state)@, pad, velocity).0,
        effects_view(effects@) == pressed(old(state)@, pad, velocity).1,
{
    if velocity == 0 {
        handle_pad_released(state, pad, velocity)
    } else if pad < MODIFIER_PADS {
        press_modifier(state, pad)
    } else if pad < FIRST_SNAP_PAD {
        press_bank(state, pad)
    } else if pad < GRID_PADS {
        press_snap(state, (pad - FIRST_SNAP_PAD) as usize)
    } else {
        let effects: Vec<Effect> = Vec::new();
        assert(effects_view(effects@) =~= pressed(old(state)@, pad, velocity).1);
        effects
    }
}

/// Routes one event from the bus: pad presses and releases change the model,
/// every other event is left alone.
pub fn route_event(state: &mut ProjectState, event: &Event) -> (effects: Vec<Effect>)
    ensures
        final(state)@ == routed(old(state)@, event@).0,
        effects_view(effects@) == routed(old(state)@, event@).1,
{
    match event {
        Event::PadPressed { pad, velocity } => handle_pad_pressed(state, *pad, *velocity),
        Event::PadReleased { pad, velocity } => handle_pad_released(state, *pad, *velocity),
        _ => {
            let effects: Vec<Effect> = Vec::new();
            assert(effects_view(effects@) =~= routed(old(state)@, event@).1);
            effects
        },
    }
}

/// A routed event keeps the whole invariant: the selected snap is a slot of
/// the current bank, the held modifier is one of pads 0 to 4, the morph
/// length is one of 1, 2, 4, 8, 16, and a running morph started from the
/// selected snap.
pub proof fn lemma_routed_keeps_invariant(s: StateView, event: EventView)
    requires
        s.consistent(),
    ensures
        routed(s, event).0.consistent(),
{
}

/// After any run of routed events the whole invariant holds.
pub proof fn lemma_run_keeps_invariant(s: StateView, events: Seq<EventView>)
    requires
        s.consistent(),
    ensures
        routed_all(s, events).consistent(),
    decreases events.len(),
{
    if events.len() > 0 {
        lemma_routed_keeps_invariant(s, events[0]);
        lemma_run_keeps_invariant(routed(s, events[0]).0, events.drop_first());
    }
}

/// A slot that was selected has a value for every parameter.
pub proof fn lemma_selected_snap_covers(s: StateView, snap_id: usize)
    requires
        selectable(s, snap_id as int),
        s.active_modifier is None || snap_id == s.current_snap,
    ensures
        ({
            let after = snap_pressed(s, snap_id).0;
            after.current_snap == snap_id && after.project.snap(
                s.current_bank as int,
                snap_id as int,
            ).values.len() >= after.project.parameters.len()
        }),
{
}

} // verus!
