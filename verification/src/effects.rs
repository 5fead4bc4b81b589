use crate::events::{Event, EventView};
use vstd::prelude::*;

verus! {

/// The channel on which CC messages leave.
pub const CC_CHANNEL: u8 = 0;

/// What the library asks of its caller after a decision. The caller carries
/// the effects out in the order given.
///
/// The caller keeps one timer for the morph engine. `AwaitReply`,
/// `WaitForBar` and `StartTicker` each replace whatever that timer was
/// doing; `StopTimers` clears it.
#[derive(Clone, Debug, PartialEq, Eq)]
pub enum Effect {
    /// Put the event on the bus.
    Publish(Event),
    /// Send one CC message on the outbound MIDI port.
    SendCc { channel: u8, cc: u8, value: u8 },
    /// Report to the morph engine that the timer fired, unless the awaited
    /// reply arrives within `timeout_ms`.
    AwaitReply { timeout_ms: u64 },
    /// Report to the morph engine that the timer fired after `wait_ms`.
    WaitForBar { wait_ms: u64 },
    /// Report a tick to the morph engine every `interval_ms`, with the time
    /// since this effect; a tick that comes late is not made up for.
    StartTicker { interval_ms: u64 },
    /// Clear the morph engine's timer.
    StopTimers,
}

pub enum EffectView {
    Publish(EventView),
    SendCc { channel: u8, cc: u8, value: u8 },
    AwaitReply { timeout_ms: u64 },
    WaitForBar { wait_ms: u64 },
    StartTicker { interval_ms: u64 },
    StopTimers,
}

impl View for Effect {
    type V = EffectView;

    open spec fn view(&self) -> EffectView {
        match *self {
            Effect::Publish(event) => EffectView::Publish(event@),
            Effect::SendCc { channel, cc, value } => EffectView::SendCc { channel, cc, value },
            Effect::AwaitReply { timeout_ms } => EffectView::AwaitReply { timeout_ms },
            Effect::WaitForBar { wait_ms } => EffectView::WaitForBar { wait_ms },
            Effect::StartTicker { interval_ms } => EffectView::StartTicker { interval_ms },
            Effect::StopTimers => EffectView::StopTimers,
        }
    }
}

/// The views of a run of effects, in order.
pub open spec fn effects_view(effects: Seq<Effect>) -> Seq<EffectView> {
    effects.map_values(|e: Effect| e@)
}

/// The request to redraw the LEDs.
pub open spec fn led_refresh() -> EffectView {
    EffectView::Publish(EventView::RequestUpdateLEDs)
}

/// One CC message per (CC number, value) pair, on the outbound channel, in
/// order.
pub open spec fn cc_effects(pairs: Seq<(u8, u8)>) -> Seq<EffectView> {
    pairs.map_values(
        |p: (u8, u8)| EffectView::SendCc { channel: CC_CHANNEL, cc: p.0, value: p.1 },
    )
}

/// Every event of the run published, in order.
pub open spec fn published(events: Seq<EventView>) -> Seq<EffectView> {
    events.map_values(|e: EventView| EffectView::Publish(e))
}

/// Appending an effect appends its view.
pub proof fn lemma_effects_view_push(effects: Seq<Effect>, effect: Effect)
    ensures
        effects_view(effects.push(effect)) == effects_view(effects).push(effect@),
{
    assert(effects_view(effects.push(effect)) =~= effects_view(effects).push(effect@));
}

/// Appends one CC message per pair to `effects`.
pub fn push_cc_effects(effects: &mut Vec<Effect>, pairs: &Vec<(u8, u8)>)
    ensures
        effects_view(final(effects)@) == effects_view(old(effects)@) + cc_effects(pairs@),
{
    let mut i: usize = 0;
    while i < pairs.len()
        invariant
            i <= pairs.len(),
            effects@.len() == old(effects)@.len() + i,
            forall|k: int| 0 <= k < old(effects)@.len() ==> effects@[k] == old(effects)@[k],
            forall|k: int|
                0 <= k < i ==> effects@[old(effects)@.len() + k]@ == (EffectView::SendCc {
                    channel: CC_CHANNEL,
                    cc: pairs@[k].0,
                    value: pairs@[k].1,
                }),
        decreases pairs.len() - i,
    {
        let (cc, value) = pairs[i];
        effects.push(Effect::SendCc { channel: CC_CHANNEL, cc, value });
        i += 1;
    }
    assert(effects_view(effects@) =~= effects_view(old(effects)@) + cc_effects(pairs@));
}

} // verus!
