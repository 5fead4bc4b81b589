use crate::color::Rgb;
use crate::model::{ProjectState, StateView, PROGRESS_ONE};
use crate::router::{FIRST_BANK_PAD, FIRST_SNAP_PAD, GRID_PADS, MODIFIER_PADS};
use vstd::prelude::*;

verus! {

/// A bank that exists but is not the current one.
pub open spec fn dim_red() -> Rgb {
    Rgb { r: 128, g: 0, b: 0 }
}

/// The cell of a bank that the project does not have.
pub open spec fn faint_red() -> Rgb {
    Rgb { r: 64, g: 0, b: 0 }
}

/// A slot without a snap.
pub open spec fn dim_gray() -> Rgb {
    Rgb { r: 16, g: 16, b: 16 }
}

pub open spec fn off() -> Rgb {
    Rgb { r: 0, g: 0, b: 0 }
}

/// Progress held within nothing and the whole.
pub open spec fn capped(progress: u32) -> int {
    if progress <= PROGRESS_ONE {
        progress as int
    } else {
        PROGRESS_ONE as int
    }
}

/// How many pads of the top row, from the left, show the morph's progress:
/// one for every eighth that is done.
pub open spec fn progress_pads(progress: u32) -> int {
    capped(progress) * 8 / 1_000_000
}

/// The brightness of the progress pads, in millionths: it rises from 0.7 to 1
/// five times over a morph.
pub open spec fn pulse(progress: u32) -> int {
    700_000 + 3 * ((5 * capped(progress)) % 1_000_000) / 10
}

/// The colour of the progress pads: from blue at the start to green at the
/// end, at the brightness of the pulse, every channel rounded down.
pub open spec fn progress_color(progress: u32) -> Rgb {
    Rgb {
        r: 0,
        g: (capped(progress) * 255 * pulse(progress) / 1_000_000_000_000) as u8,
        b: ((1_000_000 - capped(progress)) * 255 * pulse(progress) / 1_000_000_000_000) as u8,
    }
}

/// Whether pad `pad` shows the progress of a running morph.
pub open spec fn shows_progress(s: StateView, pad: int) -> bool {
    s.bank_in_range() && (s.active_morph matches Some(m) && 0 <= pad < progress_pads(m.progress))
}

/// The colour of a modifier pad: green while held, red otherwise.
pub open spec fn modifier_color(s: StateView, pad: int) -> Rgb {
    if s.active_modifier == Some(pad as u8) {
        Rgb { r: 0, g: 255, b: 0 }
    } else {
        Rgb { r: 255, g: 0, b: 0 }
    }
}

/// The colour of a bank pad: red for the current bank, dimmer for another
/// bank that exists, faint for one that does not.
pub open spec fn bank_color(s: StateView, pad: int) -> Rgb {
    let bank = pad - FIRST_BANK_PAD;
    if bank == s.current_bank {
        Rgb { r: 255, g: 0, b: 0 }
    } else if bank < s.project.banks.len() {
        dim_red()
    } else {
        faint_red()
    }
}

/// The colour of a pad of the snap grid: green for the selected snap, purple
/// for the target of a running morph, yellow for another snap, gray for a
/// slot without one, and off where the bank has no slot.
pub open spec fn snap_color(s: StateView, pad: int) -> Rgb {
    let slot = pad - FIRST_SNAP_PAD;
    if !s.project.has_snap(s.current_bank as int, slot) {
        off()
    } else if slot == s.current_snap {
        Rgb { r: 0, g: 255, b: 0 }
    } else if s.active_morph matches Some(m) && slot == m.to_snap {
        Rgb { r: 128, g: 0, b: 128 }
    } else if !s.project.snap(s.current_bank as int, slot).is_empty_slot() {
        Rgb { r: 255, g: 255, b: 0 }
    } else {
        dim_gray()
    }
}

/// The colour that pad `pad` has to show.
pub open spec fn led_color(s: StateView, pad: int) -> Rgb {
    if pad < MODIFIER_PADS {
        if shows_progress(s, pad) {
            progress_color(s.active_morph->0.progress)
        } else {
            modifier_color(s, pad)
        }
    } else if pad < FIRST_SNAP_PAD {
        if shows_progress(s, pad) {
            progress_color(s.active_morph->0.progress)
        } else {
            bank_color(s, pad)
        }
    } else {
        snap_color(s, pad)
    }
}

/// The colours of all 64 pads, by pad.
pub open spec fn led_layout(s: StateView) -> Seq<Rgb> {
    Seq::new(GRID_PADS as nat, |pad: int| led_color(s, pad))
}

/// The brightness of the progress pads at `progress`.
fn pulse_at(progress: u32) -> (brightness: u64)
    ensures
        brightness == pulse(progress),
        700_000 <= brightness < 1_000_000,
{
    let p: u64 = if progress <= PROGRESS_ONE {
        progress as u64
    } else {
        PROGRESS_ONE as u64
    };
    700_000 + 3 * ((5 * p) % 1_000_000) / 10
}

/// The colour of the progress pads at `progress`.
pub fn morph_progress_color(progress: u32) -> (color: Rgb)
    ensures
        color == progress_color(progress),
{
    let p: u64 = if progress <= PROGRESS_ONE {
        progress as u64
    } else {
        PROGRESS_ONE as u64
    };
    let brightness = pulse_at(progress);
    let rest: u64 = 1_000_000 - p;
    proof {
        assert(p * 255 * brightness <= 255_000_000_000_000 && p * 255 * brightness >= 0)
            by (nonlinear_arith)
            requires
                p <= 1_000_000,
                brightness <= 1_000_000,
        ;
        assert(rest * 255 * brightness <= 255_000_000_000_000 && rest * 255 * brightness >= 0)
            by (nonlinear_arith)
            requires
                rest <= 1_000_000,
                brightness <= 1_000_000,
        ;
        assert(p * 255 <= 255_000_000);
        assert(rest * 255 <= 255_000_000);
    }
    let green: u64 = p * 255 * brightness / 1_000_000_000_000;
    let blue: u64 = rest * 255 * brightness / 1_000_000_000_000;
    Rgb { r: 0, g: green as u8, b: blue as u8 }
}

/// Whether pad `pad` of the top row shows the progress of a running morph.
fn is_progress_pad(state: &ProjectState, pad: u8) -> (yes: bool)
    requires
        pad < FIRST_SNAP_PAD,
    ensures
        yes == shows_progress(state@, pad as int),
{
    if state.current_bank >= state.project.banks.len() {
        return false;
    }
    match &state.active_morph {
        Some(record) => {
            let p: u64 = if record.progress <= PROGRESS_ONE {
                record.progress as u64
            } else {
                PROGRESS_ONE as u64
            };
            (pad as u64) < p * 8 / 1_000_000
        },
        None => false,
    }
}

/// The colour of pad `pad` of the snap grid.
fn snap_led(state: &ProjectState, pad: u8) -> (color: Rgb)
    requires
        FIRST_SNAP_PAD <= pad,
    ensures
        color == snap_color(state@, pad as int),
{
    let slot: usize = (pad - FIRST_SNAP_PAD) as usize;
    let b = state.current_bank;
    if b >= state.project.banks.len() {
        return Rgb::black();
    }
    if slot >= state.project.banks[b].snaps.len() {
        return Rgb::black();
    }
    if slot == state.current_snap {
        return Rgb::green();
    }
    let is_target = match &state.active_morph {
        Some(record) => slot == record.to_snap,
        None => false,
    };
    if is_target {
        Rgb::purple()
    } else if !state.project.banks[b].snaps[slot].name.as_str().is_empty() {
        Rgb::yellow()
    } else {
        Rgb::new(16, 16, 16)
    }
}

/// The colour that pad `pad` has to show.
pub fn led_for_pad(state: &ProjectState, pad: u8) -> (color: Rgb)
    ensures
        color == led_color(state@, pad as int),
{
    if pad < FIRST_SNAP_PAD {
        if is_progress_pad(state, pad) {
            match &state.active_morph {
                Some(record) => morph_progress_color(record.progress),
                None => Rgb::black(),
            }
        } else if pad < MODIFIER_PADS {
            let held = match state.active_modifier {
                Some(m) => m == pad,
                None => false,
            };
            if held {
                Rgb::green()
            } else {
                Rgb::red()
            }
        } else {
            let bank: usize = (pad - FIRST_BANK_PAD) as usize;
            if bank == state.current_bank {
                Rgb::red()
            } else if bank < state.project.banks.len() {
                Rgb::new(128, 0, 0)
            } else {
                Rgb::new(64, 0, 0)
            }
        }
    } else {
        snap_led(state, pad)
    }
}

/// The colours that the 64 pads have to show for `state`: modifiers and
/// banks in the top row, under the progress of a running morph, and the
/// snaps of the current bank below.
pub fn compute_led_layout(state: &ProjectState) -> (layout: Vec<Rgb>)
    ensures
        layout@ == led_layout(state@),
{
    let mut layout: Vec<Rgb> = Vec::new();
    let mut pad: u8 = 0;
    while pad < GRID_PADS
        invariant
            pad <= GRID_PADS,
            layout@.len() == pad,
            forall|k: int| 0 <= k < pad ==> layout@[k] == led_color(state@, k),
        decreases GRID_PADS - pad,
    {
        layout.push(led_for_pad(state, pad));
        pad += 1;
    }
    assert(layout@ =~= led_layout(state@));
    layout
}

} // verus!
