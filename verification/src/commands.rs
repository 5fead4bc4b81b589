use crate::effects::{cc_effects, effects_view, lemma_effects_view_push, push_cc_effects, Effect, EffectView};
use crate::events::{Event, EventView, MorphCurve};
use crate::model::{
    cc_pairs, filled, overlay_values, pad_values, padded, ModelError, Parameter, ParameterView,
    Project, ProjectState, ProjectView, Snap, SnapView, StateView, DEFAULT_VALUE, SNAPS_PER_BANK,
};
use crate::strings::str_equals;
use vstd::prelude::*;

verus! {

/// The (CC number, value) pairs of `values`, in parameter order.
pub fn collect_cc_pairs(parameters: &Vec<Parameter>, values: &Vec<u8>) -> (pairs: Vec<(u8, u8)>)
    ensures
        pairs@ == cc_pairs(parameters@.map_values(|p: Parameter| p@), values@),
{
    let n = if parameters.len() <= values.len() {
        parameters.len()
    } else {
        values.len()
    };
    let mut pairs: Vec<(u8, u8)> = Vec::new();
    let mut i: usize = 0;
    while i < n
        invariant
            i <= n,
            n <= parameters.len(),
            n <= values.len(),
            pairs@.len() == i,
            forall|k: int| 0 <= k < i ==> pairs@[k] == (parameters@[k].cc, values@[k]),
        decreases n - i,
    {
        pairs.push((parameters[i].cc, values[i]));
        i += 1;
    }
    assert(pairs@ =~= cc_pairs(parameters@.map_values(|p: Parameter| p@), values@));
    pairs
}

impl ProjectState {
    /// Selects snap `snap_id` of bank `bank_id`: pads its values to the
    /// parameters and hands back the CC pairs to send, in parameter order.
    /// An index out of range is refused and leaves the state as it was.
    pub fn select_snap(&mut self, bank_id: usize, snap_id: usize) -> (result: Result<
        Vec<(u8, u8)>,
        ModelError,
    >)
        ensures
            match result {
                Ok(pairs) => {
                    &&& old(self)@.snap_error(bank_id as int, snap_id as int) is None
                    &&& final(self)@ == old(self)@.select_snap(bank_id as int, snap_id as int)
                    &&& pairs@ == cc_pairs(
                        final(self)@.project.parameters,
                        final(self)@.project.snap(bank_id as int, snap_id as int).values,
                    )
                    &&& pairs@.len() == final(self)@.project.parameters.len()
                },
                Err(e) => {
                    &&& old(self)@.snap_error(bank_id as int, snap_id as int) == Some(e)
                    &&& final(self)@ == old(self)@
                },
            },
    {
        if bank_id >= self.project.banks.len() {
            return Err(ModelError::BankOutOfRange);
        }
        if snap_id >= self.project.banks[bank_id].snaps.len() {
            return Err(ModelError::SnapOutOfRange);
        }
        let n = self.project.parameters.len();
        pad_values(&mut self.project.banks[bank_id].snaps[snap_id].values, n);
        self.current_bank = bank_id;
        self.current_snap = snap_id;
        proof {
            let before = old(self)@;
            let want = before.select_snap(bank_id as int, snap_id as int);
            assert(self@.project.banks[bank_id as int].snaps =~= want.project.banks[bank_id as int].snaps);
            assert(self@.project.banks =~= want.project.banks);
            assert(self@.project.parameters =~= want.project.parameters);
        }
        let pairs = collect_cc_pairs(
            &self.project.parameters,
            &self.project.banks[bank_id].snaps[snap_id].values,
        );
        Ok(pairs)
    }

    /// Sets parameter `param_id` of the selected snap to `value`, padding the
    /// snap's values to the parameters first, and hands back the parameter's
    /// CC number.
    pub fn edit_parameter(&mut self, param_id: usize, value: u8) -> (result: Result<u8, ModelError>)
        ensures
            match result {
                Ok(cc) => {
                    &&& old(self)@.edit_error(param_id as int) is None
                    &&& final(self)@ == old(self)@.edit_parameter(param_id as int, value)
                    &&& cc == old(self)@.project.parameters[param_id as int].cc
                },
                Err(e) => {
                    &&& old(self)@.edit_error(param_id as int) == Some(e)
                    &&& final(self)@ == old(self)@
                },
            },
    {
        if param_id >= self.project.parameters.len() {
            return Err(ModelError::ParameterOutOfRange);
        }
        let b = self.current_bank;
        let s = self.current_snap;
        if b >= self.project.banks.len() {
            return Err(ModelError::BankOutOfRange);
        }
        if s >= self.project.banks[b].snaps.len() {
            return Err(ModelError::SnapOutOfRange);
        }
        let cc = self.project.parameters[param_id].cc;
        let n = self.project.parameters.len();
        pad_values(&mut self.project.banks[b].snaps[s].values, n);
        self.project.banks[b].snaps[s].values[param_id] = value;
        proof {
            let want = old(self)@.edit_parameter(param_id as int, value);
            assert(self@.project.banks[b as int].snaps =~= want.project.banks[b as int].snaps);
            assert(self@.project.banks =~= want.project.banks);
            assert(self@.project.parameters =~= want.project.parameters);
        }
        Ok(cc)
    }

    /// Appends a parameter and pads every snap of every bank so that it has a
    /// value for it.
    pub fn add_parameter(&mut self, name: String, description: String, cc: u8)
        ensures
            final(self)@ == (StateView {
                project: old(self)@.project.add_parameter(
                    ParameterView { name: name@, description: description@, cc },
                ),
                ..old(self)@
            }),
            final(self)@.project.covered(),
    {
        self.project.parameters.push(Parameter { name, description, cc });
        let n = self.project.parameters.len();
        let ghost want = old(self)@.project.add_parameter(
            ParameterView { name: name@, description: description@, cc },
        );
        assert(self@.project.parameters =~= want.parameters);
        let mut b: usize = 0;
        while b < self.project.banks.len()
            invariant
                b <= self.project.banks.len(),
                n == want.parameters.len(),
                self.project.banks.len() == old(self).project.banks.len(),
                want.banks.len() == old(self).project.banks.len(),
                forall|i: int| 0 <= i < b ==> self@.project.banks[i] == want.banks[i],
                forall|i: int|
                    b <= i < self.project.banks.len() ==> self.project.banks[i] == old(
                        self,
                    ).project.banks[i],
                forall|i: int|
                    0 <= i < want.banks.len() ==> want.banks[i] == old(self)@.project.banks[i].padded_to(
                        n as nat,
                    ),
                self@.project.parameters == want.parameters,
                self@.project.project_name == want.project_name,
                self@.project.openai_api_key == want.openai_api_key,
                self@.project.controller == want.controller,
                self.current_bank == old(self).current_bank,
                self.current_snap == old(self).current_snap,
                self.active_modifier == old(self).active_modifier,
                self.morph_duration == old(self).morph_duration,
                self.active_morph == old(self).active_morph,
            decreases self.project.banks.len() - b,
        {
            let ghost bank_before = self.project.banks[b as int]@;
            let mut s: usize = 0;
            while s < self.project.banks[b as usize].snaps.len()
                invariant
                    b < self.project.banks.len(),
                    s <= self.project.banks[b as int].snaps.len(),
                    self.project.banks.len() == old(self).project.banks.len(),
                    bank_before == old(self)@.project.banks[b as int],
                    self.project.banks[b as int].snaps.len() == bank_before.snaps.len(),
                    self.project.banks[b as int].name@ == bank_before.name,
                    forall|j: int|
                        0 <= j < s ==> self.project.banks[b as int].snaps[j]@
                            == bank_before.snaps[j].with_values(
                            padded(bank_before.snaps[j].values, n as nat),
                        ),
                    forall|j: int|
                        s <= j < bank_before.snaps.len() ==> self.project.banks[b as int].snaps[j]@
                            == bank_before.snaps[j],
                    forall|i: int| 0 <= i < b ==> self@.project.banks[i] == want.banks[i],
                    forall|i: int|
                        b < i < self.project.banks.len() ==> self.project.banks[i] == old(
                            self,
                        ).project.banks[i],
                    self@.project.parameters == want.parameters,
                    self@.project.project_name == want.project_name,
                    self@.project.openai_api_key == want.openai_api_key,
                    self@.project.controller == want.controller,
                    self.current_bank == old(self).current_bank,
                    self.current_snap == old(self).current_snap,
                    self.active_modifier == old(self).active_modifier,
                    self.morph_duration == old(self).morph_duration,
                    self.active_morph == old(self).active_morph,
                decreases self.project.banks[b as int].snaps.len() - s,
            {
                let ghost prev = self@;
                let ghost prev_state = *self;
                pad_values(&mut self.project.banks[b].snaps[s].values, n);
                assert(self@.project.parameters =~= prev.project.parameters);
                assert forall|i: int| 0 <= i < b implies self@.project.banks[i]
                    == want.banks[i] by {
                    assert(self.project.banks[i] == prev_state.project.banks[i]);
                }
                s += 1;
            }
            proof {
                assert(self@.project.banks[b as int].snaps =~= bank_before.padded_to(
                    n as nat,
                ).snaps);
            }
            b += 1;
        }
        proof {
            assert(self@.project.banks =~= want.banks);
            assert forall|bi: int, si: int| want.has_snap(bi, si) implies (
            #[trigger] want.snap(bi, si)).values.len() >= want.parameters.len() by {
                let before = old(self)@.project.banks[bi].snaps[si];
                assert(want.snap(bi, si) == before.with_values(padded(before.values, n as nat)));
            }
        }
    }

    /// Replaces name, description and CC number of parameter `param_id`.
    pub fn update_parameter(
        &mut self,
        param_id: usize,
        name: String,
        description: String,
        cc: u8,
    ) -> (result: Result<(), ModelError>)
        ensures
            result is Ok <==> param_id < old(self)@.project.parameters.len(),
            result is Err ==> result == Err::<(), ModelError>(ModelError::ParameterOutOfRange)
                && final(self)@ == old(self)@,
            result is Ok ==> final(self)@ == (StateView {
                project: old(self)@.project.update_parameter(
                    param_id as int,
                    ParameterView { name: name@, description: description@, cc },
                ),
                ..old(self)@
            }),
    {
        if param_id >= self.project.parameters.len() {
            return Err(ModelError::ParameterOutOfRange);
        }
        self.project.parameters[param_id] = Parameter { name, description, cc };
        proof {
            let want = old(self)@.project.update_parameter(
                param_id as int,
                ParameterView { name: name@, description: description@, cc },
            );
            assert(self@.project.parameters =~= want.parameters);
            assert(self@.project.banks =~= want.banks);
        }
        Ok(())
    }

    /// Puts a new snap, every parameter at the mid-point, at grid slot
    /// `pad_index` of bank `bank_id`. Slots below it that did not exist yet
    /// become blank. What stood at `pad_index` is replaced.
    pub fn add_snap(
        &mut self,
        bank_id: usize,
        pad_index: usize,
        name: String,
        description: String,
    ) -> (result: Result<(), ModelError>)
        ensures
            match result {
                Ok(()) => {
                    &&& bank_id < old(self)@.project.banks.len()
                    &&& pad_index < SNAPS_PER_BANK
                    &&& final(self)@ == (StateView {
                        project: old(self)@.project.add_snap(
                            bank_id as int,
                            pad_index as int,
                            name@,
                            description@,
                        ),
                        ..old(self)@
                    })
                },
                Err(e) => {
                    &&& final(self)@ == old(self)@
                    &&& e == if bank_id >= old(self)@.project.banks.len() {
                        ModelError::BankOutOfRange
                    } else {
                        ModelError::SnapOutOfRange
                    }
                    &&& bank_id >= old(self)@.project.banks.len() || pad_index >= SNAPS_PER_BANK
                },
            },
    {
        if bank_id >= self.project.banks.len() {
            return Err(ModelError::BankOutOfRange);
        }
        if pad_index >= SNAPS_PER_BANK {
            return Err(ModelError::SnapOutOfRange);
        }
        let ghost old_snaps = old(self)@.project.banks[bank_id as int].snaps;
        while self.project.banks[bank_id].snaps.len() <= pad_index
            invariant
                bank_id < self.project.banks.len(),
                pad_index < SNAPS_PER_BANK,
                self.project.banks.len() == old(self).project.banks.len(),
                old_snaps == old(self)@.project.banks[bank_id as int].snaps,
                old_snaps.len() <= self.project.banks[bank_id as int].snaps.len(),
                self.project.banks[bank_id as int].snaps.len() <= if old_snaps.len() > pad_index {
                    old_snaps.len()
                } else {
                    (pad_index + 1) as nat
                },
                forall|j: int|
                    0 <= j < old_snaps.len() ==> self.project.banks[bank_id as int].snaps[j]@
                        == old_snaps[j],
                forall|j: int|
                    old_snaps.len() <= j < self.project.banks[bank_id as int].snaps.len()
                        ==> self.project.banks[bank_id as int].snaps[j]@ == SnapView::blank(),
                self.project.banks[bank_id as int].name == old(self).project.banks[bank_id as int].name,
                forall|i: int|
                    0 <= i < self.project.banks.len() && i != bank_id ==> self.project.banks[i]
                        == old(self).project.banks[i],
                self.project.parameters == old(self).project.parameters,
                self.project.project_name == old(self).project.project_name,
                self.project.openai_api_key == old(self).project.openai_api_key,
                self.project.controller == old(self).project.controller,
                self.current_bank == old(self).current_bank,
                self.current_snap == old(self).current_snap,
                self.active_modifier == old(self).active_modifier,
                self.morph_duration == old(self).morph_duration,
                self.active_morph == old(self).active_morph,
            decreases pad_index + 1 - self.project.banks[bank_id as int].snaps.len(),
        {
            self.project.banks[bank_id].snaps.push(
                Snap { name: String::new(), description: String::new(), values: Vec::new() },
            );
        }
        let n = self.project.parameters.len();
        self.project.banks[bank_id].snaps[pad_index] = Snap {
            name,
            description,
            values: filled(n, DEFAULT_VALUE),
        };
        proof {
            let want = old(self)@.project.add_snap(
                bank_id as int,
                pad_index as int,
                name@,
                description@,
            );
            assert(self@.project.banks[bank_id as int].snaps =~= want.banks[bank_id as int].snaps);
            assert(self@.project.banks =~= want.banks);
            assert(self@.project.parameters =~= want.parameters);
        }
        Ok(())
    }

    /// Replaces the description of snap `snap_id` of bank `bank_id`.
    pub fn update_snap_description(
        &mut self,
        bank_id: usize,
        snap_id: usize,
        description: String,
    ) -> (result: Result<(), ModelError>)
        ensures
            match result {
                Ok(()) => {
                    &&& old(self)@.snap_error(bank_id as int, snap_id as int) is None
                    &&& final(self)@ == (StateView {
                        project: old(self)@.project.with_snap(
                            bank_id as int,
                            snap_id as int,
                            SnapView {
                                description: description@,
                                ..old(self)@.project.snap(bank_id as int, snap_id as int)
                            },
                        ),
                        ..old(self)@
                    })
                },
                Err(e) => {
                    &&& old(self)@.snap_error(bank_id as int, snap_id as int) == Some(e)
                    &&& final(self)@ == old(self)@
                },
            },
    {
        if bank_id >= self.project.banks.len() {
            return Err(ModelError::BankOutOfRange);
        }
        if snap_id >= self.project.banks[bank_id].snaps.len() {
            return Err(ModelError::SnapOutOfRange);
        }
        self.project.banks[bank_id].snaps[snap_id].description = description;
        proof {
            let want = old(self)@.project.with_snap(
                bank_id as int,
                snap_id as int,
                SnapView {
                    description: description@,
                    ..old(self)@.project.snap(bank_id as int, snap_id as int)
                },
            );
            assert(self@.project.banks[bank_id as int].snaps =~= want.banks[bank_id as int].snaps);
            assert(self@.project.banks =~= want.banks);
            assert(self@.project.parameters =~= want.parameters);
        }
        Ok(())
    }

    /// Names the controller that the project is played on.
    pub fn set_controller(&mut self, name: String)
        ensures
            final(self)@ == (StateView {
                project: ProjectView { controller: name@, ..old(self)@.project },
                ..old(self)@
            }),
    {
        self.project.controller = name;
    }

    /// Stores the key for the value-generating service.
    pub fn set_openai_api_key(&mut self, api_key: String)
        ensures
            final(self)@ == (StateView {
                project: ProjectView { openai_api_key: Some(api_key@), ..old(self)@.project },
                ..old(self)@
            }),
    {
        self.project.openai_api_key = Some(api_key);
    }

    /// Writes generated values over the first values of snap `snap_id` of
    /// bank `bank_id`; the snap grows where there are more of them.
    pub fn apply_generated_values(
        &mut self,
        bank_id: usize,
        snap_id: usize,
        values: &Vec<u8>,
    ) -> (result: Result<(), ModelError>)
        ensures
            match result {
                Ok(()) => {
                    &&& old(self)@.snap_error(bank_id as int, snap_id as int) is None
                    &&& final(self)@ == old(self)@.apply_values(
                        bank_id as int,
                        snap_id as int,
                        values@,
                    )
                },
                Err(e) => {
                    &&& old(self)@.snap_error(bank_id as int, snap_id as int) == Some(e)
                    &&& final(self)@ == old(self)@
                },
            },
    {
        if bank_id >= self.project.banks.len() {
            return Err(ModelError::BankOutOfRange);
        }
        if snap_id >= self.project.banks[bank_id].snaps.len() {
            return Err(ModelError::SnapOutOfRange);
        }
        overlay_values(&mut self.project.banks[bank_id].snaps[snap_id].values, values);
        proof {
            let want = old(self)@.apply_values(bank_id as int, snap_id as int, values@);
            assert(self@.project.banks[bank_id as int].snaps =~= want.project.banks[bank_id as int].snaps);
            assert(self@.project.banks =~= want.project.banks);
            assert(self@.project.parameters =~= want.project.parameters);
        }
        Ok(())
    }

    /// Takes `project` as the session's project: first bank, first snap, no
    /// morph. What is held and the chosen morph length stay.
    pub fn load_project(&mut self, project: Project)
        ensures
            final(self)@ == old(self)@.with_project(project@),
    {
        self.project = project;
        self.current_bank = 0;
        self.current_snap = 0;
        self.active_morph = None;
    }

    /// Starts over with the project of a new session.
    pub fn new_project(&mut self)
        ensures
            final(self)@ == old(self)@.with_project(ProjectView::initial()),
    {
        self.load_project(Project::default());
    }
}

/// The curve that a name stands for: "linear", "exponential", "logarithmic"
/// or "scurve"; any other name stands for the linear curve.
pub open spec fn named_curve(name: Seq<char>) -> MorphCurve {
    if name == "exponential"@ {
        MorphCurve::Exponential
    } else if name == "logarithmic"@ {
        MorphCurve::Logarithmic
    } else if name == "scurve"@ {
        MorphCurve::SCurve
    } else {
        MorphCurve::Linear
    }
}

/// The curve that a name stands for.
pub fn curve_from_name(name: &str) -> (curve: MorphCurve)
    ensures
        curve == named_curve(name@),
{
    if str_equals(name, "exponential") {
        MorphCurve::Exponential
    } else if str_equals(name, "logarithmic") {
        MorphCurve::Logarithmic
    } else if str_equals(name, "scurve") {
        MorphCurve::SCurve
    } else {
        MorphCurve::Linear
    }
}

/// The command to select a snap: the model selects it, and the caller gets
/// the snap's CC messages, in parameter order, and the notice to publish.
pub fn select_snap(state: &mut ProjectState, bank_id: usize, snap_id: usize) -> (result: Result<
    Vec<Effect>,
    ModelError,
>)
    ensures
        match result {
            Ok(effects) => {
                &&& old(state)@.snap_error(bank_id as int, snap_id as int) is None
                &&& final(state)@ == old(state)@.select_snap(bank_id as int, snap_id as int)
                &&& effects_view(effects@) == cc_effects(
                    cc_pairs(
                        final(state)@.project.parameters,
                        final(state)@.project.snap(bank_id as int, snap_id as int).values,
                    ),
                ).push(
                    EffectView::Publish(EventView::SnapSelected { bank: bank_id, snap_id }),
                )
            },
            Err(e) => {
                &&& old(state)@.snap_error(bank_id as int, snap_id as int) == Some(e)
                &&& final(state)@ == old(state)@
            },
        },
{
    match state.select_snap(bank_id, snap_id) {
        Ok(pairs) => {
            let mut effects: Vec<Effect> = Vec::new();
            push_cc_effects(&mut effects, &pairs);
            let notice = Effect::Publish(Event::SnapSelected { bank: bank_id, snap_id });
            proof {
                lemma_effects_view_push(effects@, notice);
                assert(effects_view(Seq::<Effect>::empty()) + cc_effects(pairs@) =~= cc_effects(
                    pairs@,
                ));
            }
            effects.push(notice);
            Ok(effects)
        },
        Err(e) => Err(e),
    }
}

/// The command to set a parameter of the selected snap: the model stores
/// the value, and the caller gets the CC message and the notice to publish.
pub fn edit_parameter(state: &mut ProjectState, param_id: usize, value: u8) -> (result: Result<
    Vec<Effect>,
    ModelError,
>)
    ensures
        match result {
            Ok(effects) => {
                &&& old(state)@.edit_error(param_id as int) is None
                &&& final(state)@ == old(state)@.edit_parameter(param_id as int, value)
                &&& effects_view(effects@) == seq![
                    EffectView::SendCc {
                        channel: crate::effects::CC_CHANNEL,
                        cc: old(state)@.project.parameters[param_id as int].cc,
                        value,
                    },
                    EffectView::Publish(EventView::ParameterEdited { param_id, value }),
                ]
            },
            Err(e) => {
                &&& old(state)@.edit_error(param_id as int) == Some(e)
                &&& final(state)@ == old(state)@
            },
        },
{
    match state.edit_parameter(param_id, value) {
        Ok(cc) => {
            let mut effects: Vec<Effect> = Vec::new();
            effects.push(Effect::SendCc { channel: crate::effects::CC_CHANNEL, cc, value });
            effects.push(Effect::Publish(Event::ParameterEdited { param_id, value }));
            assert(effects_view(effects@) =~= seq![
                EffectView::SendCc {
                    channel: crate::effects::CC_CHANNEL,
                    cc: old(state)@.project.parameters[param_id as int].cc,
                    value,
                },
                EffectView::Publish(EventView::ParameterEdited { param_id, value }),
            ]);
            Ok(effects)
        },
        Err(e) => Err(e),
    }
}

/// The command to morph between two snaps: the request to publish.
pub fn start_morph(
    from_snap: usize,
    to_snap: usize,
    duration_bars: u8,
    curve_type: &str,
    quantize: bool,
) -> (effect: Effect)
    ensures
        effect@ == EffectView::Publish(
            EventView::MorphInitiated {
                from_snap,
                to_snap,
                duration_bars,
                curve_type: named_curve(curve_type@),
                quantize,
            },
        ),
{
    Effect::Publish(
        Event::MorphInitiated {
            from_snap,
            to_snap,
            duration_bars,
            curve_type: curve_from_name(curve_type),
            quantize,
        },
    )
}

/// The command to have values generated for a snap: the request to publish.
pub fn generate_ai_values(bank_id: usize, snap_id: usize) -> (effect: Effect)
    ensures
        effect@ == EffectView::Publish(EventView::GenerateAIValues { bank_id, snap_id }),
{
    Effect::Publish(Event::GenerateAIValues { bank_id, snap_id })
}

/// The command to send the selected snap's values again: its CC messages, in
/// parameter order, as far as it has values.
pub fn send_current_snap(state: &ProjectState) -> (result: Result<Vec<Effect>, ModelError>)
    ensures
        match result {
            Ok(effects) => {
                &&& state@.snap_error(state.current_bank as int, state.current_snap as int) is None
                &&& effects_view(effects@) == cc_effects(
                    cc_pairs(
                        state@.project.parameters,
                        state@.project.snap(
                            state.current_bank as int,
                            state.current_snap as int,
                        ).values,
                    ),
                )
            },
            Err(e) => state@.snap_error(state.current_bank as int, state.current_snap as int)
                == Some(e),
        },
{
    let b = state.current_bank;
    let s = state.current_snap;
    if b >= state.project.banks.len() {
        return Err(ModelError::BankOutOfRange);
    }
    if s >= state.project.banks[b].snaps.len() {
        return Err(ModelError::SnapOutOfRange);
    }
    let pairs = collect_cc_pairs(&state.project.parameters, &state.project.banks[b].snaps[s].values);
    let mut effects: Vec<Effect> = Vec::new();
    push_cc_effects(&mut effects, &pairs);
    proof {
        assert(effects_view(Seq::<Effect>::empty()) + cc_effects(pairs@) =~= cc_effects(pairs@));
        assert(state@.project.snap(b as int, s as int).values == state.project.banks[b as int].snaps[s as int].values@);
    }
    Ok(effects)
}

/// The command to send one value of a parameter: its CC message.
pub fn send_cc(state: &ProjectState, param_id: usize, value: u8) -> (result: Result<
    Effect,
    ModelError,
>)
    ensures
        match result {
            Ok(effect) => param_id < state@.project.parameters.len() && effect@
                == (EffectView::SendCc {
                channel: crate::effects::CC_CHANNEL,
                cc: state@.project.parameters[param_id as int].cc,
                value,
            }),
            Err(e) => param_id >= state@.project.parameters.len() && e
                == ModelError::ParameterOutOfRange,
        },
{
    if param_id >= state.project.parameters.len() {
        return Err(ModelError::ParameterOutOfRange);
    }
    Ok(
        Effect::SendCc {
            channel: crate::effects::CC_CHANNEL,
            cc: state.project.parameters[param_id].cc,
            value,
        },
    )
}

/// The command to select a bank: the bank becomes the current one, its
/// first snap, if it has one, the selected one, and the caller gets the
/// values of the snap that is selected now, as far as there is one, and the
/// notice to publish.
pub fn select_bank(state: &mut ProjectState, bank_id: usize) -> (result: Result<
    Vec<Effect>,
    ModelError,
>)
    ensures
        match result {
            Ok(effects) => {
                &&& bank_id < old(state)@.project.banks.len()
                &&& final(state)@ == old(state)@.select_bank(bank_id as int)
                &&& effects_view(effects@) == (if final(state)@.snap_in_range() {
                    cc_effects(
                        cc_pairs(
                            final(state)@.project.parameters,
                            final(state)@.project.snap(
                                bank_id as int,
                                final(state)@.current_snap as int,
                            ).values,
                        ),
                    )
                } else {
                    Seq::empty()
                }).push(EffectView::Publish(EventView::BankSelected { bank_id }))
            },
            Err(e) => {
                &&& bank_id >= old(state)@.project.banks.len()
                &&& e == ModelError::BankOutOfRange
                &&& final(state)@ == old(state)@
            },
        },
{
    if bank_id >= state.project.banks.len() {
        return Err(ModelError::BankOutOfRange);
    }
    state.current_bank = bank_id;
    if state.project.banks[bank_id].snaps.len() > 0 {
        state.current_snap = 0;
    }
    let mut effects: Vec<Effect> = match send_current_snap(state) {
        Ok(effects) => effects,
        Err(_) => Vec::new(),
    };
    let notice = Effect::Publish(Event::BankSelected { bank_id });
    proof {
        lemma_effects_view_push(effects@, notice);
        assert(effects_view(Seq::<Effect>::empty()) =~= Seq::<EffectView>::empty());
    }
    effects.push(notice);
    Ok(effects)
}

} // verus!
