use crate::events::MorphCurve;
use vstd::prelude::*;

verus! {

/// The value a parameter has in a snap that never stored one: the mid-point.
pub const DEFAULT_VALUE: u8 = 64;

/// The largest value a MIDI data byte can carry.
pub const MAX_U7: u8 = 127;

/// The snaps of one bank that the grid can address (pads 8 to 63).
pub const SNAPS_PER_BANK: usize = 56;

/// Morph progress is counted in millionths; this is the whole.
pub const PROGRESS_ONE: u32 = 1_000_000;

/// The morph length that holds until a modifier pad chooses another.
pub const DEFAULT_MORPH_BARS: u8 = 4;

/// One MIDI CC control.
#[derive(Clone, Debug, PartialEq, Eq)]
pub struct Parameter {
    pub name: String,
    pub description: String,
    /// MIDI CC number, 0 to 127.
    pub cc: u8,
}

/// A named vector of CC values, one per parameter, by parameter index.
#[derive(Clone, Debug, PartialEq, Eq)]
pub struct Snap {
    /// Empty for a slot that holds no snap.
    pub name: String,
    pub description: String,
    pub values: Vec<u8>,
}

/// A named collection of snaps, addressed by grid position.
#[derive(Clone, Debug, PartialEq, Eq)]
pub struct Bank {
    pub name: String,
    pub snaps: Vec<Snap>,
}

/// All that is saved of a session.
#[derive(Clone, Debug, PartialEq, Eq)]
pub struct Project {
    pub project_name: String,
    pub openai_api_key: Option<String>,
    pub controller: String,
    pub banks: Vec<Bank>,
    pub parameters: Vec<Parameter>,
}

/// A morph in flight, as the model records it.
#[derive(Clone, Debug, PartialEq, Eq)]
pub struct ActiveMorph {
    pub from_snap: usize,
    pub to_snap: usize,
    pub duration_bars: u8,
    pub curve: MorphCurve,
    /// Millionths of the whole, 0 to `PROGRESS_ONE`.
    pub progress: u32,
    pub from_values: Vec<u8>,
    pub to_values: Vec<u8>,
    pub current_values: Vec<u8>,
}

/// The project together with what is selected, held and morphing right now.
#[derive(Debug, PartialEq, Eq)]
pub struct ProjectState {
    pub project: Project,
    pub current_bank: usize,
    pub current_snap: usize,
    /// The modifier pad (0 to 4) that is held down, if any.
    pub active_modifier: Option<u8>,
    /// The length in bars of the next morph: 1, 2, 4, 8 or 16.
    pub morph_duration: u8,
    pub active_morph: Option<ActiveMorph>,
}

/// Why a command was refused: the first index that was out of range.
#[derive(Clone, Copy, Debug, PartialEq, Eq, Structural)]
pub enum ModelError {
    BankOutOfRange,
    SnapOutOfRange,
    ParameterOutOfRange,
}

pub struct ParameterView {
    pub name: Seq<char>,
    pub description: Seq<char>,
    pub cc: u8,
}

pub struct SnapView {
    pub name: Seq<char>,
    pub description: Seq<char>,
    pub values: Seq<u8>,
}

pub struct BankView {
    pub name: Seq<char>,
    pub snaps: Seq<SnapView>,
}

pub struct ProjectView {
    pub project_name: Seq<char>,
    pub openai_api_key: Option<Seq<char>>,
    pub controller: Seq<char>,
    pub banks: Seq<BankView>,
    pub parameters: Seq<ParameterView>,
}

pub struct ActiveMorphView {
    pub from_snap: usize,
    pub to_snap: usize,
    pub duration_bars: u8,
    pub curve: MorphCurve,
    pub progress: u32,
    pub from_values: Seq<u8>,
    pub to_values: Seq<u8>,
    pub current_values: Seq<u8>,
}

pub struct StateView {
    pub project: ProjectView,
    pub current_bank: usize,
    pub current_snap: usize,
    pub active_modifier: Option<u8>,
    pub morph_duration: u8,
    pub active_morph: Option<ActiveMorphView>,
}

impl View for Parameter {
    type V = ParameterView;

    open spec fn view(&self) -> ParameterView {
        ParameterView { name: self.name@, description: self.description@, cc: self.cc }
    }
}

impl View for Snap {
    type V = SnapView;

    open spec fn view(&self) -> SnapView {
        SnapView { name: self.name@, description: self.description@, values: self.values@ }
    }
}

impl View for Bank {
    type V = BankView;

    open spec fn view(&self) -> BankView {
        BankView { name: self.name@, snaps: self.snaps@.map_values(|s: Snap| s@) }
    }
}

impl View for Project {
    type V = ProjectView;

    open spec fn view(&self) -> ProjectView {
        ProjectView {
            project_name: self.project_name@,
            openai_api_key: match self.openai_api_key {
                Some(key) => Some(key@),
                None => None,
            },
            controller: self.controller@,
            banks: self.banks@.map_values(|b: Bank| b@),
            parameters: self.parameters@.map_values(|p: Parameter| p@),
        }
    }
}

impl View for ActiveMorph {
    type V = ActiveMorphView;

    open spec fn view(&self) -> ActiveMorphView {
        ActiveMorphView {
            from_snap: self.from_snap,
            to_snap: self.to_snap,
            duration_bars: self.duration_bars,
            curve: self.curve,
            progress: self.progress,
            from_values: self.from_values@,
            to_values: self.to_values@,
            current_values: self.current_values@,
        }
    }
}

impl View for ProjectState {
    type V = StateView;

    open spec fn view(&self) -> StateView {
        StateView {
            project: self.project@,
            current_bank: self.current_bank,
            current_snap: self.current_snap,
            active_modifier: self.active_modifier,
            morph_duration: self.morph_duration,
            active_morph: match self.active_morph {
                Some(m) => Some(m@),
                None => None,
            },
        }
    }
}

/// `values`, with the mid-point appended until there are at least `n`.
pub open spec fn padded(values: Seq<u8>, n: nat) -> Seq<u8> {
    if values.len() >= n {
        values
    } else {
        values + Seq::new((n - values.len()) as nat, |i: int| DEFAULT_VALUE)
    }
}

/// `values` with its first entries replaced by `prefix`, longer if `prefix` is.
pub open spec fn overlaid(values: Seq<u8>, prefix: Seq<u8>) -> Seq<u8> {
    if values.len() <= prefix.len() {
        prefix
    } else {
        prefix + values.subrange(prefix.len() as int, values.len() as int)
    }
}

/// The (CC number, value) pairs that put `values` on the wire, in parameter
/// order; a parameter without a value is left out.
pub open spec fn cc_pairs(parameters: Seq<ParameterView>, values: Seq<u8>) -> Seq<(u8, u8)> {
    Seq::new(
        if parameters.len() <= values.len() {
            parameters.len()
        } else {
            values.len()
        },
        |i: int| (parameters[i].cc, values[i]),
    )
}

/// Whether every value fits a MIDI data byte.
pub open spec fn all_u7(values: Seq<u8>) -> bool {
    forall|i: int| 0 <= i < values.len() ==> #[trigger] values[i] <= MAX_U7
}

impl SnapView {
    /// A slot without a name holds no snap.
    pub open spec fn is_empty_slot(self) -> bool {
        self.name.len() == 0
    }

    pub open spec fn with_values(self, values: Seq<u8>) -> SnapView {
        SnapView { values, ..self }
    }

    /// The slot that fills a gap below a newly added snap.
    pub open spec fn blank() -> SnapView {
        SnapView { name: Seq::empty(), description: Seq::empty(), values: Seq::empty() }
    }
}

impl BankView {
    pub open spec fn with_snap(self, s: int, snap: SnapView) -> BankView {
        BankView { snaps: self.snaps.update(s, snap), ..self }
    }

    /// Every snap padded to `n` values.
    pub open spec fn padded_to(self, n: nat) -> BankView {
        BankView {
            snaps: self.snaps.map_values(|s: SnapView| s.with_values(padded(s.values, n))),
            ..self
        }
    }
}

impl ProjectView {
    pub open spec fn has_snap(self, b: int, s: int) -> bool {
        0 <= b < self.banks.len() && 0 <= s < self.banks[b].snaps.len()
    }

    pub open spec fn snap(self, b: int, s: int) -> SnapView {
        self.banks[b].snaps[s]
    }

    pub open spec fn with_snap(self, b: int, s: int, snap: SnapView) -> ProjectView {
        ProjectView { banks: self.banks.update(b, self.banks[b].with_snap(s, snap)), ..self }
    }

    /// Whether every snap of every bank has a value for every parameter.
    pub open spec fn covered(self) -> bool {
        forall|b: int, s: int|
            self.has_snap(b, s) ==> (#[trigger] self.snap(b, s)).values.len()
                >= self.parameters.len()
    }

    /// Whether every stored value and every CC number fits a MIDI data byte.
    pub open spec fn midi_valid(self) -> bool {
        &&& forall|b: int, s: int|
            self.has_snap(b, s) ==> all_u7((#[trigger] self.snap(b, s)).values)
        &&& forall|p: int| 0 <= p < self.parameters.len() ==> (#[trigger] self.parameters[p]).cc
            <= MAX_U7
    }

    /// The project that a new session starts with.
    pub open spec fn initial() -> ProjectView {
        ProjectView {
            project_name: "New Project"@,
            openai_api_key: None,
            controller: "Launchpad X"@,
            banks: seq![
                BankView {
                    name: "Default Bank"@,
                    snaps: seq![
                        SnapView {
                            name: "Initial Snap"@,
                            description: "A starting point"@,
                            values: Seq::new(64, |i: int| DEFAULT_VALUE),
                        },
                    ],
                },
            ],
            parameters: Seq::empty(),
        }
    }

    /// A parameter appended, and every snap padded so that it has a value
    /// for it.
    pub open spec fn add_parameter(self, parameter: ParameterView) -> ProjectView {
        let parameters = self.parameters.push(parameter);
        ProjectView {
            parameters,
            banks: self.banks.map_values(|b: BankView| b.padded_to(parameters.len())),
            ..self
        }
    }

    pub open spec fn update_parameter(self, p: int, parameter: ParameterView) -> ProjectView {
        ProjectView { parameters: self.parameters.update(p, parameter), ..self }
    }

    /// A snap with every parameter at the mid-point put at slot `s` of bank
    /// `b`; the slots below it that did not exist yet are blank.
    pub open spec fn add_snap(self, b: int, s: int, name: Seq<char>, description: Seq<char>)
        -> ProjectView {
        let old_snaps = self.banks[b].snaps;
        let grown = if s < old_snaps.len() {
            old_snaps
        } else {
            old_snaps + Seq::new((s + 1 - old_snaps.len()) as nat, |i: int| SnapView::blank())
        };
        let snap = SnapView {
            name,
            description,
            values: Seq::new(self.parameters.len(), |i: int| DEFAULT_VALUE),
        };
        ProjectView {
            banks: self.banks.update(b, BankView { snaps: grown.update(s, snap), ..self.banks[b] }),
            ..self
        }
    }
}

impl ActiveMorphView {
    /// The three value vectors have one length, and progress is at most the
    /// whole.
    pub open spec fn well_formed(self) -> bool {
        &&& self.from_values.len() == self.to_values.len()
        &&& self.current_values.len() == self.to_values.len()
        &&& self.progress <= PROGRESS_ONE
    }
}

impl StateView {
    pub open spec fn bank_in_range(self) -> bool {
        self.current_bank < self.project.banks.len()
    }

    pub open spec fn snap_in_range(self) -> bool {
        self.project.has_snap(self.current_bank as int, self.current_snap as int)
    }

    pub open spec fn modifier_valid(self) -> bool {
        self.active_modifier matches Some(m) ==> m < 5
    }

    pub open spec fn duration_valid(self) -> bool {
        self.morph_duration == 1 || self.morph_duration == 2 || self.morph_duration == 4
            || self.morph_duration == 8 || self.morph_duration == 16
    }

    /// While a morph runs, the selected snap is the one it started from.
    pub open spec fn morph_consistent(self) -> bool {
        self.active_morph matches Some(m) ==> m.from_snap == self.current_snap && m.well_formed()
    }

    /// What holds of the state at all times after initialization.
    pub open spec fn consistent(self) -> bool {
        &&& self.snap_in_range()
        &&& self.modifier_valid()
        &&& self.duration_valid()
        &&& self.morph_consistent()
    }

    pub open spec fn initial() -> StateView {
        StateView {
            project: ProjectView::initial(),
            current_bank: 0,
            current_snap: 0,
            active_modifier: None,
            morph_duration: DEFAULT_MORPH_BARS,
            active_morph: None,
        }
    }

    /// The state after `project` was loaded: first bank, first snap, no morph.
    pub open spec fn with_project(self, project: ProjectView) -> StateView {
        StateView { project, current_bank: 0, current_snap: 0, active_morph: None, ..self }
    }

    /// The first index of `select_snap(b, s)` that is out of range.
    pub open spec fn snap_error(self, b: int, s: int) -> Option<ModelError> {
        if !(0 <= b < self.project.banks.len()) {
            Some(ModelError::BankOutOfRange)
        } else if !(0 <= s < self.project.banks[b].snaps.len()) {
            Some(ModelError::SnapOutOfRange)
        } else {
            None
        }
    }

    /// Snap `s` of bank `b` selected, its values padded to the parameters.
    pub open spec fn select_snap(self, b: int, s: int) -> StateView {
        let snap = self.project.snap(b, s);
        StateView {
            project: self.project.with_snap(
                b,
                s,
                snap.with_values(padded(snap.values, self.project.parameters.len())),
            ),
            current_bank: b as usize,
            current_snap: s as usize,
            ..self
        }
    }

    /// Bank `b` made the current one, with its first snap selected if it has
    /// one.
    pub open spec fn select_bank(self, b: int) -> StateView {
        StateView {
            current_bank: b as usize,
            current_snap: if self.project.banks[b].snaps.len() > 0 {
                0
            } else {
                self.current_snap
            },
            ..self
        }
    }

    /// The first index of `edit_parameter(p, ..)` that is out of range.
    pub open spec fn edit_error(self, p: int) -> Option<ModelError> {
        if !(0 <= p < self.project.parameters.len()) {
            Some(ModelError::ParameterOutOfRange)
        } else {
            self.snap_error(self.current_bank as int, self.current_snap as int)
        }
    }

    /// Parameter `p` of the selected snap set to `value`, the snap's values
    /// padded to the parameters first.
    pub open spec fn edit_parameter(self, p: int, value: u8) -> StateView {
        let b = self.current_bank as int;
        let s = self.current_snap as int;
        let snap = self.project.snap(b, s);
        let values = padded(snap.values, self.project.parameters.len()).update(p, value);
        StateView { project: self.project.with_snap(b, s, snap.with_values(values)), ..self }
    }

    /// Generated values written over the first values of snap `s` of bank `b`.
    pub open spec fn apply_values(self, b: int, s: int, values: Seq<u8>) -> StateView {
        let snap = self.project.snap(b, s);
        StateView {
            project: self.project.with_snap(b, s, snap.with_values(overlaid(snap.values, values))),
            ..self
        }
    }
}

impl ModelError {
    pub open spec fn message_text(self) -> Seq<char> {
        match self {
            ModelError::BankOutOfRange => "Bank ID out of range"@,
            ModelError::SnapOutOfRange => "Snap ID out of range"@,
            ModelError::ParameterOutOfRange => "Parameter ID out of range"@,
        }
    }

    /// One line that names the index that was out of range.
    pub fn message(&self) -> (text: &'static str)
        ensures
            text@ == self.message_text(),
    {
        match self {
            ModelError::BankOutOfRange => "Bank ID out of range",
            ModelError::SnapOutOfRange => "Snap ID out of range",
            ModelError::ParameterOutOfRange => "Parameter ID out of range",
        }
    }
}

/// `n` copies of `value`.
pub fn filled(n: usize, value: u8) -> (values: Vec<u8>)
    ensures
        values@ == Seq::new(n as nat, |i: int| value),
{
    let mut values: Vec<u8> = Vec::new();
    let mut i: usize = 0;
    while i < n
        invariant
            i <= n,
            values@ == Seq::new(i as nat, |k: int| value),
        decreases n - i,
    {
        values.push(value);
        i += 1;
    }
    values
}

/// Appends the mid-point to `values` until there are at least `n`.
pub fn pad_values(values: &mut Vec<u8>, n: usize)
    ensures
        final(values)@ == padded(old(values)@, n as nat),
{
    if values.len() < n {
        values.resize(n, DEFAULT_VALUE);
    }
}

/// Writes `prefix` over the first entries of `values`; `values` grows where
/// `prefix` is longer.
pub fn overlay_values(values: &mut Vec<u8>, prefix: &Vec<u8>)
    ensures
        final(values)@ == overlaid(old(values)@, prefix@),
{
    let mut i: usize = 0;
    while i < prefix.len()
        invariant
            i <= prefix.len(),
            values@.len() == if old(values)@.len() >= i {
                old(values)@.len()
            } else {
                i as nat
            },
            forall|k: int| 0 <= k < i ==> values@[k] == prefix@[k],
            forall|k: int| i <= k < values@.len() ==> values@[k] == old(values)@[k],
        decreases prefix.len() - i,
    {
        if i < values.len() {
            values[i] = prefix[i];
        } else {
            values.push(prefix[i]);
        }
        i += 1;
    }
}

impl Default for Project {
    fn default() -> (project: Project)
        ensures
            project@ == ProjectView::initial(),
    {
        let snap = Snap {
            name: "Initial Snap".to_owned(),
            description: "A starting point".to_owned(),
            values: filled(64, DEFAULT_VALUE),
        };
        let mut snaps: Vec<Snap> = Vec::new();
        snaps.push(snap);
        let bank = Bank { name: "Default Bank".to_owned(), snaps };
        let mut banks: Vec<Bank> = Vec::new();
        banks.push(bank);
        let project = Project {
            project_name: "New Project".to_owned(),
            openai_api_key: None,
            controller: "Launchpad X".to_owned(),
            banks,
            parameters: Vec::new(),
        };
        assert(project@.banks =~= ProjectView::initial().banks) by {
            assert(project@.banks[0].snaps =~= ProjectView::initial().banks[0].snaps);
        }
        assert(project@.parameters =~= ProjectView::initial().parameters);
        project
    }
}

impl Default for ProjectState {
    fn default() -> (state: ProjectState)
        ensures
            state@ == StateView::initial(),
            state@.consistent(),
    {
        ProjectState {
            project: Project::default(),
            current_bank: 0,
            current_snap: 0,
            active_modifier: None,
            morph_duration: DEFAULT_MORPH_BARS,
            active_morph: None,
        }
    }
}

} // verus!
