//! The playback controller: a two-state machine (Idle / Speaking) that
//! reacts to the four user commands and the periodic poll tick, and emits the
//! engine and status-icon requests the surrounding event loop must perform.

use vstd::prelude::*;
use crate::rules::{RuleTable, RuleView, table_model, standard_entries, spec_normalize};
use crate::text::{blank, is_blank, contains_fold, contains_ci};

verus! {

/// The two states of the external status indicator.
#[derive(Clone, Copy, PartialEq, Eq, Structural, Debug)]
pub enum IconState {
    Idle,
    Active,
}

/// An external occurrence handed to the controller: one of the four user
/// commands (the read toggle carrying whatever the clipboard held, `None`
/// when it was unavailable) or a poll tick carrying the engine's running
/// state.
pub enum Event {
    ToggleRead { clipboard: Option<String> },
    CycleSpeed,
    CycleVoice,
    Exit,
    PollTick { engine_running: bool },
}

/// Specification-level form of an event.
pub enum EventView {
    ToggleRead { clipboard: Option<Seq<char>> },
    CycleSpeed,
    CycleVoice,
    Exit,
    PollTick { engine_running: bool },
}

impl View for Event {
    type V = EventView;

    open spec fn view(&self) -> EventView {
        match self {
            Event::ToggleRead { clipboard: Some(s) } => EventView::ToggleRead {
                clipboard: Some(s@),
            },
            Event::ToggleRead { clipboard: None } => EventView::ToggleRead { clipboard: None },
            Event::CycleSpeed => EventView::CycleSpeed,
            Event::CycleVoice => EventView::CycleVoice,
            Event::Exit => EventView::Exit,
            Event::PollTick { engine_running } => EventView::PollTick {
                engine_running: *engine_running,
            },
        }
    }
}

/// A request the controller asks the surrounding loop to perform against the
/// engine, the status icon, or the process.
#[derive(PartialEq, Eq, Debug)]
pub enum Action {
    /// Submit markup for asynchronous speech, purging any prior utterance.
    Speak { markup: String },
    /// Purge any prior utterance without starting a new one.
    Stop,
    /// Select the catalog voice at this index.
    SetVoice { index: usize },
    /// Set the engine rate to this level.
    SetRate { level: i32 },
    /// Put the status indicator in this state.
    SetIcon { icon: IconState },
    /// Terminate the process.
    Quit,
}

/// Specification-level form of an action.
#[verifier::ext_equal]
pub enum ActionView {
    Speak { markup: Seq<char> },
    Stop,
    SetVoice { index: int },
    SetRate { level: int },
    SetIcon { icon: IconState },
    Quit,
}

impl View for Action {
    type V = ActionView;

    open spec fn view(&self) -> ActionView {
        match self {
            Action::Speak { markup } => ActionView::Speak { markup: markup@ },
            Action::Stop => ActionView::Stop,
            Action::SetVoice { index } => ActionView::SetVoice { index: *index as int },
            Action::SetRate { level } => ActionView::SetRate { level: *level as int },
            Action::SetIcon { icon } => ActionView::SetIcon { icon: *icon },
            Action::Quit => ActionView::Quit,
        }
    }
}

pub open spec fn acts_view(s: Seq<Action>) -> Seq<ActionView> {
    s.map_values(|a: Action| a@)
}

/// The fixed rate levels the speed command cycles through.
pub open spec fn spec_speed_level(i: int) -> int {
    if i == 0 {
        0
    } else if i == 1 {
        5
    } else {
        10
    }
}

/// The spoken confirmation for each rate level.
pub open spec fn spec_speed_label(i: int) -> Seq<char> {
    if i == 0 {
        "Speed 0"@
    } else if i == 1 {
        "Speed 5"@
    } else {
        "Speed 10"@
    }
}

/// The rate level the controller starts at.
pub const DEFAULT_SPEED_INDEX: usize = 2;

/// The substring (matched case-insensitively) that picks the preferred
/// starting voice out of the catalog.
pub const PREFERRED_VOICE: &'static str = "eva";

fn speed_level(i: usize) -> (r: i32)
    requires
        i < 3,
    ensures
        r as int == spec_speed_level(i as int),
{
    if i == 0 {
        0
    } else if i == 1 {
        5
    } else {
        10
    }
}

fn speed_label(i: usize) -> (r: &'static str)
    requires
        i < 3,
    ensures
        r@ == spec_speed_label(i as int),
{
    if i == 0 {
        "Speed 0"
    } else if i == 1 {
        "Speed 5"
    } else {
        "Speed 10"
    }
}

/// The playback controller: the rule table, the voice catalog's display
/// names, the bounded voice and rate indices, and the speaking flag.
pub struct Controller {
    table: RuleTable,
    voices: Vec<String>,
    voice_idx: usize,
    speed_idx: usize,
    is_speaking: bool,
}

/// Specification-level form of the controller.
#[verifier::ext_equal]
pub struct ControllerView {
    pub table: Seq<RuleView>,
    pub voices: Seq<Seq<char>>,
    pub voice_idx: int,
    pub speed_idx: int,
    pub is_speaking: bool,
}

impl View for Controller {
    type V = ControllerView;

    closed spec fn view(&self) -> ControllerView {
        ControllerView {
            table: self.table@,
            voices: self.voices@.map_values(|s: String| s@),
            voice_idx: self.voice_idx as int,
            speed_idx: self.speed_idx as int,
            is_speaking: self.is_speaking,
        }
    }
}

/// Well-formedness: the rate index is in range, and the voice index is in
/// range when the catalog is non-empty (and pinned to zero when it is empty,
/// where it is meaningless).
pub open spec fn wf(c: ControllerView) -> bool {
    &&& if c.voices.len() == 0 {
        c.voice_idx == 0
    } else {
        0 <= c.voice_idx < c.voices.len()
    }
    &&& 0 <= c.speed_idx < 3
}

/// The index the voice selection starts at: the last catalog entry whose
/// display name contains the preferred substring, index zero when none does.
pub open spec fn spec_preferred_index(names: Seq<Seq<char>>, pref: Seq<char>) -> int
    decreases names.len(),
{
    if names.len() == 0 {
        0
    } else if contains_ci(names.last(), pref) {
        names.len() - 1
    } else {
        spec_preferred_index(names.drop_last(), pref)
    }
}

pub proof fn lemma_preferred_index_in_range(names: Seq<Seq<char>>, pref: Seq<char>)
    ensures
        0 <= spec_preferred_index(names, pref),
        names.len() == 0 ==> spec_preferred_index(names, pref) == 0,
        names.len() > 0 ==> spec_preferred_index(names, pref) < names.len(),
    decreases names.len(),
{
    if names.len() > 0 && !contains_ci(names.last(), pref) {
        lemma_preferred_index_in_range(names.drop_last(), pref);
    }
}

fn preferred_index(names: &Vec<String>) -> (r: usize)
    ensures
        r as int == spec_preferred_index(
            names@.map_values(|s: String| s@),
            PREFERRED_VOICE@,
        ),
{
    let ghost views = names@.map_values(|s: String| s@);
    let mut idx: usize = 0;
    let n = names.len();
    let mut i: usize = 0;
    while i < n
        invariant
            n == names@.len(),
            i <= n,
            views == names@.map_values(|s: String| s@),
            idx as int == spec_preferred_index(views.take(i as int), PREFERRED_VOICE@),
            i > 0 ==> idx < i,
            i == 0 ==> idx == 0,
        decreases n - i,
    {
        if contains_fold(names[i].as_str(), PREFERRED_VOICE) {
            idx = i;
        }
        proof {
            crate::rules::lemma_take_step(views, i as int);
            assert(views[i as int] == names@[i as int]@);
            if !contains_ci(views[i as int], PREFERRED_VOICE@) {
                assert(views.take(i + 1).drop_last() =~= views.take(i as int));
            }
        }
        i = i + 1;
    }
    proof {
        assert(views.take(n as int) =~= views);
    }
    idx
}

/// The initial controller state over a given catalog: the standard rule
/// table, the preferred voice (or index zero), the default rate, not
/// speaking.
pub open spec fn spec_initial(voices: Seq<Seq<char>>) -> ControllerView {
    ControllerView {
        table: table_model(standard_entries()),
        voices: voices,
        voice_idx: spec_preferred_index(voices, PREFERRED_VOICE@),
        speed_idx: DEFAULT_SPEED_INDEX as int,
        is_speaking: false,
    }
}

/// The complete transition relation, as a function: from a state and an
/// event to the next state and the exact list of requests, in order.
pub open spec fn spec_step(c: ControllerView, ev: EventView) -> (ControllerView, Seq<ActionView>) {
    match ev {
        EventView::ToggleRead { clipboard } => {
            if c.is_speaking {
                (
                    ControllerView { is_speaking: false, ..c },
                    seq![ActionView::Stop, ActionView::SetIcon { icon: IconState::Idle }],
                )
            } else {
                match clipboard {
                    Some(text) => {
                        if is_blank(text) {
                            (c, Seq::empty())
                        } else {
                            (
                                ControllerView { is_speaking: true, ..c },
                                seq![
                                    ActionView::Speak { markup: spec_normalize(c.table, text) },
                                    ActionView::SetIcon { icon: IconState::Active },
                                ],
                            )
                        }
                    },
                    None => (c, Seq::empty()),
                }
            }
        },
        EventView::CycleVoice => {
            if c.voices.len() == 0 {
                (c, Seq::empty())
            } else {
                let ni = if c.voice_idx + 1 < c.voices.len() {
                    c.voice_idx + 1
                } else {
                    0
                };
                (
                    ControllerView { voice_idx: ni, is_speaking: true, ..c },
                    seq![
                        ActionView::SetVoice { index: ni },
                        ActionView::Speak { markup: spec_normalize(c.table, c.voices[ni]) },
                        ActionView::SetIcon { icon: IconState::Active },
                    ],
                )
            }
        },
        EventView::CycleSpeed => {
            let ni = if c.speed_idx + 1 < 3 {
                c.speed_idx + 1
            } else {
                0
            };
            (
                ControllerView { speed_idx: ni, is_speaking: true, ..c },
                seq![
                    ActionView::SetRate { level: spec_speed_level(ni) },
                    ActionView::Speak {
                        markup: spec_normalize(c.table, spec_speed_label(ni)),
                    },
                    ActionView::SetIcon { icon: IconState::Active },
                ],
            )
        },
        EventView::Exit => (c, seq![ActionView::Quit]),
        EventView::PollTick { engine_running } => {
            if c.is_speaking && !engine_running {
                (
                    ControllerView { is_speaking: false, ..c },
                    seq![ActionView::SetIcon { icon: IconState::Idle }],
                )
            } else {
                (c, Seq::empty())
            }
        },
    }
}

impl Controller {
    /// Build the controller over the enumerated voice display names, with
    /// the standard rule table.
    pub fn new(voices: Vec<String>) -> (c: Controller)
        ensures
            c@ == spec_initial(voices@.map_values(|s: String| s@)),
            wf(c@),
    {
        let table = RuleTable::standard();
        let voice_idx = preferred_index(&voices);
        proof {
            lemma_preferred_index_in_range(
                voices@.map_values(|s: String| s@),
                PREFERRED_VOICE@,
            );
        }
        Controller { table, voices, voice_idx, speed_idx: DEFAULT_SPEED_INDEX, is_speaking: false }
    }

    /// The current voice index.
    pub fn voice_index(&self) -> (r: usize)
        ensures
            r as int == self@.voice_idx,
    {
        self.voice_idx
    }

    /// The current rate index.
    pub fn speed_index(&self) -> (r: usize)
        ensures
            r as int == self@.speed_idx,
    {
        self.speed_idx
    }

    /// The engine rate level at the current rate index.
    pub fn current_speed_level(&self) -> (r: i32)
        requires
            wf(self@),
        ensures
            r as int == spec_speed_level(self@.speed_idx),
    {
        speed_level(self.speed_idx)
    }

    /// Whether the controller believes an utterance is in flight.
    pub fn is_speaking(&self) -> (r: bool)
        ensures
            r == self@.is_speaking,
    {
        self.is_speaking
    }

    /// Handle one event: mutate the state and return the requests the
    /// surrounding loop must perform, exactly as `spec_step` says.
    pub fn step(&mut self, ev: Event) -> (acts: Vec<Action>)
        requires
            wf(old(self)@),
        ensures
            wf(final(self)@),
            final(self)@ == spec_step(old(self)@, ev@).0,
            acts_view(acts@) == spec_step(old(self)@, ev@).1,
    {
        let mut acts: Vec<Action> = Vec::new();
        match ev {
            Event::ToggleRead { clipboard } => {
                if self.is_speaking {
                    self.is_speaking = false;
                    acts.push(Action::Stop);
                    acts.push(Action::SetIcon { icon: IconState::Idle });
                    proof {
                        assert(acts_view(acts@) =~= spec_step(old(self)@, ev@).1);
                    }
                } else {
                    match clipboard {
                        Some(text) => {
                            if !blank(text.as_str()) {
                                let markup = self.table.normalize(text.as_str());
                                self.is_speaking = true;
                                acts.push(Action::Speak { markup });
                                acts.push(Action::SetIcon { icon: IconState::Active });
                                proof {
                                    assert(acts_view(acts@) =~= spec_step(old(self)@, ev@).1);
                                }
                            } else {
                                proof {
                                    assert(acts_view(acts@) =~= spec_step(old(self)@, ev@).1);
                                }
                            }
                        },
                        None => {
                            proof {
                                assert(acts_view(acts@) =~= spec_step(old(self)@, ev@).1);
                            }
                        },
                    }
                }
            },
            Event::CycleVoice => {
                if self.voices.len() > 0 {
                    let ni = if self.voice_idx + 1 < self.voices.len() {
                        self.voice_idx + 1
                    } else {
                        0
                    };
                    self.voice_idx = ni;
                    let name = self.voices[ni].as_str();
                    let markup = self.table.normalize(name);
                    self.is_speaking = true;
                    acts.push(Action::SetVoice { index: ni });
                    acts.push(Action::Speak { markup });
                    acts.push(Action::SetIcon { icon: IconState::Active });
                    proof {
                        assert(self@.voices[ni as int] == self.voices@[ni as int]@);
                        assert(acts_view(acts@) =~= spec_step(old(self)@, ev@).1);
                    }
                } else {
                    proof {
                        assert(acts_view(acts@) =~= spec_step(old(self)@, ev@).1);
                    }
                }
            },
            Event::CycleSpeed => {
                let ni = if self.speed_idx + 1 < 3 {
                    self.speed_idx + 1
                } else {
                    0
                };
                self.speed_idx = ni;
                let markup = self.table.normalize(speed_label(ni));
                self.is_speaking = true;
                acts.push(Action::SetRate { level: speed_level(ni) });
                acts.push(Action::Speak { markup });
                acts.push(Action::SetIcon { icon: IconState::Active });
                proof {
                    assert(acts_view(acts@) =~= spec_step(old(self)@, ev@).1);
                }
            },
            Event::Exit => {
                acts.push(Action::Quit);
                proof {
                    assert(acts_view(acts@) =~= spec_step(old(self)@, ev@).1);
                }
            },
            Event::PollTick { engine_running } => {
                if self.is_speaking && !engine_running {
                    self.is_speaking = false;
                    acts.push(Action::SetIcon { icon: IconState::Idle });
                    proof {
                        assert(acts_view(acts@) =~= spec_step(old(self)@, ev@).1);
                    }
                } else {
                    proof {
                        assert(acts_view(acts@) =~= spec_step(old(self)@, ev@).1);
                    }
                }
            },
        }
        acts
    }
}

} // verus!
