use vstd::prelude::*;
use crate::builder::{name_or_empty, no_nul, opt_view, str_or_empty, CanBeAddedToModel};
use crate::heuristic::{HeurTiming, Heuristic, IncludedHeur, BEFORE_NODE_BITS};
use crate::model::{Model, ProblemCreated};
use crate::result::scip_bool;
use crate::scip::{c_string_ok, CallView};

verus! {

/// A builder for easily creating primal heuristics. It can be created using
/// the `heur` function.
pub struct HeurBuilder<H: Heuristic> {
    name: Option<String>,
    desc: Option<String>,
    priority: i32,
    dispchar: Option<char>,
    freq: i32,
    freqofs: i32,
    maxdepth: i32,
    timing: Option<HeurTiming>,
    usessubscip: bool,
    heur: H,
}

/// The settings a heuristic builder holds, as specifications see them.
pub struct HeurSettings {
    pub name: Option<Seq<char>>,
    pub desc: Option<Seq<char>>,
    pub priority: i32,
    pub dispchar: Option<char>,
    pub freq: i32,
    pub freqofs: i32,
    pub maxdepth: i32,
    pub timing: Option<u32>,
    pub usessubscip: bool,
}

/// The settings of a new builder: priority 0, called at every node from the
/// root on at any depth, no secondary SCIP, and nothing else set.
pub open spec fn default_heur_settings() -> HeurSettings {
    HeurSettings {
        name: None,
        desc: None,
        priority: 0,
        dispchar: None,
        freq: 1,
        freqofs: 0,
        maxdepth: -1i32,
        timing: None,
        usessubscip: false,
    }
}

impl<H: Heuristic> HeurBuilder<H> {
    /// The settings made so far.
    pub closed spec fn settings(&self) -> HeurSettings {
        HeurSettings {
            name: opt_view(self.name),
            desc: opt_view(self.desc),
            priority: self.priority,
            dispchar: self.dispchar,
            freq: self.freq,
            freqofs: self.freqofs,
            maxdepth: self.maxdepth,
            timing: match self.timing {
                Some(t) => Some(t@),
                None => None,
            },
            usessubscip: self.usessubscip,
        }
    }

    /// The heuristic being built.
    pub closed spec fn heuristic(&self) -> H {
        self.heur
    }

    /// Creates a new `HeurBuilder` with the given heuristic.
    ///
    /// # Defaults
    /// - `priority`: 0
    /// - `freq`: 1 (called at every node)
    /// - `freqofs`: 0
    /// - `maxdepth`: -1 (unlimited depth)
    /// - `usessubscip`: false
    ///
    /// The name and description default to empty strings, the display
    /// character to `'?'` and the timing to `BEFORE_NODE` when they are not set.
    pub fn new(heur: H) -> (b: Self)
        ensures
            b.settings() == default_heur_settings(),
            b.heuristic() == heur,
    {
        HeurBuilder {
            name: None,
            desc: None,
            priority: 0,
            dispchar: None,
            freq: 1,
            freqofs: 0,
            maxdepth: -1i32,
            timing: None,
            usessubscip: false,
            heur,
        }
    }

    /// Sets the name of the heuristic.
    pub fn name(self, name: &str) -> (b: Self)
        ensures
            b.settings() == (HeurSettings { name: Some(name@), ..self.settings() }),
            b.heuristic() == self.heuristic(),
    {
        HeurBuilder { name: Some(name.to_owned()), ..self }
    }

    /// Sets the description of the heuristic.
    pub fn desc(self, desc: &str) -> (b: Self)
        ensures
            b.settings() == (HeurSettings { desc: Some(desc@), ..self.settings() }),
            b.heuristic() == self.heuristic(),
    {
        HeurBuilder { desc: Some(desc.to_owned()), ..self }
    }

    /// Sets the priority of the heuristic.
    pub fn priority(self, priority: i32) -> (b: Self)
        ensures
            b.settings() == (HeurSettings { priority, ..self.settings() }),
            b.heuristic() == self.heuristic(),
    {
        HeurBuilder { priority, ..self }
    }

    /// Sets the display character of the heuristic.
    pub fn dispchar(self, dispchar: char) -> (b: Self)
        ensures
            b.settings() == (HeurSettings { dispchar: Some(dispchar), ..self.settings() }),
            b.heuristic() == self.heuristic(),
    {
        HeurBuilder { dispchar: Some(dispchar), ..self }
    }

    /// Sets the frequency for calling the heuristic.
    pub fn freq(self, freq: i32) -> (b: Self)
        ensures
            b.settings() == (HeurSettings { freq, ..self.settings() }),
            b.heuristic() == self.heuristic(),
    {
        HeurBuilder { freq, ..self }
    }

    /// Sets the frequency offset for calling the heuristic.
    pub fn freqofs(self, freqofs: i32) -> (b: Self)
        ensures
            b.settings() == (HeurSettings { freqofs, ..self.settings() }),
            b.heuristic() == self.heuristic(),
    {
        HeurBuilder { freqofs, ..self }
    }

    /// Sets the maximum depth up to which the heuristic is used.
    pub fn maxdepth(self, maxdepth: i32) -> (b: Self)
        ensures
            b.settings() == (HeurSettings { maxdepth, ..self.settings() }),
            b.heuristic() == self.heuristic(),
    {
        HeurBuilder { maxdepth, ..self }
    }

    /// Sets the timing mask of the heuristic.
    pub fn timing(self, timing: HeurTiming) -> (b: Self)
        ensures
            b.settings() == (HeurSettings { timing: Some(timing@), ..self.settings() }),
            b.heuristic() == self.heuristic(),
    {
        HeurBuilder { timing: Some(timing), ..self }
    }

    /// Sets whether the heuristic should use a secondary SCIP instance.
    pub fn usessubscip(self, usessubscip: bool) -> (b: Self)
        ensures
            b.settings() == (HeurSettings { usessubscip, ..self.settings() }),
            b.heuristic() == self.heuristic(),
    {
        HeurBuilder { usessubscip, ..self }
    }
}

/// Creates a new default `HeurBuilder` from a heuristic.
pub fn heur<H: Heuristic>(h: H) -> (b: HeurBuilder<H>)
    ensures
        b.settings() == default_heur_settings(),
        b.heuristic() == h,
{
    HeurBuilder::new(h)
}

/// The call that includes a heuristic with the settings `s`, the unset ones
/// replaced by their defaults.
pub open spec fn include_heur_call(s: HeurSettings) -> CallView {
    CallView::IncludeHeur {
        name: name_or_empty(s.name),
        desc: name_or_empty(s.desc),
        dispchar: match s.dispchar {
            Some(c) => c,
            None => '?',
        },
        priority: s.priority,
        freq: s.freq,
        freqofs: s.freqofs,
        maxdepth: s.maxdepth,
        timing: match s.timing {
            Some(t) => t,
            None => BEFORE_NODE_BITS,
        },
        usessubscip: scip_bool(s.usessubscip),
    }
}

impl<H: Heuristic> CanBeAddedToModel for HeurBuilder<H> {
    type Return = IncludedHeur<H>;

    /// Includes the heuristic in the model with the settings made, the unset
    /// ones replaced by their defaults, and hands it back paired with the
    /// name it was included under, for its callbacks to be attached.
    open spec fn can_be_added(&self) -> bool {
        c_string_ok(name_or_empty(self.settings().name)) && c_string_ok(name_or_empty(self.settings().desc))
    }

    open spec fn hands_back(&self, r: Self::Return) -> bool {
        r.name() == name_or_empty(self.settings().name) && r.heuristic() == self.heuristic()
    }

    open spec fn add_calls(&self) -> Seq<CallView> {
        seq![include_heur_call(self.settings())]
    }

    fn addable(&self) -> (b: bool) {
        no_nul(str_or_empty(&self.name)) && no_nul(str_or_empty(&self.desc))
    }

    fn add(self, model: &mut Model<ProblemCreated>) -> (h: IncludedHeur<H>)
        ensures
            h.name() == name_or_empty(self.settings().name),
            h.heuristic() == self.heuristic(),
            final(model).handle() == old(model).handle(),
            final(model).owns_instance() == old(model).owns_instance(),
            final(model).log() == old(model).log().push(include_heur_call(self.settings())),
    {
        let ghost before = model.log();
        let dispchar = match self.dispchar {
            Some(c) => c,
            None => '?',
        };
        let timing = match self.timing {
            Some(t) => t,
            None => HeurTiming::BEFORE_NODE(),
        };
        let h = model.include_heur(
            str_or_empty(&self.name),
            str_or_empty(&self.desc),
            self.priority,
            dispchar,
            self.freq,
            self.freqofs,
            self.maxdepth,
            timing,
            self.usessubscip,
            self.heur,
        );
        assert(model.log() =~= before + self.add_calls());
        h
    }
}

/// A heuristic added with nothing set is included with priority 0, called
/// at every node from the root on at any depth, without a secondary SCIP,
/// before each node, with display character `?` and an empty name and
/// description.
pub proof fn law_heur_defaults()
    ensures
        include_heur_call(default_heur_settings()) == (CallView::IncludeHeur {
            name: Seq::<char>::empty(),
            desc: Seq::<char>::empty(),
            dispchar: '?',
            priority: 0,
            freq: 1,
            freqofs: 0,
            maxdepth: -1i32,
            timing: 0x001,
            usessubscip: 0,
        }),
{
}

} // verus!
