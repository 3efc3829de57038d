use vstd::prelude::*;
use vstd::std_specs::cmp::PartialEqSpecImpl;
use crate::scores::{table_after_set, ScoreTable};

verus! {

/// A validated identity. Its canonical string is all that is known of it:
/// two addresses are the same principal exactly when their strings are equal.
#[derive(Debug)]
pub struct Addr {
    text: String,
}

impl View for Addr {
    type V = Seq<char>;

    closed spec fn view(&self) -> Seq<char> {
        self.text@
    }
}

impl Addr {
    /// Takes `text` as canonical without asking a validator.
    pub fn unchecked(text: String) -> (addr: Addr)
        ensures
            addr@ == text@,
    {
        Addr { text }
    }

    /// The canonical string.
    pub fn as_str(&self) -> (text: &str)
        ensures
            text@ == self@,
    {
        self.text.as_str()
    }

    /// Gives up the address for its canonical string.
    pub fn into_string(self) -> (text: String)
        ensures
            text@ == self@,
    {
        self.text
    }

}

impl Clone for Addr {
    fn clone(&self) -> (addr: Addr)
        ensures
            addr@ == self@,
    {
        Addr { text: self.text.clone() }
    }
}

impl PartialEq for Addr {
    fn eq(&self, other: &Addr) -> (same: bool) {
        self.text == other.text
    }
}

impl Eq for Addr {}

impl PartialEqSpecImpl for Addr {
    open spec fn obeys_eq_spec() -> bool {
        true
    }

    open spec fn eq_spec(&self, other: &Addr) -> bool {
        self@ == other@
    }
}

/// The configuration: who owns the registry. Written once, when the
/// registry is made, and never changed.
#[derive(Debug)]
pub struct State {
    pub owner: Addr,
}

impl View for State {
    type V = Seq<char>;

    open spec fn view(&self) -> Seq<char> {
        self.owner@
    }
}

impl Clone for State {
    fn clone(&self) -> (state: State)
        ensures
            state@ == self@,
    {
        State { owner: self.owner.clone() }
    }
}

/// What a registry holds, as mathematics: the owner's canonical string and,
/// for each address that was written to, its scores by token.
pub struct RegistryView {
    pub owner: Seq<char>,
    pub scores: Map<Seq<char>, Map<Seq<char>, i32>>,
}

/// The registry that initialization makes for `owner`: no score yet.
pub open spec fn fresh_registry(owner: Seq<char>) -> RegistryView {
    RegistryView { owner, scores: Map::<Seq<char>, Map<Seq<char>, i32>>::empty() }
}

/// An active registry: the configuration slot and the keyed table. A value of
/// this type exists only once the registry was initialized, and nothing
/// takes it back.
pub struct Registry {
    state: State,
    scores: ScoreTable,
}

impl View for Registry {
    type V = RegistryView;

    closed spec fn view(&self) -> RegistryView {
        RegistryView { owner: self.state@, scores: self.scores@ }
    }
}

impl Registry {
    /// A registry that `owner` owns, without any score.
    pub fn new(owner: Addr) -> (registry: Registry)
        ensures
            registry@ == fresh_registry(owner@),
    {
        Registry { state: State { owner }, scores: ScoreTable::new() }
    }

    /// The configuration.
    pub fn state(&self) -> (state: &State)
        ensures
            state@ == self@.owner,
    {
        &self.state
    }

    /// The keyed table, to read.
    pub fn scores(&self) -> (table: &ScoreTable)
        ensures
            table@ == self@.scores,
    {
        &self.scores
    }

    /// Writes `score` for `address` under `token`, whoever asks: the guard
    /// stands in front of this, at the entry points. The owner stays.
    pub fn set_score(&mut self, address: &Addr, token: String, score: i32)
        ensures
            final(self)@ == (RegistryView {
                owner: old(self)@.owner,
                scores: table_after_set(old(self)@.scores, address@, token@, score),
            }),
    {
        self.scores.set_score(address, token, score);
    }
}

} // verus!
