//! The state that the player shares with the display: which notes sound
//! and whether the performance is over.
use std::collections::HashSet;
use vstd::prelude::*;

verus! {

broadcast use vstd::std_specs::hash::group_hash_axioms;

/// Notes currently shown as playing, and whether playback has ended.
pub struct NoteState {
    pub active_notes: HashSet<u8>,
    pub finished: bool,
}

/// The abstract value of a [`NoteState`]: the set of active notes and the
/// finished flag.
pub struct NoteStateView {
    pub active: Set<u8>,
    pub finished: bool,
}

impl View for NoteState {
    type V = NoteStateView;

    open spec fn view(&self) -> NoteStateView {
        NoteStateView { active: self.active_notes@, finished: self.finished }
    }
}

impl Default for NoteState {
    /// Nothing playing, playback not finished.
    fn default() -> (s: Self)
        ensures
            s@.active == Set::<u8>::empty(),
            !s@.finished,
    {
        NoteState { active_notes: HashSet::new(), finished: false }
    }
}

impl NoteState {
    /// Marks `note` as playing.
    pub fn start_note(&mut self, note: u8)
        ensures
            final(self)@.active == old(self)@.active.insert(note),
            final(self)@.finished == old(self)@.finished,
    {
        self.active_notes.insert(note);
    }

    /// Marks `note` as no longer playing.
    pub fn stop_note(&mut self, note: u8)
        ensures
            final(self)@.active == old(self)@.active.remove(note),
            final(self)@.finished == old(self)@.finished,
    {
        self.active_notes.remove(&note);
    }

    /// Marks playback as over.
    pub fn finish(&mut self)
        ensures
            final(self)@.active == old(self)@.active,
            final(self)@.finished,
    {
        self.finished = true;
    }

    /// Whether `note` is shown as playing.
    pub fn is_active(&self, note: u8) -> (r: bool)
        ensures
            r == self@.active.contains(note),
    {
        self.active_notes.contains(&note)
    }
}

} // verus!
