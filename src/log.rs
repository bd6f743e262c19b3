use vstd::prelude::*;

use crate::outcome::Outcome;

verus! {

/// The lines of text of a sequence of outcomes, in order.
pub open spec fn texts_of(outcomes: Seq<Outcome>) -> Seq<Seq<char>> {
    outcomes.map_values(|o: Outcome| o.spec_text())
}

/// The outcome lines of every file dropped so far, oldest first. Lines are only
/// ever appended.
pub struct ActionLog {
    entries: Vec<String>,
}

impl View for ActionLog {
    type V = Seq<Seq<char>>;

    closed spec fn view(&self) -> Seq<Seq<char>> {
        self.entries@.map_values(|s: String| s@)
    }
}

impl ActionLog {
    /// An empty log.
    pub fn new() -> (r: ActionLog)
        ensures
            r@ == Seq::<Seq<char>>::empty(),
    {
        let r = ActionLog { entries: Vec::new() };
        assert(r@ =~= Seq::<Seq<char>>::empty());
        r
    }

    /// Number of lines held.
    pub fn len(&self) -> (r: usize)
        ensures
            r == self@.len(),
    {
        self.entries.len()
    }

    /// The line at `index`, oldest first.
    pub fn entry(&self, index: usize) -> (r: &String)
        requires
            index < self@.len(),
        ensures
            r@ == self@[index as int],
    {
        &self.entries[index]
    }

    /// Appends the line of one outcome.
    pub fn record(&mut self, outcome: &Outcome)
        ensures
            final(self)@ == old(self)@.push(outcome.spec_text()),
    {
        let line = outcome.text();
        self.entries.push(line);
        assert(final(self)@ =~= old(self)@.push(outcome.spec_text()));
    }

    /// Appends the lines of the outcomes of one frame, in the order the files
    /// were dropped.
    pub fn record_frame(&mut self, outcomes: &Vec<Outcome>)
        ensures
            final(self)@ == old(self)@ + texts_of(outcomes@),
    {
        let ghost before = self@;
        let mut i: usize = 0;
        while i < outcomes.len()
            invariant
                i <= outcomes@.len(),
                self@ == before + texts_of(outcomes@.subrange(0, i as int)),
            decreases outcomes@.len() - i,
        {
            self.record(&outcomes[i]);
            assert(outcomes@.subrange(0, i + 1) =~= outcomes@.subrange(0, i as int).push(outcomes@[i as int]));
            assert(texts_of(outcomes@.subrange(0, i + 1)) =~= texts_of(outcomes@.subrange(0, i as int)).push(outcomes@[i as int].spec_text()));
            i = i + 1;
        }
        assert(outcomes@.subrange(0, i as int) =~= outcomes@);
    }
}

/// Recording a frame keeps every earlier line where it was and adds exactly one
/// line for each dropped file, so the log grows by the number of files dropped.
pub proof fn lemma_frame_appends(before: Seq<Seq<char>>, frame: Seq<Outcome>)
    ensures
        (before + texts_of(frame)).len() == before.len() + frame.len(),
        (before + texts_of(frame)).subrange(0, before.len() as int) == before,
        forall|k: int| 0 <= k < frame.len() ==> #[trigger] (before + texts_of(frame))[before.len() + k] == frame[k].spec_text(),
{
    assert((before + texts_of(frame)).subrange(0, before.len() as int) =~= before);
}

} // verus!
