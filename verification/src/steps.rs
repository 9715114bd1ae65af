//! The row of steps that shows how far a wizard has come.

use vstd::prelude::*;
use crate::text::{string_views, word_views};

verus! {

/// A row of named steps, one of which is the current one.
#[derive(Debug, PartialEq, Eq)]
pub struct Steps {
    current: usize,
    steps: Vec<String>,
}

/// What a [`Steps`] stands for.
pub struct StepsView {
    pub current: usize,
    pub steps: Seq<Seq<char>>,
}

impl View for Steps {
    type V = StepsView;

    closed spec fn view(&self) -> StepsView {
        StepsView { current: self.current, steps: string_views(self.steps@) }
    }
}

/// Copies borrowed words into strings.
fn owned_words(words: &Vec<&str>) -> (r: Vec<String>)
    ensures
        string_views(r@) == word_views(words@),
{
    let mut r: Vec<String> = Vec::new();
    let mut i: usize = 0;
    while i < words.len()
        invariant
            i <= words.len(),
            r@.len() == i,
            forall|k: int| 0 <= k < i ==> (#[trigger] r@[k])@ == words@[k]@,
        decreases words.len() - i,
    {
        r.push(String::from_str(words[i]));
        i += 1;
    }
    r
}

impl Default for Steps {
    /// A row without steps.
    fn default() -> (r: Self)
        ensures
            r@ == (StepsView { current: 0, steps: Seq::<Seq<char>>::empty() }),
    {
        let r = Steps { current: 0, steps: Vec::new() };
        assert(r@.steps =~= Seq::<Seq<char>>::empty());
        r
    }
}

impl Steps {
    /// A row of the given steps, the first of which is the current one.
    pub fn with_steps(steps: Vec<&str>) -> (r: Self)
        ensures
            r@ == (StepsView { current: 0, steps: word_views(steps@) }),
    {
        Steps { current: 0, steps: owned_words(&steps) }
    }

    /// Replaces the steps and keeps the place of the current one.
    pub fn set_steps(&mut self, steps: Vec<&str>) -> (r: &mut Self)
        ensures
            r@ == (StepsView { steps: word_views(steps@), ..old(self)@ }),
            *final(self) == *final(r),
    {
        self.steps = owned_words(&steps);
        self
    }

    /// Makes the step at the given place the current one.
    pub fn set_current(&mut self, curr: usize) -> (r: &mut Self)
        ensures
            r@ == (StepsView { current: curr, ..old(self)@ }),
            *final(self) == *final(r),
    {
        self.current = curr;
        self
    }

    /// The place of the current step.
    pub fn current(&self) -> (r: usize)
        ensures
            r == self@.current,
    {
        self.current
    }

    /// The number of steps.
    pub fn len(&self) -> (r: usize)
        ensures
            r == self@.steps.len(),
    {
        self.steps.len()
    }

    /// The name of the step at the given place.
    pub fn label(&self, i: usize) -> (r: Option<String>)
        ensures
            r is Some == (i < self@.steps.len()),
            r is Some ==> r->Some_0@ == self@.steps[i as int],
    {
        if i < self.steps.len() {
            Some(self.steps[i].clone())
        } else {
            None
        }
    }

    /// Whether the step at the given place is shown as reached: it is the
    /// current one or comes before it.
    pub fn is_reached(&self, i: usize) -> (r: bool)
        ensures
            r == (i <= self@.current),
    {
        i <= self.current
    }

    /// Whether a line joins the step at the given place to the next one: it
    /// does for every step but the last.
    pub fn has_connector(&self, i: usize) -> (r: bool)
        ensures
            r == (i + 1 < self@.steps.len()),
    {
        i < self.steps.len() && i + 1 < self.steps.len()
    }
}

} // verus!
