//! The style model: formatting tags attached to a run of text.

use vstd::prelude::*;

verus! {

/// A single formatting attribute attached to a run of text.
///
/// `Heading(n)` carries the heading level; levels 1 through 4 carry their own
/// configured font size, any other level falls back to the default size.
#[derive(Clone, Copy, PartialEq, Eq, Structural, Debug)]
pub enum Class {
    Strong,
    Emphasis,
    Code,
    Heading(u8),
}

/// An unordered collection of style tags.
///
/// The resolver only ever tests membership, so the abstract value of a
/// `Style` is the set of tags it holds; duplicates and order are invisible.
pub struct Style {
    classes: Vec<Class>,
}

impl View for Style {
    type V = Set<Class>;

    closed spec fn view(&self) -> Set<Class> {
        self.classes@.to_set()
    }
}

impl Style {
    /// The empty style: no tags at all.
    pub fn new() -> (s: Style)
        ensures
            s@ == Set::<Class>::empty(),
    {
        let s = Style { classes: Vec::new() };
        proof {
            assert(s@ =~= Set::<Class>::empty());
        }
        s
    }

    /// Adds a tag to the style. Adding a tag twice has no further effect on
    /// the abstract set.
    pub fn add(&mut self, class: Class)
        ensures
            final(self)@ == old(self)@.insert(class),
    {
        proof {
            self.classes@.lemma_push_to_set_commute(class);
        }
        self.classes.push(class);
    }

    /// Membership test: does the style carry the given tag?
    pub fn contains(&self, class: &Class) -> (r: bool)
        ensures
            r == self@.contains(*class),
    {
        let n: usize = self.classes.len();
        let mut i: usize = 0;
        while i < n
            invariant
                n == self.classes.len(),
                i <= n,
                forall|k: int| 0 <= k < i ==> self.classes@[k] != *class,
            decreases n - i,
        {
            if self.classes[i] == *class {
                return true;
            }
            i += 1;
        }
        proof {
            assert(!self.classes@.contains(*class));
        }
        false
    }
}

} // verus!
