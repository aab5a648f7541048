//! The snapshot cache: the last rendered text that was worth serving.

use vstd::prelude::*;

verus! {

/// Holds the most recent non-empty rendering, or the empty text before the
/// first one. Its content is only ever replaced whole.
pub struct SnapshotCache {
    text: String,
}

impl View for SnapshotCache {
    type V = Seq<char>;

    closed spec fn view(&self) -> Seq<char> {
        self.text@
    }
}

impl SnapshotCache {
    /// An empty cache: reads return the empty text until the first publish.
    pub fn new() -> (r: SnapshotCache)
        ensures
            r@ == Seq::<char>::empty(),
    {
        SnapshotCache { text: String::new() }
    }

    /// Replaces the content with `rendered` where it is not empty; an empty
    /// rendering leaves the cache as it was. Returns whether it was replaced.
    pub fn publish(&mut self, rendered: String) -> (r: bool)
        ensures
            r == (rendered@.len() > 0),
            final(self)@ == (if r {
                rendered@
            } else {
                old(self)@
            }),
    {
        if rendered.as_str().is_empty() {
            false
        } else {
            self.text = rendered;
            true
        }
    }

    /// The current content.
    pub fn text(&self) -> (r: &str)
        ensures
            r@ == self@,
    {
        self.text.as_str()
    }
}

} // verus!
