//! A pair of samples of one field, the previous and the latest, from which
//! edges are detected.

use vstd::prelude::*;
use vstd::std_specs::cmp::PartialEqSpec;

verus! {

/// The previous and the latest sample of a field.
#[derive(Clone, Copy, Debug)]
pub struct Pair<T> {
    pub old: T,
    pub current: T,
}

/// The samples of one field: nothing before the first sample, a pair after
/// it.
#[derive(Clone, Copy, Debug)]
pub struct Watcher<T> {
    pub pair: Option<Pair<T>>,
}

/// Whether `==` on `T` in compiled code is equality of values.
pub open spec fn plain_equality<T: PartialEq>() -> bool {
    &&& T::obeys_eq_spec()
    &&& forall|a: T, b: T| #[trigger] a.eq_spec(&b) <==> a == b
}

impl<T> Watcher<T> {
    /// The watcher after the sample `value`: the first sample is both the
    /// previous and the latest one, every later sample moves the latest to
    /// the previous.
    pub open spec fn updated(self, value: T) -> Watcher<T> {
        Watcher {
            pair: Some(
                Pair {
                    old: match self.pair {
                        Some(p) => p.current,
                        None => value,
                    },
                    current: value,
                },
            ),
        }
    }

    /// Whether the latest sample differs from the previous one. Without a
    /// sample nothing has changed.
    pub open spec fn is_changed(self) -> bool {
        match self.pair {
            Some(p) => p.current != p.old,
            None => false,
        }
    }

    /// A watcher that has seen no sample.
    pub fn new() -> (w: Watcher<T>)
        ensures
            w.pair is None,
    {
        Watcher { pair: None }
    }

    /// The first sample never counts as a change.
    pub proof fn lemma_first_sample_unchanged(value: T)
        ensures
            !(Watcher::<T> { pair: None }).updated(value).is_changed(),
    {
    }

    /// After two samples the watcher reports a change exactly when the two
    /// differ, whatever it held before.
    pub proof fn lemma_changed_iff_samples_differ(self, first: T, second: T)
        ensures
            self.updated(first).updated(second).is_changed() <==> first != second,
            self.updated(first).updated(second).pair == Some(
                Pair { old: first, current: second },
            ),
    {
    }
}

impl<T: Copy> Watcher<T> {
    /// Takes in the sample `value`.
    pub fn update(&mut self, value: T)
        ensures
            *final(self) == old(self).updated(value),
    {
        let previous: T = match self.pair {
            Some(p) => p.current,
            None => value,
        };
        self.pair = Some(Pair { old: previous, current: value });
    }
}

impl<T: Copy + PartialEq> Watcher<T> {
    /// Tells whether the latest sample differs from the previous one.
    pub fn changed(&self) -> (r: bool)
        ensures
            plain_equality::<T>() ==> r == self.is_changed(),
            self.pair is None ==> !r,
    {
        match self.pair {
            Some(p) => p.current != p.old,
            None => false,
        }
    }
}

} // verus!
