use vstd::prelude::*;

verus! {

/// A value that can be watched for changes: equality is decided by `same`.
pub trait Watchable: Copy + Sized {
    fn same(&self, other: &Self) -> (r: bool)
        ensures
            r == (*self == *other),
    ;
}

impl Watchable for bool {
    fn same(&self, other: &bool) -> (r: bool) {
        *self == *other
    }
}

/// The last two successful samples of a watched value.
#[derive(Clone, Copy, Debug)]
pub struct Observation<T> {
    pub previous: Option<T>,
    pub current: T,
}

impl<T: Watchable> Observation<T> {
    pub open spec fn is_changed(self) -> bool {
        match self.previous {
            Some(p) => p != self.current,
            None => false,
        }
    }

    /// True when the previous sample exists and differs from the current one.
    pub fn changed(&self) -> (r: bool)
        ensures
            r == self.is_changed(),
    {
        match self.previous {
            Some(p) => !p.same(&self.current),
            None => false,
        }
    }

    /// True when the value changed and now equals `v`.
    pub fn changed_to(&self, v: &T) -> (r: bool)
        ensures
            r == (self.is_changed() && self.current == *v),
            self.previous.is_none() ==> !r,
    {
        self.changed() && self.current.same(v)
    }
}

/// Keeps the previous and current sample of a value that is polled every tick.
#[derive(Clone, Copy, Debug)]
pub struct ChangeWatcher<T> {
    pub pair: Option<Observation<T>>,
}

impl<T: Watchable> ChangeWatcher<T> {
    /// The watcher after taking `sample`; a missing sample leaves it as it was.
    pub open spec fn updated(self, sample: Option<T>) -> Self {
        match sample {
            None => self,
            Some(v) => ChangeWatcher {
                pair: Some(
                    Observation {
                        previous: match self.pair {
                            Some(o) => Some(o.current),
                            None => None,
                        },
                        current: v,
                    },
                ),
            },
        }
    }

    pub open spec fn is_changed(self) -> bool {
        match self.pair {
            Some(o) => o.is_changed(),
            None => false,
        }
    }

    pub open spec fn is_changed_to(self, v: T) -> bool {
        match self.pair {
            Some(o) => o.is_changed() && o.current == v,
            None => false,
        }
    }

    /// The last successful sample, if any.
    pub open spec fn last(self) -> Option<T> {
        match self.pair {
            Some(o) => Some(o.current),
            None => None,
        }
    }

    /// A watcher that has seen no sample yet.
    pub fn new() -> (r: Self)
        ensures
            r.pair.is_none(),
    {
        ChangeWatcher { pair: None }
    }

    /// Takes one sample: `None` (a failed read) leaves the watcher unchanged and
    /// returns `None`; `Some(v)` moves the current value to `previous`, stores `v`
    /// and returns the new observation.
    pub fn update(&mut self, sample: Option<T>) -> (r: Option<Observation<T>>)
        ensures
            *final(self) == old(self).updated(sample),
            sample.is_none() ==> r.is_none(),
            sample.is_some() ==> r == final(self).pair,
    {
        match sample {
            None => None,
            Some(v) => {
                let previous = match self.pair {
                    Some(o) => Some(o.current),
                    None => None,
                };
                let o = Observation { previous, current: v };
                self.pair = Some(o);
                Some(o)
            },
        }
    }

    /// The last successful sample, if any.
    pub fn current(&self) -> (r: Option<T>)
        ensures
            r == self.last(),
    {
        match self.pair {
            Some(o) => Some(o.current),
            None => None,
        }
    }

    /// True when the last two successful samples differ.
    pub fn changed(&self) -> (r: bool)
        ensures
            r == self.is_changed(),
    {
        match self.pair {
            Some(o) => o.changed(),
            None => false,
        }
    }

    /// True when the last two successful samples differ and the latest is `v`.
    pub fn changed_to(&self, v: &T) -> (r: bool)
        ensures
            r == self.is_changed_to(*v),
    {
        match self.pair {
            Some(o) => o.changed_to(v),
            None => false,
        }
    }
}

/// A failed read never alters the watcher, whatever its state.
pub proof fn lemma_failed_read_keeps_watcher<T: Watchable>(w: ChangeWatcher<T>)
    ensures
        w.updated(None) == w,
{
}

/// `changed_to(v)` holds exactly when the value changed and is now `v`; it never
/// holds before a second sample has been taken.
pub proof fn lemma_changed_to_iff<T: Watchable>(w: ChangeWatcher<T>, v: T)
    ensures
        w.is_changed_to(v) <==> (w.is_changed() && w.last() == Some(v)),
        (w.pair.is_none() || w.pair.unwrap().previous.is_none()) ==> !w.is_changed_to(v),
{
}

} // verus!
