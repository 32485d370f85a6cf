use vstd::prelude::*;
use crate::types::Color32;

verus! {

/// A strip of the most recent colours, at most `capacity` of them, oldest
/// first.
pub struct HistoryBar {
    capacity: usize,
    values: Vec<Color32>,
}

/// The colours of a bar after pushing `c` onto `values`: the oldest one
/// drops out when the bar is full.
pub open spec fn pushed_values(values: Seq<Color32>, capacity: nat, c: Color32) -> Seq<Color32> {
    if values.len() == capacity {
        values.drop_first().push(c)
    } else {
        values.push(c)
    }
}

/// The last `capacity` colours of `all` (all of them if there are fewer).
pub open spec fn recent(all: Seq<Color32>, capacity: nat) -> Seq<Color32> {
    if all.len() <= capacity {
        all
    } else {
        all.subrange(all.len() - capacity, all.len() as int)
    }
}

impl HistoryBar {
    #[verifier::type_invariant]
    spec fn inv(self) -> bool {
        self.values@.len() <= self.capacity
    }

    pub closed spec fn spec_capacity(&self) -> nat {
        self.capacity as nat
    }

    pub closed spec fn spec_values(&self) -> Seq<Color32> {
        self.values@
    }

    pub fn new(capacity: usize) -> (res: HistoryBar)
        ensures
            res.spec_capacity() == capacity,
            res.spec_values() == Seq::<Color32>::empty(),
    {
        HistoryBar { capacity: capacity, values: Vec::<Color32>::with_capacity(capacity) }
    }

    pub fn capacity(&self) -> (res: usize)
        ensures
            res == self.spec_capacity(),
    {
        self.capacity
    }

    /// The colours held, oldest first.
    pub fn values(&self) -> (res: &Vec<Color32>)
        ensures
            res@ == self.spec_values(),
            res@.len() <= self.spec_capacity(),
    {
        proof {
            use_type_invariant(self);
        }
        &self.values
    }

    /// Appends `color`, dropping the oldest colour if the bar is full.
    pub fn push(&mut self, color: Color32)
        requires
            old(self).spec_capacity() > 0,
        ensures
            final(self).spec_capacity() == old(self).spec_capacity(),
            final(self).spec_values() == pushed_values(
                old(self).spec_values(),
                old(self).spec_capacity(),
                color,
            ),
            final(self).spec_values().len() <= final(self).spec_capacity(),
    {
        proof {
            use_type_invariant(&*self);
        }
        let mut values: Vec<Color32> = Vec::new();
        std::mem::swap(&mut values, &mut self.values);
        if values.len() == self.capacity {
            values.remove(0);
        }
        values.push(color);
        self.values = values;
    }
}

impl Clone for HistoryBar {
    fn clone(&self) -> (res: Self)
        ensures
            res.spec_capacity() == self.spec_capacity(),
            res.spec_values() == self.spec_values(),
    {
        proof {
            use_type_invariant(self);
        }
        let mut values: Vec<Color32> = Vec::with_capacity(self.capacity);
        let mut i: usize = 0;
        while i < self.values.len()
            invariant
                i <= self.values@.len(),
                values@ == self.values@.subrange(0, i as int),
            decreases self.values@.len() - i,
        {
            values.push(self.values[i]);
            i = i + 1;
        }
        assert(values@ == self.values@);
        HistoryBar { capacity: self.capacity, values }
    }
}

/// A bar holds the last `capacity` colours pushed onto it: if it held the
/// most recent ones of `all` before a push of `c`, it holds the most recent
/// ones of `all` followed by `c` after it.
pub proof fn lemma_push_keeps_recent(all: Seq<Color32>, capacity: nat, c: Color32)
    requires
        capacity > 0,
    ensures
        pushed_values(recent(all, capacity), capacity, c) == recent(all.push(c), capacity),
{
    let r = recent(all, capacity);
    if all.len() < capacity {
        assert(pushed_values(r, capacity, c) =~= recent(all.push(c), capacity));
    } else {
        assert(pushed_values(r, capacity, c) =~= recent(all.push(c), capacity));
    }
}

} // verus!
