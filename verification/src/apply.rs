//! The call shape: an ordered sequence of (name, value) pairs representing
//! one dynamic invocation. Names are not deduplicated — a repeated name is
//! precisely how variadic arguments are passed. No validation against any
//! signature happens here; that is the resolver's responsibility.

use vstd::prelude::*;

verus! {

/// One dynamic invocation (or one applied syntax node): (name, value)
/// pairs in insertion order, a name possibly repeating. Immutable once
/// built.
#[derive(Debug)]
pub struct Apply<V> {
    /// The (name, value) pairs, in insertion order. Read-only once the call
    /// is built; grown only through [`Apply::push_arg`].
    pub pairs: Vec<(String, V)>,
}

impl<V> View for Apply<V> {
    type V = Seq<(String, V)>;

    open spec fn view(&self) -> Seq<(String, V)> {
        self.pairs@
    }
}

impl<V> Apply<V> {
    /// An empty call with room for `n` pairs.
    pub fn with_capacity(n: usize) -> (a: Apply<V>)
        ensures
            a@ =~= Seq::<(String, V)>::empty(),
    {
        Apply { pairs: Vec::with_capacity(n) }
    }

    /// Append one (name, value) pair, preserving insertion order and
    /// permitting repeated names.
    pub fn push_arg(&mut self, name: &str, value: V)
        ensures
            final(self)@.len() == old(self)@.len() + 1,
            final(self)@.drop_last() == old(self)@,
            final(self)@.last().0@ == name@,
            final(self)@.last().1 == value,
    {
        self.pairs.push((String::from_str(name), value));
        proof {
            assert(self.pairs@.drop_last() =~= old(self).pairs@);
        }
    }

    /// How many pairs the call holds.
    pub fn len(&self) -> (r: usize)
        ensures
            r == self@.len(),
    {
        self.pairs.len()
    }

    /// The pair at position `i`, in insertion order.
    pub fn pair(&self, i: usize) -> (r: &(String, V))
        requires
            i < self@.len(),
        ensures
            *r == self@[i as int],
    {
        &self.pairs[i]
    }
}

} // verus!
