use vstd::prelude::*;

verus! {

/// The last two committed simulation states of a value: rendering interpolates
/// from `old` to `new`.
#[derive(Copy, Clone, Debug, PartialEq, Eq)]
pub struct Morph<T> {
    pub old: T,
    pub new: T,
}

impl<T> Morph<T> {
    pub fn new(old: T, new: T) -> (r: Morph<T>)
        ensures
            r.old == old,
            r.new == new,
    {
        Morph { old, new }
    }
}

impl<T: Copy> Morph<T> {
    /// A value that has not moved yet: both states are `value`.
    pub fn one(value: T) -> (r: Morph<T>)
        ensures
            r.old == value,
            r.new == value,
    {
        Morph { old: value, new: value }
    }

    /// Starts a simulation tick: the current state becomes the previous one.
    pub fn commit(&mut self)
        ensures
            final(self).old == old(self).new,
            final(self).new == old(self).new,
    {
        self.old = self.new;
    }
}

} // verus!
