//! A partial map from roles to values, with one slot for each role.

use vstd::prelude::*;
use crate::meaning::Meaning;

verus! {

/// A partial map from roles to values. Its view is the mathematical map: a
/// role is a key exactly where its slot is filled, so no key occurs twice.
#[derive(Debug, PartialEq, Eq)]
pub struct MeaningMap<T> {
    slots: [Option<T>; 8],
}

impl<T: Copy> Clone for MeaningMap<T> {
    fn clone(&self) -> (copy: Self)
        ensures
            copy == *self,
    {
        *self
    }
}

impl<T: Copy> Copy for MeaningMap<T> {

}

impl<T> View for MeaningMap<T> {
    type V = Map<Meaning, T>;

    closed spec fn view(&self) -> Map<Meaning, T> {
        Map::new(
            |role: Meaning| self.slots[role.spec_index()] is Some,
            |role: Meaning| self.slots[role.spec_index()]->0,
        )
    }
}

impl<T> MeaningMap<T> {
    /// The map without any key.
    pub fn new() -> (map: Self)
        ensures
            map@ == Map::<Meaning, T>::empty(),
    {
        let map = MeaningMap { slots: [None, None, None, None, None, None, None, None] };
        assert(map@ =~= Map::<Meaning, T>::empty());
        map
    }

    /// Binds a role to a value, in place of what it was bound to before.
    pub fn insert(&mut self, role: Meaning, value: T)
        ensures
            final(self)@ == old(self)@.insert(role, value),
    {
        let position: usize = role.index();
        self.slots[position] = Some(value);
        assert(self@ =~= old(self)@.insert(role, value));
    }

    /// Whether a role is bound.
    pub fn contains_key(&self, role: Meaning) -> (bound: bool)
        ensures
            bound == self@.contains_key(role),
    {
        self.slots[role.index()].is_some()
    }

    /// What a role is bound to, if it is bound.
    pub fn get(&self, role: Meaning) -> (value: Option<&T>)
        ensures
            match value {
                Some(found) => self@.contains_key(role) && *found == self@[role],
                None => !self@.contains_key(role),
            },
    {
        self.slots[role.index()].as_ref()
    }
}

} // verus!
