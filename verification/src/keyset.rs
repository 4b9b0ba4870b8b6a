//! Small sets of keys and mouse buttons: membership as a hash set gives it,
//! kept as a list without repeats.

use vstd::prelude::*;

use crate::keycode::KeyCode;
use crate::mouse::MouseButton;

verus! {

/// A value whose executable equality test agrees with equality in
/// specifications.
pub trait SetElement: Copy + Sized {
    /// Whether the two values are equal.
    fn same(&self, other: &Self) -> (equal: bool)
        ensures
            equal == (*self == *other),
    ;
}

impl SetElement for KeyCode {
    fn same(&self, other: &Self) -> (equal: bool) {
        *self == *other
    }
}

impl SetElement for MouseButton {
    fn same(&self, other: &Self) -> (equal: bool) {
        *self == *other
    }
}

/// The keys held or pressed.
pub type KeySet = SmallSet<KeyCode>;

/// The mouse buttons held.
pub type ButtonSet = SmallSet<MouseButton>;

/// A set of small values, answering membership like a hash set.
pub struct SmallSet<T> {
    items: Vec<T>,
}

impl<T> SmallSet<T> {
    #[verifier::type_invariant]
    closed spec fn inv(&self) -> bool {
        self.items@.no_duplicates()
    }
}

impl<T> View for SmallSet<T> {
    type V = Set<T>;

    closed spec fn view(&self) -> Set<T> {
        self.items@.to_set()
    }
}

impl<T: SetElement> SmallSet<T> {
    /// The empty set.
    pub fn new() -> (set: Self)
        ensures
            set@ == Set::<T>::empty(),
    {
        let set = SmallSet { items: Vec::new() };
        assert(set.items@.to_set() =~= Set::<T>::empty());
        set
    }

    /// Whether `item` is in the set.
    pub fn contains(&self, item: &T) -> (found: bool)
        ensures
            found == self@.contains(*item),
    {
        let mut i: usize = 0;
        while i < self.items.len()
            invariant
                i <= self.items@.len(),
                forall|j: int| 0 <= j < i ==> self.items@[j] != *item,
            decreases self.items@.len() - i,
        {
            if self.items[i].same(item) {
                assert(self.items@.contains(*item));
                return true;
            }
            i = i + 1;
        }
        assert(!self.items@.contains(*item));
        false
    }

    /// Adds `item`; returns whether it was absent before.
    pub fn insert(&mut self, item: T) -> (added: bool)
        ensures
            final(self)@ == old(self)@.insert(item),
            added == !old(self)@.contains(item),
    {
        if self.contains(&item) {
            assert(self@.insert(item) =~= self@);
            return false;
        }
        proof {
            use_type_invariant(&*self);
        }
        let mut items: Vec<T> = Vec::new();
        std::mem::swap(&mut items, &mut self.items);
        let ghost before = items@;
        items.push(item);
        proof {
            assert(items@.to_set() =~= before.to_set().insert(item)) by {
                assert forall|x: T| items@.contains(x) <==> before.contains(x) || x == item by {
                    if before.contains(x) {
                        let i = choose|i: int| 0 <= i < before.len() && before[i] == x;
                        assert(items@[i] == x);
                    }
                    if x == item {
                        assert(items@[before.len() as int] == x);
                    }
                    if items@.contains(x) && x != item {
                        let i = choose|i: int| 0 <= i < items@.len() && items@[i] == x;
                        assert(before[i] == x);
                    }
                }
            }
            assert(items@.no_duplicates()) by {
                assert forall|a: int, b: int|
                    0 <= a < items@.len() && 0 <= b < items@.len() && a != b implies items@[a]
                    != items@[b] by {
                    if a == before.len() {
                        assert(before[b] == items@[b]);
                        assert(before.contains(items@[b]));
                    } else if b == before.len() {
                        assert(before[a] == items@[a]);
                        assert(before.contains(items@[a]));
                    } else {
                        assert(before[a] == items@[a]);
                        assert(before[b] == items@[b]);
                    }
                }
            }
        }
        self.items = items;
        true
    }

    /// Removes `item`; returns whether it was present.
    pub fn remove(&mut self, item: &T) -> (removed: bool)
        ensures
            final(self)@ == old(self)@.remove(*item),
            removed == old(self)@.contains(*item),
    {
        proof {
            use_type_invariant(&*self);
        }
        let mut i: usize = 0;
        while i < self.items.len() && !self.items[i].same(item)
            invariant
                i <= self.items@.len(),
                forall|j: int| 0 <= j < i ==> self.items@[j] != *item,
            decreases self.items@.len() - i,
        {
            i = i + 1;
        }
        if i == self.items.len() {
            assert(!self.items@.contains(*item));
            assert(self@.remove(*item) =~= self@);
            return false;
        }
        let mut items: Vec<T> = Vec::new();
        std::mem::swap(&mut items, &mut self.items);
        let ghost before = items@;
        assert(before[i as int] == *item);
        items.remove(i);
        proof {
            assert(items@ =~= before.subrange(0, i as int) + before.subrange(
                i as int + 1,
                before.len() as int,
            ));
            assert(before.contains(*item));
            assert(items@.to_set() =~= before.to_set().remove(*item)) by {
                assert forall|x: T| items@.contains(x) <==> before.contains(x) && x != *item by {
                    if items@.contains(x) {
                        let k = choose|k: int| 0 <= k < items@.len() && items@[k] == x;
                        if k < i {
                            assert(before[k] == x);
                        } else {
                            assert(before[k + 1] == x);
                        }
                    }
                    if before.contains(x) && x != *item {
                        let k = choose|k: int| 0 <= k < before.len() && before[k] == x;
                        if k < i {
                            assert(items@[k] == x);
                        } else {
                            assert(items@[k - 1] == x);
                        }
                    }
                }
            }
            assert(items@.no_duplicates()) by {
                assert forall|a: int, b: int|
                    0 <= a < items@.len() && 0 <= b < items@.len() && a != b implies items@[a]
                    != items@[b] by {
                    let a2 = if a < i { a } else { a + 1 };
                    let b2 = if b < i { b } else { b + 1 };
                    assert(items@[a] == before[a2]);
                    assert(items@[b] == before[b2]);
                }
            }
        }
        self.items = items;
        true
    }

    /// Removes every element.
    pub fn clear(&mut self)
        ensures
            final(self)@ == Set::<T>::empty(),
    {
        self.items = Vec::new();
        assert(self.items@.to_set() =~= Set::<T>::empty());
    }

    /// Whether the set has no element.
    pub fn is_empty(&self) -> (empty: bool)
        ensures
            empty == (self@ == Set::<T>::empty()),
    {
        let empty = self.items.len() == 0;
        proof {
            if !empty {
                assert(self@.contains(self.items@[0]));
            } else {
                assert(self@ =~= Set::<T>::empty());
            }
        }
        empty
    }
}

} // verus!
