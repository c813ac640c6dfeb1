//! The source and target render trees of an animated transition.

use vstd::prelude::*;

verus! {

/// Two render trees: the source that a transition starts from and the target
/// it moves to. Swapping exchanges their roles without moving either tree;
/// the generation counts the swaps.
pub struct TreePair<T> {
    front: T,
    back: T,
    target_is_back: bool,
    generation: u64,
}

impl<T> TreePair<T> {
    /// The tree the transition starts from.
    pub closed spec fn spec_source(&self) -> T {
        if self.target_is_back { self.front } else { self.back }
    }

    /// The tree the transition moves to.
    pub closed spec fn spec_target(&self) -> T {
        if self.target_is_back { self.back } else { self.front }
    }

    /// The number of swaps so far, wrapping.
    pub closed spec fn spec_generation(&self) -> u64 {
        self.generation
    }

    /// A pair in generation zero.
    pub fn new(source: T, target: T) -> (p: TreePair<T>)
        ensures
            p.spec_source() == source,
            p.spec_target() == target,
            p.spec_generation() == 0,
    {
        TreePair { front: source, back: target, target_is_back: true, generation: 0 }
    }

    /// The source tree.
    pub fn source(&self) -> (t: &T)
        ensures
            *t == self.spec_source(),
    {
        if self.target_is_back { &self.front } else { &self.back }
    }

    /// The target tree.
    pub fn target(&self) -> (t: &T)
        ensures
            *t == self.spec_target(),
    {
        if self.target_is_back { &self.back } else { &self.front }
    }

    /// The generation.
    pub fn generation(&self) -> (g: u64)
        ensures
            g == self.spec_generation(),
    {
        self.generation
    }

    /// Both trees, for updating one from the other.
    pub fn parts_mut(&mut self) -> (parts: (&mut T, &mut T))
        ensures
            *parts.0 == old(self).spec_source(),
            *parts.1 == old(self).spec_target(),
            final(self).spec_source() == *final(parts.0),
            final(self).spec_target() == *final(parts.1),
            final(self).spec_generation() == old(self).spec_generation(),
    {
        if self.target_is_back {
            (&mut self.front, &mut self.back)
        } else {
            (&mut self.back, &mut self.front)
        }
    }

    /// Makes the target the new source and the source the new target.
    pub fn swap(&mut self)
        ensures
            final(self).spec_source() == old(self).spec_target(),
            final(self).spec_target() == old(self).spec_source(),
            final(self).spec_generation() == old(self).spec_generation().wrapping_add(1),
    {
        self.target_is_back = !self.target_is_back;
        self.generation = self.generation.wrapping_add(1);
    }

    /// Replaces the target tree, keeping the source.
    pub fn set_target(&mut self, t: T)
        ensures
            final(self).spec_source() == old(self).spec_source(),
            final(self).spec_target() == t,
            final(self).spec_generation() == old(self).spec_generation(),
    {
        if self.target_is_back {
            self.back = t;
        } else {
            self.front = t;
        }
    }
}

} // verus!
