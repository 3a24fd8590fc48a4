//! Offices whose reservable marker is known to be stale.

use vstd::prelude::*;
use crate::models::texts_view;
use crate::text::text_eq;

verus! {

/// `names` without any entry equal to `name`, in order.
pub open spec fn without_name(names: Seq<Seq<char>>, name: Seq<char>) -> Seq<Seq<char>>
    decreases names.len(),
{
    if names.len() == 0 {
        names
    } else {
        let prev = without_name(names.drop_last(), name);
        if names.last() == name {
            prev
        } else {
            prev.push(names.last())
        }
    }
}

/// How the registry forgets an office that is seen without its reservable marker.
#[derive(Debug, Clone, Copy, PartialEq, Eq, Structural)]
pub enum RemovalPolicy {
    /// Forget that office only.
    RemoveOne,
    /// Forget every office.
    ClearAll,
}

/// The offices whose reservable marker is currently believed to be stale.
pub struct FalsePositiveRegistry {
    names: Vec<String>,
}

impl View for FalsePositiveRegistry {
    type V = Seq<Seq<char>>;

    closed spec fn view(&self) -> Seq<Seq<char>> {
        texts_view(self.names@)
    }
}

impl FalsePositiveRegistry {
    /// An empty registry.
    pub fn new() -> (r: Self)
        ensures
            r@ == Seq::<Seq<char>>::empty(),
    {
        let r = FalsePositiveRegistry { names: Vec::new() };
        assert(r@ =~= Seq::<Seq<char>>::empty());
        r
    }

    /// Whether the office is registered.
    pub fn contains(&self, name: &str) -> (r: bool)
        ensures
            r == self@.contains(name@),
    {
        let mut k: usize = 0;
        while k < self.names.len()
            invariant
                k <= self.names@.len(),
                forall|i: int| 0 <= i < k ==> self@[i] != name@,
            decreases self.names.len() - k,
        {
            if text_eq(self.names[k].as_str(), name) {
                assert(self@[k as int] == name@);
                return true;
            }
            k = k + 1;
        }
        false
    }

    /// Registers an office; a registered office stays registered once.
    pub fn flag(&mut self, name: &str)
        ensures
            final(self)@ == (if old(self)@.contains(name@) {
                old(self)@
            } else {
                old(self)@.push(name@)
            }),
    {
        if !self.contains(name) {
            self.names.push(String::from_str(name));
            assert(self@ =~= old(self)@.push(name@));
        }
    }

    /// Forgets an office.
    pub fn unflag(&mut self, name: &str)
        ensures
            final(self)@ == without_name(old(self)@, name@),
    {
        let ghost old_names = self@;
        let mut kept: Vec<String> = Vec::new();
        let mut k: usize = 0;
        assert(old_names.subrange(0, 0) =~= Seq::<Seq<char>>::empty());
        while k < self.names.len()
            invariant
                k <= self.names@.len(),
                old_names == texts_view(self.names@),
                texts_view(kept@) == without_name(old_names.subrange(0, k as int), name@),
            decreases self.names.len() - k,
        {
            assert(old_names.subrange(0, k + 1).drop_last() =~= old_names.subrange(0, k as int));
            if !text_eq(self.names[k].as_str(), name) {
                let ghost before = kept@;
                kept.push(self.names[k].clone());
                assert(texts_view(kept@) =~= texts_view(before).push(old_names[k as int]));
            }
            k = k + 1;
        }
        assert(old_names.subrange(0, old_names.len() as int) =~= old_names);
        self.names = kept;
    }

    /// Forgets every office.
    pub fn clear(&mut self)
        ensures
            final(self)@ == Seq::<Seq<char>>::empty(),
    {
        self.names = Vec::new();
        assert(self@ =~= Seq::<Seq<char>>::empty());
    }

    /// Records that a registered office was seen without its reservable marker.
    pub fn reobserved(&mut self, name: &str, policy: RemovalPolicy)
        ensures
            final(self)@ == (match policy {
                RemovalPolicy::RemoveOne => without_name(old(self)@, name@),
                RemovalPolicy::ClearAll => Seq::<Seq<char>>::empty(),
            }),
    {
        match policy {
            RemovalPolicy::RemoveOne => self.unflag(name),
            RemovalPolicy::ClearAll => self.clear(),
        }
    }
}

} // verus!
