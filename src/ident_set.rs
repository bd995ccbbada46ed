//! A duplicate-free accumulator of identifiers.

use vstd::prelude::*;

verus! {

/// The identifiers that a sequence of strings spells.
pub open spec fn spelled(s: Seq<String>) -> Seq<Seq<char>> {
    s.map_values(|x: String| x@)
}

/// A set of identifiers, kept in the order in which they were first added.
pub struct IdentSet {
    items: Vec<String>,
}

impl View for IdentSet {
    type V = Set<Seq<char>>;

    closed spec fn view(&self) -> Set<Seq<char>> {
        spelled(self.items@).to_set()
    }
}

impl IdentSet {
    /// No identifier is held twice.
    pub closed spec fn wf(&self) -> bool {
        spelled(self.items@).no_duplicates()
    }

    /// The identifiers in the order in which they were first added.
    pub closed spec fn ordered(&self) -> Seq<Seq<char>> {
        spelled(self.items@)
    }

    pub fn new() -> (r: IdentSet)
        ensures
            r.wf(),
            r@ == Set::<Seq<char>>::empty(),
            r.ordered() == Seq::<Seq<char>>::empty(),
    {
        let r = IdentSet { items: Vec::new() };
        assert(spelled(r.items@) =~= Seq::<Seq<char>>::empty());
        r
    }

    pub fn contains(&self, ident: &String) -> (r: bool)
        ensures
            r == self@.contains(ident@),
    {
        let mut i: usize = 0;
        while i < self.items.len()
            invariant
                0 <= i <= self.items.len(),
                forall|j: int| 0 <= j < i ==> self.items@[j]@ != ident@,
            decreases self.items.len() - i,
        {
            if self.items[i] == *ident {
                assert(spelled(self.items@)[i as int] == ident@);
                return true;
            }
            i += 1;
        }
        assert forall|j: int| 0 <= j < spelled(self.items@).len() implies spelled(self.items@)[j]
            != ident@ by {
            assert(self.items@[j]@ != ident@);
        }
        false
    }

    /// Adds `ident`; a set that already holds it is left as it was.
    pub fn insert(&mut self, ident: String)
        requires
            old(self).wf(),
        ensures
            final(self).wf(),
            final(self)@ == old(self)@.insert(ident@),
            old(self)@.contains(ident@) ==> final(self).ordered() == old(self).ordered(),
            !old(self)@.contains(ident@) ==> final(self).ordered() == old(self).ordered().push(
                ident@,
            ),
    {
        if !self.contains(&ident) {
            let ghost before = self.items@;
            self.items.push(ident);
            assert(spelled(self.items@) =~= spelled(before).push(ident@));
            proof {
                spelled(before).lemma_push_to_set_commute(ident@);
            }
        } else {
            assert(old(self)@.insert(ident@) =~= old(self)@);
        }
    }

    pub fn len(&self) -> (r: usize)
        requires
            self.wf(),
        ensures
            r == self@.len(),
    {
        proof {
            spelled(self.items@).unique_seq_to_set();
        }
        self.items.len()
    }

    /// The identifiers in the order in which they were first added.
    pub fn to_vec(&self) -> (r: Vec<String>)
        ensures
            spelled(r@) == self.ordered(),
    {
        let r = self.items.clone();
        assert(spelled(r@) =~= spelled(self.items@));
        r
    }
}

} // verus!
