//! Sets of identifiers, in the order in which they were added.

use vstd::prelude::*;

use crate::text;

verus! {

broadcast use vstd::string::group_string_axioms;

/// A set of identifiers.
#[derive(Clone, Debug)]
pub struct IdSet {
    pub items: Vec<String>,
}

impl IdSet {
    /// The identifiers in the set.
    pub open spec fn view(&self) -> Set<Seq<char>> {
        Set::new(|id: Seq<char>| text::lists(self.items@, id))
    }

    /// No identifier is listed twice.
    pub open spec fn wf(&self) -> bool {
        forall|i: int, j: int|
            0 <= i < j < self.items@.len() ==> (#[trigger] self.items@[i])@ != (
            #[trigger] self.items@[j])@
    }

    /// The empty set.
    pub fn new() -> (r: IdSet)
        ensures
            r@ == Set::<Seq<char>>::empty(),
            r.wf(),
            r.items@.len() == 0,
    {
        let r = IdSet { items: Vec::new() };
        assert(r@ =~= Set::<Seq<char>>::empty());
        r
    }

    /// Whether the set is empty.
    pub fn is_empty(&self) -> (r: bool)
        ensures
            r == (self@ == Set::<Seq<char>>::empty()),
            r == (self.items@.len() == 0),
    {
        let r: bool = self.items.len() == 0;
        proof {
            if r {
                assert(self@ =~= Set::<Seq<char>>::empty());
            } else {
                assert(text::lists(self.items@, self.items@[0]@));
                assert(self@.contains(self.items@[0]@));
            }
        }
        r
    }

    /// Whether the set holds `id`.
    pub fn contains(&self, id: &str) -> (r: bool)
        ensures
            r == self@.contains(id@),
    {
        text::list_has(&self.items, id)
    }

    /// Adds an identifier.
    pub fn insert(&mut self, id: String)
        requires
            old(self).wf(),
        ensures
            final(self)@ == old(self)@.insert(id@),
            final(self).wf(),
    {
        if text::list_has(&self.items, id.as_str()) {
            assert(self@ =~= self@.insert(id@));
            return;
        }
        let ghost before = self.items@;
        let ghost added = id@;
        self.items.push(id);
        proof {
            assert forall|x: Seq<char>| text::lists(self.items@, x) == (text::lists(before, x)
                || x == added) by {
                if text::lists(before, x) {
                    let i = choose|i: int| 0 <= i < before.len() && (#[trigger] before[i])@ == x;
                    assert(self.items@[i]@ == x);
                }
                if x == added {
                    assert(self.items@[before.len() as int]@ == x);
                }
                if text::lists(self.items@, x) && x != added {
                    let i = choose|i: int|
                        0 <= i < self.items@.len() && (#[trigger] self.items@[i])@ == x;
                    assert(before[i]@ == x);
                }
            }
            assert(self@ =~= old(self)@.insert(added));
        }
    }

    /// Removes an identifier.
    pub fn remove(&mut self, id: &str)
        requires
            old(self).wf(),
        ensures
            final(self)@ == old(self)@.remove(id@),
            final(self).wf(),
    {
        let ghost before = self.items@;
        let mut i: usize = 0;
        while i < self.items.len()
            invariant
                self.items@ == before,
                *self == *old(self),
                old(self).wf(),
                i <= self.items.len(),
                forall|j: int| 0 <= j < i ==> (#[trigger] self.items@[j])@ != id@,
            decreases self.items.len() - i,
        {
            if text::same_text(self.items[i].as_str(), id) {
                let _gone: String = self.items.remove(i);
                proof {
                    let after = self.items@;
                    assert(after =~= before.remove(i as int));
                    assert forall|x: Seq<char>| text::lists(after, x) == (text::lists(before, x)
                        && x != id@) by {
                        if text::lists(after, x) {
                            let k = choose|k: int|
                                0 <= k < after.len() && (#[trigger] after[k])@ == x;
                            let b = if k < i {
                                k
                            } else {
                                k + 1
                            };
                            assert(before[b]@ == x);
                            if b < i {
                                assert(before[b]@ != before[i as int]@);
                            } else {
                                assert(before[i as int]@ != before[b]@);
                            }
                        }
                        if text::lists(before, x) && x != id@ {
                            let k = choose|k: int|
                                0 <= k < before.len() && (#[trigger] before[k])@ == x;
                            let a = if k < i {
                                k
                            } else {
                                k - 1
                            };
                            assert(after[a]@ == x);
                        }
                    }
                    assert(self@ =~= old(self)@.remove(id@));
                    assert forall|a: int, b: int| 0 <= a < b < after.len() implies (
                    #[trigger] after[a])@ != (#[trigger] after[b])@ by {
                        let x = if a < i {
                            a
                        } else {
                            a + 1
                        };
                        let y = if b < i {
                            b
                        } else {
                            b + 1
                        };
                        assert(before[x]@ != before[y]@);
                    }
                }
                return;
            }
            i += 1;
        }
        assert(self@ =~= old(self)@.remove(id@));
    }

    /// Removes everything.
    pub fn clear(&mut self)
        ensures
            final(self)@ == Set::<Seq<char>>::empty(),
            final(self).wf(),
            final(self).items@.len() == 0,
    {
        self.items.clear();
        assert(self@ =~= Set::<Seq<char>>::empty());
    }
}

} // verus!
