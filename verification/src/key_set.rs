//! A set of byte-string keys, kept in ascending lexicographic order as the
//! host keeps the keys of a map.
use vstd::prelude::*;

use crate::byte_order::{
    bytes_lt, lemma_lex_asymmetric, lemma_lex_irreflexive, lemma_lex_total, lemma_lex_transitive,
    lex_lt,
};
use crate::bytes::{bytes_eq, copy_bytes};

verus! {

/// The byte views of a sequence of byte strings.
pub open spec fn key_views(s: Seq<Vec<u8>>) -> Seq<Seq<u8>> {
    s.map_values(|k: Vec<u8>| k@)
}

/// Every key comes strictly before the keys after it.
pub open spec fn strictly_ascending(s: Seq<Seq<u8>>) -> bool {
    forall|i: int, j: int| 0 <= i < j < s.len() ==> lex_lt(#[trigger] s[i], #[trigger] s[j])
}

/// A set of byte-string keys.
pub struct KeySet {
    items: Vec<Vec<u8>>,
}

/// A strictly ascending sequence holds no key twice.
proof fn lemma_ascending_no_duplicates(s: Seq<Seq<u8>>)
    requires
        strictly_ascending(s),
    ensures
        s.no_duplicates(),
{
    assert forall|i: int, j: int| 0 <= i < s.len() && 0 <= j < s.len() && i != j implies s[i]
        != s[j] by {
        if i < j {
            assert(lex_lt(s[i], s[j]));
        } else {
            assert(lex_lt(s[j], s[i]));
        }
        lemma_lex_irreflexive(s[i]);
    }
}

impl KeySet {
    /// The keys in ascending order.
    pub closed spec fn keys(&self) -> Seq<Seq<u8>> {
        key_views(self.items@)
    }

    /// The keys are kept strictly ascending.
    #[verifier::type_invariant]
    closed spec fn ascending(&self) -> bool {
        strictly_ascending(self.keys())
    }

    /// The set is exactly the keys of `keys()`.
    pub proof fn lemma_view_is_keys(&self)
        ensures
            self@ == self.keys().to_set(),
    {
    }

    /// An empty set.
    pub fn new() -> (r: KeySet)
        ensures
            r@ == Set::<Seq<u8>>::empty(),
            r.keys() == Seq::<Seq<u8>>::empty(),
    {
        let r = KeySet { items: Vec::new() };
        assert(r.keys() =~= Seq::<Seq<u8>>::empty());
        r
    }

    /// The first position whose key does not come before `k`; every key
    /// before it comes before `k`.
    fn lower_bound(&self, k: &Vec<u8>) -> (r: usize)
        ensures
            r <= self.keys().len(),
            forall|i: int| 0 <= i < r ==> lex_lt(#[trigger] self.keys()[i], k@),
            r < self.keys().len() ==> !lex_lt(self.keys()[r as int], k@),
    {
        let mut i: usize = 0;
        while i < self.items.len()
            invariant
                i <= self.items.len(),
                self.keys().len() == self.items.len(),
                forall|j: int| 0 <= j < i ==> lex_lt(#[trigger] self.keys()[j], k@),
            decreases self.items.len() - i,
        {
            assert(self.keys()[i as int] == self.items@[i as int]@);
            if !bytes_lt(&self.items[i], k) {
                return i;
            }
            i = i + 1;
        }
        i
    }

    /// Whether `k` is a member.
    pub fn contains(&self, k: &Vec<u8>) -> (r: bool)
        ensures
            r == self@.contains(k@),
    {
        proof {
            use_type_invariant(self);
        }
        let pos = self.lower_bound(k);
        if pos < self.items.len() {
            assert(self.keys()[pos as int] == self.items@[pos as int]@);
            if bytes_eq(&self.items[pos], k) {
                assert(self.keys().contains(k@));
                return true;
            }
        }
        proof {
            assert forall|j: int| 0 <= j < self.keys().len() implies self.keys()[j] != k@ by {
                if j < pos {
                    lemma_lex_irreflexive(k@);
                } else if j > pos {
                    let p = self.keys()[pos as int];
                    assert(lex_lt(p, self.keys()[j]));
                    lemma_lex_total(p, k@);
                    if lex_lt(k@, p) {
                        lemma_lex_transitive(k@, p, self.keys()[j]);
                        lemma_lex_irreflexive(k@);
                    }
                }
            }
        }
        false
    }

    /// The number of keys.
    pub fn len(&self) -> (r: usize)
        ensures
            r == self@.len(),
            r == self.keys().len(),
    {
        proof {
            use_type_invariant(self);
            lemma_ascending_no_duplicates(self.keys());
            self.keys().unique_seq_to_set();
        }
        self.items.len()
    }

    /// Adds `k` in its place; nothing changes when it is already a member.
    pub fn insert(&mut self, k: &Vec<u8>)
        ensures
            final(self)@ == old(self)@.insert(k@),
    {
        proof {
            use_type_invariant(&*self);
        }
        let pos = self.lower_bound(k);
        if pos < self.items.len() && bytes_eq(&self.items[pos], k) {
            proof {
                assert(self.keys()[pos as int] == k@);
                assert(self@ =~= self@.insert(k@));
            }
            return;
        }
        let ghost before = self.keys();
        proof {
            if pos < before.len() {
                assert(before[pos as int] == self.items@[pos as int]@);
                lemma_lex_total(before[pos as int], k@);
            }
        }
        let mut items = Vec::new();
        std::mem::swap(&mut items, &mut self.items);
        items.insert(pos, copy_bytes(k));
        let ghost after = key_views(items@);
        proof {
            assert(after =~= before.insert(pos as int, k@));
            assert forall|i: int, j: int| 0 <= i < j < after.len() implies lex_lt(
                #[trigger] after[i],
                #[trigger] after[j],
            ) by {
                if j < pos {
                    assert(after[i] == before[i] && after[j] == before[j]);
                } else if j == pos {
                    assert(after[i] == before[i]);
                } else if i == pos {
                    assert(after[j] == before[j - 1]);
                    if j - 1 > pos {
                        assert(lex_lt(before[pos as int], before[j - 1]));
                        lemma_lex_transitive(k@, before[pos as int], before[j - 1]);
                    }
                } else if i < pos {
                    assert(after[i] == before[i] && after[j] == before[j - 1]);
                } else {
                    assert(after[i] == before[i - 1] && after[j] == before[j - 1]);
                }
            }
            assert(after.to_set() =~= before.to_set().insert(k@)) by {
                assert forall|x: Seq<u8>| after.to_set().contains(x) implies before.to_set().insert(
                    k@,
                ).contains(x) by {
                    let i = choose|i: int| 0 <= i < after.len() && after[i] == x;
                    if i < pos {
                        assert(after[i] == before[i]);
                    } else if i > pos {
                        assert(after[i] == before[i - 1]);
                    }
                }
                assert forall|x: Seq<u8>| before.to_set().insert(k@).contains(x) implies after.to_set().contains(
                    x,
                ) by {
                    if x == k@ {
                        assert(after[pos as int] == k@);
                    } else {
                        let i = choose|i: int| 0 <= i < before.len() && before[i] == x;
                        if i < pos {
                            assert(after[i] == x);
                        } else {
                            assert(after[i + 1] == x);
                        }
                    }
                }
            }
        }
        self.items = items;
    }

    /// Removes `k`; nothing changes when it is not a member.
    pub fn remove(&mut self, k: &Vec<u8>)
        ensures
            final(self)@ == old(self)@.remove(k@),
    {
        proof {
            use_type_invariant(&*self);
            lemma_ascending_no_duplicates(self.keys());
        }
        if !self.contains(k) {
            assert(self@ =~= self@.remove(k@));
            return;
        }
        let pos = self.lower_bound(k);
        proof {
            let j = choose|j: int| 0 <= j < self.keys().len() && self.keys()[j] == k@;
            if j < pos {
                lemma_lex_irreflexive(k@);
            }
            if j > pos {
                assert(lex_lt(self.keys()[pos as int], self.keys()[j]));
            }
            assert(j == pos);
        }
        let ghost before = self.keys();
        assert(before[pos as int] == k@);
        let mut items = Vec::new();
        std::mem::swap(&mut items, &mut self.items);
        items.remove(pos);
        let ghost after = key_views(items@);
        proof {
            assert(after =~= before.remove(pos as int));
            assert forall|i: int, j: int| 0 <= i < j < after.len() implies lex_lt(
                #[trigger] after[i],
                #[trigger] after[j],
            ) by {
                if j < pos {
                    assert(after[i] == before[i] && after[j] == before[j]);
                } else if i < pos {
                    assert(after[i] == before[i] && after[j] == before[j + 1]);
                } else {
                    assert(after[i] == before[i + 1] && after[j] == before[j + 1]);
                }
            }
            assert(after.to_set() =~= before.to_set().remove(k@)) by {
                assert forall|x: Seq<u8>| after.to_set().contains(x) implies before.to_set().remove(
                    k@,
                ).contains(x) by {
                    let i = choose|i: int| 0 <= i < after.len() && after[i] == x;
                    if i < pos {
                        assert(after[i] == before[i]);
                        assert(i != pos);
                    } else {
                        assert(after[i] == before[i + 1]);
                    }
                }
                assert forall|x: Seq<u8>| before.to_set().remove(k@).contains(x) implies after.to_set().contains(
                    x,
                ) by {
                    let i = choose|i: int| 0 <= i < before.len() && before[i] == x;
                    assert(i != pos);
                    if i < pos {
                        assert(after[i] == x);
                    } else {
                        assert(after[i - 1] == x);
                    }
                }
            }
        }
        self.items = items;
    }

    /// The keys in ascending order.
    pub fn to_vec(&self) -> (r: Vec<Vec<u8>>)
        ensures
            key_views(r@) == self.keys(),
            strictly_ascending(self.keys()),
            self.keys().len() == self@.len(),
    {
        proof {
            use_type_invariant(self);
            lemma_ascending_no_duplicates(self.keys());
            self.keys().unique_seq_to_set();
        }
        let mut r: Vec<Vec<u8>> = Vec::new();
        let mut i: usize = 0;
        while i < self.items.len()
            invariant
                i <= self.items.len(),
                r@.len() == i,
                forall|j: int| 0 <= j < i ==> (#[trigger] r@[j])@ == self.items@[j]@,
            decreases self.items.len() - i,
        {
            r.push(copy_bytes(&self.items[i]));
            i = i + 1;
        }
        assert(key_views(r@) =~= key_views(self.items@));
        r
    }
}

impl View for KeySet {
    type V = Set<Seq<u8>>;

    closed spec fn view(&self) -> Set<Seq<u8>> {
        self.keys().to_set()
    }
}

} // verus!
