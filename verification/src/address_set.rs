//! A finite set of addresses, kept in ascending address order as the host
//! keeps the keys of a map of addresses: accounts before contracts, then by
//! payload bytes.
use vstd::prelude::*;

use crate::address::{Address, AddressKind, AddressView};
use crate::byte_order::{
    bytes_lt, lemma_lex_asymmetric, lemma_lex_irreflexive, lemma_lex_total, lemma_lex_transitive,
    lex_lt,
};

verus! {

/// The address views of a sequence of addresses.
pub open spec fn views_of(s: Seq<Address>) -> Seq<AddressView> {
    s.map_values(|a: Address| a@)
}

/// The rank of an address kind in the address order: accounts come first.
pub open spec fn kind_rank(k: AddressKind) -> int {
    match k {
        AddressKind::Account => 0,
        AddressKind::Contract => 1,
    }
}

/// `a` comes strictly before `b`: by kind, then by payload bytes.
pub open spec fn address_lt(a: AddressView, b: AddressView) -> bool {
    kind_rank(a.kind) < kind_rank(b.kind) || (a.kind == b.kind && lex_lt(a.key, b.key))
}

/// Every address comes strictly before the addresses after it.
pub open spec fn addresses_ascending(s: Seq<AddressView>) -> bool {
    forall|i: int, j: int| 0 <= i < j < s.len() ==> address_lt(#[trigger] s[i], #[trigger] s[j])
}

/// No address comes before itself.
pub proof fn lemma_address_irreflexive(a: AddressView)
    ensures
        !address_lt(a, a),
{
    lemma_lex_irreflexive(a.key);
}

/// The address order is transitive.
pub proof fn lemma_address_transitive(a: AddressView, b: AddressView, c: AddressView)
    requires
        address_lt(a, b),
        address_lt(b, c),
    ensures
        address_lt(a, c),
{
    if a.kind == b.kind && b.kind == c.kind {
        lemma_lex_transitive(a.key, b.key, c.key);
    }
}

/// Any two distinct addresses are ordered one way or the other, and not both.
pub proof fn lemma_address_total(a: AddressView, b: AddressView)
    ensures
        a == b || address_lt(a, b) || address_lt(b, a),
        !(address_lt(a, b) && address_lt(b, a)),
{
    lemma_lex_total(a.key, b.key);
    if lex_lt(a.key, b.key) {
        lemma_lex_asymmetric(a.key, b.key);
    }
}

/// A strictly ascending sequence holds no address twice.
pub proof fn lemma_ascending_no_duplicates(s: Seq<AddressView>)
    requires
        addresses_ascending(s),
    ensures
        s.no_duplicates(),
{
    assert forall|i: int, j: int| 0 <= i < s.len() && 0 <= j < s.len() && i != j implies s[i]
        != s[j] by {
        if i < j {
            assert(address_lt(s[i], s[j]));
        } else {
            assert(address_lt(s[j], s[i]));
        }
        lemma_address_irreflexive(s[i]);
    }
}

/// Two ascending sequences with the same members are the same sequence: the
/// order of a set's members is fixed by the set.
pub proof fn lemma_ascending_unique(s: Seq<AddressView>, t: Seq<AddressView>)
    requires
        addresses_ascending(s),
        addresses_ascending(t),
        s.to_set() == t.to_set(),
    ensures
        s == t,
    decreases s.len(),
{
    lemma_ascending_no_duplicates(s);
    lemma_ascending_no_duplicates(t);
    s.unique_seq_to_set();
    t.unique_seq_to_set();
    if s.len() == 0 {
        assert(t.len() == 0);
        assert(s =~= t);
    } else {
        assert(t.len() == s.len());
        // The first members of both are the least member of the set.
        assert(t.to_set().contains(s[0]));
        assert(s.to_set().contains(t[0]));
        let i = choose|i: int| 0 <= i < t.len() && t[i] == s[0];
        let j = choose|j: int| 0 <= j < s.len() && s[j] == t[0];
        if i > 0 {
            assert(address_lt(t[0], t[i]));
            if j > 0 {
                assert(address_lt(s[0], s[j]));
                lemma_address_total(s[0], t[0]);
            }
        }
        assert(s[0] == t[0]) by {
            if i > 0 && j == 0 {
                lemma_address_irreflexive(s[0]);
            }
        }
        let s1 = s.drop_first();
        let t1 = t.drop_first();
        assert(addresses_ascending(s1)) by {
            assert forall|a: int, b: int| 0 <= a < b < s1.len() implies address_lt(
                #[trigger] s1[a],
                #[trigger] s1[b],
            ) by {
                assert(s1[a] == s[a + 1] && s1[b] == s[b + 1]);
            }
        }
        assert(addresses_ascending(t1)) by {
            assert forall|a: int, b: int| 0 <= a < b < t1.len() implies address_lt(
                #[trigger] t1[a],
                #[trigger] t1[b],
            ) by {
                assert(t1[a] == t[a + 1] && t1[b] == t[b + 1]);
            }
        }
        assert(s1.to_set() =~= t1.to_set()) by {
            assert forall|x: AddressView| s1.to_set().contains(x) implies t1.to_set().contains(x) by {
                let k = choose|k: int| 0 <= k < s1.len() && s1[k] == x;
                assert(s[k + 1] == x);
                assert(t.to_set().contains(x));
                let m = choose|m: int| 0 <= m < t.len() && t[m] == x;
                if m == 0 {
                    assert(s[0] == s[k + 1]);
                }
                assert(t1[m - 1] == x);
            }
            assert forall|x: AddressView| t1.to_set().contains(x) implies s1.to_set().contains(x) by {
                let k = choose|k: int| 0 <= k < t1.len() && t1[k] == x;
                assert(t[k + 1] == x);
                assert(s.to_set().contains(x));
                let m = choose|m: int| 0 <= m < s.len() && s[m] == x;
                if m == 0 {
                    assert(t[0] == t[k + 1]);
                }
                assert(s1[m - 1] == x);
            }
        }
        lemma_ascending_unique(s1, t1);
        assert(s =~= t) by {
            assert forall|k: int| 0 <= k < s.len() implies s[k] == t[k] by {
                if k > 0 {
                    assert(s[k] == s1[k - 1] && t[k] == t1[k - 1]);
                }
            }
        }
    }
}

/// Whether `a` comes strictly before `b` in the address order.
pub fn address_before(a: &Address, b: &Address) -> (r: bool)
    ensures
        r == address_lt(a@, b@),
{
    match (a.kind, b.kind) {
        (AddressKind::Account, AddressKind::Contract) => true,
        (AddressKind::Contract, AddressKind::Account) => false,
        _ => bytes_lt(&a.key, &b.key),
    }
}

/// A set of addresses.
pub struct AddressSet {
    items: Vec<Address>,
}

impl AddressSet {
    /// The members in ascending address order.
    pub closed spec fn elems(&self) -> Seq<AddressView> {
        views_of(self.items@)
    }

    /// The members are kept strictly ascending.
    #[verifier::type_invariant]
    closed spec fn ascending(&self) -> bool {
        addresses_ascending(self.elems())
    }

    /// The set is exactly the members of `elems()`.
    pub proof fn lemma_view_is_elems(&self)
        ensures
            self@ == self.elems().to_set(),
    {
    }

    /// An empty set.
    pub fn new() -> (r: AddressSet)
        ensures
            r@ == Set::<AddressView>::empty(),
            r.elems() == Seq::<AddressView>::empty(),
    {
        let r = AddressSet { items: Vec::new() };
        assert(r.elems() =~= Seq::<AddressView>::empty());
        r
    }

    fn index_of(&self, a: &Address) -> (r: Option<usize>)
        ensures
            match r {
                Some(i) => i < self.items.len() && self.items@[i as int]@ == a@,
                None => !self.elems().contains(a@),
            },
    {
        let mut i: usize = 0;
        while i < self.items.len()
            invariant
                i <= self.items.len(),
                forall|j: int| 0 <= j < i ==> self.items@[j]@ != a@,
            decreases self.items.len() - i,
        {
            if self.items[i].same(a) {
                return Some(i);
            }
            i = i + 1;
        }
        assert forall|j: int| 0 <= j < self.elems().len() implies self.elems()[j] != a@ by {
            assert(self.elems()[j] == self.items@[j]@);
        }
        None
    }

    /// The first position whose member does not come before `a`; every
    /// member before it comes before `a`.
    fn lower_bound(&self, a: &Address) -> (r: usize)
        ensures
            r <= self.elems().len(),
            forall|i: int| 0 <= i < r ==> address_lt(#[trigger] self.elems()[i], a@),
            r < self.elems().len() ==> !address_lt(self.elems()[r as int], a@),
    {
        let mut i: usize = 0;
        while i < self.items.len()
            invariant
                i <= self.items.len(),
                self.elems().len() == self.items.len(),
                forall|j: int| 0 <= j < i ==> address_lt(#[trigger] self.elems()[j], a@),
            decreases self.items.len() - i,
        {
            assert(self.elems()[i as int] == self.items@[i as int]@);
            if !address_before(&self.items[i], a) {
                return i;
            }
            i = i + 1;
        }
        i
    }

    /// Whether `a` is a member.
    pub fn contains(&self, a: &Address) -> (r: bool)
        ensures
            r == self@.contains(a@),
    {
        match self.index_of(a) {
            Some(i) => {
                assert(self.elems()[i as int] == a@);
                true
            },
            None => false,
        }
    }

    /// The number of members.
    pub fn len(&self) -> (r: usize)
        ensures
            r == self@.len(),
    {
        proof {
            use_type_invariant(self);
            lemma_ascending_no_duplicates(self.elems());
            self.elems().unique_seq_to_set();
        }
        self.items.len()
    }

    /// Adds `a` in its place; nothing changes when it is already a member.
    pub fn insert(&mut self, a: &Address)
        ensures
            final(self)@ == old(self)@.insert(a@),
    {
        proof {
            use_type_invariant(&*self);
        }
        let pos = self.lower_bound(a);
        if pos < self.items.len() && self.items[pos].same(a) {
            proof {
                assert(self.elems()[pos as int] == a@);
                assert(self@ =~= self@.insert(a@));
            }
            return;
        }
        let ghost before = self.elems();
        proof {
            if pos < before.len() {
                assert(before[pos as int] == self.items@[pos as int]@);
                lemma_address_total(before[pos as int], a@);
            }
        }
        let mut items = Vec::new();
        std::mem::swap(&mut items, &mut self.items);
        items.insert(pos, a.duplicate());
        let ghost after = views_of(items@);
        proof {
            assert(after =~= before.insert(pos as int, a@));
            assert forall|i: int, j: int| 0 <= i < j < after.len() implies address_lt(
                #[trigger] after[i],
                #[trigger] after[j],
            ) by {
                if j < pos {
                    assert(after[i] == before[i] && after[j] == before[j]);
                } else if j == pos {
                    assert(after[i] == before[i]);
                } else if i == pos {
                    assert(after[j] == before[j - 1]);
                    if j - 1 > pos {
                        assert(address_lt(before[pos as int], before[j - 1]));
                        lemma_address_transitive(a@, before[pos as int], before[j - 1]);
                    }
                } else if i < pos {
                    assert(after[i] == before[i] && after[j] == before[j - 1]);
                } else {
                    assert(after[i] == before[i - 1] && after[j] == before[j - 1]);
                }
            }
            assert(after.to_set() =~= before.to_set().insert(a@)) by {
                assert forall|x: AddressView| after.to_set().contains(x) implies before.to_set().insert(
                    a@,
                ).contains(x) by {
                    let i = choose|i: int| 0 <= i < after.len() && after[i] == x;
                    if i < pos {
                        assert(after[i] == before[i]);
                    } else if i > pos {
                        assert(after[i] == before[i - 1]);
                    }
                }
                assert forall|x: AddressView| before.to_set().insert(a@).contains(x) implies after.to_set().contains(
                    x,
                ) by {
                    if x == a@ {
                        assert(after[pos as int] == a@);
                    } else {
                        let i = choose|i: int| 0 <= i < before.len() && before[i] == x;
                        if i < pos {
                            assert(after[i] == x);
                        } else {
                            assert(after[i + 1] == x);
                        }
                    }
                }
            }
        }
        self.items = items;
    }

    /// Removes `a`; nothing changes when it is not a member.
    pub fn remove(&mut self, a: &Address)
        ensures
            final(self)@ == old(self)@.remove(a@),
    {
        proof {
            use_type_invariant(&*self);
            lemma_ascending_no_duplicates(self.elems());
        }
        match self.index_of(a) {
            None => {
                assert(self@ =~= self@.remove(a@));
            },
            Some(i) => {
                let ghost before = self.elems();
                let mut items = Vec::new();
                std::mem::swap(&mut items, &mut self.items);
                items.remove(i);
                assert(views_of(items@) =~= before.remove(i as int));
                proof {
                    let after = before.remove(i as int);
                    assert(before[i as int] == a@);
                    assert forall|x: int, y: int| 0 <= x < y < after.len() implies address_lt(
                        #[trigger] after[x],
                        #[trigger] after[y],
                    ) by {
                        let xx = if x < i { x } else { x + 1 };
                        let yy = if y < i { y } else { y + 1 };
                        assert(after[x] == before[xx]);
                        assert(after[y] == before[yy]);
                    }
                    assert forall|v: AddressView| after.contains(v) <==> (before.contains(v) && v
                        != a@) by {
                        if after.contains(v) {
                            let k = choose|k: int| 0 <= k < after.len() && after[k] == v;
                            let kk = if k < i { k } else { k + 1 };
                            assert(before[kk] == v);
                            assert(kk != i);
                            assert(v != a@);
                        }
                        if before.contains(v) && v != a@ {
                            let k = choose|k: int| 0 <= k < before.len() && before[k] == v;
                            assert(k != i);
                            let kk = if k < i { k } else { k - 1 };
                            assert(after[kk] == v);
                        }
                    }
                }
                self.items = items;
                assert(self@ =~= before.to_set().remove(a@));
            },
        }
    }

    /// The members, in ascending address order.
    pub fn to_vec(&self) -> (r: Vec<Address>)
        ensures
            views_of(r@) == self.elems(),
            addresses_ascending(views_of(r@)),
            views_of(r@).to_set() == self@,
    {
        proof {
            use_type_invariant(self);
        }
        let mut r: Vec<Address> = Vec::new();
        let mut i: usize = 0;
        while i < self.items.len()
            invariant
                i <= self.items.len(),
                r.len() == i,
                views_of(r@) == self.elems().subrange(0, i as int),
            decreases self.items.len() - i,
        {
            let ghost old_r = r@;
            let d = self.items[i].duplicate();
            r.push(d);
            assert(forall|j: int| 0 <= j < old_r.len() ==> r@[j] == old_r[j]);
            assert(self.elems()[i as int] == self.items@[i as int]@);
            assert(r@[i as int]@ == self.elems()[i as int]);
            i = i + 1;
            assert(views_of(r@) =~= self.elems().subrange(0, i as int));
        }
        assert(self.elems().subrange(0, i as int) =~= self.elems());
        r
    }

    /// The number of members that are also members of `other`.
    pub fn count_in(&self, other: &AddressSet) -> (r: u32)
        requires
            self@.len() <= u32::MAX,
        ensures
            r == self@.intersect(other@).len(),
    {
        proof {
            use_type_invariant(self);
            lemma_ascending_no_duplicates(self.elems());
            self.elems().unique_seq_to_set();
        }
        let ghost s = self.elems();
        assert(s.subrange(0, 0) =~= Seq::<AddressView>::empty());
        assert(Seq::<AddressView>::empty().to_set() =~= Set::<AddressView>::empty());
        assert(Set::<AddressView>::empty().intersect(other@) =~= Set::<AddressView>::empty());
        let mut n: u32 = 0;
        let mut i: usize = 0;
        while i < self.items.len()
            invariant
                i <= self.items.len(),
                s == self.elems(),
                s.len() == self.items.len(),
                s.no_duplicates(),
                s.len() <= u32::MAX,
                n == s.subrange(0, i as int).to_set().intersect(other@).len(),
                n <= i,
            decreases self.items.len() - i,
        {
            let ghost before = s.subrange(0, i as int);
            let ghost x = s[i as int];
            assert(s.subrange(0, i + 1) =~= before.push(x));
            proof {
                before.lemma_push_to_set_commute(x);
                assert(!before.contains(x)) by {
                    if before.contains(x) {
                        let k = choose|k: int| 0 <= k < before.len() && before[k] == x;
                        assert(s[k] == s[i as int]);
                    }
                }
                lemma_intersect_insert(before.to_set(), x, other@);
            }
            if other.contains(&self.items[i]) {
                n = n + 1;
            }
            i = i + 1;
        }
        assert(s.subrange(0, i as int) =~= s);
        n
    }
}

impl View for AddressSet {
    type V = Set<AddressView>;

    closed spec fn view(&self) -> Set<AddressView> {
        self.elems().to_set()
    }
}

/// Adding a new element to a finite set grows its intersection with `o` by
/// one exactly when the element is in `o`.
pub proof fn lemma_intersect_insert(s: Set<AddressView>, x: AddressView, o: Set<AddressView>)
    requires
        s.finite(),
        !s.contains(x),
    ensures
        s.insert(x).intersect(o).len() == s.intersect(o).len() + (if o.contains(x) {
            1int
        } else {
            0int
        }),
{
    vstd::set_lib::lemma_len_intersect(s, o);
    if o.contains(x) {
        assert(s.insert(x).intersect(o) =~= s.intersect(o).insert(x));
    } else {
        assert(s.insert(x).intersect(o) =~= s.intersect(o));
    }
}

} // verus!
