//! Persistent-storage collections as the contracts use them: sets and maps that
//! keep their keys in iteration order, append new keys at the end and remove a
//! key by moving the last key into its slot.
use vstd::prelude::*;

verus! {

/// `s` with element `i` replaced by the last element and the last slot dropped.
pub open spec fn seq_swap_remove<A>(s: Seq<A>, i: int) -> Seq<A> {
    s.update(i, s.last()).drop_last()
}

/// In a sequence without duplicates, the index of an element is its only position.
pub proof fn lemma_index_of_unique<A>(s: Seq<A>, i: int)
    requires
        s.no_duplicates(),
        0 <= i < s.len(),
    ensures
        s.index_of(s[i]) == i,
        s.contains(s[i]),
{
    assert(s.contains(s[i]));
    let j = s.index_of(s[i]);
    assert(0 <= j < s.len() && s[j] == s[i]);
}

/// Removing by swap keeps a duplicate-free sequence duplicate-free and drops
/// exactly the removed element.
pub proof fn lemma_swap_remove<A>(s: Seq<A>, i: int)
    requires
        s.no_duplicates(),
        0 <= i < s.len(),
    ensures
        seq_swap_remove(s, i).no_duplicates(),
        seq_swap_remove(s, i).len() == s.len() - 1,
        forall|x: A| #[trigger]
            seq_swap_remove(s, i).contains(x) <==> (s.contains(x) && x != s[i]),
        forall|j: int|
            0 <= j < s.len() - 1 && j != i ==> #[trigger] seq_swap_remove(s, i)[j] == s[j],
        i < s.len() - 1 ==> seq_swap_remove(s, i)[i] == s[s.len() - 1],
{
    let r = seq_swap_remove(s, i);
    let n = s.len();
    assert forall|x: A| #[trigger] r.contains(x) <==> (s.contains(x) && x != s[i]) by {
        if r.contains(x) {
            let k = choose|k: int| 0 <= k < r.len() && r[k] == x;
            if k == i {
                assert(r[k] == s[n - 1]);
                assert(s[n - 1] != s[i]);
            } else {
                assert(r[k] == s[k]);
            }
        }
        if s.contains(x) && x != s[i] {
            let k = choose|k: int| 0 <= k < s.len() && s[k] == x;
            if k == n - 1 {
                assert(r[i] == x);
            } else {
                assert(r[k] == x);
            }
        }
    }
}

/// Position of `x` in `v`, if any.
pub fn find_id(v: &Vec<u64>, x: u64) -> (r: Option<usize>)
    ensures
        r is None <==> !v@.contains(x),
        r matches Some(i) ==> i < v.len() && v@[i as int] == x,
{
    let mut i: usize = 0;
    while i < v.len()
        invariant
            i <= v.len(),
            forall|j: int| 0 <= j < i ==> v@[j] != x,
        decreases v.len() - i,
    {
        if v[i] == x {
            return Some(i);
        }
        i += 1;
    }
    None
}

/// Position of an account `x` in `v`, if any.
pub fn find_account(v: &Vec<String>, x: &String) -> (r: Option<usize>)
    ensures
        r is None <==> !v@.map_values(|s: String| s@).contains(x@),
        r matches Some(i) ==> i < v.len() && v@[i as int]@ == x@,
{
    let ghost views = v@.map_values(|s: String| s@);
    let mut i: usize = 0;
    while i < v.len()
        invariant
            i <= v.len(),
            views == v@.map_values(|s: String| s@),
            forall|j: int| 0 <= j < i ==> views[j] != x@,
        decreases v.len() - i,
    {
        if v[i] == *x {
            assert(views[i as int] == x@);
            return Some(i);
        }
        i += 1;
    }
    None
}

/// An ordered set of numeric IDs.
pub struct IdSet {
    items: Vec<u64>,
}

impl View for IdSet {
    type V = Seq<u64>;

    closed spec fn view(&self) -> Seq<u64> {
        self.items@
    }
}

impl IdSet {
    pub open spec fn wf(&self) -> bool {
        self@.no_duplicates()
    }

    pub fn new() -> (s: Self)
        ensures
            s.wf(),
            s@ == Seq::<u64>::empty(),
    {
        IdSet { items: Vec::new() }
    }

    pub fn len(&self) -> (n: usize)
        ensures
            n == self@.len(),
    {
        self.items.len()
    }

    pub fn contains(&self, x: u64) -> (b: bool)
        ensures
            b == self@.contains(x),
    {
        find_id(&self.items, x).is_some()
    }

    pub fn get(&self, i: usize) -> (x: u64)
        requires
            i < self@.len(),
        ensures
            x == self@[i as int],
    {
        self.items[i]
    }

    /// Adds `x` at the end unless it is already present; returns whether it was added.
    pub fn insert(&mut self, x: u64) -> (added: bool)
        requires
            old(self).wf(),
        ensures
            final(self).wf(),
            added == !old(self)@.contains(x),
            added ==> final(self)@ == old(self)@.push(x),
            !added ==> final(self)@ == old(self)@,
    {
        if find_id(&self.items, x).is_some() {
            false
        } else {
            self.items.push(x);
            proof {
                let s = self.items@;
                assert forall|i: int, j: int|
                    0 <= i < s.len() && 0 <= j < s.len() && i != j implies s[i] != s[j] by {
                    if i < s.len() - 1 && j < s.len() - 1 {
                        assert(old(self)@[i] == s[i] && old(self)@[j] == s[j]);
                    } else if i == s.len() - 1 {
                        assert(old(self)@[j] == s[j]);
                    } else {
                        assert(old(self)@[i] == s[i]);
                    }
                }
            }
            true
        }
    }

    /// Removes `x` (moving the last element into its slot); returns whether it was present.
    pub fn remove(&mut self, x: u64) -> (removed: bool)
        requires
            old(self).wf(),
        ensures
            final(self).wf(),
            removed == old(self)@.contains(x),
            removed ==> final(self)@ == seq_swap_remove(old(self)@, old(self)@.index_of(x)),
            !removed ==> final(self)@ == old(self)@,
            forall|y: u64| #[trigger] final(self)@.contains(y) <==> (old(self)@.contains(y) && y != x),
    {
        match find_id(&self.items, x) {
            None => false,
            Some(i) => {
                proof {
                    lemma_index_of_unique(self.items@, i as int);
                    lemma_swap_remove(self.items@, i as int);
                }
                self.items.swap_remove(i);
                true
            },
        }
    }

    pub fn clear(&mut self)
        ensures
            final(self).wf(),
            final(self)@ == Seq::<u64>::empty(),
    {
        self.items.clear();
    }

    pub fn to_vec(&self) -> (v: Vec<u64>)
        ensures
            v@ == self@,
    {
        self.items.clone()
    }

    /// An equal set.
    pub fn copy(&self) -> (r: IdSet)
        ensures
            r@ == self@,
    {
        IdSet { items: self.items.clone() }
    }
}

/// `s` with `x` appended unless already present.
pub open spec fn set_add(s: Seq<u64>, x: u64) -> Seq<u64> {
    if s.contains(x) {
        s
    } else {
        s.push(x)
    }
}

/// What `set_add` holds: what `s` held, and `x`.
pub proof fn lemma_set_add_contains(s: Seq<u64>, x: u64)
    ensures
        forall|y: u64| #[trigger] set_add(s, x).contains(y) <==> (s.contains(y) || y == x),
{
    assert forall|y: u64| #[trigger] set_add(s, x).contains(y) <==> (s.contains(y) || y == x) by {
        if !s.contains(x) {
            if s.contains(y) {
                let i = choose|i: int| 0 <= i < s.len() && s[i] == y;
                assert(s.push(x)[i] == y);
            }
            if y == x {
                assert(s.push(x)[s.len() as int] == y);
            }
            if s.push(x).contains(y) && y != x {
                let i = choose|i: int| 0 <= i < s.push(x).len() && s.push(x)[i] == y;
                assert(s[i] == y);
            }
        }
    }
}

/// `s` without `x` (the last element moves into its slot).
pub open spec fn set_del(s: Seq<u64>, x: u64) -> Seq<u64> {
    if s.contains(x) {
        seq_swap_remove(s, s.index_of(x))
    } else {
        s
    }
}

/// Adding a new ID to an ID set and removing it again gives the set back.
pub proof fn lemma_set_add_then_del(s: Seq<u64>, x: u64)
    requires
        !s.contains(x),
    ensures
        set_del(set_add(s, x), x) == s,
{
    let t = s.push(x);
    assert(t[s.len() as int] == x);
    assert(t.contains(x));
    let i = t.index_of(x);
    assert(0 <= i < t.len() && t[i] == x);
    if i < s.len() {
        assert(s[i] == x);
        assert(false);
    }
    assert(seq_swap_remove(t, i) =~= s);
}

/// What `set_del` holds: what `s` held, but `x`.
pub proof fn lemma_set_del_contains(s: Seq<u64>, x: u64)
    requires
        s.no_duplicates(),
    ensures
        forall|y: u64| #[trigger] set_del(s, x).contains(y) <==> (s.contains(y) && y != x),
{
    if s.contains(x) {
        let i = s.index_of(x);
        lemma_swap_remove(s, i);
    }
}

/// Every set stored in `m` is well formed.
pub open spec fn id_sets_wf(m: Map<u64, IdSet>) -> bool {
    forall|k: u64| #[trigger] m.contains_key(k) ==> m[k].wf()
}

/// Every set stored in `m` is well formed.
pub open spec fn account_sets_wf(m: Map<Seq<char>, IdSet>) -> bool {
    forall|k: Seq<char>| #[trigger] m.contains_key(k) ==> m[k].wf()
}

/// Adds `x` to the set stored under `key`, if there is one.
pub fn id_sets_add(m: &mut IdMap<IdSet>, key: u64, x: u64)
    requires
        old(m).wf(),
        id_sets_wf(old(m)@),
    ensures
        final(m).wf(),
        id_sets_wf(final(m)@),
        final(m).order() == old(m).order(),
        final(m)@.dom() == old(m)@.dom(),
        forall|k: u64| k != key && #[trigger] old(m)@.contains_key(k) ==> final(m)@[k] == old(m)@[k],
        old(m)@.contains_key(key) ==> final(m)@[key]@ == set_add(old(m)@[key]@, x),
{
    let ghost old_m = *m;
    let mut s2 = match m.get(key) {
        None => {
            return ;
        },
        Some(s) => s.copy(),
    };
    s2.insert(x);
    m.insert(key, s2);
    assert(final(m)@.dom() =~= old_m@.dom());
}

/// Removes `x` from the set stored under `key`, if there is one.
pub fn id_sets_del(m: &mut IdMap<IdSet>, key: u64, x: u64)
    requires
        old(m).wf(),
        id_sets_wf(old(m)@),
    ensures
        final(m).wf(),
        id_sets_wf(final(m)@),
        final(m).order() == old(m).order(),
        final(m)@.dom() == old(m)@.dom(),
        forall|k: u64| k != key && #[trigger] old(m)@.contains_key(k) ==> final(m)@[k] == old(m)@[k],
        old(m)@.contains_key(key) ==> final(m)@[key]@ == set_del(old(m)@[key]@, x),
{
    let ghost old_m = *m;
    let mut s2 = match m.get(key) {
        None => {
            return ;
        },
        Some(s) => s.copy(),
    };
    s2.remove(x);
    m.insert(key, s2);
    assert(final(m)@.dom() =~= old_m@.dom());
}

/// Adds `x` to the set stored under account `key`, creating the set if needed.
pub fn account_sets_add(m: &mut AccountMap<IdSet>, key: &String, x: u64)
    requires
        old(m).wf(),
        account_sets_wf(old(m)@),
    ensures
        final(m).wf(),
        account_sets_wf(final(m)@),
        final(m)@.dom() == old(m)@.dom().insert(key@),
        forall|k: Seq<char>| k != key@ && #[trigger] old(m)@.contains_key(k) ==> final(m)@[k] == old(m)@[k],
        old(m)@.contains_key(key@) ==> final(m)@[key@]@ == set_add(old(m)@[key@]@, x),
        !old(m)@.contains_key(key@) ==> final(m)@[key@]@ == seq![x],
{
    let ghost old_m = *m;
    let mut s2 = match m.get(key) {
        None => IdSet::new(),
        Some(s) => s.copy(),
    };
    s2.insert(x);
    m.insert(key.clone(), s2);
    assert(final(m)@.dom() =~= old_m@.dom().insert(key@));
}

/// Removes `x` from the set stored under account `key`, if there is one.
pub fn account_sets_del(m: &mut AccountMap<IdSet>, key: &String, x: u64)
    requires
        old(m).wf(),
        account_sets_wf(old(m)@),
    ensures
        final(m).wf(),
        account_sets_wf(final(m)@),
        final(m)@.dom() == old(m)@.dom(),
        forall|k: Seq<char>| k != key@ && #[trigger] old(m)@.contains_key(k) ==> final(m)@[k] == old(m)@[k],
        old(m)@.contains_key(key@) ==> final(m)@[key@]@ == set_del(old(m)@[key@]@, x),
{
    let ghost old_m = *m;
    let mut s2 = match m.get(key) {
        None => {
            return ;
        },
        Some(s) => s.copy(),
    };
    s2.remove(x);
    m.insert(key.clone(), s2);
    assert(final(m)@.dom() =~= old_m@.dom());
}

/// An ordered set of account IDs.
pub struct AccountSet {
    items: Vec<String>,
}

impl View for AccountSet {
    type V = Seq<Seq<char>>;

    closed spec fn view(&self) -> Seq<Seq<char>> {
        self.items@.map_values(|s: String| s@)
    }
}

impl AccountSet {
    pub open spec fn wf(&self) -> bool {
        self@.no_duplicates()
    }

    pub fn new() -> (s: Self)
        ensures
            s.wf(),
            s@ == Seq::<Seq<char>>::empty(),
    {
        let s = AccountSet { items: Vec::new() };
        assert(s@ =~= Seq::<Seq<char>>::empty());
        s
    }

    pub fn len(&self) -> (n: usize)
        ensures
            n == self@.len(),
    {
        self.items.len()
    }

    pub fn contains(&self, x: &String) -> (b: bool)
        ensures
            b == self@.contains(x@),
    {
        find_account(&self.items, x).is_some()
    }

    pub fn get(&self, i: usize) -> (x: String)
        requires
            i < self@.len(),
        ensures
            x@ == self@[i as int],
    {
        self.items[i].clone()
    }

    /// Adds `x` at the end unless it is already present; returns whether it was added.
    pub fn insert(&mut self, x: String) -> (added: bool)
        requires
            old(self).wf(),
        ensures
            final(self).wf(),
            added == !old(self)@.contains(x@),
            added ==> final(self)@ == old(self)@.push(x@),
            !added ==> final(self)@ == old(self)@,
    {
        if find_account(&self.items, &x).is_some() {
            false
        } else {
            let ghost xv = x@;
            self.items.push(x);
            proof {
                let s = self@;
                assert(s =~= old(self)@.push(xv));
                assert forall|i: int, j: int|
                    0 <= i < s.len() && 0 <= j < s.len() && i != j implies s[i] != s[j] by {
                    if i < s.len() - 1 && j < s.len() - 1 {
                        assert(old(self)@[i] == s[i] && old(self)@[j] == s[j]);
                    } else if i == s.len() - 1 {
                        assert(old(self)@[j] == s[j]);
                    } else {
                        assert(old(self)@[i] == s[i]);
                    }
                }
            }
            true
        }
    }

    /// Removes `x` (moving the last element into its slot); returns whether it was present.
    pub fn remove(&mut self, x: &String) -> (removed: bool)
        requires
            old(self).wf(),
        ensures
            final(self).wf(),
            removed == old(self)@.contains(x@),
            removed ==> final(self)@ == seq_swap_remove(old(self)@, old(self)@.index_of(x@)),
            !removed ==> final(self)@ == old(self)@,
            forall|y: Seq<char>| #[trigger] final(self)@.contains(y) <==> (old(self)@.contains(y) && y != x@),
    {
        match find_account(&self.items, x) {
            None => false,
            Some(i) => {
                proof {
                    lemma_index_of_unique(self@, i as int);
                    lemma_swap_remove(self@, i as int);
                }
                let ghost before = self@;
                self.items.swap_remove(i);
                assert(self@ =~= seq_swap_remove(before, i as int));
                true
            },
        }
    }

    pub fn clear(&mut self)
        ensures
            final(self).wf(),
            final(self)@ == Seq::<Seq<char>>::empty(),
    {
        self.items.clear();
        assert(self@ =~= Seq::<Seq<char>>::empty());
    }

    /// A copy of the set.
    pub fn copy(&self) -> (r: AccountSet)
        ensures
            r@ == self@,
    {
        let r = AccountSet { items: self.items.clone() };
        assert(r@ =~= self@);
        r
    }

    /// Inserts each account of `xs`.
    pub fn insert_all(&mut self, xs: &Vec<String>)
        requires
            old(self).wf(),
        ensures
            final(self).wf(),
            forall|a: Seq<char>| #[trigger] final(self)@.contains(a) <==> (old(self)@.contains(a)
                || xs@.map_values(|s: String| s@).contains(a)),
    {
        let ghost before = self@;
        let ghost added = xs@.map_values(|s: String| s@);
        let mut i: usize = 0;
        while i < xs.len()
            invariant
                self.wf(),
                i <= xs@.len(),
                added == xs@.map_values(|s: String| s@),
                forall|a: Seq<char>| #[trigger] self@.contains(a) <==> (before.contains(a) || added.subrange(0, i as int).contains(a)),
            decreases xs@.len() - i,
        {
            let a = xs[i].clone();
            assert(a@ == added[i as int]);
            let ghost prev = self@;
            self.insert(a);
            assert(forall|x: Seq<char>| #[trigger] self@.contains(x) <==> (prev.contains(x) || x == added[i as int])) by {
                broadcast use vstd::seq_lib::group_seq_properties;
            }
            proof {
                crate::util::lemma_prefix_contains(added, i as int);
            }
            i += 1;
        }
        assert(added.subrange(0, xs@.len() as int) =~= added);
    }

    /// Removes each account of `xs`.
    pub fn remove_all(&mut self, xs: &Vec<String>)
        requires
            old(self).wf(),
        ensures
            final(self).wf(),
            forall|a: Seq<char>| #[trigger] final(self)@.contains(a) <==> (old(self)@.contains(a)
                && !xs@.map_values(|s: String| s@).contains(a)),
    {
        let ghost before = self@;
        let ghost removed = xs@.map_values(|s: String| s@);
        let mut i: usize = 0;
        while i < xs.len()
            invariant
                self.wf(),
                i <= xs@.len(),
                removed == xs@.map_values(|s: String| s@),
                forall|a: Seq<char>| #[trigger] self@.contains(a) <==> (before.contains(a) && !removed.subrange(0, i as int).contains(a)),
            decreases xs@.len() - i,
        {
            assert(xs@[i as int]@ == removed[i as int]);
            self.remove(&xs[i]);
            proof {
                crate::util::lemma_prefix_contains(removed, i as int);
            }
            i += 1;
        }
        assert(removed.subrange(0, xs@.len() as int) =~= removed);
    }

    /// The set of the accounts of `xs`.
    pub fn from_vec(xs: &Vec<String>) -> (s: Self)
        ensures
            s.wf(),
            forall|a: Seq<char>| #[trigger] s@.contains(a) <==> xs@.map_values(|x: String| x@).contains(a),
    {
        let mut s = AccountSet::new();
        s.insert_all(xs);
        s
    }

    pub fn to_vec(&self) -> (v: Vec<String>)
        ensures
            v@.map_values(|s: String| s@) == self@,
    {
        let v = self.items.clone();
        assert(v@.map_values(|s: String| s@) =~= self@);
        v
    }
}


/// A map from numeric IDs to values that iterates in key-insertion order.
pub struct IdMap<V> {
    keys: Vec<u64>,
    vals: Vec<V>,
}

impl<V> View for IdMap<V> {
    type V = Map<u64, V>;

    closed spec fn view(&self) -> Map<u64, V> {
        Map::new(|k: u64| self.keys@.contains(k), |k: u64| self.vals@[self.keys@.index_of(k)])
    }
}

impl<V> IdMap<V> {
    /// Keys in iteration order.
    pub closed spec fn order(&self) -> Seq<u64> {
        self.keys@
    }

    pub closed spec fn wf(&self) -> bool {
        &&& self.keys@.len() == self.vals@.len()
        &&& self.keys@.no_duplicates()
    }

    /// The keys in iteration order are exactly the domain, without repetition.
    pub proof fn lemma_wf(&self)
        requires
            self.wf(),
        ensures
            self.order().no_duplicates(),
            forall|k: u64| #[trigger] self@.contains_key(k) <==> self.order().contains(k),
            self@.dom().finite(),
            self@.len() == self.order().len(),
    {
        let d = self.keys@.to_set();
        assert(self@.dom() =~= d);
        self.keys@.unique_seq_to_set();
    }

    proof fn lemma_value_at(&self, i: int)
        requires
            self.wf(),
            0 <= i < self.keys@.len(),
        ensures
            self@.contains_key(self.keys@[i]),
            self@[self.keys@[i]] == self.vals@[i],
    {
        lemma_index_of_unique(self.keys@, i);
    }

    pub fn new() -> (m: Self)
        ensures
            m.wf(),
            m@ == Map::<u64, V>::empty(),
            m.order() == Seq::<u64>::empty(),
    {
        let m = IdMap { keys: Vec::new(), vals: Vec::new() };
        assert(m@ =~= Map::<u64, V>::empty());
        m
    }

    pub fn len(&self) -> (n: usize)
        requires
            self.wf(),
        ensures
            n == self.order().len(),
    {
        self.keys.len()
    }

    pub fn contains_key(&self, k: u64) -> (b: bool)
        ensures
            b == self@.contains_key(k),
    {
        find_id(&self.keys, k).is_some()
    }

    pub fn get(&self, k: u64) -> (r: Option<&V>)
        requires
            self.wf(),
        ensures
            r is Some <==> self@.contains_key(k),
            r matches Some(v) ==> *v == self@[k],
    {
        match find_id(&self.keys, k) {
            None => None,
            Some(i) => {
                proof {
                    self.lemma_value_at(i as int);
                }
                Some(&self.vals[i])
            },
        }
    }

    /// The keys, in iteration order.
    pub fn keys_vec(&self) -> (v: Vec<u64>)
        ensures
            v@ == self.order(),
    {
        self.keys.clone()
    }

    pub fn key_at(&self, i: usize) -> (k: u64)
        requires
            self.wf(),
            i < self.order().len(),
        ensures
            k == self.order()[i as int],
            self@.contains_key(k),
    {
        proof {
            self.lemma_value_at(i as int);
        }
        self.keys[i]
    }

    pub fn value_at(&self, i: usize) -> (v: &V)
        requires
            self.wf(),
            i < self.order().len(),
        ensures
            *v == self@[self.order()[i as int]],
    {
        proof {
            self.lemma_value_at(i as int);
        }
        &self.vals[i]
    }

    /// Sets the value of `k`; a new key goes to the end of the iteration order.
    pub fn insert(&mut self, k: u64, v: V)
        requires
            old(self).wf(),
        ensures
            final(self).wf(),
            final(self)@ == old(self)@.insert(k, v),
            old(self)@.contains_key(k) ==> final(self).order() == old(self).order(),
            !old(self)@.contains_key(k) ==> final(self).order() == old(self).order().push(k),
    {
        let ghost old_self = *self;
        match find_id(&self.keys, k) {
            Some(i) => {
                let mut v = v;
                std::mem::swap(&mut self.vals[i], &mut v);
                proof {
                    lemma_index_of_unique(self.keys@, i as int);
                    assert forall|k2: u64| #![auto] self@.contains_key(k2) implies self@[k2] == old_self@.insert(k, self.vals@[i as int])[k2] by {
                        let j = self.keys@.index_of(k2);
                        assert(self.keys@[j] == k2);
                        lemma_index_of_unique(self.keys@, j);
                    }
                    assert(self@ =~= old_self@.insert(k, self.vals@[i as int]));
                }
            },
            None => {
                self.keys.push(k);
                self.vals.push(v);
                proof {
                    let s = self.keys@;
                    assert forall|a: int, b: int|
                        0 <= a < s.len() && 0 <= b < s.len() && a != b implies s[a] != s[b] by {
                        if a < s.len() - 1 && b < s.len() - 1 {
                            assert(old_self.keys@[a] == s[a] && old_self.keys@[b] == s[b]);
                        } else if a == s.len() - 1 {
                            assert(old_self.keys@[b] == s[b]);
                        } else {
                            assert(old_self.keys@[a] == s[a]);
                        }
                    }
                    assert forall|k2: u64| self@.contains_key(k2) <==> old_self@.insert(k, v)
                        .contains_key(k2) by {
                        if old_self.keys@.contains(k2) {
                            let j = choose|j: int| 0 <= j < old_self.keys@.len() && old_self.keys@[j] == k2;
                            assert(s[j] == k2);
                        }
                        if s.contains(k2) && k2 != k {
                            let j = choose|j: int| 0 <= j < s.len() && s[j] == k2;
                            assert(j != s.len() - 1);
                            assert(old_self.keys@[j] == k2);
                        }
                        assert(s[s.len() - 1] == k);
                    }
                    assert forall|k2: u64| #![auto] self@.contains_key(k2) implies self@[k2] == old_self@.insert(k, v)[k2] by {
                        let j = s.index_of(k2);
                        assert(s[j] == k2);
                        lemma_index_of_unique(s, j);
                        if j < s.len() - 1 {
                            assert(old_self.keys@[j] == k2);
                            lemma_index_of_unique(old_self.keys@, j);
                        }
                    }
                    assert(self@ =~= old_self@.insert(k, v));
                }
            },
        }
    }

    /// Removes `k` (moving the last key into its slot) and returns its value.
    pub fn remove(&mut self, k: u64) -> (r: Option<V>)
        requires
            old(self).wf(),
        ensures
            final(self).wf(),
            final(self)@ == old(self)@.remove(k),
            r is Some <==> old(self)@.contains_key(k),
            r matches Some(v) ==> v == old(self)@[k],
            old(self)@.contains_key(k) ==> final(self).order() == seq_swap_remove(
                old(self).order(),
                old(self).order().index_of(k),
            ),
            !old(self)@.contains_key(k) ==> final(self).order() == old(self).order(),
    {
        let ghost old_self = *self;
        match find_id(&self.keys, k) {
            None => {
                assert(self@ =~= old_self@.remove(k));
                None
            },
            Some(i) => {
                proof {
                    old_self.lemma_value_at(i as int);
                    lemma_index_of_unique(old_self.keys@, i as int);
                    lemma_swap_remove(old_self.keys@, i as int);
                }
                self.keys.swap_remove(i);
                let v = self.vals.swap_remove(i);
                proof {
                    let s = self.keys@;
                    let n = old_self.keys@.len();
                    assert(self.vals@ == seq_swap_remove(old_self.vals@, i as int));
                    assert forall|k2: u64| #![auto] self@.contains_key(k2) implies self@[k2] == old_self@.remove(k)[k2] by {
                        let j = s.index_of(k2);
                        assert(s[j] == k2);
                        lemma_index_of_unique(s, j);
                        if j == i {
                            assert(old_self.keys@[n - 1] == k2);
                            lemma_index_of_unique(old_self.keys@, n - 1);
                        } else {
                            assert(old_self.keys@[j] == k2);
                            lemma_index_of_unique(old_self.keys@, j);
                        }
                    }
                    assert(self@ =~= old_self@.remove(k));
                }
                Some(v)
            },
        }
    }
}

/// A map from account IDs to values that iterates in key-insertion order.
pub struct AccountMap<V> {
    keys: Vec<String>,
    vals: Vec<V>,
}

impl<V> View for AccountMap<V> {
    type V = Map<Seq<char>, V>;

    closed spec fn view(&self) -> Map<Seq<char>, V> {
        Map::new(|k: Seq<char>| self.kv().contains(k), |k: Seq<char>| self.vals@[self.kv().index_of(k)])
    }
}

impl<V> AccountMap<V> {
    closed spec fn kv(&self) -> Seq<Seq<char>> {
        self.keys@.map_values(|s: String| s@)
    }

    /// Keys in iteration order.
    pub closed spec fn order(&self) -> Seq<Seq<char>> {
        self.kv()
    }

    pub closed spec fn wf(&self) -> bool {
        &&& self.keys@.len() == self.vals@.len()
        &&& self.kv().no_duplicates()
    }

    /// The keys in iteration order are exactly the domain, without repetition.
    pub proof fn lemma_wf(&self)
        requires
            self.wf(),
        ensures
            self.order().no_duplicates(),
            forall|k: Seq<char>| #[trigger] self@.contains_key(k) <==> self.order().contains(k),
            self@.dom().finite(),
            self@.len() == self.order().len(),
    {
        let d = self.kv().to_set();
        assert(self@.dom() =~= d);
        self.kv().unique_seq_to_set();
    }

    proof fn lemma_value_at(&self, i: int)
        requires
            self.wf(),
            0 <= i < self.kv().len(),
        ensures
            self@.contains_key(self.kv()[i]),
            self@[self.kv()[i]] == self.vals@[i],
    {
        lemma_index_of_unique(self.kv(), i);
    }

    pub fn new() -> (m: Self)
        ensures
            m.wf(),
            m@ == Map::<Seq<char>, V>::empty(),
            m.order() == Seq::<Seq<char>>::empty(),
    {
        let m = AccountMap { keys: Vec::new(), vals: Vec::new() };
        assert(m@ =~= Map::<Seq<char>, V>::empty());
        m
    }

    pub fn len(&self) -> (n: usize)
        requires
            self.wf(),
        ensures
            n == self.order().len(),
    {
        self.keys.len()
    }

    pub fn contains_key(&self, k: &String) -> (b: bool)
        ensures
            b == self@.contains_key(k@),
    {
        find_account(&self.keys, k).is_some()
    }

    pub fn get(&self, k: &String) -> (r: Option<&V>)
        requires
            self.wf(),
        ensures
            r is Some <==> self@.contains_key(k@),
            r matches Some(v) ==> *v == self@[k@],
    {
        match find_account(&self.keys, k) {
            None => None,
            Some(i) => {
                proof {
                    self.lemma_value_at(i as int);
                }
                Some(&self.vals[i])
            },
        }
    }

    pub fn key_at(&self, i: usize) -> (k: String)
        requires
            self.wf(),
            i < self.order().len(),
        ensures
            k@ == self.order()[i as int],
            self@.contains_key(k@),
    {
        proof {
            self.lemma_value_at(i as int);
        }
        self.keys[i].clone()
    }

    pub fn value_at(&self, i: usize) -> (v: &V)
        requires
            self.wf(),
            i < self.order().len(),
        ensures
            *v == self@[self.order()[i as int]],
    {
        proof {
            self.lemma_value_at(i as int);
        }
        &self.vals[i]
    }

    /// Sets the value of `k`; a new key goes to the end of the iteration order.
    pub fn insert(&mut self, key: String, v: V)
        requires
            old(self).wf(),
        ensures
            final(self).wf(),
            final(self)@ == old(self)@.insert(key@, v),
            old(self)@.contains_key(key@) ==> final(self).order() == old(self).order(),
            !old(self)@.contains_key(key@) ==> final(self).order() == old(self).order().push(key@),
    {
        let ghost old_self = *self;
        let ghost k = key@;
        match find_account(&self.keys, &key) {
            Some(i) => {
                let mut v = v;
                std::mem::swap(&mut self.vals[i], &mut v);
                proof {
                    lemma_index_of_unique(self.kv(), i as int);
                    assert forall|k2: Seq<char>| #![auto] self@.contains_key(k2) implies self@[k2] == old_self@.insert(k, self.vals@[i as int])[k2] by {
                        let j = self.kv().index_of(k2);
                        assert(self.kv()[j] == k2);
                        lemma_index_of_unique(self.kv(), j);
                    }
                    assert(self@ =~= old_self@.insert(k, self.vals@[i as int]));
                }
            },
            None => {
                self.keys.push(key);
                self.vals.push(v);
                proof {
                    let s = self.kv();
                    assert(s =~= old_self.kv().push(k));
                    assert forall|a: int, b: int|
                        0 <= a < s.len() && 0 <= b < s.len() && a != b implies s[a] != s[b] by {
                        if a < s.len() - 1 && b < s.len() - 1 {
                            assert(old_self.kv()[a] == s[a] && old_self.kv()[b] == s[b]);
                        } else if a == s.len() - 1 {
                            assert(old_self.kv()[b] == s[b]);
                        } else {
                            assert(old_self.kv()[a] == s[a]);
                        }
                    }
                    assert forall|k2: Seq<char>| self@.contains_key(k2) <==> old_self@.insert(k, v)
                        .contains_key(k2) by {
                        if old_self.kv().contains(k2) {
                            let j = choose|j: int| 0 <= j < old_self.kv().len() && old_self.kv()[j] == k2;
                            assert(s[j] == k2);
                        }
                        if s.contains(k2) && k2 != k {
                            let j = choose|j: int| 0 <= j < s.len() && s[j] == k2;
                            assert(j != s.len() - 1);
                            assert(old_self.kv()[j] == k2);
                        }
                        assert(s[s.len() - 1] == k);
                    }
                    assert forall|k2: Seq<char>| #![auto] self@.contains_key(k2) implies self@[k2] == old_self@.insert(k, v)[k2] by {
                        let j = s.index_of(k2);
                        assert(s[j] == k2);
                        lemma_index_of_unique(s, j);
                        if j < s.len() - 1 {
                            assert(old_self.kv()[j] == k2);
                            lemma_index_of_unique(old_self.kv(), j);
                        }
                    }
                    assert(self@ =~= old_self@.insert(k, v));
                }
            },
        }
    }

    /// Removes `k` (moving the last key into its slot) and returns its value.
    pub fn remove(&mut self, key: &String) -> (r: Option<V>)
        requires
            old(self).wf(),
        ensures
            final(self).wf(),
            final(self)@ == old(self)@.remove(key@),
            r is Some <==> old(self)@.contains_key(key@),
            r matches Some(v) ==> v == old(self)@[key@],
            old(self)@.contains_key(key@) ==> final(self).order() == seq_swap_remove(
                old(self).order(),
                old(self).order().index_of(key@),
            ),
            !old(self)@.contains_key(key@) ==> final(self).order() == old(self).order(),
    {
        let ghost old_self = *self;
        let ghost k = key@;
        match find_account(&self.keys, key) {
            None => {
                assert(self@ =~= old_self@.remove(k));
                None
            },
            Some(i) => {
                proof {
                    old_self.lemma_value_at(i as int);
                    lemma_index_of_unique(old_self.kv(), i as int);
                    lemma_swap_remove(old_self.kv(), i as int);
                }
                self.keys.swap_remove(i);
                let v = self.vals.swap_remove(i);
                proof {
                    let s = self.kv();
                    assert(s =~= seq_swap_remove(old_self.kv(), i as int));
                    let n = old_self.kv().len();
                    assert(self.vals@ == seq_swap_remove(old_self.vals@, i as int));
                    assert forall|k2: Seq<char>| #![auto] self@.contains_key(k2) implies self@[k2] == old_self@.remove(k)[k2] by {
                        let j = s.index_of(k2);
                        assert(s[j] == k2);
                        lemma_index_of_unique(s, j);
                        if j == i {
                            assert(old_self.kv()[n - 1] == k2);
                            lemma_index_of_unique(old_self.kv(), n - 1);
                        } else {
                            assert(old_self.kv()[j] == k2);
                            lemma_index_of_unique(old_self.kv(), j);
                        }
                    }
                    assert(self@ =~= old_self@.remove(k));
                }
                Some(v)
            },
        }
    }
}


} // verus!
