//! An ordered map from string keys to values: the model of a `BTreeMap<String, V>`.
//! Entries are kept sorted by key (the order `String`'s `Ord` gives, which is
//! code-point lexicographic order), so walking the map visits keys in that order.

use vstd::prelude::*;
use crate::text::{chars_of, owned};

verus! {

/// Code-point lexicographic "less than" on character sequences. For `String`s this
/// coincides with their byte-wise UTF-8 order.
pub open spec fn lex_lt(a: Seq<char>, b: Seq<char>) -> bool
    decreases a.len(),
{
    if a.len() == 0 {
        b.len() > 0
    } else if b.len() == 0 {
        false
    } else if a[0] == b[0] {
        lex_lt(a.drop_first(), b.drop_first())
    } else {
        a[0] < b[0]
    }
}

pub proof fn lemma_lex_irreflexive(a: Seq<char>)
    ensures
        !lex_lt(a, a),
    decreases a.len(),
{
    if a.len() > 0 {
        lemma_lex_irreflexive(a.drop_first());
    }
}

pub proof fn lemma_lex_total(a: Seq<char>, b: Seq<char>)
    ensures
        a == b || lex_lt(a, b) || lex_lt(b, a),
    decreases a.len(),
{
    if a.len() > 0 && b.len() > 0 {
        if a[0] == b[0] {
            lemma_lex_total(a.drop_first(), b.drop_first());
            if a.drop_first() == b.drop_first() {
                assert(a =~= seq![a[0]] + a.drop_first());
                assert(b =~= seq![b[0]] + b.drop_first());
            }
        } else {
        }
    } else if a.len() == 0 && b.len() == 0 {
        assert(a =~= b);
    }
}

pub proof fn lemma_lex_asym(a: Seq<char>, b: Seq<char>)
    ensures
        lex_lt(a, b) ==> !lex_lt(b, a),
    decreases a.len(),
{
    if a.len() > 0 && b.len() > 0 && a[0] == b[0] {
        lemma_lex_asym(a.drop_first(), b.drop_first());
    }
}

pub proof fn lemma_lex_trans(a: Seq<char>, b: Seq<char>, c: Seq<char>)
    requires
        lex_lt(a, b),
        lex_lt(b, c),
    ensures
        lex_lt(a, c),
    decreases a.len(),
{
    if a.len() > 0 && b.len() > 0 && c.len() > 0 {
        if a[0] == b[0] && b[0] == c[0] {
            lemma_lex_trans(a.drop_first(), b.drop_first(), c.drop_first());
        }
    }
}

/// The result of comparing two keys.
#[derive(PartialEq, Eq, Structural, Debug, Clone, Copy)]
pub enum KeyOrder {
    Less,
    Equal,
    Greater,
}

/// Compares two keys in code-point lexicographic order.
pub fn key_order(a: &[char], b: &[char]) -> (r: KeyOrder)
    ensures
        r == KeyOrder::Less <==> lex_lt(a@, b@),
        r == KeyOrder::Equal <==> a@ == b@,
        r == KeyOrder::Greater <==> lex_lt(b@, a@),
{
    let mut i: usize = 0;
    assert(a@.skip(0) =~= a@);
    assert(b@.skip(0) =~= b@);
    while i < a.len() && i < b.len()
        invariant
            i <= a@.len(),
            i <= b@.len(),
            a@.take(i as int) == b@.take(i as int),
            lex_lt(a@, b@) == lex_lt(a@.skip(i as int), b@.skip(i as int)),
            lex_lt(b@, a@) == lex_lt(b@.skip(i as int), a@.skip(i as int)),
        decreases a@.len() - i,
    {
        if a[i] != b[i] {
            proof {
                lemma_lex_asym(a@, b@);
                assert(a@.skip(i as int)[0] == a@[i as int]);
                assert(b@.skip(i as int)[0] == b@[i as int]);
                if a@ == b@ {
                    assert(a@[i as int] == b@[i as int]);
                }
            }
            if a[i] < b[i] {
                return KeyOrder::Less;
            } else {
                return KeyOrder::Greater;
            }
        }
        proof {
            assert(a@.skip(i as int).drop_first() =~= a@.skip(i + 1));
            assert(b@.skip(i as int).drop_first() =~= b@.skip(i + 1));
            assert(a@.take(i + 1) =~= a@.take(i as int).push(a@[i as int]));
            assert(b@.take(i + 1) =~= b@.take(i as int).push(b@[i as int]));
        }
        i += 1;
    }
    proof {
        if i == a.len() {
            assert(a@.take(i as int) =~= a@);
        }
        if i == b.len() {
            assert(b@.take(i as int) =~= b@);
        }
        if a@ == b@ {
            assert(a@.skip(i as int).len() == 0);
        }
    }
    if a.len() == b.len() {
        proof {
            assert(a@ =~= a@.take(i as int));
            assert(b@ =~= b@.take(i as int));
            lemma_lex_irreflexive(a@);
        }
        KeyOrder::Equal
    } else if a.len() < b.len() {
        proof {
            if a@ == b@ {
                assert(false);
            }
        }
        KeyOrder::Less
    } else {
        proof {
            if a@ == b@ {
                assert(false);
            }
        }
        KeyOrder::Greater
    }
}


/// Types whose copies are provably equal to the value they copy.
pub trait Duplicate: Sized {
    fn duplicate(&self) -> (r: Self)
        ensures
            r == *self,
    ;
}

impl Duplicate for String {
    fn duplicate(&self) -> (r: Self) {
        self.clone()
    }
}

/// The value stored under `k` in the entry list `ps`, the first match winning.
pub open spec fn lookup<V>(ps: Seq<(String, V)>, k: Seq<char>) -> Option<V>
    decreases ps.len(),
{
    if ps.len() == 0 {
        None
    } else if ps[0].0@ == k {
        Some(ps[0].1)
    } else {
        lookup(ps.drop_first(), k)
    }
}

/// Entry lists whose keys are strictly increasing.
pub open spec fn sorted_keys<V>(ps: Seq<(String, V)>) -> bool {
    forall|i: int, j: int| 0 <= i < j < ps.len() ==> lex_lt(#[trigger] ps[i].0@, #[trigger] ps[j].0@)
}

/// `ps` with `k` bound to `v`: an existing entry for `k` is replaced in place,
/// otherwise the entry goes where the key order puts it.
pub open spec fn insert_entry<V>(ps: Seq<(String, V)>, k: String, v: V) -> Seq<(String, V)>
    decreases ps.len(),
{
    if ps.len() == 0 {
        seq![(k, v)]
    } else if ps[0].0@ == k@ {
        seq![(k, v)] + ps.drop_first()
    } else if lex_lt(k@, ps[0].0@) {
        seq![(k, v)] + ps
    } else {
        seq![ps[0]] + insert_entry(ps.drop_first(), k, v)
    }
}

/// Inserting every entry of `over`, in order, into `ps`.
pub open spec fn insert_all<V>(ps: Seq<(String, V)>, over: Seq<(String, V)>) -> Seq<(String, V)>
    decreases over.len(),
{
    if over.len() == 0 {
        ps
    } else {
        insert_all(insert_entry(ps, over[0].0, over[0].1), over.drop_first())
    }
}

pub proof fn lemma_lookup_index<V>(ps: Seq<(String, V)>, k: Seq<char>, i: int)
    requires
        sorted_keys(ps),
        0 <= i < ps.len(),
        ps[i].0@ == k,
    ensures
        lookup(ps, k) == Some(ps[i].1),
    decreases ps.len(),
{
    if i > 0 {
        assert(lex_lt(ps[0].0@, ps[i].0@));
        lemma_lex_irreflexive(k);
        assert(sorted_keys(ps.drop_first())) by {
            assert forall|a: int, b: int| 0 <= a < b < ps.drop_first().len() implies lex_lt(
                #[trigger] ps.drop_first()[a].0@,
                #[trigger] ps.drop_first()[b].0@,
            ) by {
                assert(ps.drop_first()[a] == ps[a + 1]);
                assert(ps.drop_first()[b] == ps[b + 1]);
            }
        }
        lemma_lookup_index(ps.drop_first(), k, i - 1);
    }
}

pub proof fn lemma_lookup_absent<V>(ps: Seq<(String, V)>, k: Seq<char>)
    requires
        forall|i: int| 0 <= i < ps.len() ==> #[trigger] ps[i].0@ != k,
    ensures
        lookup(ps, k) is None,
    decreases ps.len(),
{
    if ps.len() > 0 {
        assert(ps[0].0@ != k);
        assert forall|i: int| 0 <= i < ps.drop_first().len() implies #[trigger] ps.drop_first()[i].0@
            != k by {
            assert(ps.drop_first()[i] == ps[i + 1]);
        }
        lemma_lookup_absent(ps.drop_first(), k);
    }
}

/// Keys of `insert_entry(ps, k, v)` are those of `ps` plus `k`, and sortedness is kept.
pub proof fn lemma_insert_entry<V>(ps: Seq<(String, V)>, k: String, v: V)
    requires
        sorted_keys(ps),
    ensures
        sorted_keys(insert_entry(ps, k, v)),
        lookup(insert_entry(ps, k, v), k@) == Some(v),
        forall|q: Seq<char>| q != k@ ==> lookup(#[trigger] insert_entry(ps, k, v), q) == lookup(ps, q),
        forall|i: int| 0 <= i < insert_entry(ps, k, v).len() ==> (#[trigger] insert_entry(ps, k, v)[i].0@ == k@
            || exists|j: int| 0 <= j < ps.len() && ps[j].0@ == insert_entry(ps, k, v)[i].0@),
    decreases ps.len(),
{
    let r = insert_entry(ps, k, v);
    let tail = ps.drop_first();
    if ps.len() > 0 {
        assert(sorted_keys(tail)) by {
            assert forall|a: int, b: int| 0 <= a < b < tail.len() implies lex_lt(
                #[trigger] tail[a].0@,
                #[trigger] tail[b].0@,
            ) by {
                assert(tail[a] == ps[a + 1]);
                assert(tail[b] == ps[b + 1]);
            }
        }
    }
    if ps.len() == 0 {
        assert(sorted_keys(r));
        assert forall|q: Seq<char>| q != k@ implies lookup(#[trigger] insert_entry(ps, k, v), q)
            == lookup(ps, q) by {
            assert(r.drop_first() =~= Seq::<(String, V)>::empty());
            assert(lookup(r.drop_first(), q) is None);
            assert(r[0].0@ == k@);
        }
    } else if ps[0].0@ == k@ {
        assert forall|a: int, b: int| 0 <= a < b < r.len() implies lex_lt(
            #[trigger] r[a].0@,
            #[trigger] r[b].0@,
        ) by {
            if a == 0 {
                assert(r[b] == ps[b]);
                assert(lex_lt(ps[0].0@, ps[b].0@));
            } else {
                assert(r[a] == ps[a]);
                assert(r[b] == ps[b]);
            }
        }
        assert forall|q: Seq<char>| q != k@ implies lookup(#[trigger] insert_entry(ps, k, v), q)
            == lookup(ps, q) by {
            assert(r.drop_first() =~= tail);
            assert(r[0].0@ == k@);
        }
        assert forall|i: int| 0 <= i < r.len() implies (#[trigger] r[i].0@ == k@ || exists|j: int|
            0 <= j < ps.len() && ps[j].0@ == r[i].0@) by {
            if i > 0 {
                assert(r[i] == ps[i]);
            }
        }
    } else if lex_lt(k@, ps[0].0@) {
        assert forall|a: int, b: int| 0 <= a < b < r.len() implies lex_lt(
            #[trigger] r[a].0@,
            #[trigger] r[b].0@,
        ) by {
            if a == 0 {
                assert(r[b] == ps[b - 1]);
                if b > 1 {
                    assert(lex_lt(ps[0].0@, ps[b - 1].0@));
                    lemma_lex_trans(k@, ps[0].0@, ps[b - 1].0@);
                }
            } else {
                assert(r[a] == ps[a - 1]);
                assert(r[b] == ps[b - 1]);
            }
        }
        assert forall|q: Seq<char>| q != k@ implies lookup(#[trigger] insert_entry(ps, k, v), q)
            == lookup(ps, q) by {
            assert(r.drop_first() =~= ps);
            assert(r[0].0@ == k@);
        }
        assert forall|i: int| 0 <= i < r.len() implies (#[trigger] r[i].0@ == k@ || exists|j: int|
            0 <= j < ps.len() && ps[j].0@ == r[i].0@) by {
            if i > 0 {
                assert(r[i] == ps[i - 1]);
            }
        }
    } else {
        lemma_insert_entry(tail, k, v);
        let rt = insert_entry(tail, k, v);
        assert(r.drop_first() =~= rt);
        lemma_lex_total(k@, ps[0].0@);
        assert(lex_lt(ps[0].0@, k@));
        assert forall|a: int, b: int| 0 <= a < b < r.len() implies lex_lt(
            #[trigger] r[a].0@,
            #[trigger] r[b].0@,
        ) by {
            if a == 0 {
                assert(r[b] == rt[b - 1]);
                if rt[b - 1].0@ == k@ {
                } else {
                    let j = choose|j: int| 0 <= j < tail.len() && tail[j].0@ == rt[b - 1].0@;
                    assert(tail[j] == ps[j + 1]);
                    assert(lex_lt(ps[0].0@, ps[j + 1].0@));
                }
            } else {
                assert(r[a] == rt[a - 1]);
                assert(r[b] == rt[b - 1]);
            }
        }
        assert forall|i: int| 0 <= i < r.len() implies (#[trigger] r[i].0@ == k@ || exists|j: int|
            0 <= j < ps.len() && ps[j].0@ == r[i].0@) by {
            if i > 0 {
                assert(r[i] == rt[i - 1]);
                if rt[i - 1].0@ != k@ {
                    let j = choose|j: int| 0 <= j < tail.len() && tail[j].0@ == rt[i - 1].0@;
                    assert(tail[j] == ps[j + 1]);
                }
            } else {
                assert(r[0] == ps[0]);
            }
        }
        assert(lookup(r, k@) == lookup(rt, k@));
        assert forall|q: Seq<char>| q != k@ implies lookup(#[trigger] insert_entry(ps, k, v), q)
            == lookup(ps, q) by {
            assert(r.drop_first() =~= rt);
            assert(r[0] == ps[0]);
            assert(lookup(rt, q) == lookup(tail, q));
        }
    }
}

pub proof fn lemma_insert_all<V>(ps: Seq<(String, V)>, over: Seq<(String, V)>)
    requires
        sorted_keys(ps),
    ensures
        sorted_keys(insert_all(ps, over)),
    decreases over.len(),
{
    if over.len() > 0 {
        lemma_insert_entry(ps, over[0].0, over[0].1);
        lemma_insert_all(insert_entry(ps, over[0].0, over[0].1), over.drop_first());
    }
}

/// An ordered map from strings to values (the model of `BTreeMap<String, V>`).
#[derive(Debug, PartialEq)]
pub struct StrMap<V> {
    entries: Vec<(String, V)>,
}

impl<V> StrMap<V> {
    /// The entries, in key order.
    pub closed spec fn pairs(self) -> Seq<(String, V)> {
        self.entries@
    }

    /// The keys are strictly increasing (every map built by this API is so).
    #[verifier::type_invariant]
    pub open spec fn wf(self) -> bool {
        sorted_keys(self.pairs())
    }

    /// The value bound to key `k`.
    pub open spec fn get_spec(self, k: Seq<char>) -> Option<V> {
        lookup(self.pairs(), k)
    }

    pub fn new() -> (m: Self)
        ensures
            m.pairs() == Seq::<(String, V)>::empty(),
    {
        StrMap { entries: Vec::new() }
    }

    pub fn len(&self) -> (n: usize)
        ensures
            n == self.pairs().len(),
    {
        self.entries.len()
    }

    pub fn is_empty(&self) -> (b: bool)
        ensures
            b == (self.pairs().len() == 0),
    {
        self.entries.len() == 0
    }

    /// The `i`-th entry in key order.
    pub fn entry(&self, i: usize) -> (r: (&String, &V))
        requires
            i < self.pairs().len(),
        ensures
            *r.0 == self.pairs()[i as int].0,
            *r.1 == self.pairs()[i as int].1,
    {
        (&self.entries[i].0, &self.entries[i].1)
    }

    /// Position of `k` among the keys, or where it would go.
    fn search(&self, k: &[char]) -> (r: (usize, bool))
        ensures
            r.0 <= self.pairs().len(),
            forall|j: int| 0 <= j < r.0 ==> lex_lt(#[trigger] self.pairs()[j].0@, k@),
            r.1 ==> r.0 < self.pairs().len() && self.pairs()[r.0 as int].0@ == k@,
            !r.1 ==> r.0 == self.pairs().len() || lex_lt(k@, self.pairs()[r.0 as int].0@),
    {
        let mut i: usize = 0;
        while i < self.entries.len()
            invariant
                i <= self.entries@.len(),
                forall|j: int| 0 <= j < i ==> lex_lt(#[trigger] self.entries@[j].0@, k@),
            decreases self.entries@.len() - i,
        {
            let kc = chars_of(self.entries[i].0.as_str());
            match key_order(&kc, k) {
                KeyOrder::Less => {},
                KeyOrder::Equal => { return (i, true); },
                KeyOrder::Greater => { return (i, false); },
            }
            i += 1;
        }
        (i, false)
    }

    /// The value stored under `k`, if any.
    pub fn get(&self, k: &str) -> (r: Option<&V>)
        ensures
            r == match self.get_spec(k@) {
                Some(v) => Some(&v),
                None => None,
            },
    {
        proof { use_type_invariant(self); }
        let kc = chars_of(k);
        let (i, found) = self.search(&kc);
        if found {
            proof { lemma_lookup_index(self.entries@, k@, i as int); }
            Some(&self.entries[i].1)
        } else {
            proof {
                assert forall|j: int| 0 <= j < self.entries@.len() implies #[trigger] self.entries@[j].0@ != k@ by {
                    if j < i {
                        lemma_lex_irreflexive(k@);
                    } else if j > i {
                        assert(lex_lt(self.entries@[i as int].0@, self.entries@[j].0@));
                        lemma_lex_trans(k@, self.entries@[i as int].0@, self.entries@[j].0@);
                        lemma_lex_irreflexive(k@);
                    } else {
                        lemma_lex_irreflexive(k@);
                    }
                }
                lemma_lookup_absent(self.entries@, k@);
            }
            None
        }
    }

    pub fn contains_key(&self, k: &str) -> (b: bool)
        ensures
            b == self.get_spec(k@) is Some,
    {
        self.get(k).is_some()
    }

    /// Binds `k` to `v`, replacing the value of an existing entry for `k`.
    pub fn insert(&mut self, k: String, v: V)
        ensures
            final(self).pairs() == insert_entry(old(self).pairs(), k, v),
    {
        proof { use_type_invariant(&*self); }
        let kc = chars_of(k.as_str());
        let (i, found) = self.search(&kc);
        proof { lemma_insert_entry(self.entries@, k, v); }
        let ghost old_entries = self.entries@;
        proof { lemma_insert_at(old_entries, k, v, i as int, found); }
        let mut entries: Vec<(String, V)> = Vec::new();
        std::mem::swap(&mut entries, &mut self.entries);
        if found {
            entries.set(i, (k, v));
        } else {
            entries.insert(i, (k, v));
        }
        assert(entries@ =~= insert_entry(old_entries, k, v));
        self.entries = entries;
    }
}

/// `insert_entry` written as a splice at the searched position.
proof fn lemma_insert_at<V>(ps: Seq<(String, V)>, k: String, v: V, i: int, found: bool)
    requires
        sorted_keys(ps),
        0 <= i <= ps.len(),
        forall|j: int| 0 <= j < i ==> lex_lt(#[trigger] ps[j].0@, k@),
        found ==> i < ps.len() && ps[i].0@ == k@,
        !found ==> i == ps.len() || lex_lt(k@, ps[i].0@),
    ensures
        found ==> insert_entry(ps, k, v) =~= ps.update(i, (k, v)),
        !found ==> insert_entry(ps, k, v) =~= ps.insert(i, (k, v)),
    decreases ps.len(),
{
    if ps.len() == 0 {
    } else if i == 0 {
        if !found && ps[0].0@ == k@ {
            lemma_lex_irreflexive(k@);
        }
    } else {
        assert(lex_lt(ps[0].0@, k@));
        lemma_lex_irreflexive(k@);
        lemma_lex_asym(ps[0].0@, k@);
        let tail = ps.drop_first();
        assert(sorted_keys(tail)) by {
            assert forall|a: int, b: int| 0 <= a < b < tail.len() implies lex_lt(
                #[trigger] tail[a].0@,
                #[trigger] tail[b].0@,
            ) by {
                assert(tail[a] == ps[a + 1]);
                assert(tail[b] == ps[b + 1]);
            }
        }
        assert forall|j: int| 0 <= j < i - 1 implies lex_lt(#[trigger] tail[j].0@, k@) by {
            assert(tail[j] == ps[j + 1]);
        }
        lemma_insert_at(tail, k, v, i - 1, found);
    }
}

impl<V: Duplicate> StrMap<V> {
    /// An entry-for-entry copy.
    pub fn duplicate_map(&self) -> (r: Self)
        ensures
            r.pairs() == self.pairs(),
    {
        proof { use_type_invariant(self); }
        let mut out: Vec<(String, V)> = Vec::new();
        let mut i: usize = 0;
        while i < self.entries.len()
            invariant
                i <= self.entries@.len(),
                out@ == self.entries@.take(i as int),
            decreases self.entries@.len() - i,
        {
            out.push((self.entries[i].0.duplicate(), self.entries[i].1.duplicate()));
            i += 1;
            assert(out@ =~= self.entries@.take(i as int));
        }
        assert(self.entries@.take(i as int) =~= self.entries@);
        StrMap { entries: out }
    }

    /// Inserts every entry of `over`, in `over`'s key order (later bindings win).
    pub fn extend_from(&mut self, over: &StrMap<V>)
        ensures
            final(self).pairs() == insert_all(old(self).pairs(), over.pairs()),
    {
        let mut i: usize = 0;
        let ghost start = self.pairs();
        assert(over.pairs().skip(0) =~= over.pairs());
        while i < over.len()
            invariant
                i <= over.pairs().len(),
                insert_all(start, over.pairs()) == insert_all(self.pairs(), over.pairs().skip(i as int)),
            decreases over.pairs().len() - i,
        {
            let (k, v) = over.entry(i);
            let ghost before = self.pairs();
            self.insert(k.duplicate(), v.duplicate());
            assert(over.pairs().skip(i as int).drop_first() =~= over.pairs().skip(i + 1));
            i += 1;
        }
        assert(over.pairs().skip(i as int) =~= Seq::<(String, V)>::empty());
    }
}

impl<V: Clone> Clone for StrMap<V> {
    /// An entry-for-entry copy with the same keys (values are cloned).
    fn clone(&self) -> (r: Self)
        ensures
            r.pairs().len() == self.pairs().len(),
            forall|i: int| 0 <= i < r.pairs().len() ==> (#[trigger] r.pairs()[i]).0 == self.pairs()[i].0,
    {
        proof { use_type_invariant(self); }
        let mut out: Vec<(String, V)> = Vec::new();
        let mut i: usize = 0;
        while i < self.entries.len()
            invariant
                i <= self.entries@.len(),
                out@.len() == i,
                sorted_keys(self.entries@),
                forall|j: int| 0 <= j < i ==> (#[trigger] out@[j]).0 == self.entries@[j].0,
            decreases self.entries@.len() - i,
        {
            out.push((self.entries[i].0.clone(), self.entries[i].1.clone()));
            i += 1;
        }
        StrMap { entries: out }
    }
}

/// Inserting `x` after the entries `e` is inserting `e` and then `x`.
pub proof fn lemma_insert_all_push<V>(ps: Seq<(String, V)>, e: Seq<(String, V)>, x: (String, V))
    ensures
        insert_all(ps, e.push(x)) == insert_entry(insert_all(ps, e), x.0, x.1),
    decreases e.len(),
{
    if e.len() == 0 {
        assert(e.push(x).drop_first() =~= Seq::<(String, V)>::empty());
        assert(e.push(x)[0] == x);
        assert(insert_all(insert_entry(ps, x.0, x.1), Seq::<(String, V)>::empty()) == insert_entry(ps, x.0, x.1));
    } else {
        assert(e.push(x).drop_first() =~= e.drop_first().push(x));
        assert(e.push(x)[0] == e[0]);
        lemma_insert_all_push(insert_entry(ps, e[0].0, e[0].1), e.drop_first(), x);
    }
}

} // verus!
