//! A type unifier for key-value structures: a canonical ordered map from
//! dynamic values to dynamic values.
//!
//! Entries are kept sorted by the total order over keys, so two maps
//! built from the same entries in any insertion order are identical
//! values. Inserting an already-present key overwrites its value.

use vstd::prelude::*;
use crate::error::{Error, Shape};
use crate::order::{
    Cmp, cmp_val, cmp_value, lemma_cmp_val_eq, lemma_cmp_val_flip, lemma_cmp_val_refl,
    lemma_cmp_val_trans,
};
use crate::typing::{AnyValue, Val, model_entries, lemma_model_entries, lemma_model_entries_push};

verus! {

/// A type unifier for key-value structures.
#[derive(Debug, PartialEq, Eq)]
pub struct ValueMap {
    /// The entries, sorted strictly ascending by key under the total order
    pub entries: Vec<(AnyValue, AnyValue)>,
}

impl View for ValueMap {
    type V = Seq<(Val, Val)>;

    open spec fn view(&self) -> Seq<(Val, Val)> {
        model_entries(self.entries@)
    }
}

/// Keys of an entry sequence are strictly ascending under the total order.
pub open spec fn entries_sorted(s: Seq<(Val, Val)>) -> bool {
    forall|i: int, j: int| 0 <= i < j < s.len() ==> cmp_val(s[i].0, s[j].0) == Cmp::Lt
}

/// Where an insertion lands: the canonical entry sequence after binding
/// `key` to `value`, overwriting an equal key.
pub open spec fn spec_insert(s: Seq<(Val, Val)>, key: Val, value: Val) -> Seq<(Val, Val)>
    decreases s.len(),
{
    if s.len() == 0 {
        seq![(key, value)]
    } else {
        match cmp_val(key, s[0].0) {
            Cmp::Lt => seq![(key, value)] + s,
            Cmp::Eq => s.update(0, (key, value)),
            Cmp::Gt => seq![s[0]] + spec_insert(s.drop_first(), key, value),
        }
    }
}

/// The value bound to `key`, if any.
pub open spec fn spec_lookup(s: Seq<(Val, Val)>, key: Val) -> Option<Val>
    decreases s.len(),
{
    if s.len() == 0 {
        None
    } else if s[0].0 == key {
        Some(s[0].1)
    } else {
        spec_lookup(s.drop_first(), key)
    }
}

/// The canonical entry sequence that binding the entries of `s` one by
/// one, in order, produces.
pub open spec fn spec_from_entries(s: Seq<(Val, Val)>) -> Seq<(Val, Val)>
    decreases s.len(),
{
    if s.len() == 0 {
        Seq::empty()
    } else {
        spec_insert(spec_from_entries(s.drop_last()), s.last().0, s.last().1)
    }
}

/// An insertion leaves every prefix of strictly smaller keys in place.
proof fn lemma_spec_insert_unroll(s: Seq<(Val, Val)>, key: Val, value: Val, i: int)
    requires
        0 <= i <= s.len(),
        forall|j: int| 0 <= j < i ==> cmp_val(key, s[j].0) == Cmp::Gt,
    ensures
        spec_insert(s, key, value) == s.take(i) + spec_insert(s.skip(i), key, value),
    decreases i,
{
    if i == 0 {
        assert(s.skip(0) =~= s);
        assert(s.take(0) + spec_insert(s, key, value) =~= spec_insert(s, key, value));
    } else {
        lemma_spec_insert_unroll(s, key, value, i - 1);
        let rest = s.skip(i - 1);
        assert(rest[0] == s[i - 1]);
        assert(rest.drop_first() =~= s.skip(i));
        assert(spec_insert(rest, key, value) == seq![rest[0]] + spec_insert(
            s.skip(i),
            key,
            value,
        ));
        assert(s.take(i - 1) + (seq![s[i - 1]] + spec_insert(s.skip(i), key, value))
            =~= s.take(i) + spec_insert(s.skip(i), key, value));
    }
}

/// A lookup passes over every entry whose key is not the one sought.
proof fn lemma_spec_lookup_step(s: Seq<(Val, Val)>, key: Val, i: int)
    requires
        0 <= i < s.len(),
        s[i].0 != key,
        spec_lookup(s.skip(i), key) == spec_lookup(s, key),
    ensures
        spec_lookup(s.skip(i + 1), key) == spec_lookup(s, key),
{
    assert(s.skip(i)[0] == s[i]);
    assert(s.skip(i).drop_first() =~= s.skip(i + 1));
}

/// Dropping the first entry keeps the keys sorted.
proof fn lemma_sorted_drop_first(s: Seq<(Val, Val)>)
    requires
        entries_sorted(s),
        s.len() > 0,
    ensures
        entries_sorted(s.drop_first()),
{
    assert forall|i: int, j: int| 0 <= i < j < s.drop_first().len() implies cmp_val(
        s.drop_first()[i].0,
        s.drop_first()[j].0,
    ) == Cmp::Lt by {
        assert(s.drop_first()[i] == s[i + 1] && s.drop_first()[j] == s[j + 1]);
    }
}

/// A key below every key of a sorted entry sequence is bound nowhere in
/// it.
proof fn lemma_lookup_below(s: Seq<(Val, Val)>, key: Val)
    requires
        entries_sorted(s),
        s.len() > 0,
        cmp_val(key, s[0].0) == Cmp::Lt,
    ensures
        spec_lookup(s, key) is None,
    decreases s.len(),
{
    if s[0].0 == key {
        lemma_cmp_val_refl(key);
    }
    let rest = s.drop_first();
    if rest.len() > 0 {
        lemma_sorted_drop_first(s);
        assert(rest[0] == s[1]);
        assert(cmp_val(s[0].0, s[1].0) == Cmp::Lt);
        lemma_cmp_val_trans(key, s[0].0, s[1].0);
        lemma_lookup_below(rest, key);
    }
}

/// The value that the last entry of `s` carrying `key` binds, if any.
pub open spec fn spec_last_binding(s: Seq<(Val, Val)>, key: Val) -> Option<Val>
    decreases s.len(),
{
    if s.len() == 0 {
        None
    } else if s.last().0 == key {
        Some(s.last().1)
    } else {
        spec_last_binding(s.drop_last(), key)
    }
}

/// Binding a key keeps the entries sorted, and introduces no key beyond
/// the bound one.
proof fn lemma_spec_insert_sorted(s: Seq<(Val, Val)>, key: Val, value: Val)
    requires
        entries_sorted(s),
    ensures
        entries_sorted(spec_insert(s, key, value)),
        forall|m: int| 0 <= m < spec_insert(s, key, value).len()
            ==> #[trigger] spec_insert(s, key, value)[m].0 == key
            || exists|i: int| 0 <= i < s.len() && spec_insert(s, key, value)[m].0 == s[i].0,
    decreases s.len(),
{
    let w = spec_insert(s, key, value);
    if s.len() == 0 {
    } else {
        match cmp_val(key, s[0].0) {
            Cmp::Lt => {
                assert forall|p: int, q: int| 0 <= p < q < w.len() implies cmp_val(
                    w[p].0,
                    w[q].0,
                ) == Cmp::Lt by {
                    if p == 0 && q > 1 {
                        lemma_cmp_val_trans(key, s[0].0, s[q - 1].0);
                    }
                }
                assert forall|m: int| 0 <= m < w.len() implies #[trigger] w[m].0 == key
                    || exists|i: int| 0 <= i < s.len() && w[m].0 == s[i].0 by {
                    if m > 0 {
                        assert(w[m].0 == s[m - 1].0);
                    }
                }
            },
            Cmp::Eq => {
                lemma_cmp_val_eq(key, s[0].0);
                assert forall|m: int| 0 <= m < w.len() implies #[trigger] w[m].0 == key
                    || exists|i: int| 0 <= i < s.len() && w[m].0 == s[i].0 by {
                    if m > 0 {
                        assert(w[m].0 == s[m].0);
                    }
                }
            },
            Cmp::Gt => {
                lemma_cmp_val_flip(key, s[0].0);
                lemma_sorted_drop_first(s);
                lemma_spec_insert_sorted(s.drop_first(), key, value);
                let t = spec_insert(s.drop_first(), key, value);
                assert(w =~= seq![s[0]] + t);
                assert forall|p: int, q: int| 0 <= p < q < w.len() implies cmp_val(
                    w[p].0,
                    w[q].0,
                ) == Cmp::Lt by {
                    if p == 0 {
                        assert(t[q - 1].0 == key || exists|i: int| 0 <= i < s.drop_first().len()
                            && t[q - 1].0 == s.drop_first()[i].0);
                        if t[q - 1].0 != key {
                            let i = choose|i: int| 0 <= i < s.drop_first().len()
                                && t[q - 1].0 == s.drop_first()[i].0;
                            assert(s.drop_first()[i] == s[i + 1]);
                            assert(cmp_val(s[0].0, s[i + 1].0) == Cmp::Lt);
                        }
                    } else {
                        assert(w[p].0 == t[p - 1].0 && w[q].0 == t[q - 1].0);
                    }
                }
                assert forall|m: int| 0 <= m < w.len() implies #[trigger] w[m].0 == key
                    || exists|i: int| 0 <= i < s.len() && w[m].0 == s[i].0 by {
                    if m == 0 {
                        assert(w[0].0 == s[0].0);
                    } else {
                        assert(w[m].0 == t[m - 1].0);
                        if t[m - 1].0 != key {
                            let i = choose|i: int| 0 <= i < s.drop_first().len()
                                && t[m - 1].0 == s.drop_first()[i].0;
                            assert(w[m].0 == s[i + 1].0);
                        }
                    }
                }
            },
        }
    }
}

/// Binding entries one by one always yields a canonical map.
pub proof fn lemma_from_entries_sorted(s: Seq<(Val, Val)>)
    ensures
        entries_sorted(spec_from_entries(s)),
    decreases s.len(),
{
    if s.len() > 0 {
        lemma_from_entries_sorted(s.drop_last());
        lemma_spec_insert_sorted(spec_from_entries(s.drop_last()), s.last().0, s.last().1);
    }
}

/// Last write wins: what a key looks up in a map built from a list of
/// entries is exactly what the last entry carrying that key bound.
pub proof fn lemma_last_write_wins(s: Seq<(Val, Val)>, key: Val)
    ensures
        spec_lookup(spec_from_entries(s), key) == spec_last_binding(s, key),
    decreases s.len(),
{
    if s.len() == 0 {
    } else {
        let built = spec_from_entries(s.drop_last());
        lemma_from_entries_sorted(s.drop_last());
        if s.last().0 == key {
            lemma_insert_binds(built, key, s.last().1);
        } else {
            lemma_insert_keeps_others(built, s.last().0, s.last().1, key);
            lemma_last_write_wins(s.drop_last(), key);
        }
    }
}

/// Insertion order does not matter: two entry lists whose last bindings
/// agree on every key build the identical canonical map.
pub proof fn lemma_insertion_order_irrelevant(s1: Seq<(Val, Val)>, s2: Seq<(Val, Val)>)
    requires
        forall|key: Val| #[trigger] spec_last_binding(s1, key) == spec_last_binding(s2, key),
    ensures
        spec_from_entries(s1) == spec_from_entries(s2),
{
    lemma_from_entries_sorted(s1);
    lemma_from_entries_sorted(s2);
    assert forall|key: Val| #[trigger] spec_lookup(spec_from_entries(s1), key)
        == spec_lookup(spec_from_entries(s2), key) by {
        lemma_last_write_wins(s1, key);
        lemma_last_write_wins(s2, key);
    }
    lemma_canonical_unique(spec_from_entries(s1), spec_from_entries(s2));
}

/// Binding a key makes exactly that key look the bound value up.
pub proof fn lemma_insert_binds(s: Seq<(Val, Val)>, key: Val, value: Val)
    requires
        entries_sorted(s),
    ensures
        spec_lookup(spec_insert(s, key, value), key) == Some(value),
    decreases s.len(),
{
    if s.len() == 0 {
    } else {
        match cmp_val(key, s[0].0) {
            Cmp::Lt => {
                assert(spec_insert(s, key, value)[0] == (key, value));
            },
            Cmp::Eq => {
                assert(spec_insert(s, key, value)[0] == (key, value));
            },
            Cmp::Gt => {
                let inner = spec_insert(s.drop_first(), key, value);
                let whole = seq![s[0]] + inner;
                assert(whole[0] == s[0]);
                if s[0].0 == key {
                    lemma_cmp_val_refl(key);
                }
                assert(whole.drop_first() =~= inner);
                lemma_sorted_drop_first(s);
                lemma_insert_binds(s.drop_first(), key, value);
            },
        }
    }
}

/// Binding a key leaves what every other key looks up unchanged.
pub proof fn lemma_insert_keeps_others(s: Seq<(Val, Val)>, key: Val, value: Val, other: Val)
    requires
        entries_sorted(s),
        other != key,
    ensures
        spec_lookup(spec_insert(s, key, value), other) == spec_lookup(s, other),
    decreases s.len(),
{
    if s.len() == 0 {
        assert(spec_insert(s, key, value) == seq![(key, value)]);
        assert(seq![(key, value)].drop_first() =~= Seq::<(Val, Val)>::empty());
        assert(spec_lookup(Seq::<(Val, Val)>::empty(), other) is None);
        assert(spec_lookup(seq![(key, value)], other) is None);
    } else {
        match cmp_val(key, s[0].0) {
            Cmp::Lt => {
                let whole = seq![(key, value)] + s;
                assert(whole[0] == (key, value));
                assert(whole.drop_first() =~= s);
            },
            Cmp::Eq => {
                lemma_cmp_val_eq(key, s[0].0);
                let whole = s.update(0, (key, value));
                assert(whole[0] == (key, value));
                assert(whole.drop_first() =~= s.drop_first());
            },
            Cmp::Gt => {
                let inner = spec_insert(s.drop_first(), key, value);
                let whole = seq![s[0]] + inner;
                assert(whole[0] == s[0]);
                assert(whole.drop_first() =~= inner);
                if s[0].0 != other {
                    lemma_sorted_drop_first(s);
                    lemma_insert_keeps_others(s.drop_first(), key, value, other);
                }
            },
        }
    }
}

/// Canonicalization: two canonical entry sequences that bind exactly the
/// same values to the same keys are the same sequence — a canonical
/// map's identity is independent of its construction history.
pub proof fn lemma_canonical_unique(a: Seq<(Val, Val)>, b: Seq<(Val, Val)>)
    requires
        entries_sorted(a),
        entries_sorted(b),
        forall|key: Val| #[trigger] spec_lookup(a, key) == spec_lookup(b, key),
    ensures
        a == b,
    decreases a.len() + b.len(),
{
    if a.len() == 0 && b.len() == 0 {
        assert(a =~= b);
    } else if a.len() == 0 {
        assert(spec_lookup(b, b[0].0) == Some(b[0].1));
        assert(spec_lookup(a, b[0].0) is None);
    } else if b.len() == 0 {
        assert(spec_lookup(a, a[0].0) == Some(a[0].1));
        assert(spec_lookup(b, a[0].0) is None);
    } else {
        let ka = a[0].0;
        let kb = b[0].0;
        match cmp_val(ka, kb) {
            Cmp::Lt => {
                assert(spec_lookup(a, ka) == Some(a[0].1));
                lemma_lookup_below(b, ka);
                assert(false);
            },
            Cmp::Gt => {
                lemma_cmp_val_flip(ka, kb);
                assert(spec_lookup(b, kb) == Some(b[0].1));
                lemma_lookup_below(a, kb);
                assert(false);
            },
            Cmp::Eq => {
                lemma_cmp_val_eq(ka, kb);
                assert(spec_lookup(a, ka) == Some(a[0].1));
                assert(spec_lookup(b, ka) == Some(b[0].1));
                assert(a[0] == b[0]);
                lemma_sorted_drop_first(a);
                lemma_sorted_drop_first(b);
                assert forall|key: Val| #[trigger] spec_lookup(a.drop_first(), key)
                    == spec_lookup(b.drop_first(), key) by {
                    if key == ka {
                        if a.drop_first().len() > 0 {
                            assert(a.drop_first()[0] == a[1]);
                            lemma_cmp_val_flip(a[0].0, a[1].0);
                            lemma_lookup_below(a.drop_first(), key);
                        }
                        if b.drop_first().len() > 0 {
                            assert(b.drop_first()[0] == b[1]);
                            lemma_cmp_val_flip(b[0].0, b[1].0);
                            lemma_lookup_below(b.drop_first(), key);
                        }
                    } else {
                        assert(spec_lookup(a, key) == spec_lookup(a.drop_first(), key));
                        assert(spec_lookup(b, key) == spec_lookup(b.drop_first(), key));
                    }
                }
                lemma_canonical_unique(a.drop_first(), b.drop_first());
                assert(a =~= b) by {
                    assert(forall|i: int| 1 <= i < a.len() ==> a[i] == a.drop_first()[i - 1]
                        && b[i] == b.drop_first()[i - 1]);
                }
            },
        }
    }
}

impl ValueMap {
    /// The canonical invariant: entries are sorted strictly ascending by
    /// key, so every key occurs at most once.
    pub open spec fn wf(&self) -> bool {
        entries_sorted(self@)
    }

    /// An empty map.
    pub fn new() -> (r: ValueMap)
        ensures
            r@ == Seq::<(Val, Val)>::empty(),
            r.wf(),
    {
        ValueMap { entries: Vec::new() }
    }

    /// The number of entries held.
    pub fn len(&self) -> (r: usize)
        ensures
            r == self@.len(),
    {
        proof {
            lemma_model_entries(self.entries@);
        }
        self.entries.len()
    }

    /// Borrows the entry at `index`, in canonical (sorted) order.
    pub fn entry(&self, index: usize) -> (r: &(AnyValue, AnyValue))
        requires
            index < self@.len(),
        ensures
            (r.0@, r.1@) == self@[index as int],
    {
        proof {
            lemma_model_entries(self.entries@);
        }
        &self.entries[index]
    }

    /// Binds `key` to `value`, keeping the canonical order; an equal key
    /// is overwritten, so the last write wins.
    #[verifier::loop_isolation(false)]
    #[verifier::rlimit(100)]
    pub fn insert(&mut self, key: AnyValue, value: AnyValue)
        requires
            old(self).wf(),
        ensures
            final(self).wf(),
            final(self)@ == spec_insert(old(self)@, key@, value@),
    {
        proof {
            lemma_model_entries(self.entries@);
        }
        let ghost orig = self@;
        let n = self.entries.len();
        let mut i: usize = 0;
        while i < n && matches!(cmp_value(&self.entries[i].0, &key), Cmp::Lt)
            invariant
                i <= n,
                forall|j: int| 0 <= j < i ==> cmp_val(orig[j].0, key@) == Cmp::Lt,
            decreases n - i,
        {
            i = i + 1;
        }
        proof {
            assert forall|j: int| 0 <= j < i implies cmp_val(key@, orig[j].0) == Cmp::Gt by {
                lemma_cmp_val_flip(orig[j].0, key@);
            }
            lemma_spec_insert_unroll(orig, key@, value@, i as int);
        }
        if i == n {
            proof {
                lemma_model_entries_push(self.entries@, key, value);
            }
            self.entries.push((key, value));
            proof {
                assert(orig.skip(n as int) =~= Seq::<(Val, Val)>::empty());
                assert(orig.take(n as int) =~= orig);
                assert(self@ =~= orig.take(n as int) + spec_insert(
                    orig.skip(n as int),
                    key@,
                    value@,
                ));
                assert forall|p: int, q: int| 0 <= p < q < self@.len() implies cmp_val(
                    self@[p].0,
                    self@[q].0,
                ) == Cmp::Lt by {
                    if q == self@.len() - 1 {
                        assert(cmp_val(orig[p].0, key@) == Cmp::Lt);
                    }
                }
            }
        } else {
            let c = cmp_value(&self.entries[i].0, &key);
            proof {
                lemma_cmp_val_flip(orig[i as int].0, key@);
            }
            if matches!(c, Cmp::Eq) {
                proof {
                    lemma_cmp_val_eq(orig[i as int].0, key@);
                }
                self.entries[i] = (key, value);
                proof {
                    lemma_model_entries(self.entries@);
                    assert(orig.skip(i as int)[0] == orig[i as int]);
                    assert(orig.skip(i as int).update(0, (key@, value@)).drop_first()
                        =~= orig.skip(i as int).drop_first());
                    assert(self@ =~= orig.update(i as int, (key@, value@)));
                    assert(orig.take(i as int) + spec_insert(orig.skip(i as int), key@, value@)
                        =~= orig.update(i as int, (key@, value@)));
                    assert forall|p: int, q: int| 0 <= p < q < self@.len() implies cmp_val(
                        self@[p].0,
                        self@[q].0,
                    ) == Cmp::Lt by {
                        assert(cmp_val(orig[p].0, orig[q].0) == Cmp::Lt);
                        if p == i {
                            assert(orig[p].0 == key@);
                        }
                        if q == i {
                            assert(orig[q].0 == key@);
                        }
                    }
                }
            } else {
                self.entries.insert(i, (key, value));
                proof {
                    lemma_model_entries(self.entries@);
                    assert(self@ =~= orig.take(i as int) + seq![(key@, value@)] + orig.skip(
                        i as int,
                    ));
                    assert(orig.skip(i as int)[0] == orig[i as int]);
                    assert(cmp_val(key@, orig[i as int].0) == Cmp::Lt);
                    assert(orig.take(i as int) + spec_insert(orig.skip(i as int), key@, value@)
                        =~= orig.take(i as int) + seq![(key@, value@)] + orig.skip(i as int));
                    assert forall|p: int, q: int| 0 <= p < q < self@.len() implies cmp_val(
                        self@[p].0,
                        self@[q].0,
                    ) == Cmp::Lt by {
                        if p < i && q == i {
                            assert(cmp_val(orig[p].0, key@) == Cmp::Lt);
                        } else if p == i && q > i {
                            assert(self@[q] == orig[q - 1]);
                            if q - 1 == i {
                                assert(cmp_val(key@, orig[i as int].0) == Cmp::Lt);
                            } else {
                                lemma_cmp_val_trans(
                                    key@,
                                    orig[i as int].0,
                                    orig[q - 1].0,
                                );
                            }
                        } else if p < i && q > i {
                            assert(self@[p] == orig[p] && self@[q] == orig[q - 1]);
                        }
                    }
                }
            }
        }
    }

    /// Looks the value for `key` up; an absent key is a no-such-key
    /// error.
    #[verifier::loop_isolation(false)]
    pub fn lookup(&self, key: &AnyValue) -> (r: Result<&AnyValue, Error>)
        ensures
            match r {
                Ok(v) => spec_lookup(self@, key@) == Some(v@),
                Err(e) => {
                    &&& spec_lookup(self@, key@) is None
                    &&& e == Error::no_such_key_spec()
                },
            },
    {
        proof {
            lemma_model_entries(self.entries@);
        }
        let n = self.entries.len();
        let mut i: usize = 0;
        proof {
            assert(self@.skip(0) =~= self@);
        }
        while i < n
            invariant
                i <= n,
                spec_lookup(self@.skip(i as int), key@) == spec_lookup(self@, key@),
            decreases n - i,
        {
            let c = cmp_value(&self.entries[i].0, key);
            if matches!(c, Cmp::Eq) {
                proof {
                    lemma_cmp_val_eq(self@[i as int].0, key@);
                    assert(self@.skip(i as int)[0] == self@[i as int]);
                }
                return Ok(&self.entries[i].1);
            }
            proof {
                if self@[i as int].0 == key@ {
                    lemma_cmp_val_refl(key@);
                }
                lemma_spec_lookup_step(self@, key@, i as int);
            }
            i = i + 1;
        }
        proof {
            assert(self@.skip(n as int) =~= Seq::<(Val, Val)>::empty());
        }
        Err(Error::no_such_key())
    }

    /// Builds a map by binding the given entries one by one, in order, so
    /// a later entry with an equal key wins.
    #[verifier::loop_isolation(false)]
    pub fn from_entries(entries: Vec<(AnyValue, AnyValue)>) -> (r: ValueMap)
        ensures
            r.wf(),
            r@ == spec_from_entries(model_entries(entries@)),
    {
        let ghost orig = entries@;
        let mut rest = entries;
        let mut m = ValueMap::new();
        proof {
            lemma_model_entries(orig);
            assert(model_entries(orig.take(0)) =~= Seq::<(Val, Val)>::empty())
                by {
                    assert(orig.take(0) =~= Seq::<(AnyValue, AnyValue)>::empty());
                }
        }
        while rest.len() > 0
            invariant
                rest@.len() <= orig.len(),
                rest@ =~= orig.skip(orig.len() - rest@.len()),
                m.wf(),
                m@ == spec_from_entries(model_entries(orig.take(orig.len() - rest@.len()))),
            decreases rest@.len(),
        {
            let ghost i = orig.len() - rest@.len();
            let ghost prev = rest@;
            let (key, value) = rest.remove(0);
            proof {
                assert(prev[0] == orig.skip(i)[0]);
                assert(orig.skip(i)[0] == orig[i]);
                assert(key == orig[i].0 && value == orig[i].1);
                assert(rest@ =~= orig.skip(i + 1));
            }
            m.insert(key, value);
            proof {
                let prefix = orig.take(i);
                let prefix1 = orig.take(i + 1);
                assert(prefix1 =~= prefix.push(orig[i]));
                lemma_model_entries_push(prefix, orig[i].0, orig[i].1);
                assert(model_entries(prefix1) == model_entries(prefix).push(
                    (orig[i].0.model(), orig[i].1.model()),
                ));
                assert(model_entries(prefix1).drop_last() =~= model_entries(prefix));
            }
        }
        proof {
            assert(orig.take(orig.len() as int) =~= orig);
        }
        m
    }

    /// Unwraps into the native entry vector, in canonical order.
    pub fn into_entries(self) -> (r: Vec<(AnyValue, AnyValue)>)
        ensures
            model_entries(r@) == self@,
    {
        self.entries
    }

    /// Wraps this map into a dynamic value.
    pub fn into_value(self) -> (r: AnyValue)
        ensures
            r@ == Val::Mapping(self@),
    {
        AnyValue::Mapping(self)
    }

    /// Extracts a map from a dynamic value; any other kind of value is a
    /// type error.
    pub fn try_from_value(value: AnyValue) -> (r: Result<ValueMap, Error>)
        ensures
            match r {
                Ok(m) => value@ == Val::Mapping(m@),
                Err(e) => {
                    &&& !(value@ is Mapping)
                    &&& e == Error::type_error_spec(Shape::Mapping, value@.kind())
                },
            },
    {
        match value {
            AnyValue::Mapping(m) => Ok(m),
            other => Err(Error::type_error(Shape::Mapping, other.kind())),
        }
    }
}

} // verus!
