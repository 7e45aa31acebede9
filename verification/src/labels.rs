//! Ordered key-value label sets: descriptor identity labels and template
//! field dictionaries.

use vstd::prelude::*;

use crate::text::str_eq;

verus! {

/// One `key=value` label.
pub struct Label {
    pub key: String,
    pub value: String,
}

impl DeepView for Label {
    type V = (Seq<char>, Seq<char>);

    open spec fn deep_view(&self) -> (Seq<char>, Seq<char>) {
        (self.key@, self.value@)
    }
}

impl Clone for Label {
    fn clone(&self) -> (r: Self)
        ensures
            r.deep_view() == self.deep_view(),
    {
        Label { key: self.key.clone(), value: self.value.clone() }
    }
}

/// The value stored under `key`, taking the first pair that matches.
pub open spec fn label_get(pairs: Seq<(Seq<char>, Seq<char>)>, key: Seq<char>) -> Option<Seq<char>>
    decreases pairs.len(),
{
    if pairs.len() == 0 {
        None
    } else if pairs[0].0 == key {
        Some(pairs[0].1)
    } else {
        label_get(pairs.drop_first(), key)
    }
}

/// `pairs` with `key` bound to `value`: the first pair under `key` is
/// updated in place, or a new pair is appended when the key is absent.
pub open spec fn label_set(
    pairs: Seq<(Seq<char>, Seq<char>)>,
    key: Seq<char>,
    value: Seq<char>,
) -> Seq<(Seq<char>, Seq<char>)>
    decreases pairs.len(),
{
    if pairs.len() == 0 {
        seq![(key, value)]
    } else if pairs[0].0 == key {
        seq![(key, value)] + pairs.drop_first()
    } else {
        seq![pairs[0]] + label_set(pairs.drop_first(), key, value)
    }
}

/// Setting a key then looking keys up behaves like a map update.
pub proof fn lemma_label_set_get(
    pairs: Seq<(Seq<char>, Seq<char>)>,
    key: Seq<char>,
    value: Seq<char>,
    probe: Seq<char>,
)
    ensures
        label_get(label_set(pairs, key, value), probe) == if probe == key {
            Some(value)
        } else {
            label_get(pairs, probe)
        },
    decreases pairs.len(),
{
    if pairs.len() == 0 {
        assert(label_set(pairs, key, value) == seq![(key, value)]);
        assert(label_get(seq![(key, value)], probe) == if probe == key {
            Some(value)
        } else {
            label_get(seq![(key, value)].drop_first(), probe)
        });
        assert(seq![(key, value)].drop_first() =~= Seq::<(Seq<char>, Seq<char>)>::empty());
    } else if pairs[0].0 == key {
        let updated = seq![(key, value)] + pairs.drop_first();
        assert(updated[0] == (key, value));
        assert(updated.drop_first() =~= pairs.drop_first());
    } else {
        let updated = seq![pairs[0]] + label_set(pairs.drop_first(), key, value);
        assert(updated[0] == pairs[0]);
        assert(updated.drop_first() =~= label_set(pairs.drop_first(), key, value));
        lemma_label_set_get(pairs.drop_first(), key, value, probe);
    }
}

/// An ordered set of `key=value` labels. Lookups return the first pair
/// under a key; inserts update that pair in place.
pub struct Labels {
    pub pairs: Vec<Label>,
}

impl DeepView for Labels {
    type V = Seq<(Seq<char>, Seq<char>)>;

    open spec fn deep_view(&self) -> Seq<(Seq<char>, Seq<char>)> {
        self.pairs.deep_view()
    }
}

impl Clone for Labels {
    fn clone(&self) -> (r: Self)
        ensures
            r.deep_view() == self.deep_view(),
    {
        let mut pairs: Vec<Label> = Vec::new();
        let mut i: usize = 0;
        while i < self.pairs.len()
            invariant
                i <= self.pairs.len(),
                pairs.deep_view() =~= self.pairs.deep_view().take(i as int),
            decreases self.pairs.len() - i,
        {
            let c = self.pairs[i].clone();
            let ghost prev = pairs.deep_view();
            pairs.push(c);
            proof {
                assert(pairs.deep_view() =~= prev.push(c.deep_view()));
                assert(pairs.deep_view() =~= self.pairs.deep_view().take(i + 1));
            }
            i = i + 1;
        }
        proof {
            assert(self.pairs.deep_view().take(self.pairs.len() as int) =~= self.pairs.deep_view());
        }
        let r = Labels { pairs };
        proof {
            assert(r.deep_view() =~= self.deep_view());
        }
        r
    }
}

impl Labels {
    /// An empty label set.
    pub fn new() -> (r: Self)
        ensures
            r.deep_view() == Seq::<(Seq<char>, Seq<char>)>::empty(),
    {
        let r = Labels { pairs: Vec::new() };
        proof {
            assert(r.deep_view() =~= Seq::<(Seq<char>, Seq<char>)>::empty());
        }
        r
    }

    /// The number of labels.
    pub fn len(&self) -> (r: usize)
        ensures
            r == self.deep_view().len(),
    {
        self.pairs.len()
    }

    /// The value stored under `key`, if any.
    pub fn get(&self, key: &str) -> (r: Option<&String>)
        ensures
            match r {
                Some(v) => label_get(self.deep_view(), key@) == Some(v@),
                None => label_get(self.deep_view(), key@) is None,
            },
    {
        let ghost pairs = self.deep_view();
        let mut i: usize = 0;
        while i < self.pairs.len()
            invariant
                i <= self.pairs.len(),
                pairs == self.deep_view(),
                forall|j: int| 0 <= j < i ==> pairs[j].0 != key@,
            decreases self.pairs.len() - i,
        {
            if str_eq(self.pairs[i].key.as_str(), key) {
                proof {
                    lemma_label_get_at(pairs, key@, i as int);
                }
                return Some(&self.pairs[i].value);
            }
            i = i + 1;
        }
        proof {
            lemma_label_get_none(pairs, key@);
        }
        None
    }

    /// Bind `key` to `value`, replacing the value of an existing pair or
    /// appending a new one.
    pub fn insert(&mut self, key: String, value: String)
        ensures
            final(self).deep_view() == label_set(old(self).deep_view(), key@, value@),
    {
        let ghost pairs = self.deep_view();
        let mut i: usize = 0;
        while i < self.pairs.len()
            invariant
                i <= self.pairs.len(),
                pairs == self.deep_view(),
                pairs == old(self).deep_view(),
                forall|j: int| 0 <= j < i ==> pairs[j].0 != key@,
            decreases self.pairs.len() - i,
        {
            if str_eq(self.pairs[i].key.as_str(), key.as_str()) {
                let ghost prev = self.deep_view();
                self.pairs.set(i, Label { key, value });
                proof {
                    lemma_label_set_at(prev, key@, value@, i as int);
                    assert(self.deep_view() =~= prev.update(
                        i as int,
                        (key@, value@),
                    ));
                }
                return ;
            }
            i = i + 1;
        }
        let ghost prev = self.deep_view();
        self.pairs.push(Label { key, value });
        proof {
            lemma_label_set_absent(prev, key@, value@);
            assert(self.deep_view() =~= prev.push((key@, value@)));
        }
    }
}

/// When the first `i` pairs all miss and pair `i` hits, the lookup returns
/// pair `i`.
pub proof fn lemma_label_get_at(pairs: Seq<(Seq<char>, Seq<char>)>, key: Seq<char>, i: int)
    requires
        0 <= i < pairs.len(),
        forall|j: int| 0 <= j < i ==> pairs[j].0 != key,
        pairs[i].0 == key,
    ensures
        label_get(pairs, key) == Some(pairs[i].1),
    decreases i,
{
    if i > 0 {
        lemma_label_get_at(pairs.drop_first(), key, i - 1);
    }
}

/// When every pair misses, the lookup returns nothing.
pub proof fn lemma_label_get_none(pairs: Seq<(Seq<char>, Seq<char>)>, key: Seq<char>)
    requires
        forall|j: int| 0 <= j < pairs.len() ==> pairs[j].0 != key,
    ensures
        label_get(pairs, key) is None,
    decreases pairs.len(),
{
    if pairs.len() > 0 {
        lemma_label_get_none(pairs.drop_first(), key);
    }
}

/// When the first `i` pairs all miss and pair `i` holds the key, setting the
/// key updates pair `i` in place.
proof fn lemma_label_set_at(
    pairs: Seq<(Seq<char>, Seq<char>)>,
    key: Seq<char>,
    value: Seq<char>,
    i: int,
)
    requires
        0 <= i < pairs.len(),
        forall|j: int| 0 <= j < i ==> pairs[j].0 != key,
        pairs[i].0 == key,
    ensures
        label_set(pairs, key, value) =~= pairs.update(i, (key, value)),
    decreases i,
{
    if i == 0 {
        assert(label_set(pairs, key, value) == seq![(key, value)] + pairs.drop_first());
        assert(seq![(key, value)] + pairs.drop_first() =~= pairs.update(0, (key, value)));
    } else {
        lemma_label_set_at(pairs.drop_first(), key, value, i - 1);
        assert(label_set(pairs, key, value) == seq![pairs[0]] + label_set(
            pairs.drop_first(),
            key,
            value,
        ));
        assert(seq![pairs[0]] + pairs.drop_first().update(i - 1, (key, value)) =~= pairs.update(
            i,
            (key, value),
        ));
    }
}

/// When no pair holds the key, setting the key appends a new pair.
proof fn lemma_label_set_absent(pairs: Seq<(Seq<char>, Seq<char>)>, key: Seq<char>, value: Seq<char>)
    requires
        forall|j: int| 0 <= j < pairs.len() ==> pairs[j].0 != key,
    ensures
        label_set(pairs, key, value) =~= pairs.push((key, value)),
    decreases pairs.len(),
{
    if pairs.len() == 0 {
        assert(label_set(pairs, key, value) == seq![(key, value)]);
        assert(seq![(key, value)] =~= pairs.push((key, value)));
    } else {
        lemma_label_set_absent(pairs.drop_first(), key, value);
        assert(label_set(pairs, key, value) == seq![pairs[0]] + label_set(
            pairs.drop_first(),
            key,
            value,
        ));
        assert(seq![pairs[0]] + pairs.drop_first().push((key, value)) =~= pairs.push(
            (key, value),
        ));
    }
}


/// `pairs` after binding every pair of `updates` in order.
pub open spec fn label_append(
    pairs: Seq<(Seq<char>, Seq<char>)>,
    updates: Seq<(Seq<char>, Seq<char>)>,
) -> Seq<(Seq<char>, Seq<char>)>
    decreases updates.len(),
{
    if updates.len() == 0 {
        pairs
    } else {
        label_append(label_set(pairs, updates[0].0, updates[0].1), updates.drop_first())
    }
}

/// Appending one more update applies it after the rest.
proof fn lemma_label_append_push(
    pairs: Seq<(Seq<char>, Seq<char>)>,
    updates: Seq<(Seq<char>, Seq<char>)>,
    p: (Seq<char>, Seq<char>),
)
    ensures
        label_append(pairs, updates.push(p)) == label_set(
            label_append(pairs, updates),
            p.0,
            p.1,
        ),
    decreases updates.len(),
{
    let pushed = updates.push(p);
    if updates.len() == 0 {
        assert(pushed[0] == p);
        assert(pushed.drop_first() =~= Seq::<(Seq<char>, Seq<char>)>::empty());
        assert(label_append(pairs, pushed) == label_append(
            label_set(pairs, p.0, p.1),
            pushed.drop_first(),
        ));
    } else {
        assert(pushed[0] == updates[0]);
        assert(pushed.drop_first() =~= updates.drop_first().push(p));
        lemma_label_append_push(
            label_set(pairs, updates[0].0, updates[0].1),
            updates.drop_first(),
            p,
        );
    }
}


impl Labels {
    /// Bind every pair of `updates` over this label set, in order.
    pub fn extend(&mut self, updates: &Labels)
        ensures
            final(self).deep_view() == label_append(old(self).deep_view(), updates.deep_view()),
    {
        let ghost ups = updates.deep_view();
        let mut i: usize = 0;
        while i < updates.pairs.len()
            invariant
                i <= updates.pairs.len(),
                ups == updates.deep_view(),
                self.deep_view() == label_append(old(self).deep_view(), ups.take(i as int)),
            decreases updates.pairs.len() - i,
        {
            proof {
                assert(ups.take(i + 1) =~= ups.take(i as int).push(ups[i as int]));
                lemma_label_append_push(old(self).deep_view(), ups.take(i as int), ups[i as int]);
            }
            let p = &updates.pairs[i];
            self.insert(p.key.clone(), p.value.clone());
            i = i + 1;
        }
        proof {
            assert(ups.take(updates.pairs.len() as int) =~= ups);
        }
    }
}

} // verus!
