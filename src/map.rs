use vstd::prelude::*;
use crate::value::{KvsValue, ValueModel, model_eq};

verus! {

broadcast use vstd::std_specs::vec::group_vec_axioms, vstd::seq::group_seq_axioms;

/// A mapping from string keys to values; each key occurs at most once.
#[derive(Debug)]
pub struct KvsMap {
    entries: Vec<(String, KvsValue)>,
}

/// The mapping that the first `n` entries of `es` stand for.
pub closed spec fn entries_model(es: Seq<(String, KvsValue)>, n: nat) -> Map<Seq<char>, ValueModel>
    decreases es, n,
{
    if n == 0 || n > es.len() {
        Map::empty()
    } else {
        entries_model(es, (n - 1) as nat).insert(es[n - 1].0@, es[n - 1].1.model())
    }
}

/// No key occurs twice among `es`.
pub open spec fn keys_unique(es: Seq<(String, KvsValue)>) -> bool {
    forall|i: int, j: int|
        0 <= i < es.len() && 0 <= j < es.len() && i != j ==> #[trigger] es[i].0@ != #[trigger] es[j].0@
}

proof fn lemma_entries_model_dom(es: Seq<(String, KvsValue)>, n: nat, k: Seq<char>)
    requires
        n <= es.len(),
    ensures
        entries_model(es, n).contains_key(k) <==> exists|i: int| 0 <= i < n && es[i].0@ == k,
    decreases n,
{
    if n > 0 {
        lemma_entries_model_dom(es, (n - 1) as nat, k);
    }
}

proof fn lemma_entries_model_index(es: Seq<(String, KvsValue)>, n: nat, i: int)
    requires
        n <= es.len(),
        0 <= i < n,
        keys_unique(es),
    ensures
        entries_model(es, n).contains_key(es[i].0@),
        entries_model(es, n)[es[i].0@] == es[i].1.model(),
    decreases n,
{
    if i < n - 1 {
        lemma_entries_model_index(es, (n - 1) as nat, i);
        assert(es[i].0@ != es[n - 1].0@);
    }
}

proof fn lemma_entries_model_len(es: Seq<(String, KvsValue)>, n: nat)
    requires
        n <= es.len(),
        keys_unique(es),
    ensures
        entries_model(es, n).dom().finite(),
        entries_model(es, n).dom().len() == n,
    decreases n,
{
    if n > 0 {
        let m = (n - 1) as nat;
        lemma_entries_model_len(es, m);
        lemma_entries_model_dom(es, m, es[m as int].0@);
        if entries_model(es, m).contains_key(es[m as int].0@) {
            let i = choose|i: int| 0 <= i < m && es[i].0@ == es[m as int].0@;
            assert(es[i].0@ != es[m as int].0@);
        }
    }
}

/// With unique keys, the model maps exactly the keys of `es`, each to the
/// model of its value.
proof fn lemma_entries_model(es: Seq<(String, KvsValue)>)
    requires
        keys_unique(es),
    ensures
        forall|k: Seq<char>|
            #[trigger] entries_model(es, es.len()).contains_key(k) <==> exists|i: int|
                0 <= i < es.len() && es[i].0@ == k,
        forall|i: int|
            0 <= i < es.len() ==> #[trigger] entries_model(es, es.len())[es[i].0@] == es[i].1.model(),
        entries_model(es, es.len()).dom().finite(),
        entries_model(es, es.len()).dom().len() == es.len(),
{
    assert forall|k: Seq<char>|
        #[trigger] entries_model(es, es.len()).contains_key(k) <==> exists|i: int|
            0 <= i < es.len() && es[i].0@ == k by {
        lemma_entries_model_dom(es, es.len(), k);
    }
    assert forall|i: int| 0 <= i < es.len() implies #[trigger] entries_model(es, es.len())[es[i].0@]
        == es[i].1.model() by {
        lemma_entries_model_index(es, es.len(), i);
    }
    lemma_entries_model_len(es, es.len());
}

/// The position of `key` among the entries `es`, if it is there.
fn find_key(es: &Vec<(String, KvsValue)>, key: &String) -> (r: Option<usize>)
    ensures
        match r {
            Some(i) => i < es@.len() && es@[i as int].0@ == key@,
            None => forall|i: int| 0 <= i < es@.len() ==> es@[i].0@ != key@,
        },
{
    let mut i: usize = 0;
    while i < es.len()
        invariant
            i <= es@.len(),
            forall|j: int| 0 <= j < i ==> es@[j].0@ != key@,
        decreases es@.len() - i,
    {
        if es[i].0 == *key {
            return Some(i);
        }
        i = i + 1;
    }
    None
}

/// Removing the entry at `f` leaves unique keys, and the model without that
/// entry's key.
proof fn lemma_remove_model(es: Seq<(String, KvsValue)>, f: int)
    requires
        keys_unique(es),
        0 <= f < es.len(),
    ensures
        keys_unique(es.remove(f)),
        entries_model(es.remove(f), es.remove(f).len()) == entries_model(es, es.len()).remove(es[f].0@),
{
    let rs = es.remove(f);
    let k = es[f].0@;
    assert forall|i: int| 0 <= i < rs.len() implies #[trigger] rs[i] == es[if i < f { i } else { i + 1 }] by {}
    assert forall|i: int, j: int|
        0 <= i < rs.len() && 0 <= j < rs.len() && i != j implies #[trigger] rs[i].0@ != #[trigger] rs[j].0@ by {
        let a = if i < f { i } else { i + 1 };
        let b = if j < f { j } else { j + 1 };
        assert(rs[i] == es[a] && rs[j] == es[b]);
    }
    lemma_entries_model(es);
    lemma_entries_model(rs);
    let nm = entries_model(rs, rs.len());
    let om = entries_model(es, es.len());
    assert forall|key2: Seq<char>| #[trigger] nm.contains_key(key2) == om.remove(k).contains_key(key2) by {
        if nm.contains_key(key2) {
            let i = choose|i: int| 0 <= i < rs.len() && rs[i].0@ == key2;
            let a = if i < f { i } else { i + 1 };
            assert(rs[i] == es[a]);
            assert(a != f);
            assert(es[a].0@ != es[f].0@);
        }
        if om.remove(k).contains_key(key2) {
            let j = choose|j: int| 0 <= j < es.len() && es[j].0@ == key2;
            assert(j != f);
            if j < f {
                assert(rs[j] == es[j]);
            } else {
                assert(rs[j - 1] == es[j]);
            }
        }
    }
    assert forall|key2: Seq<char>| #[trigger] nm.contains_key(key2) implies nm[key2] == om.remove(k)[key2] by {
        let i = choose|i: int| 0 <= i < rs.len() && rs[i].0@ == key2;
        let a = if i < f { i } else { i + 1 };
        assert(rs[i] == es[a]);
        assert(nm[rs[i].0@] == rs[i].1.model());
        assert(om[es[a].0@] == es[a].1.model());
    }
    assert(nm =~= om.remove(k));
}

impl KvsMap {
    #[verifier::type_invariant]
    spec fn inv(self) -> bool {
        keys_unique(self.entries@)
    }

    /// The keys and the models of the values they map to.
    pub closed spec fn model(self) -> Map<Seq<char>, ValueModel>
        decreases self, 0nat,
    {
        entries_model(self.entries@, self.entries@.len())
    }

    /// An empty map.
    pub fn new() -> (r: KvsMap)
        ensures
            r.model() == Map::<Seq<char>, ValueModel>::empty(),
    {
        let r = KvsMap { entries: Vec::new() };
        proof {
            reveal_with_fuel(entries_model, 1);
        }
        r
    }

    /// The number of keys.
    pub fn len(&self) -> (r: usize)
        ensures
            r == self.model().dom().len(),
    {
        proof {
            use_type_invariant(self);
            lemma_entries_model(self.entries@);
        }
        self.entries.len()
    }

    /// Whether no key is mapped.
    pub fn is_empty(&self) -> (r: bool)
        ensures
            r == (self.model().dom().len() == 0),
    {
        proof {
            use_type_invariant(self);
            lemma_entries_model(self.entries@);
        }
        self.entries.len() == 0
    }

    /// The mapped keys, each once, in no particular order.
    pub fn keys(&self) -> (r: Vec<String>)
        ensures
            r@.len() == self.model().dom().len(),
            forall|i: int| 0 <= i < r@.len() ==> self.model().contains_key(#[trigger] r@[i]@),
            forall|k: Seq<char>|
                #[trigger] self.model().contains_key(k) ==> exists|i: int| 0 <= i < r@.len() && r@[i]@ == k,
            forall|i: int, j: int|
                0 <= i < r@.len() && 0 <= j < r@.len() && i != j ==> #[trigger] r@[i]@ != #[trigger] r@[j]@,
    {
        proof {
            use_type_invariant(self);
            lemma_entries_model(self.entries@);
        }
        let mut r: Vec<String> = Vec::new();
        let mut i: usize = 0;
        while i < self.entries.len()
            invariant
                i <= self.entries@.len(),
                r@.len() == i,
                forall|j: int| 0 <= j < i ==> #[trigger] r@[j]@ == self.entries@[j].0@,
            decreases self.entries@.len() - i,
        {
            r.push(self.entries[i].0.clone());
            i = i + 1;
        }
        proof {
            assert forall|i: int, j: int|
                0 <= i < r@.len() && 0 <= j < r@.len() && i != j implies #[trigger] r@[i]@ != #[trigger] r@[j]@ by {
                assert(self.entries@[i].0@ != self.entries@[j].0@);
            }
            assert forall|k: Seq<char>| #[trigger] self.model().contains_key(k) implies exists|i: int|
                0 <= i < r@.len() && r@[i]@ == k by {
                let j = choose|j: int| 0 <= j < self.entries@.len() && self.entries@[j].0@ == k;
                assert(r@[j]@ == k);
            }
        }
        r
    }

    /// Removes `key`, handing back the value it mapped to.
    pub fn remove(&mut self, key: &str) -> (r: Option<KvsValue>)
        ensures
            final(self).model() == old(self).model().remove(key@),
            r is Some == old(self).model().contains_key(key@),
            r matches Some(v) ==> v.model() == old(self).model()[key@],
    {
        proof {
            use_type_invariant(&*self);
            lemma_entries_model(self.entries@);
        }
        let k = key.to_owned();
        match find_key(&self.entries, &k) {
            None => {
                proof {
                    assert(self.model().remove(key@) =~= self.model());
                }
                None
            },
            Some(i) => {
                let mut es: Vec<(String, KvsValue)> = Vec::new();
                std::mem::swap(&mut es, &mut self.entries);
                proof {
                    lemma_remove_model(es@, i as int);
                    assert(entries_model(es@, es@.len())[es@[i as int].0@] == es@[i as int].1.model());
                }
                let (_, v) = es.remove(i);
                self.entries = es;
                Some(v)
            },
        }
    }

    /// Whether `key` is mapped.
    pub fn contains_key(&self, key: &str) -> (r: bool)
        ensures
            r == self.model().contains_key(key@),
    {
        proof {
            use_type_invariant(self);
            lemma_entries_model(self.entries@);
        }
        let k = key.to_owned();
        find_key(&self.entries, &k).is_some()
    }

    /// The value that `key` maps to; absent where the key is not mapped.
    pub fn get(&self, key: &str) -> (r: Option<&KvsValue>)
        ensures
            r is Some == self.model().contains_key(key@),
            r matches Some(v) ==> v.model() == self.model()[key@],
    {
        proof {
            use_type_invariant(self);
            lemma_entries_model(self.entries@);
        }
        let k = key.to_owned();
        match find_key(&self.entries, &k) {
            Some(i) => Some(&self.entries[i].1),
            None => None,
        }
    }

    /// A copy of this map that owns all of its entries.
    pub fn deep_clone(&self) -> (r: KvsMap)
        ensures
            r.model() == self.model(),
        decreases self, 0nat,
    {
        proof {
            use_type_invariant(self);
        }
        let mut es: Vec<(String, KvsValue)> = Vec::new();
        let mut i: usize = 0;
        while i < self.entries.len()
            invariant
                i <= self.entries@.len(),
                es@.len() == i,
                keys_unique(self.entries@),
                forall|j: int| 0 <= j < i ==> #[trigger] es@[j].0@ == self.entries@[j].0@,
                forall|j: int| 0 <= j < i ==> #[trigger] es@[j].1.model() == self.entries@[j].1.model(),
            decreases self.entries@.len() - i,
        {
            let k = self.entries[i].0.clone();
            let v = self.entries[i].1.deep_clone();
            let ghost es_before = es@;
            es.push((k, v));
            proof {
                assert forall|j: int| 0 <= j <= i implies #[trigger] es@[j].1.model()
                    == self.entries@[j].1.model() by {
                    if j < i {
                        assert(es@[j] == es_before[j]);
                    }
                }
            }
            i = i + 1;
        }
        proof {
            assert(keys_unique(es@)) by {
                assert forall|a: int, b: int|
                    0 <= a < es@.len() && 0 <= b < es@.len() && a != b implies #[trigger] es@[a].0@
                    != #[trigger] es@[b].0@ by {
                    assert(self.entries@[a].0@ != self.entries@[b].0@);
                }
            }
            lemma_entries_model(es@);
            lemma_entries_model(self.entries@);
            let m1 = entries_model(es@, es@.len());
            let m2 = entries_model(self.entries@, self.entries@.len());
            assert forall|k: Seq<char>| #[trigger] m1.contains_key(k) == m2.contains_key(k) by {
                if m1.contains_key(k) {
                    let j = choose|j: int| 0 <= j < es@.len() && es@[j].0@ == k;
                    assert(self.entries@[j].0@ == k);
                }
                if m2.contains_key(k) {
                    let j = choose|j: int| 0 <= j < self.entries@.len() && self.entries@[j].0@ == k;
                    assert(es@[j].0@ == k);
                }
            }
            assert forall|k: Seq<char>| #[trigger] m1.contains_key(k) implies m1[k] == m2[k] by {
                let j = choose|j: int| 0 <= j < es@.len() && es@[j].0@ == k;
                assert(m1[es@[j].0@] == es@[j].1.model());
                assert(m2[self.entries@[j].0@] == self.entries@[j].1.model());
            }
            assert(m1 =~= m2);
        }
        KvsMap { entries: es }
    }

    /// Whether the two maps have the same keys, each mapped to structurally
    /// equal values.
    pub fn equals(&self, other: &KvsMap) -> (r: bool)
        ensures
            r == model_eq(ValueModel::Object(self.model()), ValueModel::Object(other.model())),
        decreases self, 0nat,
    {
        proof {
            use_type_invariant(self);
            use_type_invariant(other);
            lemma_entries_model(self.entries@);
            lemma_entries_model(other.entries@);
        }
        let ghost m1 = self.model();
        let ghost m2 = other.model();
        if self.entries.len() != other.entries.len() {
            return false;
        }
        let mut i: usize = 0;
        while i < self.entries.len()
            invariant
                i <= self.entries@.len(),
                self.entries@.len() == other.entries@.len(),
                keys_unique(self.entries@),
                keys_unique(other.entries@),
                m1 == entries_model(self.entries@, self.entries@.len()),
                m2 == entries_model(other.entries@, other.entries@.len()),
                forall|j: int|
                    0 <= j < i ==> #[trigger] m2.contains_key(self.entries@[j].0@)
                        && model_eq(m1[self.entries@[j].0@], m2[self.entries@[j].0@]),
            decreases self.entries@.len() - i,
        {
            proof {
                lemma_entries_model(self.entries@);
                lemma_entries_model(other.entries@);
            }
            match find_key(&other.entries, &self.entries[i].0) {
                None => {
                    proof {
                        assert(m1.contains_key(self.entries@[i as int].0@));
                        assert(!m2.contains_key(self.entries@[i as int].0@));
                    }
                    return false;
                },
                Some(j) => {
                    proof {
                        assert(m2[other.entries@[j as int].0@] == other.entries@[j as int].1.model());
                        assert(m1[self.entries@[i as int].0@] == self.entries@[i as int].1.model());
                    }
                    if !self.entries[i].1.equals(&other.entries[j].1) {
                        proof {
                            assert(!model_eq(m1[self.entries@[i as int].0@], m2[self.entries@[i as int].0@]));
                        }
                        return false;
                    }
                    proof {
                        assert(m2.contains_key(self.entries@[i as int].0@));
                        assert forall|j: int| 0 <= j <= i implies #[trigger] m2.contains_key(self.entries@[j].0@)
                            && model_eq(m1[self.entries@[j].0@], m2[self.entries@[j].0@]) by {
                        }
                    }
                },
            }
            i = i + 1;
        }
        proof {
            assert(m1.dom().subset_of(m2.dom())) by {
                assert forall|k: Seq<char>| m1.contains_key(k) implies m2.contains_key(k) by {
                    let j = choose|j: int| 0 <= j < self.entries@.len() && self.entries@[j].0@ == k;
                    assert(m2.contains_key(self.entries@[j].0@));
                }
            }
            vstd::set_lib::lemma_subset_equality(m1.dom(), m2.dom());
            assert forall|k: Seq<char>| m1.contains_key(k) implies #[trigger] model_eq(m1[k], m2[k]) by {
                let j = choose|j: int| 0 <= j < self.entries@.len() && self.entries@[j].0@ == k;
                assert(m2.contains_key(self.entries@[j].0@));
            }
        }
        true
    }

    /// Maps `key` to `value`, handing back the value it mapped to before.
    pub fn insert(&mut self, key: String, value: KvsValue) -> (r: Option<KvsValue>)
        ensures
            final(self).model() == old(self).model().insert(key@, value.model()),
            r is Some == old(self).model().contains_key(key@),
            r matches Some(v) ==> v.model() == old(self).model()[key@],
    {
        proof {
            use_type_invariant(&*self);
            lemma_entries_model(self.entries@);
        }
        let ghost old_model = self.model();
        let mut es: Vec<(String, KvsValue)> = Vec::new();
        std::mem::swap(&mut es, &mut self.entries);
        let ghost es0 = es@;
        let found = find_key(&es, &key);
        let ghost k = key@;
        let ghost vm = value.model();
        let r = match found {
            Some(i) => {
                let (_, v) = es.remove(i);
                Some(v)
            },
            None => None,
        };
        let ghost es1 = es@;
        es.push((key, value));
        proof {
            assert forall|i: int, j: int|
                0 <= i < es@.len() && 0 <= j < es@.len() && i != j implies #[trigger] es@[i].0@
                != #[trigger] es@[j].0@ by {
                if i < es1.len() && j < es1.len() {
                    assert(es1[i].0@ != es1[j].0@);
                }
            }
            lemma_entries_model(es@);
            assert forall|i: int| 0 <= i < es1.len() implies exists|j: int|
                0 <= j < es0.len() && es0[j] == #[trigger] es1[i] && j != (match found { Some(f) => f as int, None => -1 }) by {
                match found {
                    Some(f) => {
                        if i < f { assert(es0[i] == es1[i]); } else { assert(es0[i + 1] == es1[i]); }
                    },
                    None => { assert(es0[i] == es1[i]); },
                }
            }
            let nm = entries_model(es@, es@.len());
            let n = es@.len();
            assert(es@[n - 1].0@ == k);
            assert forall|key2: Seq<char>| #[trigger] nm.contains_key(key2) == old_model.insert(k, vm).contains_key(key2) by {
                if key2 != k {
                    if nm.contains_key(key2) {
                        let i = choose|i: int| 0 <= i < n && es@[i].0@ == key2;
                        assert(es1[i] == es@[i]);
                        let j = choose|j: int| 0 <= j < es0.len() && es0[j] == #[trigger] es1[i] && j != (match found { Some(f) => f as int, None => -1 });
                        assert(es0[j].0@ == key2);
                    }
                    if old_model.contains_key(key2) {
                        let j = choose|j: int| 0 <= j < es0.len() && es0[j].0@ == key2;
                        match found {
                            Some(f) => {
                                if j < f {
                                    assert(es@[j] == es0[j]);
                                } else {
                                    assert(j != f);
                                    assert(es@[j - 1] == es0[j]);
                                }
                            },
                            None => {
                                assert(es@[j] == es0[j]);
                            },
                        }
                    }
                } else {
                    assert(nm.contains_key(es@[n - 1].0@));
                }
            }
            assert forall|key2: Seq<char>| #[trigger] nm.contains_key(key2) implies nm[key2] == old_model.insert(k, vm)[key2] by {
                if key2 != k {
                    let i = choose|i: int| 0 <= i < n && es@[i].0@ == key2;
                    assert(es1[i] == es@[i]);
                    let j = choose|j: int| 0 <= j < es0.len() && es0[j] == #[trigger] es1[i] && j != (match found { Some(f) => f as int, None => -1 });
                    assert(nm[es@[i].0@] == es@[i].1.model());
                    assert(old_model[es0[j].0@] == es0[j].1.model());
                } else {
                    assert(nm[es@[n - 1].0@] == es@[n - 1].1.model());
                }
            }
            assert(nm =~= old_model.insert(k, vm));
        }
        self.entries = es;
        r
    }
}

impl Clone for KvsMap {
    fn clone(&self) -> (r: Self)
        ensures
            r.model() == self.model(),
    {
        self.deep_clone()
    }
}

impl PartialEq for KvsMap {
    fn eq(&self, other: &Self) -> (r: bool) {
        self.equals(other)
    }
}

impl vstd::std_specs::cmp::PartialEqSpecImpl for KvsMap {
    open spec fn obeys_eq_spec() -> bool {
        true
    }

    open spec fn eq_spec(&self, other: &KvsMap) -> bool {
        model_eq(ValueModel::Object(self.model()), ValueModel::Object(other.model()))
    }
}

} // verus!
