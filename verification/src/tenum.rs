use vstd::prelude::*;
use vstd::std_specs::cmp::PartialEqSpec;

verus! {

/// A closed set of keys that can be listed.
pub trait TEnum: PartialEq + Sized {
    /// Every key of the set.
    fn keys() -> Vec<Self>;
}

/// Whether `i` is the first position of `entries` whose key equals `key`.
pub open spec fn is_first_match<S: PartialEq, T>(entries: Seq<(S, T)>, key: S, i: int) -> bool {
    &&& 0 <= i < entries.len()
    &&& entries[i].0.eq_spec(&key)
    &&& forall|j: int| 0 <= j < i ==> !(#[trigger] entries[j]).0.eq_spec(&key)
}

/// The first position of `entries` whose key equals `key`, if there is one.
pub open spec fn first_match<S: PartialEq, T>(entries: Seq<(S, T)>, key: S) -> Option<int> {
    if exists|i: int| is_first_match(entries, key, i) {
        Some(choose|i: int| is_first_match(entries, key, i))
    } else {
        None
    }
}

/// A position that is the first match is the one that `first_match` names.
pub proof fn lemma_first_match_is<S: PartialEq, T>(entries: Seq<(S, T)>, key: S, i: int)
    requires
        is_first_match(entries, key, i),
    ensures
        first_match(entries, key) == Some(i),
{
    let c = choose|c: int| is_first_match(entries, key, c);
    if c < i {
        assert(!entries[c].0.eq_spec(&key));
    } else if i < c {
        assert(!entries[i].0.eq_spec(&key));
    }
}

/// Where no key equals `key`, `first_match` names no position.
pub proof fn lemma_first_match_none<S: PartialEq, T>(entries: Seq<(S, T)>, key: S)
    requires
        forall|j: int| 0 <= j < entries.len() ==> !(#[trigger] entries[j]).0.eq_spec(&key),
    ensures
        first_match(entries, key) is None,
{
    if exists|i: int| is_first_match(entries, key, i) {
        let c = choose|c: int| is_first_match(entries, key, c);
        assert(!entries[c].0.eq_spec(&key));
    }
}

/// What a search for `key` from the front of `entries` can give: `Some(i)`
/// where the key at `i` compared equal to `key` after every key before it
/// compared unequal, `None` where every key compared unequal. The
/// comparisons are those of `==` on `S`, whatever that does.
pub open spec fn search_gives<S: PartialEq, T>(
    entries: Seq<(S, T)>,
    key: S,
    r: Option<int>,
) -> bool {
    match r {
        Some(i) => {
            &&& 0 <= i < entries.len()
            &&& call_ensures(S::eq, (&entries[i].0, &key), true)
            &&& forall|j: int|
                0 <= j < i ==> call_ensures(S::eq, (&(#[trigger] entries[j]).0, &key), false)
        },
        None => forall|j: int|
            0 <= j < entries.len() ==> call_ensures(
                S::eq,
                (&(#[trigger] entries[j]).0, &key),
                false,
            ),
    }
}

/// Where `==` on `S` is the equality that `eq_spec` states, a search can give
/// one thing only: the first position whose key equals `key`.
pub proof fn lemma_search_gives_first_match<S: PartialEq, T>(
    entries: Seq<(S, T)>,
    key: S,
    r: Option<int>,
)
    requires
        S::obeys_eq_spec(),
        search_gives(entries, key, r),
    ensures
        r == first_match(entries, key),
{
    match r {
        Some(i) => {
            assert forall|j: int| 0 <= j < i implies !(#[trigger] entries[j]).0.eq_spec(&key) by {
                assert(call_ensures(S::eq, (&entries[j].0, &key), false));
            }
            lemma_first_match_is(entries, key, i);
        },
        None => {
            assert forall|j: int| 0 <= j < entries.len() implies !(#[trigger] entries[j]).0.eq_spec(
                &key,
            ) by {
                assert(call_ensures(S::eq, (&entries[j].0, &key), false));
            }
            lemma_first_match_none(entries, key);
        },
    }
}

/// An association list from keys to values, in insertion order.
pub struct TEnumMap<S: TEnum + Copy, T: Default + Copy> {
    keys: Vec<S>,
    values: Vec<T>,
}

impl<S: TEnum + Copy, T: Default + Copy> View for TEnumMap<S, T> {
    type V = Seq<(S, T)>;

    /// The entries in order, each key with its value.
    closed spec fn view(&self) -> Seq<(S, T)> {
        Seq::new(self.keys@.len(), |i: int| (self.keys@[i], self.values@[i]))
    }
}

impl<S: TEnum + Copy, T: Default + Copy> TEnumMap<S, T> {
    /// Every key has its value.
    pub closed spec fn well_formed(&self) -> bool {
        self.keys@.len() == self.values@.len()
    }

    /// A map with an entry for every key that `S::keys` lists, in that order,
    /// each with a default value.
    pub fn empty() -> (res: Self)
        ensures
            res.well_formed(),
            exists|ks: Vec<S>|
                call_ensures(S::keys, (), ks) && ks@ =~= res@.map_values(|e: (S, T)| e.0),
            forall|i: int|
                0 <= i < res@.len() ==> call_ensures(T::default, (), (#[trigger] res@[i]).1),
    {
        let keys = S::keys();
        let mut values: Vec<T> = Vec::new();
        while values.len() < keys.len()
            invariant
                values@.len() <= keys@.len(),
                forall|i: int|
                    0 <= i < values@.len() ==> call_ensures(T::default, (), #[trigger] values@[i]),
            decreases keys@.len() - values@.len(),
        {
            values.push(T::default());
        }
        let res = Self { keys, values };
        assert(keys@ =~= res@.map_values(|e: (S, T)| e.0));
        res
    }

    /// A map with the entries of `key_val`, in the same order.
    pub fn new(key_val: &[(S, T)]) -> (res: Self)
        ensures
            res.well_formed(),
            res@ == key_val@,
    {
        let mut keys: Vec<S> = Vec::new();
        let mut values: Vec<T> = Vec::new();
        let mut i: usize = 0;
        while i < key_val.len()
            invariant
                i <= key_val@.len(),
                keys@.len() == i,
                values@.len() == i,
                forall|j: int| 0 <= j < i ==> keys@[j] == (#[trigger] key_val@[j]).0,
                forall|j: int| 0 <= j < i ==> values@[j] == (#[trigger] key_val@[j]).1,
            decreases key_val@.len() - i,
        {
            let (k, v) = key_val[i];
            keys.push(k);
            values.push(v);
            i += 1;
        }
        let res = Self { keys, values };
        assert(res@ =~= key_val@);
        res
    }

    /// The value of the first entry whose key equals `key`.
    pub fn get(&self, key: S) -> (res: Option<&T>)
        requires
            self.well_formed(),
        ensures
            exists|r: Option<int>|
                search_gives(self@, key, r) && res == match r {
                    Some(i) => Some(&self@[i].1),
                    None => None,
                },
            S::obeys_eq_spec() ==> res == match first_match(self@, key) {
                Some(i) => Some(&self@[i].1),
                None => None,
            },
    {
        if let Some(index) = self.index(key) {
            assert(search_gives(self@, key, Some(index as int)));
            return Some(&self.values[index]);
        }
        assert(search_gives(self@, key, None));
        None
    }

    /// Gives the first entry whose key equals `key` the value `value`; where
    /// there is none, adds the entry at the end.
    pub fn insert(&mut self, key: S, value: T)
        requires
            old(self).well_formed(),
        ensures
            final(self).well_formed(),
            exists|r: Option<int>|
                search_gives(old(self)@, key, r) && final(self)@ == match r {
                    Some(i) => old(self)@.update(i, (old(self)@[i].0, value)),
                    None => old(self)@.push((key, value)),
                },
            S::obeys_eq_spec() ==> final(self)@ == match first_match(old(self)@, key) {
                Some(i) => old(self)@.update(i, (old(self)@[i].0, value)),
                None => old(self)@.push((key, value)),
            },
    {
        if let Some(index) = self.index(key) {
            self.values.set(index, value);
            assert(self@ =~= old(self)@.update(
                index as int,
                (old(self)@[index as int].0, value),
            ));
            assert(search_gives(old(self)@, key, Some(index as int)));
            return ;
        }
        self.keys.push(key);
        self.values.push(value);
        assert(self@ =~= old(self)@.push((key, value)));
        assert(search_gives(old(self)@, key, None));
    }

    /// Removes the first entry whose key equals `key`, if there is one.
    pub fn remove(&mut self, key: S)
        requires
            old(self).well_formed(),
        ensures
            final(self).well_formed(),
            exists|r: Option<int>|
                search_gives(old(self)@, key, r) && final(self)@ == match r {
                    Some(i) => old(self)@.remove(i),
                    None => old(self)@,
                },
            S::obeys_eq_spec() ==> final(self)@ == match first_match(old(self)@, key) {
                Some(i) => old(self)@.remove(i),
                None => old(self)@,
            },
    {
        if let Some(index) = self.index(key) {
            self.keys.remove(index);
            self.values.remove(index);
            assert(self@ =~= old(self)@.remove(index as int));
            assert(search_gives(old(self)@, key, Some(index as int)));
        } else {
            assert(search_gives(old(self)@, key, None));
        }
    }

    /// The position of the first entry whose key equals `key`.
    fn index(&self, key: S) -> (res: Option<usize>)
        requires
            self.well_formed(),
        ensures
            search_gives(
                self@,
                key,
                match res {
                    Some(i) => Some(i as int),
                    None => None,
                },
            ),
            S::obeys_eq_spec() ==> first_match(self@, key) == match res {
                Some(i) => Some(i as int),
                None => None,
            },
    {
        let mut i: usize = 0;
        while i < self.keys.len()
            invariant
                self.well_formed(),
                i <= self@.len(),
                forall|j: int|
                    0 <= j < i ==> call_ensures(S::eq, (&(#[trigger] self@[j]).0, &key), false),
            decreases self@.len() - i,
        {
            if self.keys[i] == key {
                proof {
                    assert(search_gives(self@, key, Some(i as int)));
                    if S::obeys_eq_spec() {
                        lemma_search_gives_first_match(self@, key, Some(i as int));
                    }
                }
                return Some(i);
            }
            i += 1;
        }
        proof {
            assert(search_gives(self@, key, None));
            if S::obeys_eq_spec() {
                lemma_search_gives_first_match(self@, key, None);
            }
        }
        None
    }
}

} // verus!
