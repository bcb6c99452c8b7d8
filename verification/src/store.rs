//! The key/value state container passed between nodes: a map from string
//! keys to [`Value`]s, with exact contracts over its mathematical view.

use vstd::prelude::*;
use vstd::hash_map::StringHashMap;

use crate::value::{SpecValue, Value, str_eq};

verus! {

/// Lifts a map of executable values to a map of their models.
pub open spec fn lift(m: Map<Seq<char>, Value>) -> Map<Seq<char>, SpecValue> {
    m.map_values(|v: Value| v@)
}

/// The state container shared along a run: a mapping from string keys to
/// dynamically typed values. Nodes read their inputs from designated keys
/// and write their outputs to designated keys.
pub struct Store {
    map: StringHashMap<Value>,
    keys: Vec<String>,
}

impl View for Store {
    type V = Map<Seq<char>, SpecValue>;

    closed spec fn view(&self) -> Map<Seq<char>, SpecValue> {
        lift(self.map@)
    }
}

/// `keys` holds each key of `m` exactly once.
spec fn keys_ok(keys: Seq<String>, m: Map<Seq<char>, Value>) -> bool {
    &&& forall|i: int, j: int|
        0 <= i < j < keys.len() ==> keys[i]@ != keys[j]@
    &&& forall|i: int|
        0 <= i < keys.len() ==> m.contains_key(#[trigger] keys[i]@)
    &&& forall|k: Seq<char>|
        #[trigger] m.contains_key(k)
            ==> exists|i: int| 0 <= i < keys.len() && keys[i]@ == k
}

impl Store {
    /// The key list mirrors the map's domain.
    #[verifier::type_invariant]
    spec fn inv(self) -> bool {
        keys_ok(self.keys@, self.map@)
    }

    /// Creates an empty store.
    pub fn new() -> (r: Store)
        ensures
            r@ == Map::<Seq<char>, SpecValue>::empty(),
    {
        let r = Store { map: StringHashMap::new(), keys: Vec::new() };
        proof {
            assert(r@ =~= Map::<Seq<char>, SpecValue>::empty());
        }
        r
    }

    /// The number of keys in the store.
    pub fn len(&self) -> (n: usize)
        ensures
            n == self@.dom().len(),
    {
        proof {
            assert(self@.dom() =~= self.map@.dom());
        }
        self.map.len()
    }

    /// True if the store holds no keys.
    pub fn is_empty(&self) -> (r: bool)
        ensures
            r == (self@ == Map::<Seq<char>, SpecValue>::empty()),
    {
        proof {
            if self.map@.is_empty() {
                assert(self@ =~= Map::<Seq<char>, SpecValue>::empty());
            } else {
                let k = choose|k: Seq<char>| self.map@.contains_key(k);
                assert(self@.contains_key(k));
            }
        }
        self.map.is_empty()
    }

    /// True if `key` is present.
    pub fn contains_key(&self, key: &str) -> (r: bool)
        ensures
            r == self@.contains_key(key@),
    {
        self.map.contains_key(key)
    }

    /// The value stored under `key`, if any.
    pub fn get(&self, key: &str) -> (r: Option<&Value>)
        ensures
            match r {
                Some(v) => self@.contains_key(key@) && v@ == self@[key@],
                None => !self@.contains_key(key@),
            },
    {
        self.map.get(key)
    }

    /// First position of `key` in `keys`, if any.
    fn find_key(keys: &Vec<String>, key: &str) -> (r: Option<usize>)
        ensures
            match r {
                Some(i) => i < keys@.len() && keys@[i as int]@ == key@,
                None => forall|j: int| 0 <= j < keys@.len() ==> keys@[j]@ != key@,
            },
    {
        let mut i: usize = 0;
        while i < keys.len()
            invariant
                i <= keys@.len(),
                forall|j: int| 0 <= j < i ==> keys@[j]@ != key@,
            decreases keys.len() - i,
        {
            if str_eq(keys[i].as_str(), key) {
                return Some(i);
            }
            i += 1;
        }
        None
    }

    /// Stores `value` under `key`, replacing any previous value.
    pub fn set(&mut self, key: &str, value: Value)
        ensures
            final(self)@ == old(self)@.insert(key@, value@),
    {
        proof {
            use_type_invariant(&*self);
        }
        let ghost old_map = self.map@;
        let ghost old_keys = self.keys@;
        let mut tmp = Store::new();
        core::mem::swap(&mut tmp, self);
        let Store { mut map, mut keys } = tmp;
        proof {
            assert(map@ == old_map);
            assert(keys@ == old_keys);
        }
        let had = map.contains_key(key);
        map.insert(key.to_owned(), value);
        if !had {
            keys.push(key.to_owned());
            proof {
                assert forall|i: int, j: int|
                    0 <= i < j < keys@.len() implies keys@[i]@ != keys@[j]@ by {
                    if j < old_keys.len() {
                        assert(keys@[i]@ != keys@[j]@);
                    } else {
                        assert(keys@[j]@ == key@);
                        assert(old_map.contains_key(old_keys[i]@));
                    }
                }
                assert forall|k: Seq<char>|
                    #[trigger] map@.contains_key(k) implies
                    exists|i: int| 0 <= i < keys@.len() && keys@[i]@ == k by {
                    if k == key@ {
                        assert(keys@[old_keys.len() as int]@ == k);
                    } else {
                        let i = choose|i: int|
                            0 <= i < old_keys.len() && old_keys[i]@ == k;
                        assert(keys@[i]@ == k);
                    }
                }
            }
        } else {
            proof {
                assert forall|k: Seq<char>|
                    #[trigger] map@.contains_key(k) implies
                    exists|i: int| 0 <= i < keys@.len() && keys@[i]@ == k by {
                    assert(old_map.contains_key(k));
                    let i = choose|i: int|
                        0 <= i < old_keys.len() && old_keys[i]@ == k;
                    assert(keys@[i]@ == k);
                }
            }
        }
        proof {
            assert forall|i: int|
                0 <= i < keys@.len() implies map@.contains_key(#[trigger] keys@[i]@) by {
                if i < old_keys.len() {
                    assert(old_map.contains_key(old_keys[i]@));
                }
            }
            assert(keys_ok(keys@, map@));
        }
        *self = Store { map, keys };
        proof {
            assert(self@ =~= old(self)@.insert(key@, value@));
        }
    }

    /// Removes `key` from the store, if present.
    pub fn remove(&mut self, key: &str)
        ensures
            final(self)@ == old(self)@.remove(key@),
    {
        proof {
            use_type_invariant(&*self);
        }
        if !self.map.contains_key(key) {
            proof {
                assert(self@ =~= old(self)@.remove(key@));
            }
            return;
        }
        let ghost old_map = self.map@;
        let ghost old_keys = self.keys@;
        let mut tmp = Store::new();
        core::mem::swap(&mut tmp, self);
        let Store { mut map, mut keys } = tmp;
        proof {
            assert(map@ == old_map);
            assert(keys@ == old_keys);
        }
        map.remove(key);
        match Self::find_key(&keys, key) {
            Some(i) => {
                keys.swap_remove(i);
                proof {
                    let ks = keys@;
                    assert forall|p: int, q: int|
                        0 <= p < q < ks.len() implies ks[p]@ != ks[q]@ by {
                        let p0: int = if p == i { old_keys.len() - 1 } else { p };
                        let q0: int = if q == i { old_keys.len() - 1 } else { q };
                        assert(ks[p] == old_keys[p0]);
                        assert(ks[q] == old_keys[q0]);
                    }
                    assert forall|p: int|
                        0 <= p < ks.len() implies map@.contains_key(#[trigger] ks[p]@) by {
                        let p0: int = if p == i { old_keys.len() - 1 } else { p };
                        assert(ks[p] == old_keys[p0]);
                        assert(ks[p]@ != key@);
                    }
                    assert forall|k: Seq<char>|
                        #[trigger] map@.contains_key(k) implies
                        exists|j: int| 0 <= j < ks.len() && ks[j]@ == k by {
                        assert(old_map.contains_key(k));
                        let j0 = choose|j0: int|
                            0 <= j0 < old_keys.len() && old_keys[j0]@ == k;
                        if j0 == old_keys.len() - 1 {
                            if i < old_keys.len() - 1 {
                                assert(ks[i as int]@ == k);
                            }
                        } else {
                            assert(ks[j0]@ == k);
                        }
                    }
                }
            },
            None => {
                // Unreachable: the key was present, so it has a position.
                proof {
                    let j = choose|j: int|
                        0 <= j < old_keys.len() && old_keys[j]@ == key@;
                    assert(old_keys[j]@ != key@);
                }
            },
        }
        proof {
            assert(keys_ok(keys@, map@));
        }
        *self = Store { map, keys };
        proof {
            assert(self@ =~= old(self)@.remove(key@));
        }
    }

    /// The keys currently present, each exactly once, in insertion order.
    pub fn keys(&self) -> (r: &Vec<String>)
        ensures
            forall|i: int| 0 <= i < r@.len() ==> self@.contains_key(#[trigger] r@[i]@),
            forall|k: Seq<char>|
                #[trigger] self@.contains_key(k)
                    ==> exists|i: int| 0 <= i < r@.len() && r@[i]@ == k,
            forall|i: int, j: int| 0 <= i < j < r@.len() ==> r@[i]@ != r@[j]@,
    {
        proof {
            use_type_invariant(self);
        }
        &self.keys
    }

    /// An independent copy of the store: later changes to either copy are
    /// invisible to the other.
    pub fn clone_snapshot(&self) -> (r: Store)
        ensures
            r@ == self@,
    {
        proof {
            use_type_invariant(self);
        }
        let mut out = Store::new();
        let mut i: usize = 0;
        while i < self.keys.len()
            invariant
                self.inv(),
                i <= self.keys@.len(),
                forall|j: int|
                    0 <= j < i ==> out@.contains_key(#[trigger] self.keys@[j]@)
                        && out@[self.keys@[j]@] == self@[self.keys@[j]@],
                forall|k: Seq<char>|
                    #[trigger] out@.contains_key(k)
                        ==> exists|j: int| 0 <= j < i && self.keys@[j]@ == k,
            decreases self.keys.len() - i,
        {
            let key = &self.keys[i];
            match self.map.get(key.as_str()) {
                Some(v) => {
                    out.set(key.as_str(), v.clone());
                },
                None => {},
            }
            proof {
                assert forall|k: Seq<char>|
                    #[trigger] out@.contains_key(k) implies
                    exists|j: int| 0 <= j < i + 1 && self.keys@[j]@ == k by {
                    if k == self.keys@[i as int]@ {
                        assert(self.keys@[i as int]@ == k);
                    }
                }
            }
            i += 1;
        }
        proof {
            assert forall|k: Seq<char>|
                #[trigger] self@.contains_key(k) implies out@.contains_key(k)
                && out@[k] == self@[k] by {
                let j = choose|j: int|
                    0 <= j < self.keys@.len() && self.keys@[j]@ == k;
                assert(out@.contains_key(self.keys@[j]@));
            }
            assert(out@ =~= self@);
        }
        out
    }
}

impl Clone for Store {
    /// A clone is an independent copy with the same contents.
    fn clone(&self) -> (r: Self)
        ensures
            r@ == self@,
    {
        self.clone_snapshot()
    }
}

} // verus!
