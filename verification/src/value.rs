//! Dynamically typed values stored in a [`crate::store::Store`]: null,
//! booleans, integers, strings, arrays and nested objects.

use vstd::prelude::*;

verus! {

broadcast use
    vstd::std_specs::vec::axiom_vec_index_decreases,
    vstd::std_specs::vec::axiom_vec_decreases_to_view,
    vstd::seq::axiom_seq_index_decreases,
    vstd::seq::axiom_seq_subrange_decreases;

/// The mathematical model of a [`Value`]: the same shape, built from
/// `int`, `Seq<char>` and `Seq` instead of the executable types.
pub enum SpecValue {
    Null,
    Bool(bool),
    Int(int),
    Str(Seq<char>),
    Arr(Seq<SpecValue>),
    Obj(Seq<(Seq<char>, SpecValue)>),
}

/// A dynamically typed value: the currency that nodes read from and write
/// into the shared state.
pub enum Value {
    Null,
    Bool(bool),
    Int(i64),
    Str(String),
    Arr(Vec<Value>),
    Obj(Vec<(String, Value)>),
}

impl Value {
    /// The mathematical model of this value.
    pub open spec fn deep(self) -> SpecValue
        decreases self,
    {
        match self {
            Value::Null => SpecValue::Null,
            Value::Bool(b) => SpecValue::Bool(b),
            Value::Int(i) => SpecValue::Int(i as int),
            Value::Str(s) => SpecValue::Str(s@),
            Value::Arr(xs) => SpecValue::Arr(Value::deep_seq(xs@)),
            Value::Obj(ps) => SpecValue::Obj(Value::deep_pairs(ps@)),
        }
    }

    /// The models of a sequence of values, in order.
    pub open spec fn deep_seq(s: Seq<Value>) -> Seq<SpecValue>
        decreases s,
    {
        if s.len() == 0 {
            Seq::empty()
        } else {
            Value::deep_seq(s.drop_last()).push(s.last().deep())
        }
    }

    /// The models of a sequence of key/value pairs, in order.
    pub open spec fn deep_pairs(s: Seq<(String, Value)>) -> Seq<(Seq<char>, SpecValue)>
        decreases s,
    {
        if s.len() == 0 {
            Seq::empty()
        } else {
            Value::deep_pairs(s.drop_last()).push((s.last().0@, s.last().1.deep()))
        }
    }
}

impl View for Value {
    type V = SpecValue;

    open spec fn view(&self) -> SpecValue {
        self.deep()
    }
}

/// The model of a sequence of values is the sequence of their models.
pub proof fn lemma_deep_seq(s: Seq<Value>)
    ensures
        Value::deep_seq(s).len() == s.len(),
        forall|i: int| 0 <= i < s.len() ==> Value::deep_seq(s)[i] == s[i]@,
    decreases s.len(),
{
    if s.len() > 0 {
        lemma_deep_seq(s.drop_last());
    }
}

/// The model of a sequence of pairs is the sequence of pairwise models.
pub proof fn lemma_deep_pairs(s: Seq<(String, Value)>)
    ensures
        Value::deep_pairs(s).len() == s.len(),
        forall|i: int| 0 <= i < s.len()
            ==> Value::deep_pairs(s)[i] == (s[i].0@, s[i].1@),
    decreases s.len(),
{
    if s.len() > 0 {
        lemma_deep_pairs(s.drop_last());
    }
}

impl Clone for Value {
    /// A clone has the same model as the original.
    fn clone(&self) -> (res: Self)
        ensures
            res@ == self@,
        decreases self@,
    {
        match self {
            Value::Null => Value::Null,
            Value::Bool(b) => Value::Bool(*b),
            Value::Int(i) => Value::Int(*i),
            Value::Str(s) => Value::Str(s.clone()),
            Value::Arr(xs) => {
                let mut out: Vec<Value> = Vec::new();
                let mut i: usize = 0;
                while i < xs.len()
                    invariant
                        *self == Value::Arr(*xs),
                        i <= xs.len(),
                        out@.len() == i,
                        forall|j: int| 0 <= j < i ==> out@[j]@ == xs@[j]@,
                    decreases xs.len() - i,
                {
                    proof {
                        lemma_deep_seq(xs@);
                        assert(decreases_to!(self@ => self@->Arr_0));
                        assert(self@->Arr_0 == Value::deep_seq(xs@));
                        assert(decreases_to!(
                            Value::deep_seq(xs@) => Value::deep_seq(xs@)[i as int]
                        ));
                        assert(Value::deep_seq(xs@)[i as int] == xs@[i as int]@);
                    }
                    out.push(xs[i].clone());
                    i += 1;
                }
                proof {
                    lemma_deep_seq(out@);
                    lemma_deep_seq(xs@);
                    assert(Value::deep_seq(out@) =~= Value::deep_seq(xs@));
                }
                Value::Arr(out)
            },
            Value::Obj(ps) => {
                let mut out: Vec<(String, Value)> = Vec::new();
                let mut i: usize = 0;
                while i < ps.len()
                    invariant
                        *self == Value::Obj(*ps),
                        i <= ps.len(),
                        out@.len() == i,
                        forall|j: int| 0 <= j < i
                            ==> out@[j].0@ == ps@[j].0@ && out@[j].1@ == ps@[j].1@,
                    decreases ps.len() - i,
                {
                    proof {
                        lemma_deep_pairs(ps@);
                        assert(decreases_to!(self@ => self@->Obj_0));
                        assert(self@->Obj_0 == Value::deep_pairs(ps@));
                        assert(decreases_to!(
                            Value::deep_pairs(ps@) => Value::deep_pairs(ps@)[i as int]
                        ));
                        assert(decreases_to!(
                            Value::deep_pairs(ps@)[i as int] => Value::deep_pairs(ps@)[i as int].1
                        ));
                        assert(Value::deep_pairs(ps@)[i as int].1 == ps@[i as int].1@);
                    }
                    let pair = &ps[i];
                    out.push((pair.0.clone(), pair.1.clone()));
                    i += 1;
                }
                proof {
                    lemma_deep_pairs(out@);
                    lemma_deep_pairs(ps@);
                    assert(Value::deep_pairs(out@) =~= Value::deep_pairs(ps@));
                }
                Value::Obj(out)
            },
        }
    }
}

impl Value {
    /// The integer carried by an `Int` value.
    pub fn as_int(&self) -> (r: Option<i64>)
        ensures
            match r {
                Some(i) => self@ == SpecValue::Int(i as int),
                None => !(self@ is Int),
            },
    {
        match self {
            Value::Int(i) => Some(*i),
            _ => None,
        }
    }

    /// The boolean carried by a `Bool` value.
    pub fn as_bool(&self) -> (r: Option<bool>)
        ensures
            match r {
                Some(b) => self@ == SpecValue::Bool(b),
                None => !(self@ is Bool),
            },
    {
        match self {
            Value::Bool(b) => Some(*b),
            _ => None,
        }
    }

    /// The string carried by a `Str` value.
    pub fn as_str(&self) -> (r: Option<&String>)
        ensures
            match r {
                Some(s) => self@ == SpecValue::Str(s@),
                None => !(self@ is Str),
            },
    {
        match self {
            Value::Str(s) => Some(s),
            _ => None,
        }
    }

    /// The elements carried by an `Arr` value.
    pub fn as_arr(&self) -> (r: Option<&Vec<Value>>)
        ensures
            match r {
                Some(xs) => self@ == SpecValue::Arr(Value::deep_seq(xs@)),
                None => !(self@ is Arr),
            },
    {
        match self {
            Value::Arr(xs) => Some(xs),
            _ => None,
        }
    }

    /// The key/value pairs carried by an `Obj` value.
    pub fn as_obj(&self) -> (r: Option<&Vec<(String, Value)>>)
        ensures
            match r {
                Some(ps) => self@ == SpecValue::Obj(Value::deep_pairs(ps@)),
                None => !(self@ is Obj),
            },
    {
        match self {
            Value::Obj(ps) => Some(ps),
            _ => None,
        }
    }

    /// True if the value is `Null`.
    pub fn is_null(&self) -> (r: bool)
        ensures
            r == (self@ is Null),
    {
        match self {
            Value::Null => true,
            _ => false,
        }
    }
}

/// First value under `key` in a sequence of model pairs, scanning in order.
pub open spec fn spec_pairs_get(
    ps: Seq<(Seq<char>, SpecValue)>,
    key: Seq<char>,
) -> Option<SpecValue>
    decreases ps.len(),
{
    if ps.len() == 0 {
        None
    } else if ps[0].0 == key {
        Some(ps[0].1)
    } else {
        spec_pairs_get(ps.drop_first(), key)
    }
}

impl Value {
    /// For an `Obj` value: the first entry stored under `key`, if any.
    pub fn obj_get(&self, key: &str) -> (r: Option<&Value>)
        ensures
            match r {
                Some(v) => self@ is Obj
                    && spec_pairs_get(self@->Obj_0, key@) == Some(v@),
                None => self@ is Obj ==> spec_pairs_get(self@->Obj_0, key@) is None,
            },
    {
        match self {
            Value::Obj(ps) => {
                proof {
                    lemma_deep_pairs(ps@);
                    assert(Value::deep_pairs(ps@).skip(0) =~= Value::deep_pairs(ps@));
                }
                let mut i: usize = 0;
                while i < ps.len()
                    invariant
                        i <= ps.len(),
                        self@ is Obj,
                        self@->Obj_0 == Value::deep_pairs(ps@),
                        Value::deep_pairs(ps@).len() == ps@.len(),
                        forall|j: int| 0 <= j < ps@.len()
                            ==> Value::deep_pairs(ps@)[j] == (ps@[j].0@, ps@[j].1@),
                        forall|j: int| 0 <= j < i ==> ps@[j].0@ != key@,
                        spec_pairs_get(Value::deep_pairs(ps@), key@)
                            == spec_pairs_get(Value::deep_pairs(ps@).skip(i as int), key@),
                    decreases ps.len() - i,
                {
                    let pair = &ps[i];
                    if str_eq(pair.0.as_str(), key) {
                        proof {
                            assert(Value::deep_pairs(ps@).skip(i as int)[0]
                                == (ps@[i as int].0@, ps@[i as int].1@));
                        }
                        return Some(&pair.1);
                    }
                    proof {
                        assert(Value::deep_pairs(ps@).skip(i as int).drop_first()
                            =~= Value::deep_pairs(ps@).skip(i + 1));
                    }
                    i += 1;
                }
                proof {
                    assert(Value::deep_pairs(ps@).skip(ps@.len() as int).len() == 0);
                }
                None
            },
            _ => None,
        }
    }
}

/// Relies on `str`'s `PartialEq`: two string slices are equal exactly when
/// their characters are equal.
#[verifier::external_body]
pub fn str_eq(a: &str, b: &str) -> (r: bool)
    ensures
        r == (a@ == b@),
{
    a == b
}

} // verus!

