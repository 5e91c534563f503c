//! A model of CBOR data items and tools to read NOODLES messages from them.
use vstd::prelude::*;

verus! {

/// A CBOR data item as the NOODLES protocol exchanges it.
///
/// Floating point numbers are carried by their IEEE-754 bit pattern, and
/// a CBOR map is kept, as on the wire, as a list of key and value pairs.
#[derive(Debug, PartialEq)]
pub enum CborValue {
    Integer(i128),
    Bytes(Vec<u8>),
    Float(u64),
    Text(String),
    Bool(bool),
    Null,
    Tag(u64, Box<CborValue>),
    Array(Vec<CborValue>),
    Dict(Vec<(CborValue, CborValue)>),
}

/// The mathematical model of a [`CborValue`].
pub enum ValueModel {
    Integer(int),
    Bytes(Seq<u8>),
    Float(u64),
    Text(Seq<char>),
    Bool(bool),
    Null,
    Tag(u64, Box<ValueModel>),
    Array(Seq<ValueModel>),
    Dict(Seq<(ValueModel, ValueModel)>),
}

pub open spec fn model_of(v: CborValue) -> ValueModel
    decreases v, 1nat,
{
    match v {
        CborValue::Integer(i) => ValueModel::Integer(i as int),
        CborValue::Bytes(b) => ValueModel::Bytes(b@),
        CborValue::Float(f) => ValueModel::Float(f),
        CborValue::Text(s) => ValueModel::Text(s@),
        CborValue::Bool(b) => ValueModel::Bool(b),
        CborValue::Null => ValueModel::Null,
        CborValue::Tag(t, inner) => ValueModel::Tag(t, Box::new(model_of(*inner))),
        CborValue::Array(a) => ValueModel::Array(models_of(a@)),
        CborValue::Dict(m) => ValueModel::Dict(pair_models_of(m@)),
    }
}

/// The models of a sequence of values, element by element.
pub open spec fn models_of(s: Seq<CborValue>) -> Seq<ValueModel>
    decreases s, 0nat,
{
    if s.len() == 0 {
        Seq::empty()
    } else {
        seq![model_of(s[0])] + models_of(s.drop_first())
    }
}

/// The models of a sequence of key and value pairs, pair by pair.
pub open spec fn pair_models_of(s: Seq<(CborValue, CborValue)>) -> Seq<(ValueModel, ValueModel)>
    decreases s, 0nat,
{
    if s.len() == 0 {
        Seq::empty()
    } else {
        seq![(model_of(s[0].0), model_of(s[0].1))] + pair_models_of(s.drop_first())
    }
}

impl View for CborValue {
    type V = ValueModel;

    open spec fn view(&self) -> ValueModel {
        model_of(*self)
    }
}

impl DeepView for CborValue {
    type V = ValueModel;

    open spec fn deep_view(&self) -> ValueModel {
        model_of(*self)
    }
}

pub proof fn lemma_models_of(s: Seq<CborValue>)
    ensures
        models_of(s).len() == s.len(),
        forall|i: int| 0 <= i < s.len() ==> #[trigger] models_of(s)[i] == model_of(s[i]),
    decreases s.len(),
{
    if s.len() > 0 {
        lemma_models_of(s.drop_first());
        assert forall|i: int| 0 <= i < s.len() implies #[trigger] models_of(s)[i] == model_of(
            s[i],
        ) by {
            if i > 0 {
                assert(s.drop_first()[i - 1] == s[i]);
            }
        }
    }
}

pub proof fn lemma_pair_models_of(s: Seq<(CborValue, CborValue)>)
    ensures
        pair_models_of(s).len() == s.len(),
        forall|i: int|
            0 <= i < s.len() ==> #[trigger] pair_models_of(s)[i] == (
                model_of(s[i].0),
                model_of(s[i].1),
            ),
    decreases s.len(),
{
    if s.len() > 0 {
        lemma_pair_models_of(s.drop_first());
        assert forall|i: int| 0 <= i < s.len() implies #[trigger] pair_models_of(s)[i] == (
            model_of(s[i].0),
            model_of(s[i].1),
        ) by {
            if i > 0 {
                assert(s.drop_first()[i - 1] == s[i]);
            }
        }
    }
}

/// Two sequences of values have the same models when they agree element by element.
pub proof fn lemma_models_of_ext(s: Seq<CborValue>, m: Seq<ValueModel>)
    requires
        s.len() == m.len(),
        forall|i: int| 0 <= i < s.len() ==> model_of(#[trigger] s[i]) == m[i],
    ensures
        models_of(s) == m,
{
    lemma_models_of(s);
    assert(models_of(s) =~= m);
}

pub proof fn lemma_pair_models_of_ext(s: Seq<(CborValue, CborValue)>, m: Seq<(ValueModel, ValueModel)>)
    requires
        s.len() == m.len(),
        forall|i: int|
            0 <= i < s.len() ==> (model_of(#[trigger] s[i].0), model_of(s[i].1)) == m[i],
    ensures
        pair_models_of(s) == m,
{
    lemma_pair_models_of(s);
    assert(pair_models_of(s) =~= m);
}

/// Appending a pair appends its models.
pub proof fn lemma_pair_models_of_push(s: Seq<(CborValue, CborValue)>, p: (CborValue, CborValue))
    ensures
        pair_models_of(s.push(p)) == pair_models_of(s).push((model_of(p.0), model_of(p.1))),
{
    lemma_pair_models_of(s);
    lemma_pair_models_of(s.push(p));
    assert(pair_models_of(s.push(p)) =~= pair_models_of(s).push((model_of(p.0), model_of(p.1))));
}

/// Appending a value appends its model.
pub proof fn lemma_models_of_push(s: Seq<CborValue>, v: CborValue)
    ensures
        models_of(s.push(v)) == models_of(s).push(model_of(v)),
{
    lemma_models_of(s);
    lemma_models_of(s.push(v));
    assert(models_of(s.push(v)) =~= models_of(s).push(model_of(v)));
}

/// Compare two values by their models.
pub fn value_eq(a: &CborValue, b: &CborValue) -> (r: bool)
    ensures
        r == (a@ == b@),
    decreases a,
{
    match (a, b) {
        (CborValue::Integer(x), CborValue::Integer(y)) => *x == *y,
        (CborValue::Bytes(x), CborValue::Bytes(y)) => {
            if x.len() != y.len() {
                assert(x@.len() != y@.len());
                return false;
            }
            let mut i: usize = 0;
            while i < x.len()
                invariant
                    x.len() == y.len(),
                    i <= x.len(),
                    forall|j: int| 0 <= j < i ==> x@[j] == y@[j],
                    a@ == ValueModel::Bytes(x@),
                    b@ == ValueModel::Bytes(y@),
                decreases x.len() - i,
            {
                if x[i] != y[i] {
                    assert(x@[i as int] != y@[i as int]);
                    assert(x@ != y@);
                    return false;
                }
                i = i + 1;
            }
            assert(x@ =~= y@);
            true
        },
        (CborValue::Float(x), CborValue::Float(y)) => *x == *y,
        (CborValue::Text(x), CborValue::Text(y)) => *x == *y,
        (CborValue::Bool(x), CborValue::Bool(y)) => *x == *y,
        (CborValue::Null, CborValue::Null) => true,
        (CborValue::Tag(t, x), CborValue::Tag(u, y)) => {
            if *t != *u {
                return false;
            }
            value_eq(x, y)
        },
        (CborValue::Array(x), CborValue::Array(y)) => {
            proof {
                lemma_models_of(x@);
                lemma_models_of(y@);
            }
            if x.len() != y.len() {
                return false;
            }
            let mut i: usize = 0;
            while i < x.len()
                invariant
                    x.len() == y.len(),
                    i <= x.len(),
                    forall|j: int| 0 <= j < i ==> model_of(x@[j]) == model_of(y@[j]),
                    *a == CborValue::Array(*x),
                    *b == CborValue::Array(*y),
                    models_of(x@).len() == x@.len(),
                    models_of(y@).len() == y@.len(),
                    forall|j: int| 0 <= j < x@.len() ==> #[trigger] models_of(x@)[j] == model_of(x@[j]),
                    forall|j: int| 0 <= j < y@.len() ==> #[trigger] models_of(y@)[j] == model_of(y@[j]),
                decreases x.len() - i,
            {
                proof {
                    assert(decreases_to!(*x => x@[i as int])) by {
                        broadcast use vstd::std_specs::vec::axiom_vec_index_decreases;
                    }
                    assert(decreases_to!(*a => (*a)->Array_0));
                    assert(decreases_to!(*a => x@[i as int]));
                }
                if !value_eq(&x[i], &y[i]) {
                    assert(models_of(x@)[i as int] != models_of(y@)[i as int]);
                    assert(models_of(x@) != models_of(y@));
                    return false;
                }
                i = i + 1;
            }
            assert(models_of(x@) =~= models_of(y@));
            true
        },
        (CborValue::Dict(x), CborValue::Dict(y)) => {
            proof {
                lemma_pair_models_of(x@);
                lemma_pair_models_of(y@);
            }
            if x.len() != y.len() {
                return false;
            }
            let mut i: usize = 0;
            while i < x.len()
                invariant
                    x.len() == y.len(),
                    i <= x.len(),
                    forall|j: int| 0 <= j < i ==> pair_models_of(x@)[j] == pair_models_of(y@)[j],
                    *a == CborValue::Dict(*x),
                    *b == CborValue::Dict(*y),
                    pair_models_of(x@).len() == x@.len(),
                    pair_models_of(y@).len() == y@.len(),
                    forall|j: int| 0 <= j < x@.len() ==> #[trigger] pair_models_of(x@)[j] == (model_of(x@[j].0), model_of(x@[j].1)),
                    forall|j: int| 0 <= j < y@.len() ==> #[trigger] pair_models_of(y@)[j] == (model_of(y@[j].0), model_of(y@[j].1)),
                decreases x.len() - i,
            {
                proof {
                    assert(decreases_to!(*x => x@[i as int])) by {
                        broadcast use vstd::std_specs::vec::axiom_vec_index_decreases;
                    }
                    assert(decreases_to!(*a => (*a)->Dict_0));
                    assert(decreases_to!(*a => x@[i as int]));
                }
                if !value_eq(&x[i].0, &y[i].0) {
                    assert(pair_models_of(x@)[i as int] != pair_models_of(y@)[i as int]);
                    assert(pair_models_of(x@) != pair_models_of(y@));
                    return false;
                }
                if !value_eq(&x[i].1, &y[i].1) {
                    assert(pair_models_of(x@)[i as int] != pair_models_of(y@)[i as int]);
                    assert(pair_models_of(x@) != pair_models_of(y@));
                    return false;
                }
                i = i + 1;
            }
            assert(pair_models_of(x@) =~= pair_models_of(y@));
            true
        },
        _ => false,
    }
}


impl CborValue {
    /// A copy of this value, with the same model.
    pub fn deep_clone(&self) -> (r: CborValue)
        ensures
            r@ == self@,
        decreases self,
    {
        match self {
            CborValue::Integer(x) => CborValue::Integer(*x),
            CborValue::Bytes(x) => {
                let c = x.clone();
                assert(c@ =~= x@);
                CborValue::Bytes(c)
            },
            CborValue::Float(x) => CborValue::Float(*x),
            CborValue::Text(x) => CborValue::Text(x.clone()),
            CborValue::Bool(x) => CborValue::Bool(*x),
            CborValue::Null => CborValue::Null,
            CborValue::Tag(t, x) => CborValue::Tag(*t, Box::new(x.deep_clone())),
            CborValue::Array(x) => {
                let mut out: Vec<CborValue> = Vec::new();
                let mut i: usize = 0;
                while i < x.len()
                    invariant
                        i <= x.len(),
                        out.len() == i,
                        *self == CborValue::Array(*x),
                        forall|j: int| 0 <= j < i ==> model_of(#[trigger] out@[j]) == model_of(x@[j]),
                    decreases x.len() - i,
                {
                    proof {
                        assert(decreases_to!(*x => x@[i as int])) by {
                            broadcast use vstd::std_specs::vec::axiom_vec_index_decreases;
                        }
                        assert(decreases_to!(*self => (*self)->Array_0));
                    }
                    let c = x[i].deep_clone();
                    out.push(c);
                    i = i + 1;
                }
                proof {
                    lemma_models_of(x@);
                    lemma_models_of_ext(out@, models_of(x@));
                }
                CborValue::Array(out)
            },
            CborValue::Dict(x) => {
                let mut out: Vec<(CborValue, CborValue)> = Vec::new();
                let mut i: usize = 0;
                while i < x.len()
                    invariant
                        i <= x.len(),
                        out.len() == i,
                        *self == CborValue::Dict(*x),
                        forall|j: int|
                            0 <= j < i ==> model_of(#[trigger] out@[j].0) == model_of(x@[j].0)
                                && model_of(out@[j].1) == model_of(x@[j].1),
                    decreases x.len() - i,
                {
                    proof {
                        assert(decreases_to!(*x => x@[i as int])) by {
                            broadcast use vstd::std_specs::vec::axiom_vec_index_decreases;
                        }
                        assert(decreases_to!(*self => (*self)->Dict_0));
                    }
                    let k = x[i].0.deep_clone();
                    let v = x[i].1.deep_clone();
                    out.push((k, v));
                    i = i + 1;
                }
                proof {
                    lemma_pair_models_of(x@);
                    lemma_pair_models_of_ext(out@, pair_models_of(x@));
                }
                CborValue::Dict(out)
            },
        }
    }
}

/// A copy of the pairs of a CBOR map, with the same models.
pub fn clone_pairs(x: &Vec<(CborValue, CborValue)>) -> (r: Vec<(CborValue, CborValue)>)
    ensures
        pair_models_of(r@) == pair_models_of(x@),
{
    let mut out: Vec<(CborValue, CborValue)> = Vec::new();
    let mut i: usize = 0;
    while i < x.len()
        invariant
            i <= x.len(),
            out.len() == i,
            forall|j: int|
                0 <= j < i ==> model_of(#[trigger] out@[j].0) == model_of(x@[j].0)
                    && model_of(out@[j].1) == model_of(x@[j].1),
        decreases x.len() - i,
    {
        let k = x[i].0.deep_clone();
        let v = x[i].1.deep_clone();
        out.push((k, v));
        i = i + 1;
    }
    proof {
        lemma_pair_models_of(x@);
        lemma_pair_models_of_ext(out@, pair_models_of(x@));
    }
    out
}

impl Clone for CborValue {
    fn clone(&self) -> (r: CborValue)
        ensures
            r@ == self@,
    {
        self.deep_clone()
    }
}

/// The name of the kind of a value, as error messages report it.
pub open spec fn value_type_name(v: ValueModel) -> Seq<char>
    decreases v,
{
    match v {
        ValueModel::Integer(_) => "Integer"@,
        ValueModel::Bytes(_) => "Bytes"@,
        ValueModel::Float(_) => "Float"@,
        ValueModel::Text(_) => "Text"@,
        ValueModel::Bool(_) => "Bool"@,
        ValueModel::Null => "Null"@,
        ValueModel::Tag(_, x) => "Tagged: "@ + value_type_name(*x),
        ValueModel::Array(_) => "Array"@,
        ValueModel::Dict(_) => "Map"@,
    }
}

/// Get a string corresponding to a CBOR type
pub fn get_value_type(value: &CborValue) -> (r: String)
    ensures
        r@ == value_type_name(value@),
    decreases value,
{
    match value {
        CborValue::Integer(_) => String::from_str("Integer"),
        CborValue::Bytes(_) => String::from_str("Bytes"),
        CborValue::Float(_) => String::from_str("Float"),
        CborValue::Text(_) => String::from_str("Text"),
        CborValue::Bool(_) => String::from_str("Bool"),
        CborValue::Null => String::from_str("Null"),
        CborValue::Tag(_, x) => {
            let inner = get_value_type(x);
            let mut out = String::from_str("Tagged: ");
            out.append(inner.as_str());
            out
        },
        CborValue::Array(_) => String::from_str("Array"),
        CborValue::Dict(_) => String::from_str("Map"),
    }
}

} // verus!
