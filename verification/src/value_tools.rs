//! Tools to read and write NOODLES structures as CBOR values.
use vstd::prelude::*;
use crate::value::{CborValue, ValueModel, model_of, pair_models_of, lemma_pair_models_of, value_type_name, get_value_type, value_eq};

verus! {

/// Errors while reading a structure from a CBOR value.
#[derive(Debug)]
pub enum FromValueError {
    /// A required field is missing
    MissingField(String),
    /// The value is of another kind than the one expected
    WrongType { expected: String, found: String },
    /// An integer does not fit the destination
    IntegerCast,
    /// A source array holds too few elements
    ArrayUnderflow,
}

/// The mathematical model of a [`FromValueError`].
pub enum FromValueErrorModel {
    MissingField(Seq<char>),
    WrongType { expected: Seq<char>, found: Seq<char> },
    IntegerCast,
    ArrayUnderflow,
}

impl View for FromValueError {
    type V = FromValueErrorModel;

    open spec fn view(&self) -> FromValueErrorModel {
        match self {
            FromValueError::MissingField(s) => FromValueErrorModel::MissingField(s@),
            FromValueError::WrongType { expected, found } => FromValueErrorModel::WrongType {
                expected: expected@,
                found: found@,
            },
            FromValueError::IntegerCast => FromValueErrorModel::IntegerCast,
            FromValueError::ArrayUnderflow => FromValueErrorModel::ArrayUnderflow,
        }
    }
}

impl Clone for FromValueError {
    fn clone(&self) -> (r: Self)
        ensures
            r@ == self@,
    {
        match self {
            FromValueError::MissingField(s) => FromValueError::MissingField(s.clone()),
            FromValueError::WrongType { expected, found } => FromValueError::WrongType {
                expected: expected.clone(),
                found: found.clone(),
            },
            FromValueError::IntegerCast => FromValueError::IntegerCast,
            FromValueError::ArrayUnderflow => FromValueError::ArrayUnderflow,
        }
    }
}

/// The error reported when a value of kind `expected` was required and `found` was given.
pub open spec fn wrong_type(expected: Seq<char>, found: ValueModel) -> FromValueErrorModel {
    FromValueErrorModel::WrongType { expected, found: value_type_name(found) }
}

fn make_wrong_type(expected: &str, found: &CborValue) -> (r: FromValueError)
    ensures
        r@ == wrong_type(expected@, found@),
{
    FromValueError::WrongType { expected: String::from_str(expected), found: get_value_type(found) }
}

// =============================================================================

/// The value stored under the first key of `s` equal to `k`, if any.
pub open spec fn lookup_model(s: Seq<(ValueModel, ValueModel)>, k: ValueModel) -> Option<
    ValueModel,
>
    decreases s.len(),
{
    if s.len() == 0 {
        None
    } else if s[0].0 == k {
        Some(s[0].1)
    } else {
        lookup_model(s.drop_first(), k)
    }
}

proof fn lemma_lookup_model_step(s: Seq<(ValueModel, ValueModel)>, k: ValueModel, i: int)
    requires
        0 <= i < s.len(),
    ensures
        lookup_model(s.skip(i), k) == if s[i].0 == k {
            Some(s[i].1)
        } else {
            lookup_model(s.skip(i + 1), k)
        },
{
    assert(s.skip(i).drop_first() =~= s.skip(i + 1));
}

/// Look up a value in a map
pub fn lookup<'a>(v: &CborValue, map: &'a Vec<(CborValue, CborValue)>) -> (r: Option<&'a CborValue>)
    ensures
        match r {
            Some(x) => lookup_model(pair_models_of(map@), v@) == Some(x@),
            None => lookup_model(pair_models_of(map@), v@) is None,
        },
{
    let ghost s = pair_models_of(map@);
    proof {
        lemma_pair_models_of(map@);
        assert(s.skip(0) =~= s);
    }
    let mut i: usize = 0;
    while i < map.len()
        invariant
            i <= map.len(),
            s == pair_models_of(map@),
            s.len() == map@.len(),
            forall|j: int|
                0 <= j < map@.len() ==> #[trigger] s[j] == (model_of(map@[j].0), model_of(
                    map@[j].1,
                )),
            lookup_model(s, v@) == lookup_model(s.skip(i as int), v@),
        decreases map.len() - i,
    {
        proof {
            lemma_lookup_model_step(s, v@, i as int);
        }
        if value_eq(&map[i].0, v) {
            return Some(&map[i].1);
        }
        i = i + 1;
    }
    assert(s.skip(i as int).len() == 0);
    None
}

// =============================================================================

/// A dictionary keyed by text, as a NOODLES message holds its fields.
#[derive(Debug)]
pub struct TextMap {
    entries: Vec<(String, CborValue)>,
}

/// The keys of a sequence of text entries are pairwise distinct.
pub open spec fn distinct_keys(s: Seq<(String, CborValue)>) -> bool {
    forall|i: int, j: int| 0 <= i < j < s.len() ==> s[i].0@ != s[j].0@
}

/// The dictionary that a sequence of text entries with distinct keys stands for.
pub open spec fn entries_map(s: Seq<(String, CborValue)>) -> Map<Seq<char>, ValueModel>
    decreases s.len(),
{
    if s.len() == 0 {
        Map::empty()
    } else {
        entries_map(s.drop_last()).insert(s.last().0@, s.last().1@)
    }
}

impl View for TextMap {
    type V = Map<Seq<char>, ValueModel>;

    closed spec fn view(&self) -> Map<Seq<char>, ValueModel> {
        entries_map(self.entries@)
    }
}

proof fn lemma_entries_map(s: Seq<(String, CborValue)>)
    requires
        distinct_keys(s),
    ensures
        forall|k: Seq<char>|
            #[trigger] entries_map(s).contains_key(k) <==> exists|i: int|
                0 <= i < s.len() && s[i].0@ == k,
        forall|i: int| 0 <= i < s.len() ==> #[trigger] entries_map(s)[s[i].0@] == s[i].1@,
        entries_map(s).dom().finite(),
    decreases s.len(),
{
    if s.len() > 0 {
        let p = s.drop_last();
        assert(distinct_keys(p));
        lemma_entries_map(p);
        assert forall|k: Seq<char>| #[trigger] entries_map(s).contains_key(k) <==> exists|i: int|
            0 <= i < s.len() && s[i].0@ == k by {
            if entries_map(s).contains_key(k) && k != s.last().0@ {
                let i = choose|i: int| 0 <= i < p.len() && p[i].0@ == k;
                assert(s[i].0@ == k);
            }
            if exists|i: int| 0 <= i < s.len() && s[i].0@ == k {
                let i = choose|i: int| 0 <= i < s.len() && s[i].0@ == k;
                if i < s.len() - 1 {
                    assert(p[i].0@ == k);
                }
            }
        }
        assert forall|i: int| 0 <= i < s.len() implies #[trigger] entries_map(s)[s[i].0@]
            == s[i].1@ by {
            if i < s.len() - 1 {
                assert(p[i] == s[i]);
            }
        }
    }
}

proof fn lemma_entries_map_update(s: Seq<(String, CborValue)>, i: int, k: String, v: CborValue)
    requires
        distinct_keys(s),
        0 <= i < s.len(),
        s[i].0@ == k@,
    ensures
        distinct_keys(s.update(i, (k, v))),
        entries_map(s.update(i, (k, v))) == entries_map(s).insert(k@, v@),
{
    let t = s.update(i, (k, v));
    lemma_entries_map(s);
    lemma_entries_map(t);
    assert(entries_map(t) =~= entries_map(s).insert(k@, v@)) by {
        assert forall|key: Seq<char>| #[trigger] entries_map(t).contains_key(key)
            <==> entries_map(s).insert(k@, v@).contains_key(key) by {
            if key == k@ {
                assert(t[i].0@ == key);
            }
            if entries_map(s).insert(k@, v@).contains_key(key) && key != k@ {
                let j = choose|j: int| 0 <= j < s.len() && s[j].0@ == key;
                assert(t[j].0@ == key);
            }
            if entries_map(t).contains_key(key) {
                let j = choose|j: int| 0 <= j < t.len() && t[j].0@ == key;
                if j != i {
                    assert(s[j].0@ == key);
                }
            }
        }
        assert forall|key: Seq<char>| #[trigger] entries_map(t).contains_key(key) implies entries_map(
            t,
        )[key] == entries_map(s).insert(k@, v@)[key] by {
            let j = choose|j: int| 0 <= j < t.len() && t[j].0@ == key;
            assert(entries_map(t)[t[j].0@] == t[j].1@);
            if j != i {
                assert(entries_map(s)[s[j].0@] == s[j].1@);
            }
        }
    }
}

proof fn lemma_entries_map_remove(s: Seq<(String, CborValue)>, i: int)
    requires
        distinct_keys(s),
        0 <= i < s.len(),
    ensures
        distinct_keys(s.remove(i)),
        entries_map(s.remove(i)) == entries_map(s).remove(s[i].0@),
{
    let t = s.remove(i);
    let k = s[i].0@;
    assert(distinct_keys(t)) by {
        assert forall|a: int, b: int| 0 <= a < b < t.len() implies t[a].0@ != t[b].0@ by {
            let a2 = if a < i { a } else { a + 1 };
            let b2 = if b < i { b } else { b + 1 };
            assert(t[a] == s[a2]);
            assert(t[b] == s[b2]);
        }
    }
    lemma_entries_map(s);
    lemma_entries_map(t);
    assert(entries_map(t) =~= entries_map(s).remove(k)) by {
        assert forall|key: Seq<char>| #[trigger] entries_map(t).contains_key(key)
            <==> entries_map(s).remove(k).contains_key(key) by {
            if entries_map(s).remove(k).contains_key(key) {
                let j = choose|j: int| 0 <= j < s.len() && s[j].0@ == key;
                assert(j != i);
                let j2 = if j < i { j } else { j - 1 };
                assert(t[j2] == s[j]);
            }
            if entries_map(t).contains_key(key) {
                let j = choose|j: int| 0 <= j < t.len() && t[j].0@ == key;
                let j2 = if j < i { j } else { j + 1 };
                assert(t[j] == s[j2]);
            }
        }
        assert forall|key: Seq<char>| #[trigger] entries_map(t).contains_key(key) implies entries_map(
            t,
        )[key] == entries_map(s).remove(k)[key] by {
            let j = choose|j: int| 0 <= j < t.len() && t[j].0@ == key;
            let j2 = if j < i { j } else { j + 1 };
            assert(t[j] == s[j2]);
            assert(entries_map(t)[t[j].0@] == t[j].1@);
            assert(entries_map(s)[s[j2].0@] == s[j2].1@);
        }
    }
}

impl TextMap {
    #[verifier::type_invariant]
    spec fn inv(self) -> bool {
        distinct_keys(self.entries@)
    }

    /// An empty dictionary.
    pub fn new() -> (r: TextMap)
        ensures
            r@ == Map::<Seq<char>, ValueModel>::empty(),
    {
        let r = TextMap { entries: Vec::new() };
        assert(entries_map(r.entries@) == Map::<Seq<char>, ValueModel>::empty());
        r
    }

    fn find(&self, key: &str) -> (r: Option<usize>)
        ensures
            match r {
                Some(i) => i < self.entries@.len() && self.entries@[i as int].0@ == key@,
                None => forall|j: int| 0 <= j < self.entries@.len() ==> self.entries@[j].0@ != key@,
            },
    {
        let k = String::from_str(key);
        let mut i: usize = 0;
        while i < self.entries.len()
            invariant
                i <= self.entries@.len(),
                k@ == key@,
                forall|j: int| 0 <= j < i ==> self.entries@[j].0@ != key@,
            decreases self.entries.len() - i,
        {
            if self.entries[i].0 == k {
                return Some(i);
            }
            i = i + 1;
        }
        None
    }

    /// Does the dictionary hold `key`?
    pub fn contains_key(&self, key: &str) -> (r: bool)
        ensures
            r == self@.contains_key(key@),
    {
        proof {
            use_type_invariant(self);
            lemma_entries_map(self.entries@);
        }
        self.find(key).is_some()
    }

    /// The value stored under `key`, if any.
    pub fn get(&self, key: &str) -> (r: Option<&CborValue>)
        ensures
            match r {
                Some(v) => self@.contains_key(key@) && self@[key@] == v@,
                None => !self@.contains_key(key@),
            },
    {
        proof {
            use_type_invariant(self);
            lemma_entries_map(self.entries@);
        }
        match self.find(key) {
            Some(i) => Some(&self.entries[i].1),
            None => None,
        }
    }

    /// Store `value` under `key`, replacing what was stored there.
    pub fn insert(&mut self, key: String, value: CborValue)
        ensures
            final(self)@ == old(self)@.insert(key@, value@),
    {
        proof {
            use_type_invariant(&*self);
            lemma_entries_map(self.entries@);
        }
        match self.find(key.as_str()) {
            Some(i) => {
                let ghost s = self.entries@;
                proof {
                    lemma_entries_map_update(s, i as int, key, value);
                }
                let mut e: Vec<(String, CborValue)> = Vec::new();
                std::mem::swap(&mut e, &mut self.entries);
                e.set(i, (key, value));
                self.entries = e;
            },
            None => {
                let ghost s = self.entries@;
                let ghost kv = key@;
                let ghost vv = value@;
                let mut e: Vec<(String, CborValue)> = Vec::new();
                std::mem::swap(&mut e, &mut self.entries);
                e.push((key, value));
                assert(distinct_keys(e@));
                self.entries = e;
                proof {
                    assert(self.entries@.drop_last() =~= s);
                }
            },
        }
    }

    /// Take the value stored under `key` out of the dictionary.
    pub fn remove(&mut self, key: &str) -> (r: Option<CborValue>)
        ensures
            match r {
                Some(v) => old(self)@.contains_key(key@) && old(self)@[key@] == v@,
                None => !old(self)@.contains_key(key@),
            },
            final(self)@ == old(self)@.remove(key@),
    {
        proof {
            use_type_invariant(&*self);
            lemma_entries_map(self.entries@);
        }
        match self.find(key) {
            Some(i) => {
                let ghost s = self.entries@;
                proof {
                    lemma_entries_map_remove(s, i as int);
                }
                let mut e: Vec<(String, CborValue)> = Vec::new();
                std::mem::swap(&mut e, &mut self.entries);
                let (_, v) = e.remove(i);
                self.entries = e;
                Some(v)
            },
            None => {
                assert(old(self)@.remove(key@) =~= old(self)@);
                None
            },
        }
    }

    /// The number of entries.
    pub fn len(&self) -> (r: usize)
        ensures
            r == self@.len(),
    {
        proof {
            use_type_invariant(self);
            lemma_entries_map_len(self.entries@);
        }
        self.entries.len()
    }
}

proof fn lemma_entries_map_len(s: Seq<(String, CborValue)>)
    requires
        distinct_keys(s),
    ensures
        entries_map(s).len() == s.len(),
    decreases s.len(),
{
    if s.len() > 0 {
        let p = s.drop_last();
        assert(distinct_keys(p));
        lemma_entries_map_len(p);
        lemma_entries_map(p);
        assert(!entries_map(p).contains_key(s.last().0@)) by {
            if entries_map(p).contains_key(s.last().0@) {
                let i = choose|i: int| 0 <= i < p.len() && p[i].0@ == s.last().0@;
                assert(s[i] == p[i]);
            }
        }
    }
}


/// The dictionary that a CBOR map stands for: entries with a text key, a later
/// entry replacing an earlier one with the same key; other entries are ignored.
pub open spec fn text_map_of(s: Seq<(ValueModel, ValueModel)>) -> Map<Seq<char>, ValueModel>
    decreases s.len(),
{
    if s.len() == 0 {
        Map::empty()
    } else {
        let m = text_map_of(s.drop_last());
        match s.last().0 {
            ValueModel::Text(k) => m.insert(k, s.last().1),
            _ => m,
        }
    }
}

/// Appending a text-keyed pair stores it in the dictionary.
pub proof fn lemma_text_map_of_push(s: Seq<(ValueModel, ValueModel)>, k: Seq<char>, v: ValueModel)
    ensures
        text_map_of(s.push((ValueModel::Text(k), v))) == text_map_of(s).insert(k, v),
{
    assert(s.push((ValueModel::Text(k), v)).drop_last() =~= s);
}

/// Convert the linear representation of a dictionary to a mapped representation
pub fn convert_to_value_map(v: Vec<(CborValue, CborValue)>) -> (r: TextMap)
    ensures
        r@ == text_map_of(pair_models_of(v@)),
{
    let ghost s = pair_models_of(v@);
    proof {
        lemma_pair_models_of(v@);
        assert(s.take(0) =~= Seq::<(ValueModel, ValueModel)>::empty());
    }
    let mut ret = TextMap::new();
    let mut i: usize = 0;
    while i < v.len()
        invariant
            i <= v.len(),
            s == pair_models_of(v@),
            s.len() == v@.len(),
            forall|j: int|
                0 <= j < v@.len() ==> #[trigger] s[j] == (model_of(v@[j].0), model_of(v@[j].1)),
            ret@ == text_map_of(s.take(i as int)),
        decreases v.len() - i,
    {
        proof {
            assert(s.take(i + 1).drop_last() =~= s.take(i as int));
        }
        match &v[i].0 {
            CborValue::Text(k) => {
                ret.insert(k.clone(), v[i].1.clone());
            },
            _ => {},
        }
        i = i + 1;
    }
    assert(s.take(v.len() as int) =~= s);
    ret
}

/// Get a value from a CBOR map
pub fn get_map(m: &mut TextMap, key: &str) -> (r: Result<CborValue, FromValueError>)
    ensures
        match r {
            Ok(v) => old(m)@.contains_key(key@) && old(m)@[key@] == v@,
            Err(e) => !old(m)@.contains_key(key@) && e@ == FromValueErrorModel::MissingField(
                key@,
            ),
        },
        final(m)@ == old(m)@.remove(key@),
{
    match m.remove(key) {
        Some(v) => Ok(v),
        None => Err(FromValueError::MissingField(String::from_str(key))),
    }
}

// =============================================================================

/// Trait for converting between native and CBOR representation
pub trait CBORTransform: Sized + DeepView {
    /// The CBOR value that stands for a native value.
    spec fn encode_spec(m: Self::V) -> ValueModel;

    /// What reading a native value from a CBOR value gives.
    spec fn decode_spec(v: ValueModel) -> Result<Self::V, FromValueErrorModel>;

    fn try_from_cbor(value: CborValue) -> (r: Result<Self, FromValueError>)
        ensures
            match r {
                Ok(x) => Self::decode_spec(value@) == Ok::<Self::V, FromValueErrorModel>(
                    x.deep_view(),
                ),
                Err(e) => Self::decode_spec(value@) == Err::<Self::V, FromValueErrorModel>(e@),
            },
    ;

    fn to_cbor(&self) -> (r: CborValue)
        ensures
            r@ == Self::encode_spec(self.deep_view()),
    ;

    /// Reading back what was written gives the value that was written.
    proof fn lemma_round_trip(x: Self)
        ensures
            Self::decode_spec(Self::encode_spec(x.deep_view())) == Ok::<
                Self::V,
                FromValueErrorModel,
            >(x.deep_view()),
    ;
}

/// Convert a CBOR value to a type
pub fn from_cbor<T: CBORTransform>(value: CborValue) -> (r: Result<T, FromValueError>)
    ensures
        match r {
            Ok(x) => T::decode_spec(value@) == Ok::<T::V, FromValueErrorModel>(x.deep_view()),
            Err(e) => T::decode_spec(value@) == Err::<T::V, FromValueErrorModel>(e@),
        },
{
    T::try_from_cbor(value)
}

/// Convert an object to CBOR
pub fn to_cbor<T: CBORTransform>(t: &T) -> (r: CborValue)
    ensures
        r@ == T::encode_spec(t.deep_view()),
{
    t.to_cbor()
}

/// The values of a list that read as `T`, in order; the others are dropped.
pub open spec fn decoded_successes<T: CBORTransform>(s: Seq<ValueModel>) -> Seq<T::V>
    decreases s.len(),
{
    if s.len() == 0 {
        Seq::empty()
    } else {
        let rest = decoded_successes::<T>(s.drop_last());
        match T::decode_spec(s.last()) {
            Ok(x) => rest.push(x),
            Err(_) => rest,
        }
    }
}

/// Convert a list of CBOR values to a list of types, skipping those that do not convert.
pub fn from_cbor_list<T: CBORTransform>(value: Vec<CborValue>) -> (r: Result<
    Vec<T>,
    FromValueError,
>)
    ensures
        match r {
            Ok(l) => l.deep_view() == decoded_successes::<T>(crate::value::models_of(value@)),
            Err(_) => false,
        },
{
    let ghost s = crate::value::models_of(value@);
    proof {
        crate::value::lemma_models_of(value@);
        assert(s.take(0) =~= Seq::<ValueModel>::empty());
    }
    let mut out: Vec<T> = Vec::new();
    let mut i: usize = 0;
    while i < value.len()
        invariant
            i <= value.len(),
            s == crate::value::models_of(value@),
            s.len() == value@.len(),
            forall|j: int| 0 <= j < value@.len() ==> #[trigger] s[j] == model_of(value@[j]),
            out.deep_view() == decoded_successes::<T>(s.take(i as int)),
        decreases value.len() - i,
    {
        proof {
            assert(s.take(i + 1).drop_last() =~= s.take(i as int));
        }
        let item = value[i].clone();
        match T::try_from_cbor(item) {
            Ok(x) => {
                let ghost before = out.deep_view();
                out.push(x);
                assert(out.deep_view() =~= before.push(x.deep_view()));
            },
            Err(_) => {},
        }
        i = i + 1;
    }
    assert(s.take(value.len() as int) =~= s);
    Ok(out)
}

/// Convert from an optional value to an optional type
pub fn from_cbor_option<T: CBORTransform>(value: Option<CborValue>) -> (r: Result<
    Option<T>,
    FromValueError,
>)
    ensures
        match value {
            None => r is Ok && r->Ok_0 is None,
            Some(v) => match r {
                Ok(x) => x is Some && T::decode_spec(v@) == Ok::<T::V, FromValueErrorModel>(
                    x->Some_0.deep_view(),
                ),
                Err(e) => T::decode_spec(v@) == Err::<T::V, FromValueErrorModel>(e@),
            },
        },
{
    match value {
        None => Ok(None),
        Some(v) => match T::try_from_cbor(v) {
            Ok(x) => Ok(Some(x)),
            Err(e) => Err(e),
        },
    }
}

// =============================================================================

/// The integer range that fits a destination of `lo..=hi`.
pub open spec fn decode_integer(v: ValueModel, lo: int, hi: int) -> Result<int, FromValueErrorModel> {
    match v {
        ValueModel::Integer(i) => if lo <= i <= hi {
            Ok(i)
        } else {
            Err(FromValueErrorModel::IntegerCast)
        },
        _ => Err(wrong_type("Integer"@, v)),
    }
}

impl CBORTransform for String {
    open spec fn encode_spec(m: Seq<char>) -> ValueModel {
        ValueModel::Text(m)
    }

    open spec fn decode_spec(v: ValueModel) -> Result<Seq<char>, FromValueErrorModel> {
        match v {
            ValueModel::Text(s) => Ok(s),
            _ => Err(wrong_type("Text"@, v)),
        }
    }

    fn try_from_cbor(value: CborValue) -> (r: Result<Self, FromValueError>) {
        match value {
            CborValue::Text(s) => Ok(s),
            _ => Err(make_wrong_type("Text", &value)),
        }
    }

    fn to_cbor(&self) -> (r: CborValue) {
        CborValue::Text(self.clone())
    }

    proof fn lemma_round_trip(x: Self) {
    }
}

impl CBORTransform for u32 {
    open spec fn encode_spec(m: u32) -> ValueModel {
        ValueModel::Integer(m as int)
    }

    open spec fn decode_spec(v: ValueModel) -> Result<u32, FromValueErrorModel> {
        match decode_integer(v, 0, u32::MAX as int) {
            Ok(i) => Ok(i as u32),
            Err(e) => Err(e),
        }
    }

    fn try_from_cbor(value: CborValue) -> (r: Result<Self, FromValueError>) {
        match value {
            CborValue::Integer(s) => if 0 <= s && s <= u32::MAX as i128 {
                Ok(s as u32)
            } else {
                Err(FromValueError::IntegerCast)
            },
            _ => Err(make_wrong_type("Integer", &value)),
        }
    }

    fn to_cbor(&self) -> (r: CborValue) {
        CborValue::Integer(*self as i128)
    }

    proof fn lemma_round_trip(x: Self) {
    }
}

impl CBORTransform for u64 {
    open spec fn encode_spec(m: u64) -> ValueModel {
        ValueModel::Integer(m as int)
    }

    open spec fn decode_spec(v: ValueModel) -> Result<u64, FromValueErrorModel> {
        match decode_integer(v, 0, u64::MAX as int) {
            Ok(i) => Ok(i as u64),
            Err(e) => Err(e),
        }
    }

    fn try_from_cbor(value: CborValue) -> (r: Result<Self, FromValueError>) {
        match value {
            CborValue::Integer(s) => if 0 <= s && s <= u64::MAX as i128 {
                Ok(s as u64)
            } else {
                Err(FromValueError::IntegerCast)
            },
            _ => Err(make_wrong_type("Integer", &value)),
        }
    }

    fn to_cbor(&self) -> (r: CborValue) {
        CborValue::Integer(*self as i128)
    }

    proof fn lemma_round_trip(x: Self) {
    }
}

impl CBORTransform for i32 {
    open spec fn encode_spec(m: i32) -> ValueModel {
        ValueModel::Integer(m as int)
    }

    open spec fn decode_spec(v: ValueModel) -> Result<i32, FromValueErrorModel> {
        match decode_integer(v, i32::MIN as int, i32::MAX as int) {
            Ok(i) => Ok(i as i32),
            Err(e) => Err(e),
        }
    }

    fn try_from_cbor(value: CborValue) -> (r: Result<Self, FromValueError>) {
        match value {
            CborValue::Integer(s) => if i32::MIN as i128 <= s && s <= i32::MAX as i128 {
                Ok(s as i32)
            } else {
                Err(FromValueError::IntegerCast)
            },
            _ => Err(make_wrong_type("Integer", &value)),
        }
    }

    fn to_cbor(&self) -> (r: CborValue) {
        CborValue::Integer(*self as i128)
    }

    proof fn lemma_round_trip(x: Self) {
    }
}

impl CBORTransform for i64 {
    open spec fn encode_spec(m: i64) -> ValueModel {
        ValueModel::Integer(m as int)
    }

    open spec fn decode_spec(v: ValueModel) -> Result<i64, FromValueErrorModel> {
        match decode_integer(v, i64::MIN as int, i64::MAX as int) {
            Ok(i) => Ok(i as i64),
            Err(e) => Err(e),
        }
    }

    fn try_from_cbor(value: CborValue) -> (r: Result<Self, FromValueError>) {
        match value {
            CborValue::Integer(s) => if i64::MIN as i128 <= s && s <= i64::MAX as i128 {
                Ok(s as i64)
            } else {
                Err(FromValueError::IntegerCast)
            },
            _ => Err(make_wrong_type("Integer", &value)),
        }
    }

    fn to_cbor(&self) -> (r: CborValue) {
        CborValue::Integer(*self as i128)
    }

    proof fn lemma_round_trip(x: Self) {
    }
}

impl CBORTransform for CborValue {
    open spec fn encode_spec(m: ValueModel) -> ValueModel {
        m
    }

    open spec fn decode_spec(v: ValueModel) -> Result<ValueModel, FromValueErrorModel> {
        Ok(v)
    }

    fn try_from_cbor(value: CborValue) -> (r: Result<Self, FromValueError>) {
        Ok(value)
    }

    fn to_cbor(&self) -> (r: CborValue) {
        self.clone()
    }

    proof fn lemma_round_trip(x: Self) {
    }
}


/// Reading a list element by element; the first element that does not read is the error.
pub open spec fn decode_seq<T: CBORTransform>(s: Seq<ValueModel>) -> Result<
    Seq<T::V>,
    FromValueErrorModel,
>
    decreases s.len(),
{
    if s.len() == 0 {
        Ok(Seq::empty())
    } else {
        match decode_seq::<T>(s.drop_last()) {
            Err(e) => Err(e),
            Ok(r) => match T::decode_spec(s.last()) {
                Ok(x) => Ok(r.push(x)),
                Err(e) => Err(e),
            },
        }
    }
}

proof fn lemma_decode_seq_prefix_err<T: CBORTransform>(s: Seq<ValueModel>, n: int)
    requires
        0 <= n <= s.len(),
        decode_seq::<T>(s.take(n)) is Err,
    ensures
        decode_seq::<T>(s) == decode_seq::<T>(s.take(n)),
    decreases s.len(),
{
    if n < s.len() {
        assert(s.drop_last().take(n) =~= s.take(n));
        lemma_decode_seq_prefix_err::<T>(s.drop_last(), n);
    } else {
        assert(s.take(n) =~= s);
    }
}

proof fn lemma_decode_seq_round_trip<T: CBORTransform>(s: Seq<T>)
    ensures
        decode_seq::<T>(s.map_values(|e: T| T::encode_spec(e.deep_view()))) == Ok::<
            Seq<T::V>,
            FromValueErrorModel,
        >(s.map_values(|e: T| e.deep_view())),
    decreases s.len(),
{
    if s.len() > 0 {
        lemma_decode_seq_round_trip::<T>(s.drop_last());
        T::lemma_round_trip(s.last());
        let enc = s.map_values(|e: T| T::encode_spec(e.deep_view()));
        assert(enc.drop_last() =~= s.drop_last().map_values(|e: T| T::encode_spec(e.deep_view())));
        assert(s.map_values(|e: T| e.deep_view()) =~= s.drop_last().map_values(
            |e: T| e.deep_view(),
        ).push(s.last().deep_view()));
    } else {
        assert(s.map_values(|e: T| e.deep_view()) =~= Seq::<T::V>::empty());
    }
}

impl<T: CBORTransform> CBORTransform for Vec<T> {
    open spec fn encode_spec(m: Seq<T::V>) -> ValueModel {
        ValueModel::Array(m.map_values(|e: T::V| T::encode_spec(e)))
    }

    open spec fn decode_spec(v: ValueModel) -> Result<Seq<T::V>, FromValueErrorModel> {
        match v {
            ValueModel::Array(l) => decode_seq::<T>(l),
            _ => Err(wrong_type("Array"@, v)),
        }
    }

    fn try_from_cbor(value: CborValue) -> (r: Result<Self, FromValueError>) {
        let ghost vm = value@;
        match value {
            CborValue::Array(l) => {
                let ghost s = crate::value::models_of(l@);
                proof {
                    crate::value::lemma_models_of(l@);
                    assert(s.take(0) =~= Seq::<ValueModel>::empty());
                }
                let mut ret: Vec<T> = Vec::new();
                assert(ret.deep_view() =~= Seq::<T::V>::empty());
                let mut i: usize = 0;
                while i < l.len()
                    invariant
                        i <= l.len(),
                        vm == ValueModel::Array(s),
                        value@ == vm,
                        s == crate::value::models_of(l@),
                        s.len() == l@.len(),
                        forall|j: int| 0 <= j < l@.len() ==> #[trigger] s[j] == model_of(l@[j]),
                        decode_seq::<T>(s.take(i as int)) == Ok::<Seq<T::V>, FromValueErrorModel>(
                            ret.deep_view(),
                        ),
                    decreases l.len() - i,
                {
                    proof {
                        assert(s.take(i + 1).drop_last() =~= s.take(i as int));
                    }
                    let item = l[i].clone();
                    assert(s.take(i + 1).last() == s[i as int]);
                    match T::try_from_cbor(item) {
                        Ok(x) => {
                            let ghost before = ret.deep_view();
                            ret.push(x);
                            assert(ret.deep_view() =~= before.push(x.deep_view()));
                        },
                        Err(e) => {
                            proof {
                                assert(decode_seq::<T>(s.take(i + 1)) == Err::<Seq<T::V>, FromValueErrorModel>(e@));
                                lemma_decode_seq_prefix_err::<T>(s, i + 1);
                                assert(decode_seq::<T>(s) == Err::<Seq<T::V>, FromValueErrorModel>(e@));
                                assert(Self::decode_spec(vm) == Err::<Seq<T::V>, FromValueErrorModel>(e@));
                                assert(value@ == vm);
                            }
                            return Err(e);
                        },
                    }
                    i = i + 1;
                }
                assert(s.take(l.len() as int) =~= s);
                Ok(ret)
            },
            _ => Err(make_wrong_type("Array", &value)),
        }
    }

    fn to_cbor(&self) -> (r: CborValue) {
        let mut out: Vec<CborValue> = Vec::new();
        let mut i: usize = 0;
        while i < self.len()
            invariant
                i <= self.len(),
                out.len() == i,
                forall|j: int|
                    0 <= j < i ==> model_of(#[trigger] out@[j]) == T::encode_spec(
                        self@[j].deep_view(),
                    ),
            decreases self.len() - i,
        {
            out.push(self[i].to_cbor());
            i = i + 1;
        }
        proof {
            crate::value::lemma_models_of_ext(
                out@,
                self.deep_view().map_values(|e: T::V| T::encode_spec(e)),
            );
        }
        CborValue::Array(out)
    }

    proof fn lemma_round_trip(x: Self) {
        lemma_decode_seq_round_trip::<T>(x@);
        assert(x.deep_view().map_values(|e: T::V| T::encode_spec(e)) =~= x@.map_values(
            |e: T| T::encode_spec(e.deep_view()),
        ));
        assert(x.deep_view() =~= x@.map_values(|e: T| e.deep_view()));
    }
}

/// A list that reads gives as many items as it has.
proof fn lemma_decode_seq_len<T: CBORTransform>(s: Seq<ValueModel>)
    ensures
        decode_seq::<T>(s) matches Ok(r) ==> r.len() == s.len(),
    decreases s.len(),
{
    if s.len() > 0 {
        lemma_decode_seq_len::<T>(s.drop_last());
    }
}

/// `<[T; N]>::try_from` a vector: its items as an array, when it holds
/// exactly `N` of them, as std documents; `None` otherwise.
#[verifier::external_body]
fn array_from_vec<T, const N: usize>(v: Vec<T>) -> (r: Option<[T; N]>)
    ensures
        match r {
            Some(a) => v@.len() == N && a@ == v@,
            None => v@.len() != N,
        },
{
    <[T; N]>::try_from(v).ok()
}

impl<T: CBORTransform, const N: usize> CBORTransform for [T; N] {
    open spec fn encode_spec(m: Seq<T::V>) -> ValueModel {
        ValueModel::Array(m.map_values(|e: T::V| T::encode_spec(e)))
    }

    /// An array reads from a CBOR array of at least `N` items: the first
    /// `N` are read in order, the rest left aside.
    open spec fn decode_spec(v: ValueModel) -> Result<Seq<T::V>, FromValueErrorModel> {
        match v {
            ValueModel::Array(l) => if l.len() < N {
                Err(FromValueErrorModel::ArrayUnderflow)
            } else {
                decode_seq::<T>(l.take(N as int))
            },
            _ => Err(wrong_type("Array"@, v)),
        }
    }

    fn try_from_cbor(value: CborValue) -> (r: Result<Self, FromValueError>) {
        let ghost vm = value@;
        match value {
            CborValue::Array(l) => {
                proof {
                    crate::value::lemma_models_of(l@);
                }
                if l.len() < N {
                    return Err(FromValueError::ArrayUnderflow);
                }
                let ghost full = l@;
                let mut first = l;
                first.truncate(N);
                proof {
                    crate::value::lemma_models_of(full);
                    crate::value::lemma_models_of(first@);
                    assert(first@ =~= full.take(N as int));
                    assert(crate::value::models_of(first@) =~= crate::value::models_of(full).take(N as int));
                }
                match <Vec<T> as CBORTransform>::try_from_cbor(CborValue::Array(first)) {
                    Ok(items) => {
                        proof {
                            lemma_decode_seq_len::<T>(crate::value::models_of(first@));
                        }
                        match array_from_vec::<T, N>(items) {
                            Some(a) => {
                                assert(a.deep_view() =~= items.deep_view());
                                Ok(a)
                            },
                            None => {
                                proof {
                                    assert(false);
                                }
                                Err(FromValueError::ArrayUnderflow)
                            },
                        }
                    },
                    Err(e) => Err(e),
                }
            },
            _ => Err(make_wrong_type("Array", &value)),
        }
    }

    fn to_cbor(&self) -> (r: CborValue) {
        let mut out: Vec<CborValue> = Vec::new();
        let mut i: usize = 0;
        while i < N
            invariant
                i <= N,
                self@.len() == N,
                out.len() == i,
                forall|j: int|
                    0 <= j < i ==> model_of(#[trigger] out@[j]) == T::encode_spec(
                        self@[j].deep_view(),
                    ),
            decreases N - i,
        {
            out.push(self[i].to_cbor());
            i = i + 1;
        }
        proof {
            crate::value::lemma_models_of_ext(
                out@,
                self.deep_view().map_values(|e: T::V| T::encode_spec(e)),
            );
        }
        CborValue::Array(out)
    }

    proof fn lemma_round_trip(x: Self) {
        lemma_decode_seq_round_trip::<T>(x@);
        let enc = x.deep_view().map_values(|e: T::V| T::encode_spec(e));
        assert(enc =~= x@.map_values(|e: T| T::encode_spec(e.deep_view())));
        assert(enc.take(N as int) =~= enc);
        assert(x.deep_view() =~= x@.map_values(|e: T| e.deep_view()));
    }
}

/// Reading back a written list of CBOR values gives the list.
pub proof fn lemma_value_list_round_trip(m: Seq<ValueModel>)
    ensures
        <Vec<CborValue> as CBORTransform>::decode_spec(<Vec<CborValue> as CBORTransform>::encode_spec(m)) == Ok::<
            Seq<ValueModel>,
            FromValueErrorModel,
        >(m),
    decreases m.len(),
{
    let enc = m.map_values(|e: ValueModel| <CborValue as CBORTransform>::encode_spec(e));
    assert(enc =~= m);
    lemma_decode_value_seq(m);
}

proof fn lemma_decode_value_seq(m: Seq<ValueModel>)
    ensures
        decode_seq::<CborValue>(m) == Ok::<Seq<ValueModel>, FromValueErrorModel>(m),
    decreases m.len(),
{
    if m.len() > 0 {
        lemma_decode_value_seq(m.drop_last());
        assert(m.drop_last().push(m.last()) =~= m);
    } else {
        assert(m =~= Seq::<ValueModel>::empty());
    }
}

/// Reading back a written list gives the list, for element kinds whose every
/// value reads back.
pub proof fn lemma_vec_model_round_trip<T: CBORTransform>(s: Seq<T::V>)
    requires
        forall|x: T::V| T::decode_spec(#[trigger] T::encode_spec(x)) == Ok::<T::V, FromValueErrorModel>(x),
    ensures
        <Vec<T> as CBORTransform>::decode_spec(<Vec<T> as CBORTransform>::encode_spec(s)) == Ok::<
            Seq<T::V>,
            FromValueErrorModel,
        >(s),
    decreases s.len(),
{
    lemma_decode_models::<T>(s);
}

proof fn lemma_decode_models<T: CBORTransform>(s: Seq<T::V>)
    requires
        forall|x: T::V| T::decode_spec(#[trigger] T::encode_spec(x)) == Ok::<T::V, FromValueErrorModel>(x),
    ensures
        decode_seq::<T>(s.map_values(|e: T::V| T::encode_spec(e))) == Ok::<Seq<T::V>, FromValueErrorModel>(s),
    decreases s.len(),
{
    if s.len() > 0 {
        lemma_decode_models::<T>(s.drop_last());
        let enc = s.map_values(|e: T::V| T::encode_spec(e));
        assert(enc.drop_last() =~= s.drop_last().map_values(|e: T::V| T::encode_spec(e)));
        assert(enc.last() == T::encode_spec(s.last()));
        assert(s.drop_last().push(s.last()) =~= s);
    } else {
        assert(s.map_values(|e: T::V| T::encode_spec(e)) =~= Seq::<ValueModel>::empty());
        assert(s =~= Seq::<T::V>::empty());
    }
}

} // verus!
