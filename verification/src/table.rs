//! Common table types as sourced from the spec, and their CBOR form.
use vstd::prelude::*;
use crate::value::{CborValue, ValueModel, pair_models_of};
use crate::value_tools::{
    CBORTransform, FromValueError, FromValueErrorModel, TextMap, convert_to_value_map, get_map,
    from_cbor_option, text_map_of, wrong_type, lemma_text_map_of_push,
};

verus! {

/// What reading a required field gives.
pub open spec fn field_required<T: CBORTransform>(m: Map<Seq<char>, ValueModel>, key: Seq<char>) -> Result<
    T::V,
    FromValueErrorModel,
> {
    if m.contains_key(key) {
        T::decode_spec(m[key])
    } else {
        Err(FromValueErrorModel::MissingField(key))
    }
}

/// What reading an optional field gives.
pub open spec fn field_optional<T: CBORTransform>(m: Map<Seq<char>, ValueModel>, key: Seq<char>) -> Result<
    Option<T::V>,
    FromValueErrorModel,
> {
    if m.contains_key(key) {
        match T::decode_spec(m[key]) {
            Ok(x) => Ok(Some(x)),
            Err(e) => Err(e),
        }
    } else {
        Ok(None)
    }
}

pub(crate) fn read_required<T: CBORTransform>(map: &mut TextMap, key: &str) -> (r: Result<T, FromValueError>)
    ensures
        match r {
            Ok(x) => field_required::<T>(old(map)@, key@) == Ok::<T::V, FromValueErrorModel>(
                x.deep_view(),
            ),
            Err(e) => field_required::<T>(old(map)@, key@) == Err::<T::V, FromValueErrorModel>(
                e@,
            ),
        },
        final(map)@ == old(map)@.remove(key@),
{
    match get_map(map, key) {
        Ok(v) => T::try_from_cbor(v),
        Err(e) => Err(e),
    }
}

pub(crate) fn read_optional<T: CBORTransform>(map: &mut TextMap, key: &str) -> (r: Result<
    Option<T>,
    FromValueError,
>)
    ensures
        match r {
            Ok(x) => field_optional::<T>(old(map)@, key@) == Ok::<
                Option<T::V>,
                FromValueErrorModel,
            >(
                match x {
                    Some(y) => Some(y.deep_view()),
                    None => None,
                },
            ),
            Err(e) => field_optional::<T>(old(map)@, key@) == Err::<
                Option<T::V>,
                FromValueErrorModel,
            >(e@),
        },
        final(map)@ == old(map)@.remove(key@),
{
    from_cbor_option(map.remove(key))
}

/// The model of an optional list of keys.
pub open spec fn opt_seq<T: DeepView>(o: Option<Vec<T>>) -> Option<Seq<T::V>> {
    match o {
        Some(v) => Some(v.deep_view()),
        None => None,
    }
}

/// The pair a present optional field adds to a CBOR map.
pub open spec fn opt_pair(key: Seq<char>, v: Option<ValueModel>) -> Seq<(ValueModel, ValueModel)> {
    match v {
        Some(x) => seq![(ValueModel::Text(key), x)],
        None => Seq::empty(),
    }
}

/// Append a field to a CBOR map under construction.
pub(crate) fn push_pair(v: &mut Vec<(CborValue, CborValue)>, key: &str, value: CborValue)
    ensures
        pair_models_of(final(v)@) == pair_models_of(old(v)@).push((ValueModel::Text(key@), value@)),
{
    let ghost old_v = v@;
    let k = CborValue::Text(String::from_str(key));
    let p = (k, value);
    v.push(p);
    proof {
        crate::value::lemma_pair_models_of_push(old_v, p);
    }
}

// =============================================================================

/// A selection of a table
#[derive(Debug)]
pub struct Selection {
    pub name: String,
    pub rows: Option<Vec<i64>>,
    pub row_ranges: Option<Vec<i64>>,
}

/// The model of a [`Selection`].
pub struct SelectionModel {
    pub name: Seq<char>,
    pub rows: Option<Seq<i64>>,
    pub row_ranges: Option<Seq<i64>>,
}

impl DeepView for Selection {
    type V = SelectionModel;

    open spec fn deep_view(&self) -> SelectionModel {
        SelectionModel { name: self.name@, rows: opt_seq(self.rows), row_ranges: opt_seq(self.row_ranges) }
    }
}

fn clone_keys(o: &Option<Vec<i64>>) -> (r: Option<Vec<i64>>)
    ensures
        opt_seq(r) == opt_seq(*o),
{
    match o {
        Some(v) => {
            let c = v.clone();
            assert(c.deep_view() =~= v.deep_view());
            Some(c)
        },
        None => None,
    }
}

impl Clone for Selection {
    fn clone(&self) -> (r: Self)
        ensures
            r.deep_view() == self.deep_view(),
    {
        Selection { name: self.name.clone(), rows: clone_keys(&self.rows), row_ranges: clone_keys(&self.row_ranges) }
    }
}

impl CBORTransform for Selection {
    open spec fn encode_spec(m: SelectionModel) -> ValueModel {
        ValueModel::Dict(
            seq![(ValueModel::Text("name"@), ValueModel::Text(m.name))]
            + opt_pair("rows"@, match m.rows { Some(r) => Some(<Vec<i64> as CBORTransform>::encode_spec(r)), None => None })
            + opt_pair("row_ranges"@, match m.row_ranges { Some(r) => Some(<Vec<i64> as CBORTransform>::encode_spec(r)), None => None }),
        )
    }

    open spec fn decode_spec(v: ValueModel) -> Result<SelectionModel, FromValueErrorModel> {
        match v {
            ValueModel::Dict(pairs) => {
                let m = text_map_of(pairs);
                match field_required::<String>(m, "name"@) {
                    Err(e) => Err(e),
                    Ok(name) => match field_optional::<Vec<i64>>(m.remove("name"@), "rows"@) {
                        Err(e) => Err(e),
                        Ok(rows) => match field_optional::<Vec<i64>>(
                            m.remove("name"@).remove("rows"@),
                            "row_ranges"@,
                        ) {
                            Err(e) => Err(e),
                            Ok(row_ranges) => Ok(SelectionModel { name, rows, row_ranges }),
                        },
                    },
                }
            },
            _ => Err(wrong_type("Map"@, v)),
        }
    }

    fn try_from_cbor(value: CborValue) -> (r: Result<Self, FromValueError>) {
        let ghost vm = value@;
        match value {
            CborValue::Dict(m) => {
                let mut map = convert_to_value_map(m);
                let name = match read_required::<String>(&mut map, "name") {
                    Ok(x) => x,
                    Err(e) => return Err(e),
                };
                let rows = match read_optional::<Vec<i64>>(&mut map, "rows") {
                    Ok(x) => x,
                    Err(e) => return Err(e),
                };
                let row_ranges = match read_optional::<Vec<i64>>(&mut map, "row_ranges") {
                    Ok(x) => x,
                    Err(e) => return Err(e),
                };
                let r = Selection { name, rows, row_ranges };
                proof {
                    assert(r.deep_view().rows == match rows { Some(y) => Some(y.deep_view()), None => None::<Seq<i64>> });
                    assert(r.deep_view().row_ranges == match row_ranges { Some(y) => Some(y.deep_view()), None => None::<Seq<i64>> });
                }
                Ok(r)
            },
            _ => Err(FromValueError::WrongType { expected: String::from_str("Map"), found: crate::value::get_value_type(&value) }),
        }
    }

    fn to_cbor(&self) -> (r: CborValue) {
        let ghost m = self.deep_view();
        let mut ret: Vec<(CborValue, CborValue)> = Vec::new();
        push_pair(&mut ret, "name", self.name.to_cbor());
        assert(pair_models_of(ret@) =~= seq![(ValueModel::Text("name"@), ValueModel::Text(m.name))]);
        let ghost p1 = pair_models_of(ret@);
        match &self.rows {
            Some(v) => push_pair(&mut ret, "rows", v.to_cbor()),
            None => {},
        }
        assert(pair_models_of(ret@) =~= p1 + opt_pair("rows"@, match m.rows { Some(r) => Some(<Vec<i64> as CBORTransform>::encode_spec(r)), None => None }));
        let ghost p2 = pair_models_of(ret@);
        match &self.row_ranges {
            Some(v) => push_pair(&mut ret, "row_ranges", v.to_cbor()),
            None => {},
        }
        assert(pair_models_of(ret@) =~= p2 + opt_pair("row_ranges"@, match m.row_ranges { Some(r) => Some(<Vec<i64> as CBORTransform>::encode_spec(r)), None => None }));
        CborValue::Dict(ret)
    }

    proof fn lemma_round_trip(x: Self) {
        let m = x.deep_view();
        let p0: Seq<(ValueModel, ValueModel)> = Seq::empty();
        let p1 = p0.push((ValueModel::Text("name"@), ValueModel::Text(m.name)));
        lemma_text_map_of_push(p0, "name"@, ValueModel::Text(m.name));
        let p2 = match m.rows { Some(r) => p1.push((ValueModel::Text("rows"@), <Vec<i64> as CBORTransform>::encode_spec(r))), None => p1 };
        if let Some(r) = m.rows {
            lemma_text_map_of_push(p1, "rows"@, <Vec<i64> as CBORTransform>::encode_spec(r));
            <Vec<i64> as CBORTransform>::lemma_round_trip(x.rows.unwrap());
        }
        let p3 = match m.row_ranges { Some(r) => p2.push((ValueModel::Text("row_ranges"@), <Vec<i64> as CBORTransform>::encode_spec(r))), None => p2 };
        if let Some(r) = m.row_ranges {
            lemma_text_map_of_push(p2, "row_ranges"@, <Vec<i64> as CBORTransform>::encode_spec(r));
            <Vec<i64> as CBORTransform>::lemma_round_trip(x.row_ranges.unwrap());
        }
        assert(Self::encode_spec(m)->Dict_0 =~= p3);
        assert(text_map_of(p0) =~= Map::<Seq<char>, ValueModel>::empty());
        reveal_strlit("name");
        reveal_strlit("rows");
        reveal_strlit("row_ranges");
        assert("name"@[0] != "rows"@[0]);
        assert("name"@ != "rows"@);
        assert("name"@.len() != "row_ranges"@.len());
        assert("name"@ != "row_ranges"@);
        assert("rows"@ != "row_ranges"@);
        let tm = text_map_of(p3);
        assert(tm.contains_key("name"@) && tm["name"@] == ValueModel::Text(m.name));
        assert(field_required::<String>(tm, "name"@) == Ok::<Seq<char>, FromValueErrorModel>(m.name));
        assert(field_optional::<Vec<i64>>(tm.remove("name"@), "rows"@) == Ok::<Option<Seq<i64>>, FromValueErrorModel>(m.rows));
        assert(field_optional::<Vec<i64>>(tm.remove("name"@).remove("rows"@), "row_ranges"@) == Ok::<Option<Seq<i64>>, FromValueErrorModel>(m.row_ranges));
    }
}


// =============================================================================

/// Table column definition
#[derive(Debug)]
pub struct TableColumnInfo {
    pub name: String,
    pub type_: String,
}

/// The model of a [`TableColumnInfo`].
pub struct TableColumnInfoModel {
    pub name: Seq<char>,
    pub type_: Seq<char>,
}

impl DeepView for TableColumnInfo {
    type V = TableColumnInfoModel;

    open spec fn deep_view(&self) -> TableColumnInfoModel {
        TableColumnInfoModel { name: self.name@, type_: self.type_@ }
    }
}

impl Clone for TableColumnInfo {
    fn clone(&self) -> (r: Self)
        ensures
            r.deep_view() == self.deep_view(),
    {
        TableColumnInfo { name: self.name.clone(), type_: self.type_.clone() }
    }
}

impl CBORTransform for TableColumnInfo {
    open spec fn encode_spec(m: TableColumnInfoModel) -> ValueModel {
        ValueModel::Dict(
            seq![
                (ValueModel::Text("name"@), ValueModel::Text(m.name)),
                (ValueModel::Text("type"@), ValueModel::Text(m.type_)),
            ],
        )
    }

    open spec fn decode_spec(v: ValueModel) -> Result<TableColumnInfoModel, FromValueErrorModel> {
        match v {
            ValueModel::Dict(pairs) => {
                let m = text_map_of(pairs);
                match field_required::<String>(m, "name"@) {
                    Err(e) => Err(e),
                    Ok(name) => match field_required::<String>(m.remove("name"@), "type"@) {
                        Err(e) => Err(e),
                        Ok(type_) => Ok(TableColumnInfoModel { name, type_ }),
                    },
                }
            },
            _ => Err(wrong_type("Map"@, v)),
        }
    }

    fn try_from_cbor(value: CborValue) -> (r: Result<Self, FromValueError>) {
        match value {
            CborValue::Dict(m) => {
                let mut map = convert_to_value_map(m);
                let name = match read_required::<String>(&mut map, "name") {
                    Ok(x) => x,
                    Err(e) => return Err(e),
                };
                let type_ = match read_required::<String>(&mut map, "type") {
                    Ok(x) => x,
                    Err(e) => return Err(e),
                };
                Ok(TableColumnInfo { name, type_ })
            },
            _ => Err(FromValueError::WrongType { expected: String::from_str("Map"), found: crate::value::get_value_type(&value) }),
        }
    }

    fn to_cbor(&self) -> (r: CborValue) {
        let ghost m = self.deep_view();
        let mut ret: Vec<(CborValue, CborValue)> = Vec::new();
        push_pair(&mut ret, "name", self.name.to_cbor());
        push_pair(&mut ret, "type", self.type_.to_cbor());
        assert(pair_models_of(ret@) =~= Self::encode_spec(m)->Dict_0);
        CborValue::Dict(ret)
    }

    proof fn lemma_round_trip(x: Self) {
        let m = x.deep_view();
        let p0: Seq<(ValueModel, ValueModel)> = Seq::empty();
        let p1 = p0.push((ValueModel::Text("name"@), ValueModel::Text(m.name)));
        let p2 = p1.push((ValueModel::Text("type"@), ValueModel::Text(m.type_)));
        lemma_text_map_of_push(p0, "name"@, ValueModel::Text(m.name));
        lemma_text_map_of_push(p1, "type"@, ValueModel::Text(m.type_));
        assert(Self::encode_spec(m)->Dict_0 =~= p2);
        assert(text_map_of(p0) =~= Map::<Seq<char>, ValueModel>::empty());
        reveal_strlit("name");
        reveal_strlit("type");
        assert("name"@[0] != "type"@[0]);
        let tm = text_map_of(p2);
        assert(tm.remove("name"@).contains_key("type"@));
    }
}

// =============================================================================

/// Initial table data dump
#[derive(Debug)]
pub struct TableInitData {
    pub columns: Vec<TableColumnInfo>,
    pub keys: Vec<i64>,
    pub data: Vec<Vec<CborValue>>,
    pub selections: Option<Vec<Selection>>,
}

/// The model of a [`TableInitData`].
pub struct TableInitDataModel {
    pub columns: Seq<TableColumnInfoModel>,
    pub keys: Seq<i64>,
    pub data: Seq<Seq<ValueModel>>,
    pub selections: Option<Seq<SelectionModel>>,
}

impl DeepView for TableInitData {
    type V = TableInitDataModel;

    open spec fn deep_view(&self) -> TableInitDataModel {
        TableInitDataModel {
            columns: self.columns.deep_view(),
            keys: self.keys.deep_view(),
            data: self.data.deep_view(),
            selections: opt_seq(self.selections),
        }
    }
}

impl Default for TableInitData {
    fn default() -> (r: Self)
        ensures
            r.deep_view().columns.len() == 0,
            r.deep_view().keys.len() == 0,
            r.deep_view().data.len() == 0,
            r.deep_view().selections is None,
    {
        TableInitData { columns: Vec::new(), keys: Vec::new(), data: Vec::new(), selections: None }
    }
}

impl CBORTransform for TableInitData {
    open spec fn encode_spec(m: TableInitDataModel) -> ValueModel {
        ValueModel::Dict(
            seq![
                (ValueModel::Text("columns"@), <Vec<TableColumnInfo> as CBORTransform>::encode_spec(m.columns)),
                (ValueModel::Text("keys"@), <Vec<i64> as CBORTransform>::encode_spec(m.keys)),
                (ValueModel::Text("data"@), <Vec<Vec<CborValue>> as CBORTransform>::encode_spec(m.data)),
            ] + opt_pair("selections"@, match m.selections { Some(s) => Some(<Vec<Selection> as CBORTransform>::encode_spec(s)), None => None }),
        )
    }

    open spec fn decode_spec(v: ValueModel) -> Result<TableInitDataModel, FromValueErrorModel> {
        match v {
            ValueModel::Dict(pairs) => {
                let m0 = text_map_of(pairs);
                let m1 = m0.remove("columns"@);
                let m2 = m1.remove("keys"@);
                let m3 = m2.remove("data"@);
                match field_required::<Vec<TableColumnInfo>>(m0, "columns"@) {
                    Err(e) => Err(e),
                    Ok(columns) => match field_required::<Vec<i64>>(m1, "keys"@) {
                        Err(e) => Err(e),
                        Ok(keys) => match field_required::<Vec<Vec<CborValue>>>(m2, "data"@) {
                            Err(e) => Err(e),
                            Ok(data) => match field_optional::<Vec<Selection>>(m3, "selections"@) {
                                Err(e) => Err(e),
                                Ok(selections) => Ok(TableInitDataModel { columns, keys, data, selections }),
                            },
                        },
                    },
                }
            },
            _ => Err(wrong_type("Map"@, v)),
        }
    }

    fn try_from_cbor(value: CborValue) -> (r: Result<Self, FromValueError>) {
        match value {
            CborValue::Dict(m) => {
                let mut map = convert_to_value_map(m);
                let columns = match read_required::<Vec<TableColumnInfo>>(&mut map, "columns") {
                    Ok(x) => x,
                    Err(e) => return Err(e),
                };
                let keys = match read_required::<Vec<i64>>(&mut map, "keys") {
                    Ok(x) => x,
                    Err(e) => return Err(e),
                };
                let data = match read_required::<Vec<Vec<CborValue>>>(&mut map, "data") {
                    Ok(x) => x,
                    Err(e) => return Err(e),
                };
                let selections = match read_optional::<Vec<Selection>>(&mut map, "selections") {
                    Ok(x) => x,
                    Err(e) => return Err(e),
                };
                let r = TableInitData { columns, keys, data, selections };
                proof {
                    assert(r.deep_view().selections == match selections { Some(y) => Some(y.deep_view()), None => None::<Seq<SelectionModel>> });
                }
                Ok(r)
            },
            _ => Err(FromValueError::WrongType { expected: String::from_str("Map"), found: crate::value::get_value_type(&value) }),
        }
    }

    fn to_cbor(&self) -> (r: CborValue) {
        let ghost m = self.deep_view();
        let mut ret: Vec<(CborValue, CborValue)> = Vec::new();
        push_pair(&mut ret, "columns", self.columns.to_cbor());
        push_pair(&mut ret, "keys", self.keys.to_cbor());
        push_pair(&mut ret, "data", self.data.to_cbor());
        let ghost p3 = pair_models_of(ret@);
        match &self.selections {
            Some(v) => push_pair(&mut ret, "selections", v.to_cbor()),
            None => {},
        }
        assert(pair_models_of(ret@) =~= Self::encode_spec(m)->Dict_0);
        CborValue::Dict(ret)
    }

    proof fn lemma_round_trip(x: Self) {
        let m = x.deep_view();
        let ec = <Vec<TableColumnInfo> as CBORTransform>::encode_spec(m.columns);
        let ek = <Vec<i64> as CBORTransform>::encode_spec(m.keys);
        let ed = <Vec<Vec<CborValue>> as CBORTransform>::encode_spec(m.data);
        let p0: Seq<(ValueModel, ValueModel)> = Seq::empty();
        let p1 = p0.push((ValueModel::Text("columns"@), ec));
        let p2 = p1.push((ValueModel::Text("keys"@), ek));
        let p3 = p2.push((ValueModel::Text("data"@), ed));
        lemma_text_map_of_push(p0, "columns"@, ec);
        lemma_text_map_of_push(p1, "keys"@, ek);
        lemma_text_map_of_push(p2, "data"@, ed);
        <Vec<TableColumnInfo> as CBORTransform>::lemma_round_trip(x.columns);
        <Vec<i64> as CBORTransform>::lemma_round_trip(x.keys);
        <Vec<Vec<CborValue>> as CBORTransform>::lemma_round_trip(x.data);
        let p4 = match m.selections { Some(s) => p3.push((ValueModel::Text("selections"@), <Vec<Selection> as CBORTransform>::encode_spec(s))), None => p3 };
        if let Some(s) = m.selections {
            lemma_text_map_of_push(p3, "selections"@, <Vec<Selection> as CBORTransform>::encode_spec(s));
            <Vec<Selection> as CBORTransform>::lemma_round_trip(x.selections.unwrap());
        }
        assert(Self::encode_spec(m)->Dict_0 =~= p4);
        assert(text_map_of(p0) =~= Map::<Seq<char>, ValueModel>::empty());
        reveal_strlit("columns");
        reveal_strlit("keys");
        reveal_strlit("data");
        reveal_strlit("selections");
        assert("columns"@[0] != "keys"@[0]);
        assert("columns"@[0] != "data"@[0]);
        assert("columns"@[0] != "selections"@[0]);
        assert("keys"@[0] != "data"@[0]);
        assert("keys"@[0] != "selections"@[0]);
        assert("data"@[0] != "selections"@[0]);
        let tm = text_map_of(p4);
        assert(tm.contains_key("columns"@));
        assert(tm.remove("columns"@).contains_key("keys"@));
        assert(tm.remove("columns"@).remove("keys"@).contains_key("data"@));
    }
}

} // verus!
