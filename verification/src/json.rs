//! A small JSON document model.
//!
//! Requests are rendered into `Json` trees whose exact shape the encoders
//! prove; the ghost `JsonModel` is the mathematical value of such a tree.
use vstd::prelude::*;

verus! {

broadcast use vstd::std_specs::vec::group_vec_axioms, vstd::string::group_string_axioms;

/// Mathematical model of a JSON document.
///
/// An object is a sequence of key/value pairs in writing order; a number that
/// is not an integer is carried as its decimal text.
#[verifier::ext_equal]
pub enum JsonModel {
    Null,
    Bool(bool),
    Int(int),
    Num(Seq<char>),
    Str(Seq<char>),
    Arr(Seq<JsonModel>),
    Obj(Seq<(Seq<char>, JsonModel)>),
}

/// A JSON document as built by the request encoders.
///
/// `Num` holds the decimal text of a number that the library does not
/// interpret; it is written to the wire verbatim.
#[derive(Debug, PartialEq)]
pub enum Json {
    Null,
    Bool(bool),
    Int(i64),
    UInt(u64),
    Num(String),
    Str(String),
    Arr(Vec<Json>),
    Obj(Vec<(String, Json)>),
}

impl Json {
    /// The mathematical value of this document.
    pub open spec fn model(self) -> JsonModel
        decreases self,
    {
        match self {
            Json::Null => JsonModel::Null,
            Json::Bool(b) => JsonModel::Bool(b),
            Json::Int(i) => JsonModel::Int(i as int),
            Json::UInt(u) => JsonModel::Int(u as int),
            Json::Num(s) => JsonModel::Num(s@),
            Json::Str(s) => JsonModel::Str(s@),
            Json::Arr(a) => JsonModel::Arr(
                Seq::new(
                    a.len() as nat,
                    |i: int|
                        if 0 <= i < a.len() {
                            a[i].model()
                        } else {
                            JsonModel::Null
                        },
                ),
            ),
            Json::Obj(o) => JsonModel::Obj(
                Seq::new(
                    o.len() as nat,
                    |i: int|
                        if 0 <= i < o.len() {
                            (o[i].0@, o[i].1.model())
                        } else {
                            (Seq::empty(), JsonModel::Null)
                        },
                ),
            ),
        }
    }
}

impl View for Json {
    type V = JsonModel;

    open spec fn view(&self) -> JsonModel {
        self.model()
    }
}

/// The models of a sequence of object entries, keys and values alike.
pub open spec fn entries_model(s: Seq<(String, Json)>) -> Seq<(Seq<char>, JsonModel)> {
    s.map_values(|kv: (String, Json)| (kv.0@, kv.1@))
}

/// The models of a sequence of array elements.
pub open spec fn elems_model(s: Seq<Json>) -> Seq<JsonModel> {
    s.map_values(|j: Json| j@)
}

/// An object entry that is present only when `v` is.
pub open spec fn opt_entry(k: Seq<char>, v: Option<JsonModel>) -> Seq<(Seq<char>, JsonModel)> {
    match v {
        Option::Some(j) => seq![(k, j)],
        Option::None => Seq::empty(),
    }
}

/// The value under the first occurrence of `k`, if any.
pub open spec fn lookup(entries: Seq<(Seq<char>, JsonModel)>, k: Seq<char>) -> Option<JsonModel>
    decreases entries.len(),
{
    if entries.len() == 0 {
        Option::None
    } else if entries[0].0 == k {
        Option::Some(entries[0].1)
    } else {
        lookup(entries.drop_first(), k)
    }
}

/// Looking a key up in appended entries searches the front entries first.
pub proof fn lemma_lookup_append(
    s1: Seq<(Seq<char>, JsonModel)>,
    s2: Seq<(Seq<char>, JsonModel)>,
    k: Seq<char>,
)
    ensures
        lookup(s1 + s2, k) == match lookup(s1, k) {
            Option::Some(v) => Option::Some(v),
            Option::None => lookup(s2, k),
        },
    decreases s1.len(),
{
    if s1.len() == 0 {
        assert(s1 + s2 =~~= s2);
    } else {
        assert((s1 + s2)[0] == s1[0]);
        if s1[0].0 == k {
        } else {
            assert((s1 + s2).drop_first() =~~= s1.drop_first() + s2);
            lemma_lookup_append(s1.drop_first(), s2, k);
        }
    }
}

/// An object value is modelled by the models of its entries.
pub broadcast proof fn lemma_obj_model(o: Vec<(String, Json)>)
    ensures
        #[trigger] Json::Obj(o)@ == JsonModel::Obj(entries_model(o@)),
{
    let s1 = Json::Obj(o)@->Obj_0;
    let s2 = entries_model(o@);
    assert forall|i: int| 0 <= i < s2.len() implies s1[i] == s2[i] by {}
    assert(s1 =~~= s2);
}

/// An array value is modelled by the models of its elements.
pub broadcast proof fn lemma_arr_model(a: Vec<Json>)
    ensures
        #[trigger] Json::Arr(a)@ == JsonModel::Arr(elems_model(a@)),
{
    let s1 = Json::Arr(a)@->Arr_0;
    let s2 = elems_model(a@);
    assert forall|i: int| 0 <= i < s2.len() implies s1[i] == s2[i] by {}
    assert(s1 =~~= s2);
}

/// Appending an entry appends its model.
pub broadcast proof fn lemma_entries_model_push(s: Seq<(String, Json)>, kv: (String, Json))
    ensures
        #[trigger] entries_model(s.push(kv)) == entries_model(s).push((kv.0@, kv.1@)),
{
    assert(entries_model(s.push(kv)) =~~= entries_model(s).push((kv.0@, kv.1@)));
}

/// Appending an element appends its model.
pub broadcast proof fn lemma_elems_model_push(s: Seq<Json>, j: Json)
    ensures
        #[trigger] elems_model(s.push(j)) == elems_model(s).push(j@),
{
    assert(elems_model(s.push(j)) =~~= elems_model(s).push(j@));
}

/// The model of an optional document.
pub open spec fn opt_model(v: Option<Json>) -> Option<JsonModel> {
    match v {
        Option::Some(j) => Option::Some(j@),
        Option::None => Option::None,
    }
}

/// The model of an optional string field.
pub open spec fn opt_str_model(v: Option<String>) -> Option<JsonModel> {
    match v {
        Option::Some(s) => Option::Some(JsonModel::Str(s@)),
        Option::None => Option::None,
    }
}

/// The model of an optional signed-number field.
pub open spec fn opt_i32_model(v: Option<i32>) -> Option<JsonModel> {
    match v {
        Option::Some(x) => Option::Some(JsonModel::Int(x as int)),
        Option::None => Option::None,
    }
}

/// The model of an optional size field.
pub open spec fn opt_usize_model(v: Option<usize>) -> Option<JsonModel> {
    match v {
        Option::Some(x) => Option::Some(JsonModel::Int(x as int)),
        Option::None => Option::None,
    }
}

/// The model of an optional flag field.
pub open spec fn opt_bool_model(v: Option<bool>) -> Option<JsonModel> {
    match v {
        Option::Some(b) => Option::Some(JsonModel::Bool(b)),
        Option::None => Option::None,
    }
}

/// The characters of an optional string, the empty sequence when absent.
pub open spec fn unwrap_or_empty(v: Option<String>) -> Seq<char> {
    match v {
        Option::Some(s) => s@,
        Option::None => Seq::empty(),
    }
}

/// Appends the entry `k: v` to the entries of an object under construction.
pub fn obj_push(o: &mut Vec<(String, Json)>, k: &str, v: Json)
    ensures
        entries_model(final(o)@) == entries_model(old(o)@) + seq![(k@, v@)],
        final(o)@.len() == old(o)@.len() + 1,
{
    broadcast use lemma_entries_model_push;

    o.push((k.to_owned(), v));
    proof {
        assert(entries_model(old(o)@).push((k@, v@)) =~~= entries_model(old(o)@) + seq![(k@, v@)]);
    }
}

/// Appends the entry `k: v` when `v` is present, and nothing otherwise.
pub fn obj_push_opt(o: &mut Vec<(String, Json)>, k: &str, v: Option<Json>)
    ensures
        entries_model(final(o)@) == entries_model(old(o)@) + opt_entry(k@, opt_model(v)),
        final(o)@.len() == old(o)@.len() + opt_entry(k@, opt_model(v)).len(),
{
    match v {
        Some(j) => obj_push(o, k, j),
        None => {
            proof {
                assert(entries_model(o@) =~~= entries_model(o@) + Seq::empty());
            }
        },
    }
}

/// Appends an element to an array under construction.
pub fn arr_push(a: &mut Vec<Json>, j: Json)
    ensures
        elems_model(final(a)@) == elems_model(old(a)@) + seq![j@],
        final(a)@.len() == old(a)@.len() + 1,
{
    broadcast use lemma_elems_model_push;

    a.push(j);
    proof {
        assert(elems_model(old(a)@).push(j@) =~~= elems_model(old(a)@) + seq![j@]);
    }
}

/// The value under the first occurrence of `key` among object entries, if
/// any.
pub fn entries_get<'a>(o: &'a Vec<(String, Json)>, key: &String) -> (r: Option<&'a Json>)
    ensures
        match r {
            Option::Some(j) => lookup(entries_model(o@), key@) == Option::Some(j@),
            Option::None => lookup(entries_model(o@), key@) is None,
        },
{
    let ghost entries = entries_model(o@);
    proof {
        assert(entries.skip(0) =~~= entries);
    }
    let mut i: usize = 0;
    while i < o.len()
        invariant
            i <= o.len(),
            entries == entries_model(o@),
            lookup(entries, key@) == lookup(entries.skip(i as int), key@),
        decreases o.len() - i,
    {
        if o[i].0.eq(key) {
            proof {
                assert(entries.skip(i as int)[0] == entries[i as int]);
            }
            return Some(&o[i].1);
        }
        proof {
            assert(entries.skip(i as int).drop_first() =~~= entries.skip(i + 1));
            assert(entries.skip(i as int)[0] == entries[i as int]);
        }
        i = i + 1;
    }
    proof {
        assert(entries.skip(o.len() as int).len() == 0);
    }
    None
}

/// The value of this document when it is an unsigned 64-bit integer.
pub fn json_u64(j: &Json) -> (r: Option<u64>)
    ensures
        match r {
            Option::Some(u) => j@ == JsonModel::Int(u as int),
            Option::None => match j@ {
                JsonModel::Int(i) => !(0 <= i <= u64::MAX),
                _ => true,
            },
        },
{
    match j {
        Json::Int(i) => {
            if *i >= 0 {
                Some(*i as u64)
            } else {
                None
            }
        },
        Json::UInt(u) => Some(*u),
        _ => None,
    }
}

/// The characters of this document when it is a string.
pub fn json_str(j: &Json) -> (r: Option<String>)
    ensures
        match r {
            Option::Some(s) => j@ == JsonModel::Str(s@),
            Option::None => !(j@ is Str),
        },
{
    match j {
        Json::Str(s) => Some(s.clone()),
        _ => None,
    }
}

/// The value of this document when it is an integer that fits a size.
pub fn json_usize(j: &Json) -> (r: Option<usize>)
    ensures
        match r {
            Option::Some(u) => j@ == JsonModel::Int(u as int),
            Option::None => match j@ {
                JsonModel::Int(i) => !(0 <= i <= usize::MAX),
                _ => true,
            },
        },
{
    match j {
        Json::Int(i) => {
            if *i >= 0 && (*i as u64) <= (usize::MAX as u64) {
                Some(*i as usize)
            } else {
                None
            }
        },
        Json::UInt(u) => {
            if *u <= (usize::MAX as u64) {
                Some(*u as usize)
            } else {
                None
            }
        },
        _ => None,
    }
}

impl Json {
    /// The value under the first occurrence of `key` in this object, if this
    /// is an object that has one.
    pub fn get<'a>(&'a self, key: &String) -> (r: Option<&'a Json>)
        ensures
            match self@ {
                JsonModel::Obj(entries) => match r {
                    Option::Some(j) => lookup(entries, key@) == Option::Some(j@),
                    Option::None => lookup(entries, key@) is None,
                },
                _ => r is None,
            },
    {
        broadcast use lemma_obj_model;

        match self {
            Json::Obj(o) => entries_get(o, key),
            _ => None,
        }
    }
}

} // verus!
