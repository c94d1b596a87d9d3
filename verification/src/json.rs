use vstd::prelude::*;

verus! {

broadcast use vstd::std_specs::vec::group_vec_axioms;

/// Mathematical model of a JSON document. A number carries the literal
/// decimal text of its token, so that integer and non-integer numbers are
/// kept exactly as they appeared on the wire.
#[verifier::ext_equal]
pub enum JsonSpec {
    Null,
    Bool(bool),
    Num(Seq<char>),
    Str(Seq<char>),
    Arr(Seq<JsonSpec>),
    Obj(Seq<(Seq<char>, JsonSpec)>),
}

/// A JSON document as the library holds it at run time. Its view is the
/// `JsonSpec` tree with every string replaced by its character sequence.
#[derive(Debug)]
pub enum Json {
    Null,
    Bool(bool),
    Num(String),
    Str(String),
    Arr(Vec<Json>),
    Obj(Vec<(String, Json)>),
}

impl View for Json {
    type V = JsonSpec;

    open spec fn view(&self) -> JsonSpec
        decreases self,
    {
        match self {
            Json::Null => JsonSpec::Null,
            Json::Bool(b) => JsonSpec::Bool(*b),
            Json::Num(s) => JsonSpec::Num(s@),
            Json::Str(s) => JsonSpec::Str(s@),
            Json::Arr(items) => JsonSpec::Arr(items_view(*items)),
            Json::Obj(pairs) => JsonSpec::Obj(pairs_view(*pairs)),
        }
    }
}

/// The view of an array's element list: each element as its `JsonSpec` tree.
pub open spec fn items_view(items: Vec<Json>) -> Seq<JsonSpec>
    decreases items,
{
    Seq::new(
        items@.len(),
        |i: int|
            if 0 <= i < items@.len() {
                items@[i]@
            } else {
                JsonSpec::Null
            },
    )
}

/// Each position of an array's view is the view of the element there.
pub broadcast proof fn lemma_items_view_index(items: Vec<Json>, i: int)
    requires
        0 <= i < items@.len(),
    ensures
        #[trigger] items_view(items)[i] == items@[i]@,
{
}

/// An array's view has one position per element.
pub broadcast proof fn lemma_items_view_len(items: Vec<Json>)
    ensures
        #[trigger] items_view(items).len() == items@.len(),
{
}

/// Each position of an object's view is the viewed pair there.
pub broadcast proof fn lemma_pairs_view_index(pairs: Vec<(String, Json)>, i: int)
    requires
        0 <= i < pairs@.len(),
    ensures
        #[trigger] pairs_view(pairs)[i] == (pairs@[i].0@, pairs@[i].1@),
{
}

/// An object's view has one position per pair.
pub broadcast proof fn lemma_pairs_view_len(pairs: Vec<(String, Json)>)
    ensures
        #[trigger] pairs_view(pairs).len() == pairs@.len(),
{
}

/// The view of an object's pair list: each key as its character sequence,
/// each value as its `JsonSpec` tree.
pub open spec fn pairs_view(pairs: Vec<(String, Json)>) -> Seq<(Seq<char>, JsonSpec)>
    decreases pairs,
{
    Seq::new(
        pairs@.len(),
        |i: int|
            if 0 <= i < pairs@.len() {
                (pairs@[i].0@, pairs@[i].1@)
            } else {
                (Seq::empty(), JsonSpec::Null)
            },
    )
}

/// The value bound to `key` in an object's pair list from position `i` on:
/// the first later pair whose key matches, or `None` where none matches.
pub open spec fn obj_get_from(
    pairs: Seq<(Seq<char>, JsonSpec)>,
    key: Seq<char>,
    i: int,
) -> Option<JsonSpec>
    decreases pairs.len() - i,
{
    if i < 0 || i >= pairs.len() {
        None
    } else if pairs[i].0 == key {
        Some(pairs[i].1)
    } else {
        obj_get_from(pairs, key, i + 1)
    }
}

/// The value bound to `key` in an object's pair list: the first pair whose
/// key matches, or `None` where no pair matches.
pub open spec fn obj_get(pairs: Seq<(Seq<char>, JsonSpec)>, key: Seq<char>) -> Option<JsonSpec> {
    obj_get_from(pairs, key, 0)
}

/// Looks `key` up in an object's pair list, returning the first match.
pub fn obj_get_ref<'a>(pairs: &'a Vec<(String, Json)>, key: &str) -> (r: Option<&'a Json>)
    ensures
        match r {
            Some(j) => obj_get(pairs_view(*pairs), key@) == Some(j@),
            None => obj_get(pairs_view(*pairs), key@) is None,
        },
{
    let ghost model = pairs_view(*pairs);
    proof {
        assert(model.len() == pairs.len());
    }
    let key_string = String::from_str(key);
    let mut i: usize = 0;
    while i < pairs.len()
        invariant
            i <= pairs.len(),
            model == pairs_view(*pairs),
            model.len() == pairs.len(),
            key_string@ == key@,
            obj_get_from(model, key@, i as int) == obj_get(model, key@),
        decreases pairs.len() - i,
    {
        proof {
            assert(model[i as int] == (pairs[i as int].0@, pairs[i as int].1@));
        }
        if pairs[i].0 == key_string {
            return Some(&pairs[i].1);
        }
        i = i + 1;
    }
    None
}

impl Json {
    /// A deep copy of the tree.
    pub fn duplicate(&self) -> (r: Json)
        ensures
            r@ == self@,
        decreases self,
    {
        match self {
            Json::Null => Json::Null,
            Json::Bool(b) => Json::Bool(*b),
            Json::Num(s) => Json::Num(s.clone()),
            Json::Str(s) => Json::Str(s.clone()),
            Json::Arr(items) => {
                let mut out: Vec<Json> = Vec::new();
                let mut i: usize = 0;
                while i < items.len()
                    invariant
                        i <= items@.len(),
                        out@.len() == i,
                        *self == Json::Arr(*items),
                        forall|k: int| 0 <= k < i ==> out@[k]@ == items@[k]@,
                    decreases items@.len() - i,
                {
                    proof {
                        assert(decreases_to!(*self => self->Arr_0));
                        assert(self->Arr_0 == *items);
                        assert(decreases_to!(*items => items@));
                        assert(decreases_to!(items@ => items@[i as int]));
                    }
                    let d = items[i].duplicate();
                    out.push(d);
                    i = i + 1;
                }
                proof {
                    assert(items_view(out) =~= items_view(*items));
                }
                Json::Arr(out)
            },
            Json::Obj(pairs) => {
                let mut out: Vec<(String, Json)> = Vec::new();
                let mut i: usize = 0;
                while i < pairs.len()
                    invariant
                        i <= pairs@.len(),
                        out@.len() == i,
                        *self == Json::Obj(*pairs),
                        forall|k: int|
                            0 <= k < i ==> out@[k].0@ == pairs@[k].0@ && out@[k].1@
                                == pairs@[k].1@,
                    decreases pairs@.len() - i,
                {
                    proof {
                        assert(decreases_to!(*self => self->Obj_0));
                        assert(self->Obj_0 == *pairs);
                        assert(decreases_to!(*pairs => pairs@));
                        assert(decreases_to!(pairs@ => pairs@[i as int]));
                        assert(decreases_to!(pairs@[i as int] => pairs@[i as int].1));
                    }
                    let key = pairs[i].0.clone();
                    let val = pairs[i].1.duplicate();
                    out.push((key, val));
                    i = i + 1;
                }
                proof {
                    assert(pairs_view(out) =~= pairs_view(*pairs));
                }
                Json::Obj(out)
            },
        }
    }
}

#[verifier::external_type_specification]
#[verifier::external_body]
pub struct ExValue(serde_json::Value);

/// The JSON tree that a text parses to, or `None` where the text is not
/// JSON. Names the result of `serde_json::from_str::<serde_json::Value>`,
/// which depends on the text alone.
pub uninterp spec fn json_of(s: Seq<char>) -> Option<JsonSpec>;

/// The tree held by a `serde_json::Value`, as this library models it.
pub uninterp spec fn value_model(v: serde_json::Value) -> JsonSpec;

/// Relies on `serde_json::from_str::<serde_json::Value>`: it succeeds exactly
/// on well-formed JSON text and returns the parsed tree, deterministically in
/// the text alone.
#[verifier::external_body]
fn parse_value(text: &str) -> (r: Option<serde_json::Value>)
    ensures
        r is Some <==> json_of(text@) is Some,
        r matches Some(v) ==> value_model(v) == json_of(text@)->Some_0,
{
    serde_json::from_str::<serde_json::Value>(text).ok()
}

/// Relies on the variant set of `serde_json::Value`: each variant is moved
/// into the library's own tree one for one, a number keeping the text that
/// `serde_json` renders for it.
#[verifier::external_body]
fn value_to_json(v: &serde_json::Value) -> (r: Json)
    ensures
        r@ == value_model(*v),
{
    match v {
        serde_json::Value::Null => Json::Null,
        serde_json::Value::Bool(b) => Json::Bool(*b),
        serde_json::Value::Number(n) => Json::Num(n.to_string()),
        serde_json::Value::String(s) => Json::Str(s.clone()),
        serde_json::Value::Array(a) => Json::Arr(a.iter().map(value_to_json).collect()),
        serde_json::Value::Object(m) => Json::Obj(
            m.iter().map(|(k, x)| (k.clone(), value_to_json(x))).collect(),
        ),
    }
}

/// Parses a text into the library's JSON tree, or `None` where the text is
/// not JSON.
pub fn parse_json(text: &str) -> (r: Option<Json>)
    ensures
        r is Some <==> json_of(text@) is Some,
        r matches Some(j) ==> j@ == json_of(text@)->Some_0,
{
    match parse_value(text) {
        None => None,
        Some(v) => Some(value_to_json(&v)),
    }
}

} // verus!
