use vstd::prelude::*;
use crate::error::{
    APIError, DetailSpec, Error, LocSpec, OpenAIError, OpenAIErrorDetail, OpenAIErrorLoc,
};
use crate::json::{
    items_view, json_of, lemma_items_view_index, lemma_items_view_len, lemma_pairs_view_index,
    lemma_pairs_view_len, obj_get, obj_get_ref, pairs_view, parse_json, Json, JsonSpec,
};
use crate::num_text::{dec_str, dec_val, is_dec_digits, parse_u32_digits, u32_to_string};
use crate::Generation;

verus! {

broadcast use lemma_items_view_index, lemma_items_view_len, lemma_pairs_view_index,
    lemma_pairs_view_len;

/// The closed set of supported backends. Each has its own request and
/// response wire format; `HuggingFace` and `Tgi` share one.
#[derive(Clone, Copy, PartialEq, Eq, Structural, Debug)]
pub enum Adaptor {
    HuggingFace,
    Ollama,
    OpenAi,
    Tgi,
}

impl Default for Adaptor {
    /// The default backend is the HuggingFace-style API.
    fn default() -> (r: Self)
        ensures
            r == Adaptor::HuggingFace,
    {
        Adaptor::HuggingFace
    }
}

/// The canonical lowercase tag of a backend, used in configuration and
/// diagnostics.
pub open spec fn adaptor_name(a: Adaptor) -> Seq<char> {
    match a {
        Adaptor::HuggingFace => "huggingface"@,
        Adaptor::Ollama => "ollama"@,
        Adaptor::OpenAi => "openai"@,
        Adaptor::Tgi => "tgi"@,
    }
}

/// The backend a lowercase tag names, if any.
pub open spec fn adaptor_of_name(s: Seq<char>) -> Option<Adaptor> {
    if s == "huggingface"@ {
        Some(Adaptor::HuggingFace)
    } else if s == "ollama"@ {
        Some(Adaptor::Ollama)
    } else if s == "openai"@ {
        Some(Adaptor::OpenAi)
    } else if s == "tgi"@ {
        Some(Adaptor::Tgi)
    } else {
        None
    }
}

impl Adaptor {
    /// The canonical lowercase tag of this backend.
    pub fn name(&self) -> (r: String)
        ensures
            r@ == adaptor_name(*self),
    {
        match self {
            Adaptor::HuggingFace => String::from_str("huggingface"),
            Adaptor::Ollama => String::from_str("ollama"),
            Adaptor::OpenAi => String::from_str("openai"),
            Adaptor::Tgi => String::from_str("tgi"),
        }
    }

    /// Reads a lowercase tag back into a backend selector.
    pub fn from_name(s: &str) -> (r: Option<Adaptor>)
        ensures
            r == adaptor_of_name(s@),
    {
        let given = String::from_str(s);
        if given == String::from_str("huggingface") {
            Some(Adaptor::HuggingFace)
        } else if given == String::from_str("ollama") {
            Some(Adaptor::Ollama)
        } else if given == String::from_str("openai") {
            Some(Adaptor::OpenAi)
        } else if given == String::from_str("tgi") {
            Some(Adaptor::Tgi)
        } else {
            None
        }
    }
}

/// Law: the lowercase tag mapping over the closed backend set is total and
/// bidirectional: each backend's tag names that backend and no other text
/// names it.
pub proof fn lemma_adaptor_name_round_trip(a: Adaptor, s: Seq<char>)
    ensures
        adaptor_of_name(adaptor_name(a)) == Some(a),
        adaptor_of_name(s) == Some(a) ==> s == adaptor_name(a),
{
    reveal_strlit("huggingface");
    reveal_strlit("ollama");
    reveal_strlit("openai");
    reveal_strlit("tgi");
    assert("ollama"@.len() == 6 && "huggingface"@.len() == 11 && "openai"@.len() == 6
        && "tgi"@.len() == 3);
    assert("ollama"@ != "huggingface"@);
    assert("openai"@ != "huggingface"@);
    assert("openai"@[1] == 'p' && "ollama"@[1] == 'l');
    assert("openai"@ != "ollama"@);
    assert("tgi"@ != "huggingface"@ && "tgi"@ != "ollama"@ && "tgi"@ != "openai"@);
}

/// The backend a selector resolves to: the default where it is absent.
pub open spec fn resolve_adaptor(a: Option<Adaptor>) -> Adaptor {
    match a {
        None => Adaptor::HuggingFace,
        Some(x) => x,
    }
}

/// The string held by field `key` of an object, where the tree is an object
/// and the field is present and a string.
pub open spec fn field_str_of(j: JsonSpec, key: Seq<char>) -> Option<Seq<char>> {
    match j {
        JsonSpec::Obj(pairs) => match obj_get(pairs, key) {
            Some(JsonSpec::Str(s)) => Some(s),
            _ => None,
        },
        _ => None,
    }
}

/// A single TGI-style generation object: `generated_text` holds the text.
pub open spec fn gen_text_of(j: JsonSpec) -> Option<Seq<char>> {
    field_str_of(j, "generated_text"@)
}

/// The multi-result TGI-style shape: an array of generation objects.
pub open spec fn gen_list_of(j: JsonSpec) -> Option<Seq<Seq<char>>> {
    match j {
        JsonSpec::Arr(items) => {
            if forall|i: int| 0 <= i < items.len() ==> #[trigger] gen_text_of(items[i]) is Some {
                Some(Seq::new(items.len(), |i: int| gen_text_of(items[i])->Some_0))
            } else {
                None
            }
        },
        _ => None,
    }
}

/// The shared error shape of the HuggingFace-style API, TGI and Ollama: an
/// object whose `error` field is the message.
pub open spec fn error_msg_of(j: JsonSpec) -> Option<Seq<char>> {
    field_str_of(j, "error"@)
}

/// The Ollama success shape: an object whose `response` field is the text.
pub open spec fn response_of(j: JsonSpec) -> Option<Seq<char>> {
    field_str_of(j, "response"@)
}

/// What one parse yields, as a mathematical value: the generated texts in
/// source order, or one of the error outcomes.
pub enum ParseOutcome {
    Gens(Seq<Seq<char>>),
    TgiErr(Seq<char>),
    ApiErr(Seq<char>),
    OllamaErr(Seq<char>),
    OpenAiErr(Seq<DetailSpec>),
    AdaptorMismatch,
    BadJson(Adaptor, nat),
    BadShape(Adaptor, nat),
    HeaderInvalid,
    NoModel,
}

/// The texts of a generation list, in order.
pub open spec fn gens_view(v: Seq<Generation>) -> Seq<Seq<char>> {
    Seq::new(v.len(), |i: int| v[i]@)
}

/// The outcome a parse result denotes.
pub open spec fn result_model(r: Result<Vec<Generation>, Error>) -> ParseOutcome {
    match r {
        Ok(v) => ParseOutcome::Gens(gens_view(v@)),
        Err(e) => match e {
            Error::Tgi(a) => ParseOutcome::TgiErr(a.error@),
            Error::InferenceApi(a) => ParseOutcome::ApiErr(a.error@),
            Error::Ollama(a) => ParseOutcome::OllamaErr(a.error@),
            Error::OpenAI(o) => ParseOutcome::OpenAiErr(o@),
            Error::InvalidAdaptor => ParseOutcome::AdaptorMismatch,
            Error::InvalidJson { adaptor, size } => ParseOutcome::BadJson(adaptor, size as nat),
            Error::UnknownShape { adaptor, size } => ParseOutcome::BadShape(adaptor, size as nat),
            Error::InvalidHeaderValue => ParseOutcome::HeaderInvalid,
            Error::MissingModel => ParseOutcome::NoModel,
        },
    }
}

/// What the TGI parser returns for a raw text: a single generation object is
/// the one success shape; the multi-result shape marks a wrongly selected
/// backend; an error object is a TGI-reported error.
pub open spec fn parse_tgi_spec(text: Seq<char>) -> ParseOutcome {
    match json_of(text) {
        None => ParseOutcome::BadJson(Adaptor::Tgi, text.len()),
        Some(j) => if gen_text_of(j) is Some {
            ParseOutcome::Gens(seq![gen_text_of(j)->Some_0])
        } else if gen_list_of(j) is Some {
            ParseOutcome::AdaptorMismatch
        } else if error_msg_of(j) is Some {
            ParseOutcome::TgiErr(error_msg_of(j)->Some_0)
        } else {
            ParseOutcome::BadShape(Adaptor::Tgi, text.len())
        },
    }
}

/// What the HuggingFace-style parser returns: a single generation object, a
/// list of generation objects, or an error object, tried in that order.
pub open spec fn parse_api_spec(text: Seq<char>) -> ParseOutcome {
    match json_of(text) {
        None => ParseOutcome::BadJson(Adaptor::HuggingFace, text.len()),
        Some(j) => if gen_text_of(j) is Some {
            ParseOutcome::Gens(seq![gen_text_of(j)->Some_0])
        } else if gen_list_of(j) is Some {
            ParseOutcome::Gens(gen_list_of(j)->Some_0)
        } else if error_msg_of(j) is Some {
            ParseOutcome::ApiErr(error_msg_of(j)->Some_0)
        } else {
            ParseOutcome::BadShape(Adaptor::HuggingFace, text.len())
        },
    }
}

/// What the Ollama parser returns: an object with a `response` string, or
/// the shared error shape, tried in that order.
pub open spec fn parse_ollama_spec(text: Seq<char>) -> ParseOutcome {
    match json_of(text) {
        None => ParseOutcome::BadJson(Adaptor::Ollama, text.len()),
        Some(j) => if response_of(j) is Some {
            ParseOutcome::Gens(seq![response_of(j)->Some_0])
        } else if error_msg_of(j) is Some {
            ParseOutcome::OllamaErr(error_msg_of(j)->Some_0)
        } else {
            ParseOutcome::BadShape(Adaptor::Ollama, text.len())
        },
    }
}

/// One OpenAI-style choice object: `text` holds the generated text.
pub open spec fn choice_text_of(j: JsonSpec) -> Option<Seq<char>> {
    field_str_of(j, "text"@)
}

/// The OpenAI success shape: an object whose `choices` field is an array of
/// choice objects.
pub open spec fn choices_of(j: JsonSpec) -> Option<Seq<Seq<char>>> {
    match j {
        JsonSpec::Obj(pairs) => match obj_get(pairs, "choices"@) {
            Some(JsonSpec::Arr(items)) => {
                if forall|i: int|
                    0 <= i < items.len() ==> #[trigger] choice_text_of(items[i]) is Some {
                    Some(Seq::new(items.len(), |i: int| choice_text_of(items[i])->Some_0))
                } else {
                    None
                }
            },
            _ => None,
        },
        _ => None,
    }
}

/// An OpenAI error location: a field name, or an index written as a decimal
/// integer that fits the index type.
pub open spec fn loc_spec_of(j: JsonSpec) -> Option<LocSpec> {
    match j {
        JsonSpec::Str(s) => Some(LocSpec::Text(s)),
        JsonSpec::Num(t) => if is_dec_digits(t) && dec_val(t) <= u32::MAX {
            Some(LocSpec::Index(dec_val(t) as u32))
        } else {
            None
        },
        _ => None,
    }
}

/// One OpenAI error detail record: an object with a location, a message and
/// an error kind under `loc`, `msg` and `type`.
pub open spec fn detail_item_of(j: JsonSpec) -> Option<DetailSpec> {
    match j {
        JsonSpec::Obj(pairs) => {
            let loc = match obj_get(pairs, "loc"@) {
                Some(l) => loc_spec_of(l),
                None => None,
            };
            let msg = field_str_of(j, "msg"@);
            let kind = field_str_of(j, "type"@);
            if loc is Some && msg is Some && kind is Some {
                Some(DetailSpec { loc: loc->Some_0, msg: msg->Some_0, kind: kind->Some_0 })
            } else {
                None
            }
        },
        _ => None,
    }
}

/// The OpenAI error shape: an object whose `detail` field is an array of
/// detail records.
pub open spec fn details_of(j: JsonSpec) -> Option<Seq<DetailSpec>> {
    match j {
        JsonSpec::Obj(pairs) => match obj_get(pairs, "detail"@) {
            Some(JsonSpec::Arr(items)) => {
                if forall|i: int|
                    0 <= i < items.len() ==> #[trigger] detail_item_of(items[i]) is Some {
                    Some(Seq::new(items.len(), |i: int| detail_item_of(items[i])->Some_0))
                } else {
                    None
                }
            },
            _ => None,
        },
        _ => None,
    }
}

/// What the OpenAI-compatible parser returns: a `choices` array of texts, or
/// an ordered `detail` error list, tried in that order.
pub open spec fn parse_openai_spec(text: Seq<char>) -> ParseOutcome {
    match json_of(text) {
        None => ParseOutcome::BadJson(Adaptor::OpenAi, text.len()),
        Some(j) => if choices_of(j) is Some {
            ParseOutcome::Gens(choices_of(j)->Some_0)
        } else if details_of(j) is Some {
            ParseOutcome::OpenAiErr(details_of(j)->Some_0)
        } else {
            ParseOutcome::BadShape(Adaptor::OpenAi, text.len())
        },
    }
}

/// Borrows the string held by field `key` of an object tree.
fn str_field_ref<'a>(j: &'a Json, key: &str) -> (r: Option<&'a String>)
    ensures
        match r {
            Some(s) => field_str_of(j@, key@) == Some(s@),
            None => field_str_of(j@, key@) is None,
        },
{
    match j {
        Json::Obj(pairs) => match obj_get_ref(pairs, key) {
            Some(v) => match v {
                Json::Str(s) => Some(s),
                _ => None,
            },
            None => None,
        },
        _ => None,
    }
}

/// Reads an array of generation objects into normalized generations, in
/// source order.
fn gen_list_exec(j: &Json) -> (r: Option<Vec<Generation>>)
    ensures
        r is Some <==> gen_list_of(j@) is Some,
        r matches Some(v) ==> gens_view(v@) == gen_list_of(j@)->Some_0,
{
    match j {
        Json::Arr(items) => {
            let ghost model = items_view(*items);
            proof {
                assert(j@ == JsonSpec::Arr(model));
            }
            let mut out: Vec<Generation> = Vec::new();
            let mut i: usize = 0;
            while i < items.len()
                invariant
                    i <= items@.len(),
                    model == items_view(*items),
                    j@ == JsonSpec::Arr(model),
                    model.len() == items@.len(),
                    out@.len() == i,
                    forall|k: int| 0 <= k < i ==> #[trigger] gen_text_of(model[k]) is Some,
                    forall|k: int|
                        0 <= k < i ==> out@[k]@ == #[trigger] gen_text_of(model[k])->Some_0,
                decreases items@.len() - i,
            {
                proof {
                    assert(model[i as int] == items@[i as int]@);
                }
                match str_field_ref(&items[i], "generated_text") {
                    Some(s) => {
                        out.push(Generation { generated_text: s.clone() });
                    },
                    None => {
                        proof {
                            assert(gen_text_of(model[i as int]) is None);
                        }
                        return None;
                    },
                }
                i = i + 1;
            }
            proof {
                assert(gens_view(out@) =~= gen_list_of(j@)->Some_0);
            }
            Some(out)
        },
        _ => None,
    }
}

/// Reads the OpenAI success shape: each choice's `text`, in source order.
fn choices_exec(j: &Json) -> (r: Option<Vec<Generation>>)
    ensures
        r is Some <==> choices_of(j@) is Some,
        r matches Some(v) ==> gens_view(v@) == choices_of(j@)->Some_0,
{
    match j {
        Json::Obj(pairs) => {
            proof {
                assert(j@ == JsonSpec::Obj(pairs_view(*pairs)));
            }
            match obj_get_ref(pairs, "choices") {
                Some(c) => match c {
                    Json::Arr(items) => {
                        let ghost model = items_view(*items);
                        proof {
                            assert(c@ == JsonSpec::Arr(model));
                        }
                        let mut out: Vec<Generation> = Vec::new();
                        let mut i: usize = 0;
                        while i < items.len()
                            invariant
                                i <= items@.len(),
                                model == items_view(*items),
                                model.len() == items@.len(),
                                j@ matches JsonSpec::Obj(ps) && obj_get(ps, "choices"@) == Some(
                                    JsonSpec::Arr(model),
                                ),
                                out@.len() == i,
                                forall|k: int|
                                    0 <= k < i ==> #[trigger] choice_text_of(model[k]) is Some,
                                forall|k: int|
                                    0 <= k < i ==> out@[k]@ == #[trigger] choice_text_of(
                                        model[k],
                                    )->Some_0,
                            decreases items@.len() - i,
                        {
                            proof {
                                assert(model[i as int] == items@[i as int]@);
                            }
                            match str_field_ref(&items[i], "text") {
                                Some(s) => {
                                    out.push(Generation { generated_text: s.clone() });
                                },
                                None => {
                                    proof {
                                        assert(choice_text_of(model[i as int]) is None);
                                    }
                                    return None;
                                },
                            }
                            i = i + 1;
                        }
                        proof {
                            assert(gens_view(out@) =~= choices_of(j@)->Some_0);
                        }
                        Some(out)
                    },
                    _ => None,
                },
                None => None,
            }
        },
        _ => None,
    }
}

/// Reads one OpenAI error detail record.
fn detail_item_exec(j: &Json) -> (r: Option<OpenAIErrorDetail>)
    ensures
        r is Some <==> detail_item_of(j@) is Some,
        r matches Some(d) ==> Some(d@) == detail_item_of(j@),
{
    match j {
        Json::Obj(pairs) => {
            proof {
                assert(j@ == JsonSpec::Obj(pairs_view(*pairs)));
            }
            let loc = match obj_get_ref(pairs, "loc") {
                Some(l) => match l {
                    Json::Str(s) => OpenAIErrorLoc::Text(s.clone()),
                    Json::Num(t) => match parse_u32_digits(t.as_str()) {
                        Some(n) => OpenAIErrorLoc::Index(n),
                        None => {
                            return None;
                        },
                    },
                    _ => {
                        return None;
                    },
                },
                None => {
                    return None;
                },
            };
            let msg = match str_field_ref(j, "msg") {
                Some(s) => s.clone(),
                None => {
                    return None;
                },
            };
            let kind = match str_field_ref(j, "type") {
                Some(s) => s.clone(),
                None => {
                    return None;
                },
            };
            Some(OpenAIErrorDetail { loc, msg, kind })
        },
        _ => None,
    }
}

/// Reads the OpenAI error shape: every detail record, in source order.
fn details_exec(j: &Json) -> (r: Option<Vec<OpenAIErrorDetail>>)
    ensures
        r is Some <==> details_of(j@) is Some,
        r matches Some(v) ==> crate::error::details_view(v@) == details_of(j@)->Some_0,
{
    match j {
        Json::Obj(pairs) => {
            proof {
                assert(j@ == JsonSpec::Obj(pairs_view(*pairs)));
            }
            match obj_get_ref(pairs, "detail") {
                Some(c) => match c {
                    Json::Arr(items) => {
                        let ghost model = items_view(*items);
                        proof {
                            assert(c@ == JsonSpec::Arr(model));
                        }
                        let mut out: Vec<OpenAIErrorDetail> = Vec::new();
                        let mut i: usize = 0;
                        while i < items.len()
                            invariant
                                i <= items@.len(),
                                model == items_view(*items),
                                model.len() == items@.len(),
                                j@ matches JsonSpec::Obj(ps) && obj_get(ps, "detail"@) == Some(
                                    JsonSpec::Arr(model),
                                ),
                                out@.len() == i,
                                forall|k: int|
                                    0 <= k < i ==> #[trigger] detail_item_of(model[k]) is Some,
                                forall|k: int|
                                    0 <= k < i ==> Some(out@[k]@) == #[trigger] detail_item_of(
                                        model[k],
                                    ),
                            decreases items@.len() - i,
                        {
                            proof {
                                assert(model[i as int] == items@[i as int]@);
                            }
                            match detail_item_exec(&items[i]) {
                                Some(d) => {
                                    out.push(d);
                                },
                                None => {
                                    proof {
                                        assert(detail_item_of(model[i as int]) is None);
                                    }
                                    return None;
                                },
                            }
                            i = i + 1;
                        }
                        proof {
                            assert(crate::error::details_view(out@) =~= details_of(j@)->Some_0);
                        }
                        Some(out)
                    },
                    _ => None,
                },
                None => None,
            }
        },
        _ => None,
    }
}

/// Parses a raw OpenAI-compatible response: the `choices` texts on success,
/// the ordered `detail` records on a backend-reported error.
pub fn parse_openai_text(text: &str) -> (r: Result<Vec<Generation>, Error>)
    ensures
        result_model(r) == parse_openai_spec(text@),
{
    let size = text.unicode_len();
    match parse_json(text) {
        None => Err(Error::InvalidJson { adaptor: Adaptor::OpenAi, size }),
        Some(j) => {
            match choices_exec(&j) {
                Some(v) => {
                    return Ok(v);
                },
                None => {},
            }
            match details_exec(&j) {
                Some(d) => Err(Error::OpenAI(OpenAIError { detail: d })),
                None => Err(Error::UnknownShape { adaptor: Adaptor::OpenAi, size }),
            }
        },
    }
}

/// Parses a raw TGI response. TGI returns exactly one generation per
/// request, so the multi-result shape is an adaptor mismatch, never a
/// success.
pub fn parse_tgi_text(text: &str) -> (r: Result<Vec<Generation>, Error>)
    ensures
        result_model(r) == parse_tgi_spec(text@),
{
    let size = text.unicode_len();
    match parse_json(text) {
        None => Err(Error::InvalidJson { adaptor: Adaptor::Tgi, size }),
        Some(j) => {
            match str_field_ref(&j, "generated_text") {
                Some(s) => {
                    let mut v: Vec<Generation> = Vec::new();
                    v.push(Generation { generated_text: s.clone() });
                    proof {
                        assert(gens_view(v@) =~= seq![gen_text_of(j@)->Some_0]);
                    }
                    return Ok(v);
                },
                None => {},
            }
            match gen_list_exec(&j) {
                Some(_) => {
                    return Err(Error::InvalidAdaptor);
                },
                None => {},
            }
            match str_field_ref(&j, "error") {
                Some(s) => Err(Error::Tgi(APIError { error: s.clone() })),
                None => Err(Error::UnknownShape { adaptor: Adaptor::Tgi, size }),
            }
        },
    }
}

/// Parses a raw HuggingFace-style API response: one generation object, an
/// array of them, or an API-reported error.
pub fn parse_api_text(text: &str) -> (r: Result<Vec<Generation>, Error>)
    ensures
        result_model(r) == parse_api_spec(text@),
{
    let size = text.unicode_len();
    match parse_json(text) {
        None => Err(Error::InvalidJson { adaptor: Adaptor::HuggingFace, size }),
        Some(j) => {
            match str_field_ref(&j, "generated_text") {
                Some(s) => {
                    let mut v: Vec<Generation> = Vec::new();
                    v.push(Generation { generated_text: s.clone() });
                    proof {
                        assert(gens_view(v@) =~= seq![gen_text_of(j@)->Some_0]);
                    }
                    return Ok(v);
                },
                None => {},
            }
            match gen_list_exec(&j) {
                Some(v) => {
                    return Ok(v);
                },
                None => {},
            }
            match str_field_ref(&j, "error") {
                Some(s) => Err(Error::InferenceApi(APIError { error: s.clone() })),
                None => Err(Error::UnknownShape { adaptor: Adaptor::HuggingFace, size }),
            }
        },
    }
}

/// Parses a raw Ollama response: the `response` field holds the one
/// generated text.
pub fn parse_ollama_text(text: &str) -> (r: Result<Vec<Generation>, Error>)
    ensures
        result_model(r) == parse_ollama_spec(text@),
{
    let size = text.unicode_len();
    match parse_json(text) {
        None => Err(Error::InvalidJson { adaptor: Adaptor::Ollama, size }),
        Some(j) => {
            match str_field_ref(&j, "response") {
                Some(s) => {
                    let mut v: Vec<Generation> = Vec::new();
                    v.push(Generation { generated_text: s.clone() });
                    proof {
                        assert(gens_view(v@) =~= seq![response_of(j@)->Some_0]);
                    }
                    return Ok(v);
                },
                None => {},
            }
            match str_field_ref(&j, "error") {
                Some(s) => Err(Error::Ollama(APIError { error: s.clone() })),
                None => Err(Error::UnknownShape { adaptor: Adaptor::Ollama, size }),
            }
        },
    }
}

/// What parsing a raw text for a backend yields.
pub open spec fn parse_spec(a: Adaptor, text: Seq<char>) -> ParseOutcome {
    match a {
        Adaptor::HuggingFace => parse_api_spec(text),
        Adaptor::Ollama => parse_ollama_spec(text),
        Adaptor::OpenAi => parse_openai_spec(text),
        Adaptor::Tgi => parse_tgi_spec(text),
    }
}

/// Routes a raw response text to the selected backend's parser (default:
/// the HuggingFace-style API).
pub fn parse_generations(adaptor: Option<&Adaptor>, text: &str) -> (r: Result<
    Vec<Generation>,
    Error,
>)
    ensures
        result_model(r) == parse_spec(
            resolve_adaptor(
                match adaptor {
                    Some(a) => Some(*a),
                    None => None,
                },
            ),
            text@,
        ),
{
    let a = match adaptor {
        Some(a) => *a,
        None => Adaptor::HuggingFace,
    };
    match a {
        Adaptor::HuggingFace => parse_api_text(text),
        Adaptor::Ollama => parse_ollama_text(text),
        Adaptor::OpenAi => parse_openai_text(text),
        Adaptor::Tgi => parse_tgi_text(text),
    }
}

/// The character sequences of a string list, in order.
pub open spec fn strings_view(v: Vec<String>) -> Seq<Seq<char>> {
    Seq::new(v@.len(), |i: int| v@[i]@)
}

/// A JSON array of strings, as a model tree list.
pub open spec fn str_arr_spec(v: Seq<Seq<char>>) -> Seq<JsonSpec> {
    Seq::new(v.len(), |i: int| JsonSpec::Str(v[i]))
}

/// Builds a JSON array holding the given strings in order.
fn build_str_arr(tokens: &Vec<String>) -> (r: Json)
    ensures
        r@ == JsonSpec::Arr(str_arr_spec(strings_view(*tokens))),
{
    let mut out: Vec<Json> = Vec::new();
    let mut i: usize = 0;
    while i < tokens.len()
        invariant
            i <= tokens@.len(),
            out@.len() == i,
            forall|k: int| 0 <= k < i ==> out@[k]@ == JsonSpec::Str(tokens@[k]@),
        decreases tokens@.len() - i,
    {
        out.push(Json::Str(tokens[i].clone()));
        i = i + 1;
    }
    proof {
        assert(items_view(out) =~= str_arr_spec(strings_view(*tokens)));
    }
    Json::Arr(out)
}

/// The TGI-style request body: the prompt under `inputs` and the sampling
/// controls under `parameters`.
pub open spec fn tgi_body_spec(prompt: Seq<char>, p: crate::GenerationParams) -> JsonSpec {
    JsonSpec::Obj(
        seq![
            ("inputs"@, JsonSpec::Str(prompt)),
            (
                "parameters"@,
                JsonSpec::Obj(
                    seq![
                        ("max_new_tokens"@, JsonSpec::Num(dec_str(p.max_new_tokens as nat))),
                        ("temperature"@, JsonSpec::Num(p.temperature@)),
                        ("do_sample"@, JsonSpec::Bool(p.do_sample)),
                        ("top_p"@, JsonSpec::Num(p.top_p@)),
                        ("stop_tokens"@, JsonSpec::Arr(str_arr_spec(strings_view(p.stop_tokens)))),
                    ],
                ),
            ),
        ],
    )
}

/// Builds the TGI request body.
pub fn build_tgi_body(prompt: String, params: &crate::GenerationParams) -> (r: Json)
    ensures
        r@ == tgi_body_spec(prompt@, *params),
{
    let stop = build_str_arr(&params.stop_tokens);
    let mut inner: Vec<(String, Json)> = Vec::new();
    inner.push(
        (String::from_str("max_new_tokens"), Json::Num(u32_to_string(params.max_new_tokens))),
    );
    inner.push((String::from_str("temperature"), Json::Num(params.temperature.clone())));
    inner.push((String::from_str("do_sample"), Json::Bool(params.do_sample)));
    inner.push((String::from_str("top_p"), Json::Num(params.top_p.clone())));
    inner.push((String::from_str("stop_tokens"), stop));
    let mut outer: Vec<(String, Json)> = Vec::new();
    outer.push((String::from_str("inputs"), Json::Str(prompt)));
    outer.push((String::from_str("parameters"), Json::Obj(inner)));
    let r = Json::Obj(outer);
    proof {
        assert(pairs_view(inner) =~= tgi_body_spec(prompt@, *params)->Obj_0[1].1->Obj_0);
        assert(pairs_view(outer) =~= tgi_body_spec(prompt@, *params)->Obj_0);
    }
    r
}

/// Builds the HuggingFace-style API request body, which shares the TGI wire
/// shape.
pub fn build_api_body(prompt: String, params: &crate::GenerationParams) -> (r: Json)
    ensures
        r@ == tgi_body_spec(prompt@, *params),
{
    build_tgi_body(prompt, params)
}

/// The `model` value of the caller-supplied request template, if any.
pub open spec fn model_of(p: crate::CompletionParams) -> Option<JsonSpec> {
    match p.request_body {
        None => None,
        Some(rb) => obj_get(pairs_view(rb), "model"@),
    }
}

/// The Ollama request body: prompt, model, `stream: false`, and the
/// sampling controls under `options`.
pub open spec fn ollama_body_spec(
    prompt: Seq<char>,
    p: crate::GenerationParams,
    model: JsonSpec,
) -> JsonSpec {
    JsonSpec::Obj(
        seq![
            ("prompt"@, JsonSpec::Str(prompt)),
            ("model"@, model),
            ("stream"@, JsonSpec::Bool(false)),
            (
                "options"@,
                JsonSpec::Obj(
                    seq![
                        ("num_predict"@, JsonSpec::Num(dec_str(p.max_new_tokens as nat))),
                        ("temperature"@, JsonSpec::Num(p.temperature@)),
                        ("top_p"@, JsonSpec::Num(p.top_p@)),
                        ("stop"@, JsonSpec::Arr(str_arr_spec(strings_view(p.stop_tokens)))),
                    ],
                ),
            ),
        ],
    )
}

/// Builds the Ollama request body. Fails where no `model`-bearing request
/// template was supplied.
pub fn build_ollama_body(prompt: String, params: &crate::CompletionParams) -> (r: Result<
    Json,
    Error,
>)
    ensures
        match model_of(*params) {
            Some(m) => r matches Ok(j) && j@ == ollama_body_spec(
                prompt@,
                params.request_params,
                m,
            ),
            None => r == Err::<Json, Error>(Error::MissingModel),
        },
{
    let model = match &params.request_body {
        None => {
            return Err(Error::MissingModel);
        },
        Some(rb) => match obj_get_ref(rb, "model") {
            None => {
                return Err(Error::MissingModel);
            },
            Some(m) => m.duplicate(),
        },
    };
    let p = &params.request_params;
    let stop = build_str_arr(&p.stop_tokens);
    let mut inner: Vec<(String, Json)> = Vec::new();
    inner.push((String::from_str("num_predict"), Json::Num(u32_to_string(p.max_new_tokens))));
    inner.push((String::from_str("temperature"), Json::Num(p.temperature.clone())));
    inner.push((String::from_str("top_p"), Json::Num(p.top_p.clone())));
    inner.push((String::from_str("stop"), stop));
    let mut outer: Vec<(String, Json)> = Vec::new();
    outer.push((String::from_str("prompt"), Json::Str(prompt)));
    outer.push((String::from_str("model"), model));
    outer.push((String::from_str("stream"), Json::Bool(false)));
    outer.push((String::from_str("options"), Json::Obj(inner)));
    let r = Json::Obj(outer);
    proof {
        let m = model_of(*params)->Some_0;
        let target = ollama_body_spec(prompt@, params.request_params, m);
        assert(pairs_view(inner) =~= target->Obj_0[3].1->Obj_0);
        assert(pairs_view(outer) =~= target->Obj_0);
    }
    Ok(r)
}

/// The OpenAI-compatible request body: prompt, model, and the sampling
/// controls at top level, the token bound under `max_tokens`.
pub open spec fn openai_body_spec(
    prompt: Seq<char>,
    p: crate::GenerationParams,
    model: JsonSpec,
) -> JsonSpec {
    JsonSpec::Obj(
        seq![
            ("prompt"@, JsonSpec::Str(prompt)),
            ("model"@, model),
            ("max_tokens"@, JsonSpec::Num(dec_str(p.max_new_tokens as nat))),
            ("temperature"@, JsonSpec::Num(p.temperature@)),
            ("top_p"@, JsonSpec::Num(p.top_p@)),
            ("stop"@, JsonSpec::Arr(str_arr_spec(strings_view(p.stop_tokens)))),
        ],
    )
}

/// Builds the OpenAI-compatible request body. Fails where no
/// `model`-bearing request template was supplied.
pub fn build_openai_body(prompt: String, params: &crate::CompletionParams) -> (r: Result<
    Json,
    Error,
>)
    ensures
        match model_of(*params) {
            Some(m) => r matches Ok(j) && j@ == openai_body_spec(
                prompt@,
                params.request_params,
                m,
            ),
            None => r == Err::<Json, Error>(Error::MissingModel),
        },
{
    let model = match &params.request_body {
        None => {
            return Err(Error::MissingModel);
        },
        Some(rb) => match obj_get_ref(rb, "model") {
            None => {
                return Err(Error::MissingModel);
            },
            Some(m) => m.duplicate(),
        },
    };
    let p = &params.request_params;
    let stop = build_str_arr(&p.stop_tokens);
    let mut outer: Vec<(String, Json)> = Vec::new();
    outer.push((String::from_str("prompt"), Json::Str(prompt)));
    outer.push((String::from_str("model"), model));
    outer.push((String::from_str("max_tokens"), Json::Num(u32_to_string(p.max_new_tokens))));
    outer.push((String::from_str("temperature"), Json::Num(p.temperature.clone())));
    outer.push((String::from_str("top_p"), Json::Num(p.top_p.clone())));
    outer.push((String::from_str("stop"), stop));
    let r = Json::Obj(outer);
    proof {
        let m = model_of(*params)->Some_0;
        assert(pairs_view(outer) =~= openai_body_spec(prompt@, params.request_params, m)->Obj_0);
    }
    Ok(r)
}

/// What `adapt_body` produces for a prompt and parameter set: the selected
/// backend's body, or nothing where a required `model` is missing.
pub open spec fn adapt_body_spec(prompt: Seq<char>, p: crate::CompletionParams) -> Option<
    JsonSpec,
> {
    match resolve_adaptor(p.adaptor) {
        Adaptor::HuggingFace => Some(tgi_body_spec(prompt, p.request_params)),
        Adaptor::Tgi => Some(tgi_body_spec(prompt, p.request_params)),
        Adaptor::Ollama => match model_of(p) {
            Some(m) => Some(ollama_body_spec(prompt, p.request_params, m)),
            None => None,
        },
        Adaptor::OpenAi => match model_of(p) {
            Some(m) => Some(openai_body_spec(prompt, p.request_params, m)),
            None => None,
        },
    }
}

/// Builds the request body for the selected backend (default: the
/// HuggingFace-style API). Fails exactly where the backend needs a `model`
/// from the request template and none is there.
pub fn adapt_body(prompt: String, params: &crate::CompletionParams) -> (r: Result<Json, Error>)
    ensures
        match adapt_body_spec(prompt@, *params) {
            Some(js) => r matches Ok(j) && j@ == js,
            None => r == Err::<Json, Error>(Error::MissingModel),
        },
{
    let a = match &params.adaptor {
        None => Adaptor::HuggingFace,
        Some(x) => *x,
    };
    match a {
        Adaptor::HuggingFace => Ok(build_api_body(prompt, &params.request_params)),
        Adaptor::Ollama => build_ollama_body(prompt, params),
        Adaptor::OpenAi => build_openai_body(prompt, params),
        Adaptor::Tgi => Ok(build_tgi_body(prompt, &params.request_params)),
    }
}

/// A header value may hold horizontal tab and any character except the
/// other controls.
pub open spec fn is_valid_header_char(c: char) -> bool {
    c == '\t' || (32 <= c as int && c as int != 127)
}

/// Every character of a header value must be valid.
pub open spec fn is_valid_header_value(s: Seq<char>) -> bool {
    forall|i: int| 0 <= i < s.len() ==> is_valid_header_char(#[trigger] s[i])
}

/// Checks a header value character by character.
fn check_header_value(s: &str) -> (b: bool)
    ensures
        b == is_valid_header_value(s@),
{
    let len = s.unicode_len();
    let mut i: usize = 0;
    while i < len
        invariant
            i <= len,
            len == s@.len(),
            forall|k: int| 0 <= k < i ==> is_valid_header_char(#[trigger] s@[k]),
        decreases len - i,
    {
        let c = s.get_char(i);
        let v = c as u32;
        if !(c == '\t' || (v >= 32 && v != 127)) {
            return false;
        }
        i = i + 1;
    }
    true
}

/// The `User-Agent` value: client name and version, implementation runtime,
/// and the caller's editor identity.
pub open spec fn user_agent_text(ide: Seq<char>) -> Seq<char> {
    "llm-ls/0.1.0; rust/unknown; ide/"@ + ide
}

/// The `Authorization` value for a bearer token.
pub open spec fn bearer_text(token: Seq<char>) -> Seq<char> {
    "Bearer "@ + token
}

/// The model of an optional borrowed token.
pub open spec fn opt_string_view(t: Option<&String>) -> Option<Seq<char>> {
    match t {
        None => None,
        Some(s) => Some(s@),
    }
}

/// The name/value pairs a header list holds, in order.
pub open spec fn header_pairs_view(v: Vec<(String, String)>) -> Seq<(Seq<char>, Seq<char>)> {
    Seq::new(v@.len(), |i: int| (v@[i].0@, v@[i].1@))
}

/// The TGI-style header set: a `User-Agent`, and an `Authorization` bearer
/// entry exactly where a token was supplied; nothing where either value
/// holds a character HTTP refuses.
pub open spec fn api_headers_spec(token: Option<Seq<char>>, ide: Seq<char>) -> Option<
    Seq<(Seq<char>, Seq<char>)>,
> {
    let ua = user_agent_text(ide);
    if !is_valid_header_value(ua) {
        None
    } else {
        match token {
            None => Some(seq![("user-agent"@, ua)]),
            Some(t) => if !is_valid_header_value(bearer_text(t)) {
                None
            } else {
                Some(seq![("user-agent"@, ua), ("authorization"@, bearer_text(t))])
            },
        }
    }
}

/// Builds the TGI request headers. Fails with a header-construction error
/// where a value would hold a character HTTP refuses.
pub fn build_tgi_headers(api_token: Option<&String>, ide: &str) -> (r: Result<
    Vec<(String, String)>,
    Error,
>)
    ensures
        match api_headers_spec(opt_string_view(api_token), ide@) {
            Some(hs) => r matches Ok(v) && header_pairs_view(v) == hs,
            None => r == Err::<Vec<(String, String)>, Error>(Error::InvalidHeaderValue),
        },
{
    let mut ua = String::from_str("llm-ls/0.1.0; rust/unknown; ide/");
    ua.append(ide);
    if !check_header_value(ua.as_str()) {
        return Err(Error::InvalidHeaderValue);
    }
    let mut out: Vec<(String, String)> = Vec::new();
    out.push((String::from_str("user-agent"), ua));
    match api_token {
        None => {
            proof {
                assert(header_pairs_view(out) =~= api_headers_spec(
                    opt_string_view(api_token),
                    ide@,
                )->Some_0);
            }
            Ok(out)
        },
        Some(token) => {
            let mut bearer = String::from_str("Bearer ");
            bearer.append(token.as_str());
            if !check_header_value(bearer.as_str()) {
                return Err(Error::InvalidHeaderValue);
            }
            out.push((String::from_str("authorization"), bearer));
            proof {
                assert(header_pairs_view(out) =~= api_headers_spec(
                    opt_string_view(api_token),
                    ide@,
                )->Some_0);
            }
            Ok(out)
        },
    }
}

/// Builds the HuggingFace-style API headers, which share the TGI shape.
pub fn build_api_headers(api_token: Option<&String>, ide: &str) -> (r: Result<
    Vec<(String, String)>,
    Error,
>)
    ensures
        match api_headers_spec(opt_string_view(api_token), ide@) {
            Some(hs) => r matches Ok(v) && header_pairs_view(v) == hs,
            None => r == Err::<Vec<(String, String)>, Error>(Error::InvalidHeaderValue),
        },
{
    build_tgi_headers(api_token, ide)
}

/// Builds the OpenAI-compatible headers, which share the TGI shape.
pub fn build_openai_headers(api_token: Option<&String>, ide: &str) -> (r: Result<
    Vec<(String, String)>,
    Error,
>)
    ensures
        match api_headers_spec(opt_string_view(api_token), ide@) {
            Some(hs) => r matches Ok(v) && header_pairs_view(v) == hs,
            None => r == Err::<Vec<(String, String)>, Error>(Error::InvalidHeaderValue),
        },
{
    build_api_headers(api_token, ide)
}

/// Builds the Ollama headers: Ollama has no authentication scheme, so the
/// set is empty.
pub fn build_ollama_headers() -> (r: Result<Vec<(String, String)>, Error>)
    ensures
        r matches Ok(v) && header_pairs_view(v) == Seq::<(Seq<char>, Seq<char>)>::empty(),
{
    let out: Vec<(String, String)> = Vec::new();
    proof {
        assert(header_pairs_view(out) =~= Seq::<(Seq<char>, Seq<char>)>::empty());
    }
    Ok(out)
}

/// What `adapt_headers` produces for a backend, token and caller identity.
pub open spec fn adapt_headers_spec(a: Adaptor, token: Option<Seq<char>>, ide: Seq<char>) -> Option<
    Seq<(Seq<char>, Seq<char>)>,
> {
    match a {
        Adaptor::Ollama => Some(Seq::empty()),
        Adaptor::HuggingFace => api_headers_spec(token, ide),
        Adaptor::OpenAi => api_headers_spec(token, ide),
        Adaptor::Tgi => api_headers_spec(token, ide),
    }
}

/// Builds the request headers for the selected backend (default: the
/// HuggingFace-style API). Fails exactly where a header value would hold a
/// character HTTP refuses.
pub fn adapt_headers(adaptor: Option<&Adaptor>, api_token: Option<&String>, ide: &str) -> (r:
    Result<Vec<(String, String)>, Error>)
    ensures
        match adapt_headers_spec(
            resolve_adaptor(
                match adaptor {
                    Some(a) => Some(*a),
                    None => None,
                },
            ),
            opt_string_view(api_token),
            ide@,
        ) {
            Some(hs) => r matches Ok(v) && header_pairs_view(v) == hs,
            None => r == Err::<Vec<(String, String)>, Error>(Error::InvalidHeaderValue),
        },
{
    let a = match adaptor {
        Some(a) => *a,
        None => Adaptor::HuggingFace,
    };
    match a {
        Adaptor::HuggingFace => build_api_headers(api_token, ide),
        Adaptor::Ollama => build_ollama_headers(),
        Adaptor::OpenAi => build_openai_headers(api_token, ide),
        Adaptor::Tgi => build_tgi_headers(api_token, ide),
    }
}

/// Law: parsing holds no hidden state. The outcome is a function of the
/// selected backend and the raw text alone, so feeding the same text twice
/// yields equal results.
pub proof fn lemma_parse_generations_deterministic(
    adaptor: Option<Adaptor>,
    text: Seq<char>,
    r1: Result<Vec<Generation>, Error>,
    r2: Result<Vec<Generation>, Error>,
)
    requires
        result_model(r1) == parse_spec(resolve_adaptor(adaptor), text),
        result_model(r2) == parse_spec(resolve_adaptor(adaptor), text),
    ensures
        result_model(r1) == result_model(r2),
{
}

} // verus!
