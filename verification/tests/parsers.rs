use llm_ls::adaptors::{parse_generations, Adaptor};
use llm_ls::error::{Error, OpenAIError, OpenAIErrorDetail, OpenAIErrorLoc};

fn texts(r: Result<Vec<llm_ls::Generation>, Error>) -> Vec<String> {
    r.unwrap().into_iter().map(|g| g.generated_text).collect()
}

#[test]
fn huggingface_array_yields_generations_in_order() {
    let raw = r#"[{"generated_text":"a"},{"generated_text":"b"}]"#;
    assert_eq!(texts(parse_generations(None, raw)), vec!["a", "b"]);
}

#[test]
fn huggingface_single_object_yields_one_generation() {
    let raw = r#"{"generated_text":"only"}"#;
    assert_eq!(texts(parse_generations(Some(&Adaptor::HuggingFace), raw)), vec!["only"]);
}

#[test]
fn huggingface_error_object_yields_tagged_error() {
    let res = parse_generations(None, r#"{"error":"boom"}"#);
    match res {
        Err(Error::InferenceApi(e)) => assert_eq!(e.error, "boom"),
        other => panic!("unexpected result: {:?}", other),
    }
}

#[test]
fn tgi_array_is_adaptor_mismatch() {
    let res = parse_generations(Some(&Adaptor::Tgi), r#"[{"generated_text":"a"}]"#);
    assert!(matches!(res, Err(Error::InvalidAdaptor)));
}

#[test]
fn tgi_single_object_is_accepted() {
    let raw = r#"{"generated_text":"one"}"#;
    assert_eq!(texts(parse_generations(Some(&Adaptor::Tgi), raw)), vec!["one"]);
}

#[test]
fn tgi_error_object_yields_tagged_error() {
    let res = parse_generations(Some(&Adaptor::Tgi), r#"{"error":"overloaded"}"#);
    match res {
        Err(Error::Tgi(e)) => assert_eq!(e.error, "overloaded"),
        other => panic!("unexpected result: {:?}", other),
    }
}

#[test]
fn tgi_array_of_non_generations_is_shape_mismatch() {
    let res = parse_generations(Some(&Adaptor::Tgi), "[1,2]");
    assert!(matches!(res, Err(Error::UnknownShape { adaptor: Adaptor::Tgi, .. })));
}

#[test]
fn ollama_response_yields_one_generation() {
    let raw = r#"{"response": "hello"}"#;
    assert_eq!(texts(parse_generations(Some(&Adaptor::Ollama), raw)), vec!["hello"]);
}

#[test]
fn ollama_error_object_yields_tagged_error() {
    let res = parse_generations(Some(&Adaptor::Ollama), r#"{"error":"no model"}"#);
    match res {
        Err(Error::Ollama(e)) => assert_eq!(e.error, "no model"),
        other => panic!("unexpected result: {:?}", other),
    }
}

#[test]
fn openai_choices_yield_generations_in_order() {
    let raw = r#"{"choices":[{"text":"a"},{"text":"b"}]}"#;
    assert_eq!(texts(parse_generations(Some(&Adaptor::OpenAi), raw)), vec!["a", "b"]);
}

#[test]
fn openai_detail_renders_loc_msg_and_kind() {
    let raw = r#"{"detail":[{"loc":"body","msg":"bad","type":"value_error"}]}"#;
    let res = parse_generations(Some(&Adaptor::OpenAi), raw);
    match res {
        Err(Error::OpenAI(e)) => assert_eq!(e.to_display_string(), "body: bad (value_error)"),
        other => panic!("unexpected result: {:?}", other),
    }
}

#[test]
fn openai_integer_loc_is_rendered_as_decimal() {
    let raw = r#"{"detail":[{"loc":2,"msg":"bad","type":"value_error"}]}"#;
    let res = parse_generations(Some(&Adaptor::OpenAi), raw);
    match res {
        Err(Error::OpenAI(e)) => assert_eq!(e.to_display_string(), "2: bad (value_error)"),
        other => panic!("unexpected result: {:?}", other),
    }
}

#[test]
fn openai_details_join_with_newlines() {
    let e = OpenAIError {
        detail: vec![
            OpenAIErrorDetail {
                loc: OpenAIErrorLoc::Text("body".to_string()),
                msg: "bad".to_string(),
                kind: "value_error".to_string(),
            },
            OpenAIErrorDetail {
                loc: OpenAIErrorLoc::Index(407),
                msg: "worse".to_string(),
                kind: "type_error".to_string(),
            },
        ],
    };
    assert_eq!(e.to_display_string(), "body: bad (value_error)\n407: worse (type_error)");
}

#[test]
fn openai_fractional_loc_is_shape_mismatch() {
    let raw = r#"{"detail":[{"loc":1.5,"msg":"bad","type":"value_error"}]}"#;
    let res = parse_generations(Some(&Adaptor::OpenAi), raw);
    assert!(matches!(res, Err(Error::UnknownShape { adaptor: Adaptor::OpenAi, .. })));
}

#[test]
fn malformed_json_reports_backend_and_size() {
    let res = parse_generations(Some(&Adaptor::Ollama), "not json");
    match res {
        Err(Error::InvalidJson { adaptor, size }) => {
            assert_eq!(adaptor, Adaptor::Ollama);
            assert_eq!(size, "not json".len());
        },
        other => panic!("unexpected result: {:?}", other),
    }
}

#[test]
fn unrecognized_shape_reports_backend_and_size() {
    let res = parse_generations(None, r#"{"foo":1}"#);
    match res {
        Err(Error::UnknownShape { adaptor, size }) => {
            assert_eq!(adaptor, Adaptor::HuggingFace);
            assert_eq!(size, r#"{"foo":1}"#.len());
        },
        other => panic!("unexpected result: {:?}", other),
    }
}

#[test]
fn parsing_same_text_twice_yields_equal_results() {
    let raw = r#"[{"generated_text":"a"},{"generated_text":"b"}]"#;
    let first = texts(parse_generations(None, raw));
    let second = texts(parse_generations(None, raw));
    assert_eq!(first, second);
    let bad = "not json";
    let e1 = parse_generations(None, bad);
    let e2 = parse_generations(None, bad);
    assert!(matches!(&e1, Err(Error::InvalidJson { size: 8, .. })));
    assert!(matches!(&e2, Err(Error::InvalidJson { size: 8, .. })));
}

#[test]
fn shape_order_prefers_success_over_error() {
    let raw = r#"{"response":"a","error":"b"}"#;
    assert_eq!(texts(parse_generations(Some(&Adaptor::Ollama), raw)), vec!["a"]);
    let raw = r#"{"generated_text":"a","error":"b"}"#;
    assert_eq!(texts(parse_generations(None, raw)), vec!["a"]);
}

#[test]
fn openai_loc_at_index_type_bound() {
    let raw = r#"{"detail":[{"loc":4294967295,"msg":"m","type":"t"}]}"#;
    match parse_generations(Some(&Adaptor::OpenAi), raw) {
        Err(Error::OpenAI(e)) => assert_eq!(e.to_display_string(), "4294967295: m (t)"),
        other => panic!("unexpected result: {:?}", other),
    }
    let raw = r#"{"detail":[{"loc":4294967296,"msg":"m","type":"t"}]}"#;
    let res = parse_generations(Some(&Adaptor::OpenAi), raw);
    assert!(matches!(res, Err(Error::UnknownShape { adaptor: Adaptor::OpenAi, .. })));
}

#[test]
fn empty_choices_yield_empty_generation_list() {
    let res = parse_generations(Some(&Adaptor::OpenAi), r#"{"choices":[]}"#);
    assert!(texts(res).is_empty());
}
