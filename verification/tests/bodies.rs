use llm_ls::adaptors::{adapt_body, Adaptor};
use llm_ls::error::Error;
use llm_ls::json::Json;
use llm_ls::{CompletionParams, GenerationParams};

fn json_to_value(j: &Json) -> serde_json::Value {
    match j {
        Json::Null => serde_json::Value::Null,
        Json::Bool(b) => serde_json::Value::Bool(*b),
        Json::Num(s) => serde_json::Value::Number(s.parse().unwrap()),
        Json::Str(s) => serde_json::Value::String(s.clone()),
        Json::Arr(items) => serde_json::Value::Array(items.iter().map(json_to_value).collect()),
        Json::Obj(pairs) => serde_json::Value::Object(
            pairs.iter().map(|(k, v)| (k.clone(), json_to_value(v))).collect(),
        ),
    }
}

fn params() -> GenerationParams {
    GenerationParams::new(
        60,
        "0.2".to_string(),
        true,
        "0.95".to_string(),
        vec!["<|endoftext|>".to_string()],
    )
    .unwrap()
}

fn completion(adaptor: Option<Adaptor>, model: Option<&str>) -> CompletionParams {
    CompletionParams {
        request_params: params(),
        adaptor,
        request_body: model.map(|m| vec![("model".to_string(), Json::Str(m.to_string()))]),
    }
}

fn expect(raw: &str) -> serde_json::Value {
    serde_json::from_str(raw).unwrap()
}

#[test]
fn tgi_body_matches_wire_shape() {
    let body = adapt_body("def add(".to_string(), &completion(Some(Adaptor::Tgi), None)).unwrap();
    let wire = r#"{"inputs":"def add(","parameters":{"max_new_tokens":60,"temperature":0.2,"do_sample":true,"top_p":0.95,"stop_tokens":["<|endoftext|>"]}}"#;
    assert_eq!(json_to_value(&body), expect(wire));
}

#[test]
fn default_backend_body_matches_tgi_shape() {
    let body = adapt_body("def add(".to_string(), &completion(None, None)).unwrap();
    let wire = r#"{"inputs":"def add(","parameters":{"max_new_tokens":60,"temperature":0.2,"do_sample":true,"top_p":0.95,"stop_tokens":["<|endoftext|>"]}}"#;
    assert_eq!(json_to_value(&body), expect(wire));
}

#[test]
fn ollama_body_matches_wire_shape() {
    let body = adapt_body(
        "def add(".to_string(),
        &completion(Some(Adaptor::Ollama), Some("codellama")),
    )
    .unwrap();
    let wire = r#"{"prompt":"def add(","model":"codellama","stream":false,"options":{"num_predict":60,"temperature":0.2,"top_p":0.95,"stop":["<|endoftext|>"]}}"#;
    assert_eq!(json_to_value(&body), expect(wire));
}

#[test]
fn openai_body_matches_wire_shape() {
    let body = adapt_body(
        "def add(".to_string(),
        &completion(Some(Adaptor::OpenAi), Some("gpt-x")),
    )
    .unwrap();
    let wire = r#"{"prompt":"def add(","model":"gpt-x","max_tokens":60,"temperature":0.2,"top_p":0.95,"stop":["<|endoftext|>"]}"#;
    assert_eq!(json_to_value(&body), expect(wire));
}

#[test]
fn ollama_body_without_request_body_fails() {
    let res = adapt_body("x".to_string(), &completion(Some(Adaptor::Ollama), None));
    assert!(matches!(res, Err(Error::MissingModel)));
}

#[test]
fn openai_body_without_model_field_fails() {
    let mut cp = completion(Some(Adaptor::OpenAi), None);
    cp.request_body = Some(vec![("other".to_string(), Json::Str("x".to_string()))]);
    let res = adapt_body("x".to_string(), &cp);
    assert!(matches!(res, Err(Error::MissingModel)));
}

#[test]
fn generation_params_accept_json_numbers() {
    assert!(GenerationParams::new(1, "1e-3".to_string(), false, "0.5".to_string(), vec![]).is_some());
    assert!(GenerationParams::new(1, "-0.25".to_string(), false, "12.5E+2".to_string(), vec![]).is_some());
}

#[test]
fn generation_params_reject_bad_numbers() {
    assert!(GenerationParams::new(1, "abc".to_string(), false, "0.5".to_string(), vec![]).is_none());
    assert!(GenerationParams::new(1, "0.5".to_string(), false, "01".to_string(), vec![]).is_none());
    assert!(GenerationParams::new(1, "1.".to_string(), false, "0.5".to_string(), vec![]).is_none());
    assert!(GenerationParams::new(1, "0.5".to_string(), false, "".to_string(), vec![]).is_none());
}
