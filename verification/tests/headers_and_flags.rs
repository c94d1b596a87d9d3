use llm_ls::adaptors::{adapt_headers, Adaptor};
use llm_ls::error::Error;
use llm_ls::flags::{Xtask, XtaskCmd};

#[test]
fn headers_hold_user_agent_and_bearer_token() {
    let token = "testtoken".to_string();
    let headers = adapt_headers(Some(&Adaptor::Tgi), Some(&token), "neovim").unwrap();
    assert_eq!(headers.len(), 2);
    assert_eq!(headers[0].0, "user-agent");
    assert_eq!(headers[0].1, "llm-ls/0.1.0; rust/unknown; ide/neovim");
    assert_eq!(headers[1].0, "authorization");
    assert_eq!(headers[1].1, "Bearer testtoken");
}

#[test]
fn headers_without_token_hold_user_agent_only() {
    let headers = adapt_headers(None, None, "emacs").unwrap();
    assert_eq!(headers.len(), 1);
    assert_eq!(headers[0].0, "user-agent");
    assert_eq!(headers[0].1, "llm-ls/0.1.0; rust/unknown; ide/emacs");
}

#[test]
fn ollama_headers_are_empty() {
    let token = "unused".to_string();
    let headers = adapt_headers(Some(&Adaptor::Ollama), Some(&token), "vim").unwrap();
    assert!(headers.is_empty());
}

#[test]
fn token_with_newline_fails_header_construction() {
    let token = "bad\ntoken".to_string();
    let res = adapt_headers(Some(&Adaptor::OpenAi), Some(&token), "vim");
    assert!(matches!(res, Err(Error::InvalidHeaderValue)));
}

#[test]
fn adaptor_names_round_trip() {
    for a in [Adaptor::HuggingFace, Adaptor::Ollama, Adaptor::OpenAi, Adaptor::Tgi] {
        assert_eq!(Adaptor::from_name(a.name().as_str()), Some(a));
    }
    assert_eq!(Adaptor::from_name("huggingface"), Some(Adaptor::HuggingFace));
    assert_eq!(Adaptor::from_name("tgi"), Some(Adaptor::Tgi));
    assert_eq!(Adaptor::from_name("gpt"), None);
}

#[test]
fn default_adaptor_is_huggingface() {
    assert_eq!(Adaptor::default(), Adaptor::HuggingFace);
}

#[test]
fn xtask_accepts_dist() {
    let parsed = Xtask::from_vec(vec!["dist".to_string()]).unwrap();
    assert!(matches!(parsed.subcommand, XtaskCmd::Dist(_)));
}

#[test]
fn xtask_rejects_other_arguments() {
    assert!(Xtask::from_vec(vec![]).is_err());
    assert!(Xtask::from_vec(vec!["build".to_string()]).is_err());
    let e = Xtask::from_vec(vec!["dist".to_string(), "x".to_string()]).unwrap_err();
    assert_eq!(e.message, "expected exactly one subcommand: dist");
}
