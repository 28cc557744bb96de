//! OpenRouter backend: Decisions path and the Models API.

use kunobi_jev::{Client, ClientBuilder, Decoder, Error, Method};

fn openrouter_client() -> Client {
    ClientBuilder::default()
        .openrouter()
        .api_key("sk-or-test")
        .base_url("http://127.0.0.1:8080")
        .build_with_env(|_: &str| None, Ok(()), false)
        .unwrap()
}

#[test]
fn models_list_is_unsupported() {
    let call = openrouter_client().models().list();
    let err = match call.body_ref() {
        Err(err) => err.to_string(),
        Ok(_) => panic!("listing models must fail on OpenRouter"),
    };
    assert!(err.contains("Models API"), "{err}");
    // The refused call still names the models decoder and the listing route.
    assert_eq!(call.decoder_of(), Decoder::ModelList);
    assert_eq!(call.path_of(), "/v1/models");
}

#[test]
fn decisions_go_to_the_openrouter_path() {
    let call = openrouter_client().system_one(Ok(b"{}".to_vec()));
    assert_eq!(call.method_of(), Method::Post);
    assert_eq!(call.path_of(), "/alpha/decisions");
    assert_eq!(call.decoder_of(), Decoder::Json);
    assert_eq!(call.body_ref().as_ref().unwrap().as_deref(), Some(&b"{}"[..]));
    // A request that names no model is sent with the OpenRouter default model.
    assert_eq!(openrouter_client().request_model(None), "~typesafe/jev-latest");
}

#[test]
fn a_request_that_cannot_be_serialized_keeps_its_error() {
    let call = openrouter_client().system_one(Err(Error::InvalidRequest("no questions".into())));
    assert!(matches!(call.body_ref(), Err(Error::InvalidRequest(m)) if m == "no questions"));
}
