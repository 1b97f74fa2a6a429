use openai_rs::client::{interpret_response, Client};
use openai_rs::endpoints::answer::Answer;
use openai_rs::endpoints::edits::Edit;
use openai_rs::endpoints::search::Search;
use openai_rs::endpoints::{Endpoint, Model, Response, ResponseError};

fn empty_response() -> Response {
    Response {
        id: None,
        object: None,
        created: None,
        model: None,
        choices: None,
        data: None,
        completion: None,
        label: None,
        search_model: None,
        selected_examples: None,
        selected_documents: None,
    }
}

#[test]
fn edit_request_builds_engine_url() {
    let client = Client::new("api_key");
    let edit = Edit {
        input: String::from("What day of the wek is it?"),
        instruction: String::from("Fix the spelling mistakes"),
        ..Edit::default()
    };
    let request = client.prepare(Some("text-davinci-edit-001"), &edit);
    assert_eq!(request.method, "POST");
    assert_eq!(
        request.url,
        "https://api.openai.com/v1/engines/text-davinci-edit-001/edits"
    );
    assert_eq!(request.authorization, "Bearer api_key");
    assert_eq!(request.content_type, "application/json");
    assert_eq!(request.body, edit.to_json());
}

#[test]
fn search_request_builds_engine_url() {
    let client = Client::new("secret");
    let search = Search::default();
    let request = client.prepare(Some("ada"), &search);
    assert_eq!(request.url, "https://api.openai.com/v1/engines/ada/search");
    assert_eq!(request.body, search.to_json());
}

#[test]
fn answer_request_needs_no_engine() {
    let client = Client::new("secret");
    let answer = Answer::default();
    assert!(!answer.requires_engine());
    let request = client.prepare(None, &answer);
    assert_eq!(request.url, "https://api.openai.com/v1/answers");
    assert_eq!(request.authorization, "Bearer secret");
}

#[test]
fn engine_endpoints_require_an_engine() {
    assert!(Edit::default().requires_engine());
    assert!(Search::default().requires_engine());
}

#[test]
fn non_success_status_yields_error_code() {
    let result = interpret_response(404, Err(String::new()));
    assert_eq!(result.unwrap_err(), ResponseError::ErrorCode(404));
    let result = interpret_response(500, Ok(empty_response()));
    assert_eq!(result.unwrap_err(), ResponseError::ErrorCode(500));
    let result = interpret_response(199, Err(String::new()));
    assert_eq!(result.unwrap_err(), ResponseError::ErrorCode(199));
    let result = interpret_response(300, Err(String::new()));
    assert_eq!(result.unwrap_err(), ResponseError::ErrorCode(300));
}

#[test]
fn success_status_hands_the_body_through() {
    let mut response = empty_response();
    response.completion = Some(String::from("It is Friday."));
    response.search_model = Some(Model::Curie);
    let result = interpret_response(200, Ok(response));
    let returned = result.unwrap();
    assert_eq!(returned.completion.as_deref(), Some("It is Friday."));
    assert_eq!(returned.search_model, Some(Model::Curie));
}

#[test]
fn malformed_body_yields_serialization_error() {
    let message = serde_json::from_str::<serde_json::Value>("{oops")
        .unwrap_err()
        .to_string();
    let result = interpret_response(200, Err(message.clone()));
    assert_eq!(result.unwrap_err(), ResponseError::Serialization(message));
}

#[test]
fn error_messages_name_their_cause() {
    assert_eq!(ResponseError::ErrorCode(404).message(), "Error code: 404");
    assert_eq!(
        ResponseError::Serialization(String::from("bad body")).message(),
        "Serialization error: bad body"
    );
    assert_eq!(ResponseError::Io(String::from("closed")).message(), "IO error: closed");
    assert_eq!(
        ResponseError::Hyper(String::from("timed out")).message(),
        "Hyper error: timed out"
    );
}

#[test]
fn model_defaults_to_ada() {
    assert_eq!(Model::default(), Model::Ada);
}
