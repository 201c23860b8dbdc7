use gpt_cli::exchange::{
    authorization, bearer_header, check_status, conclude, content_type, endpoint, extract_reply,
    read_body, Arrival, ExchangeError,
};
use gpt_cli::oai::{OAIChoices, OAIResMessage, OAIResponse};

fn choice(content: &str) -> OAIChoices {
    OAIChoices {
        message: OAIResMessage { role: "assistant".to_string(), content: content.to_string() },
        index: 0,
        logprobs: None,
        finnish_reason: None,
    }
}

fn response(choices: Vec<OAIChoices>) -> OAIResponse {
    OAIResponse { id: None, object: None, create: None, model: None, choices }
}

#[test]
fn status_in_the_success_range_is_accepted() {
    for status in [200u16, 201, 204, 299] {
        assert_eq!(check_status(status), Ok(()));
    }
}

#[test]
fn status_outside_the_success_range_carries_the_status() {
    for status in [0u16, 99, 100, 199, 300, 404, 500, 999, 1000, 2200, u16::MAX] {
        assert_eq!(check_status(status), Err(ExchangeError::HttpStatusFailure(status)));
    }
}

#[test]
fn status_500_is_a_status_failure_and_the_body_is_not_read() {
    let arrival = Arrival::Answered { status: 500, body: Some(response(vec![choice("hi")])) };
    assert_eq!(conclude(&arrival), Err(ExchangeError::HttpStatusFailure(500)));
    let arrival = Arrival::Answered { status: 500, body: None };
    assert_eq!(conclude(&arrival), Err(ExchangeError::HttpStatusFailure(500)));
}

#[test]
fn empty_choices_are_an_empty_completion() {
    let empty = response(Vec::new());
    assert_eq!(extract_reply(&empty), Err(ExchangeError::EmptyCompletion));
    let arrival = Arrival::Answered { status: 200, body: Some(response(Vec::new())) };
    assert_eq!(conclude(&arrival), Err(ExchangeError::EmptyCompletion));
}

#[test]
fn first_choice_is_the_reply() {
    let two = response(vec![choice("first"), choice("second")]);
    assert_eq!(extract_reply(&two), Ok("first".to_string()));
    let arrival = Arrival::Answered { status: 200, body: Some(two) };
    assert_eq!(conclude(&arrival), Ok("first".to_string()));
}

#[test]
fn unparsed_body_is_a_malformed_response() {
    assert_eq!(read_body(&None), Err(ExchangeError::MalformedResponse));
    let arrival = Arrival::Answered { status: 200, body: None };
    assert_eq!(conclude(&arrival), Err(ExchangeError::MalformedResponse));
}

#[test]
fn no_answer_is_a_transport_failure() {
    assert_eq!(conclude(&Arrival::Unreachable), Err(ExchangeError::TransportFailure));
}

#[test]
fn missing_credential_is_reported() {
    assert_eq!(authorization(None), Err(ExchangeError::MissingCredential));
    assert_eq!(authorization(Some("abc".to_string())), Ok("Bearer abc".to_string()));
}

#[test]
fn header_values() {
    assert_eq!(bearer_header("tok en"), "Bearer tok en");
    assert_eq!(bearer_header(""), "Bearer ");
    assert_eq!(content_type(), "application/json");
    assert_eq!(endpoint(), "https://api.openai.com/v1/chat/completions");
}
