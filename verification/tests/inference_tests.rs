use clip_prompt::config::Configuration;
use clip_prompt::inference::{
    accept_status, build_request, check_reachable, conclude_generation, conclude_listing,
    decode_generate, decode_models, generate_url, render_prompt, resolve_model,
    set_initial_model, tags_url, transport_failure, GenerateReply, InferenceError, ModelEntry,
    ModelSelectionError, TransportPhase,
};

fn entry(name: &str) -> ModelEntry {
    ModelEntry { name: name.to_string() }
}

#[test]
fn prompt_is_template_delimiter_text() {
    assert_eq!(render_prompt("Be brief.", "fix this code"), "Be brief.\n\nUser input: fix this code");
}

#[test]
fn prompt_ends_with_the_text_as_it_is() {
    assert_eq!(render_prompt("T", "  spaced\n\ntext  "), "T\n\nUser input:   spaced\n\ntext  ");
    assert_eq!(render_prompt("", ""), "\n\nUser input: ");
    assert_eq!(render_prompt("T", "a"), "T\n\nUser input: a");
    for (template, text) in [("x", "y\n"), ("Rewrite:", "\"quoted\" \\ text"), ("", " ")] {
        let prompt = render_prompt(template, text);
        assert_eq!(prompt, format!("{}{}{}", template, "\n\nUser input: ", text));
    }
}

#[test]
fn request_names_the_model_and_carries_the_prompt() {
    let request = build_request("fix this code", "mistral:7b", "Be brief.");
    assert_eq!(request.model, "mistral:7b");
    assert_eq!(request.rendered_prompt, "Be brief.\n\nUser input: fix this code");
    assert!(!request.stream);
}

#[test]
fn addresses_hang_off_the_endpoint() {
    assert_eq!(generate_url("http://localhost:11434"), "http://localhost:11434/api/generate");
    assert_eq!(tags_url("http://localhost:11434"), "http://localhost:11434/api/tags");
}

#[test]
fn statuses_in_the_two_hundreds_are_accepted() {
    assert_eq!(accept_status(200), Ok(()));
    assert_eq!(accept_status(204), Ok(()));
    assert_eq!(accept_status(299), Ok(()));
}

#[test]
fn other_statuses_are_refused_with_the_code() {
    assert_eq!(accept_status(199), Err(InferenceError::HttpStatus { status: 199 }));
    assert_eq!(accept_status(300), Err(InferenceError::HttpStatus { status: 300 }));
    assert_eq!(accept_status(404), Err(InferenceError::HttpStatus { status: 404 }));
    assert_eq!(accept_status(500), Err(InferenceError::HttpStatus { status: 500 }));
    assert_eq!(accept_status(0), Err(InferenceError::HttpStatus { status: 0 }));
}

#[test]
fn decoded_response_is_returned_verbatim() {
    let body = "{\"response\":\"  Mixed Case, trailing space \\n\",\"done\":true}".to_string();
    let reply = GenerateReply { response: "  Mixed Case, trailing space \n".to_string() };
    assert_eq!(decode_generate(body, Ok(reply)), Ok("  Mixed Case, trailing space \n".to_string()));
}

#[test]
fn empty_response_is_returned_as_empty() {
    let reply = GenerateReply { response: String::new() };
    assert_eq!(decode_generate("{}".to_string(), Ok(reply)), Ok(String::new()));
}

#[test]
fn undecodable_body_is_reported_with_the_body() {
    let result = decode_generate(
        "<html>busy</html>".to_string(),
        Err("expected value at line 1 column 1".to_string()),
    );
    assert_eq!(
        result,
        Err(InferenceError::Decode {
            parse_error: "expected value at line 1 column 1".to_string(),
            raw_body: "<html>busy</html>".to_string(),
        })
    );
}

#[test]
fn model_names_keep_the_server_order() {
    let listing = vec![entry("zephyr"), entry("mistral:7b"), entry("alpha"), entry("mistral:7b")];
    assert_eq!(
        decode_models("body".to_string(), Ok(listing)),
        Ok(vec![
            "zephyr".to_string(),
            "mistral:7b".to_string(),
            "alpha".to_string(),
            "mistral:7b".to_string()
        ])
    );
}

#[test]
fn empty_listing_gives_no_names() {
    assert_eq!(decode_models("{\"models\":[]}".to_string(), Ok(vec![])), Ok(vec![]));
}

#[test]
fn undecodable_listing_is_reported_with_the_body() {
    assert_eq!(
        decode_models("oops".to_string(), Err("expected value".to_string())),
        Err(InferenceError::Decode {
            parse_error: "expected value".to_string(),
            raw_body: "oops".to_string(),
        })
    );
}

#[test]
fn any_answer_shows_the_server_is_there() {
    assert_eq!(check_reachable(Ok(200)), Ok(()));
    assert_eq!(check_reachable(Ok(404)), Ok(()));
    assert_eq!(check_reachable(Ok(500)), Ok(()));
}

#[test]
fn no_answer_is_a_transport_error() {
    assert_eq!(
        check_reachable(Err("connection refused".to_string())),
        Err(InferenceError::Transport {
            phase: TransportPhase::Sending,
            message: "connection refused".to_string(),
        })
    );
}

#[test]
fn a_named_model_wins_over_the_configured_one() {
    let mut config = Configuration::default();
    config.set_model("configured".to_string());
    assert_eq!(resolve_model(Some("named".to_string()), &config), Some("named".to_string()));
}

#[test]
fn the_configured_model_is_used_when_none_is_named() {
    let mut config = Configuration::default();
    config.set_model("configured".to_string());
    assert_eq!(resolve_model(None, &config), Some("configured".to_string()));
}

#[test]
fn no_model_is_made_up() {
    let config = Configuration::default();
    assert_eq!(resolve_model(None, &config), None);
}

#[test]
fn initial_model_is_the_first_listed() {
    let mut config = Configuration::default();
    let result = set_initial_model(
        &mut config,
        Ok(vec!["llama3".to_string(), "mistral:7b".to_string()]),
    );
    assert_eq!(result, Ok("llama3".to_string()));
    assert_eq!(config.get_model(), "llama3");
}

#[test]
fn empty_listing_selects_nothing() {
    let mut config = Configuration::default();
    config.set_model("kept".to_string());
    assert_eq!(set_initial_model(&mut config, Ok(vec![])), Err(ModelSelectionError::NoModelsAvailable));
    assert_eq!(config.get_model(), "kept");
}

#[test]
fn failed_listing_selects_nothing() {
    let mut config = Configuration::default();
    let failure = InferenceError::Transport {
        phase: TransportPhase::Sending,
        message: "connection refused".to_string(),
    };
    assert_eq!(set_initial_model(&mut config, Err(failure)), Err(ModelSelectionError::ListingFailed));
    assert_eq!(config.get_model(), "");
}

#[test]
fn messages_name_the_kind_and_the_detail() {
    let sending = InferenceError::Transport {
        phase: TransportPhase::Sending,
        message: "connection refused".to_string(),
    };
    assert_eq!(sending.message(), "Failed to send request: connection refused");
    let reading = InferenceError::Transport {
        phase: TransportPhase::Reading,
        message: "connection reset".to_string(),
    };
    assert_eq!(reading.message(), "Failed to read response: connection reset");
    let status = InferenceError::HttpStatus { status: 503 };
    assert_eq!(status.message(), "Ollama API error: 503");
    let decode = InferenceError::Decode {
        parse_error: "missing field `response`".to_string(),
        raw_body: "{}".to_string(),
    };
    assert_eq!(
        decode.message(),
        "Failed to parse response: missing field `response` (response: {})"
    );
}

#[test]
fn transport_failure_keeps_phase_and_message() {
    assert_eq!(
        transport_failure(TransportPhase::Sending, "connection refused".to_string()),
        InferenceError::Transport {
            phase: TransportPhase::Sending,
            message: "connection refused".to_string(),
        }
    );
    assert_eq!(
        transport_failure(TransportPhase::Reading, "connection reset".to_string()),
        InferenceError::Transport {
            phase: TransportPhase::Reading,
            message: "connection reset".to_string(),
        }
    );
}

#[test]
fn generation_with_accepted_status_returns_the_response() {
    let reply = GenerateReply { response: " As Given ".to_string() };
    assert_eq!(conclude_generation(200, "body".to_string(), Ok(reply)), Ok(" As Given ".to_string()));
}

#[test]
fn generation_with_refused_status_reports_the_status() {
    let reply = GenerateReply { response: "ignored".to_string() };
    assert_eq!(
        conclude_generation(503, "body".to_string(), Ok(reply)),
        Err(InferenceError::HttpStatus { status: 503 })
    );
    assert_eq!(
        conclude_generation(404, "not json".to_string(), Err("expected value".to_string())),
        Err(InferenceError::HttpStatus { status: 404 })
    );
}

#[test]
fn generation_with_undecodable_body_reports_the_body() {
    assert_eq!(
        conclude_generation(200, "not json".to_string(), Err("expected value".to_string())),
        Err(InferenceError::Decode {
            parse_error: "expected value".to_string(),
            raw_body: "not json".to_string(),
        })
    );
}

#[test]
fn listing_with_accepted_status_gives_the_names_in_order() {
    let listing = vec![entry("b"), entry("a"), entry("c")];
    assert_eq!(
        conclude_listing(200, "body".to_string(), Ok(listing)),
        Ok(vec!["b".to_string(), "a".to_string(), "c".to_string()])
    );
}

#[test]
fn listing_with_refused_status_reports_the_status() {
    assert_eq!(
        conclude_listing(500, "body".to_string(), Ok(vec![entry("a")])),
        Err(InferenceError::HttpStatus { status: 500 })
    );
    assert_eq!(
        conclude_listing(301, "moved".to_string(), Err("expected value".to_string())),
        Err(InferenceError::HttpStatus { status: 301 })
    );
}

#[test]
fn listing_with_undecodable_body_reports_the_body() {
    assert_eq!(
        conclude_listing(200, "oops".to_string(), Err("missing field `models`".to_string())),
        Err(InferenceError::Decode {
            parse_error: "missing field `models`".to_string(),
            raw_body: "oops".to_string(),
        })
    );
}
