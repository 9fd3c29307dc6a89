use llm_chat::config::{Config, LlmProvider};
use llm_chat::error::{GenerationError, SafetyRating, SoftFailure};
use llm_chat::llm::{
    check_connection_reply, gemini, generate_reply, generate_request, groq, huggingface,
    list_models_reply, list_models_request, ollama, openai_compatible, HttpMethod,
};
use llm_chat::json::FromJson;
use serde_json::Value;

fn json(text: &str) -> Value {
    serde_json::from_str(text).unwrap()
}

fn keyed() -> Config {
    Config::load(
        Some("g-key".to_string()),
        Some("q-key".to_string()),
        Some("h-key".to_string()),
    )
}

#[test]
fn success_text_is_returned_verbatim_for_every_provider() {
    let text = "Hello,\n  world! ünïcødé";
    let escaped = serde_json::to_string(text).unwrap();
    let bodies = [
        (
            LlmProvider::Ollama,
            format!(
                r#"{{"model":"llama3","created_at":"now","response":{},"done":true,"done_reason":"stop"}}"#,
                escaped
            ),
        ),
        (
            LlmProvider::Gemini,
            format!(
                r#"{{"candidates":[{{"content":{{"parts":[{{"text":{}}}],"role":"model"}},"finishReason":"STOP"}}]}}"#,
                escaped
            ),
        ),
        (
            LlmProvider::Groq,
            format!(
                r#"{{"id":"x","object":"chat.completion","created":1,"model":"m","choices":[{{"index":0,"message":{{"role":"assistant","content":{}}},"finish_reason":"stop"}}]}}"#,
                escaped
            ),
        ),
        (LlmProvider::HuggingFace, format!(r#"{{"generated_text":{}}}"#, escaped)),
    ];
    for (p, body) in bodies.iter() {
        assert_eq!(generate_reply(*p, 200, body.as_bytes()), Ok(text.to_string()));
    }
}

#[test]
fn abnormal_finish_is_a_soft_failure() {
    let cases = [
        (
            LlmProvider::Ollama,
            r#"{"model":"m","created_at":"t","response":"partial","done":true,"done_reason":"length"}"#,
            "length",
        ),
        (
            LlmProvider::Gemini,
            r#"{"candidates":[{"content":{"parts":[{"text":"partial"}]},"finishReason":"MAX_TOKENS"}]}"#,
            "MAX_TOKENS",
        ),
        (
            LlmProvider::Groq,
            r#"{"choices":[{"index":0,"message":{"role":"assistant","content":"partial"},"finish_reason":"length"}]}"#,
            "length",
        ),
    ];
    for (p, body, reason) in cases.iter() {
        assert_eq!(
            generate_reply(*p, 200, body.as_bytes()),
            Err(GenerationError::Soft(SoftFailure::FinishedEarly {
                reason: reason.to_string(),
                safety_ratings: None,
            }))
        );
    }
}

#[test]
fn unknown_or_missing_finish_reason_is_tolerated() {
    let unknown = r#"{"candidates":[{"content":{"parts":[{"text":"ok"}]},"finishReason":"UNKNOWN"}]}"#;
    assert_eq!(gemini::generate(200, unknown.as_bytes()), Ok("ok".to_string()));
    let missing = r#"{"candidates":[{"content":{"parts":[{"text":"ok"}]}}]}"#;
    assert_eq!(gemini::generate(200, missing.as_bytes()), Ok("ok".to_string()));
    let chat = r#"{"choices":[{"index":0,"message":{"role":"assistant","content":"ok"},"finish_reason":null}]}"#;
    assert_eq!(groq::generate(200, chat.as_bytes()), Ok("ok".to_string()));
}

#[test]
fn safety_finish_carries_the_ratings() {
    let body = r#"{"candidates":[{"finishReason":"SAFETY","safetyRatings":[{"category":"HARM","probability":"HIGH"}]}]}"#;
    assert_eq!(
        gemini::generate(200, body.as_bytes()),
        Err(GenerationError::Soft(SoftFailure::FinishedEarly {
            reason: "SAFETY".to_string(),
            safety_ratings: Some(vec![SafetyRating {
                category: "HARM".to_string(),
                probability: "HIGH".to_string(),
            }]),
        }))
    );
}

#[test]
fn malformed_body_is_a_parse_error_for_every_provider() {
    let body = b"<html>bad gateway</html>";
    for p in [
        LlmProvider::Ollama,
        LlmProvider::Gemini,
        LlmProvider::Groq,
        LlmProvider::HuggingFace,
    ] {
        assert_eq!(
            generate_reply(p, 502, body),
            Err(GenerationError::Parse { status: 502, body_prefix: body.to_vec() })
        );
    }
}

#[test]
fn parse_error_keeps_only_the_start_of_a_long_body() {
    let body = vec![b'x'; 2000];
    match groq::generate(200, &body) {
        Err(GenerationError::Parse { status, body_prefix }) => {
            assert_eq!(status, 200);
            assert_eq!(body_prefix, vec![b'x'; 512]);
        }
        other => panic!("unexpected {:?}", other),
    }
}

#[test]
fn body_of_wrong_shape_is_a_parse_error() {
    let body = br#"{"choices":[{"index":"zero","message":{"role":"assistant","content":"x"}}]}"#;
    assert_eq!(
        openai_compatible::generate(200, body),
        Err(GenerationError::Parse { status: 200, body_prefix: body.to_vec() })
    );
    let ollama_body = br#"{"response":"x"}"#;
    assert!(matches!(ollama::generate(200, ollama_body), Err(GenerationError::Parse { .. })));
}

#[test]
fn gemini_soft_failures_name_the_missing_level() {
    let blocked = r#"{"promptFeedback":{"blockReason":"SAFETY"}}"#;
    assert_eq!(
        gemini::generate(200, blocked.as_bytes()),
        Err(GenerationError::Soft(SoftFailure::Blocked {
            reason: "SAFETY".to_string(),
            safety_ratings: None,
        }))
    );
    assert_eq!(
        gemini::generate(200, b"{}"),
        Err(GenerationError::Soft(SoftFailure::NoCandidates))
    );
    assert_eq!(
        gemini::generate(200, br#"{"candidates":[]}"#),
        Err(GenerationError::Soft(SoftFailure::NoCandidates))
    );
    assert_eq!(
        gemini::generate(200, br#"{"candidates":[{"finishReason":"STOP"}]}"#),
        Err(GenerationError::Soft(SoftFailure::MissingContent))
    );
    assert_eq!(
        gemini::generate(200, br#"{"candidates":[{"content":{}}]}"#),
        Err(GenerationError::Soft(SoftFailure::MissingParts))
    );
    assert_eq!(
        gemini::generate(200, br#"{"candidates":[{"content":{"parts":[]}}]}"#),
        Err(GenerationError::Soft(SoftFailure::EmptyParts))
    );
}

#[test]
fn only_the_first_candidate_is_used() {
    let body = r#"{"candidates":[{"content":{"parts":[{"text":"first"},{"text":"second"}]}},{"content":{"parts":[{"text":"other"}]}}]}"#;
    assert_eq!(gemini::generate(200, body.as_bytes()), Ok("first".to_string()));
}

#[test]
fn provider_errors_are_carried_verbatim() {
    let gem = r#"{"error":{"code":400,"message":"API key not valid","status":"INVALID_ARGUMENT"}}"#;
    assert_eq!(
        gemini::generate(400, gem.as_bytes()),
        Err(GenerationError::Api {
            code: Some("400".to_string()),
            kind: Some("INVALID_ARGUMENT".to_string()),
            message: "API key not valid".to_string(),
        })
    );
    let chat = r#"{"error":{"message":"Invalid API Key","type":"invalid_request_error","code":"invalid_api_key"}}"#;
    assert_eq!(
        groq::generate(401, chat.as_bytes()),
        Err(GenerationError::Api {
            code: Some("invalid_api_key".to_string()),
            kind: Some("invalid_request_error".to_string()),
            message: "Invalid API Key".to_string(),
        })
    );
    let local = r#"{"error":"model 'x' not found"}"#;
    assert_eq!(
        ollama::generate(404, local.as_bytes()),
        Err(GenerationError::Api { code: None, kind: None, message: "model 'x' not found".to_string() })
    );
    let hf = r#"{"error":"Model is loading"}"#;
    assert_eq!(
        huggingface::generate(503, hf.as_bytes()),
        Err(GenerationError::Api { code: None, kind: None, message: "Model is loading".to_string() })
    );
}

#[test]
fn missing_text_is_a_soft_failure() {
    let chat = r#"{"choices":[{"index":0,"message":{"role":"assistant","content":null}}]}"#;
    assert_eq!(
        groq::generate(200, chat.as_bytes()),
        Err(GenerationError::Soft(SoftFailure::MissingText))
    );
    assert_eq!(
        groq::generate(200, br#"{"choices":[]}"#),
        Err(GenerationError::Soft(SoftFailure::NoCandidates))
    );
    assert_eq!(
        huggingface::generate(200, b"{}"),
        Err(GenerationError::Soft(SoftFailure::MissingText))
    );
}

#[test]
fn model_listings_map_to_names() {
    let local = r#"{"models":[{"name":"llama3:latest","modified_at":"t","size":10},{"name":"phi3","modified_at":"t","size":20}]}"#;
    assert_eq!(
        list_models_reply(LlmProvider::Ollama, 200, local.as_bytes()),
        Ok(vec!["llama3:latest".to_string(), "phi3".to_string()])
    );
    let chat = r#"{"object":"list","data":[{"id":"llama3-8b-8192","object":"model"},{"id":"mixtral","object":"model","created":5,"owned_by":"x"}]}"#;
    assert_eq!(
        list_models_reply(LlmProvider::Groq, 200, chat.as_bytes()),
        Ok(vec!["llama3-8b-8192".to_string(), "mixtral".to_string()])
    );
    let gem = r#"{"models":[
        {"name":"models/gemini-pro","supportedGenerationMethods":["generateContent","countTokens"]},
        {"name":"models/embedding-001","supportedGenerationMethods":["embedContent"]},
        {"name":"tunedModels/mine","supportedGenerationMethods":["generateContent"]},
        {"name":"models/no-methods"}
    ]}"#;
    assert_eq!(
        list_models_reply(LlmProvider::Gemini, 200, gem.as_bytes()),
        Ok(vec!["gemini-pro".to_string()])
    );
    assert_eq!(list_models_reply(LlmProvider::Gemini, 200, b"{}"), Ok(vec![]));
    assert_eq!(list_models_reply(LlmProvider::HuggingFace, 200, b""), Ok(vec![]));
}

#[test]
fn probes_read_the_status() {
    assert_eq!(check_connection_reply(LlmProvider::Ollama, 200, b"Ollama is running"), Ok(()));
    assert_eq!(
        check_connection_reply(LlmProvider::Groq, 503, b"down"),
        Err(GenerationError::HttpStatus { status: 503, body_prefix: b"down".to_vec() })
    );
    assert_eq!(check_connection_reply(LlmProvider::Gemini, 200, br#"{"models":[]}"#), Ok(()));
    assert_eq!(
        check_connection_reply(LlmProvider::HuggingFace, 200, br#"{"generated_text":"hi"}"#),
        Ok(())
    );
}

#[test]
fn requests_without_a_key_fail_before_any_network_work() {
    let c = Config::default();
    assert_eq!(
        gemini::generate_request(&c, "hi").unwrap_err(),
        GenerationError::MissingKey { variable: "GEMINI_API_KEY".to_string() }
    );
    assert_eq!(
        groq::generate_request(&c, "hi").unwrap_err(),
        GenerationError::MissingKey { variable: "GROQ_API_KEY".to_string() }
    );
    assert_eq!(
        huggingface::generate_request(&c, "hi").unwrap_err(),
        GenerationError::MissingKey { variable: "HUGGINGFACE_API_KEY".to_string() }
    );
    assert!(list_models_request(&c, LlmProvider::Gemini).is_err());
    assert!(generate_request(&c, "hi").is_ok());
}

#[test]
fn chat_request_trims_slashes_and_carries_the_prompt() {
    let q = openai_compatible::generate_request("k", "https://api.example.com/v1//", "m", "hello");
    assert_eq!(q.method, HttpMethod::Post);
    assert_eq!(q.url, "https://api.example.com/v1/chat/completions");
    assert_eq!(q.bearer, Some("k".to_string()));
    assert_eq!(
        q.body,
        Some(json(r#"{"model":"m","messages":[{"role":"user","content":"hello"}]}"#))
    );
    assert_eq!(q.timeout_secs, None);
    let probe = openai_compatible::check_connection_request("k", "https://api.example.com/v1");
    assert_eq!(probe.url, "https://api.example.com/v1/models");
    assert_eq!(probe.timeout_secs, Some(10));
}

#[test]
fn gemini_request_carries_the_parameters_that_are_set() {
    let mut c = keyed();
    let q = gemini::generate_request(&c, "hi").unwrap();
    assert_eq!(
        q.url,
        "https://generativelanguage.googleapis.com/v1beta/models/gemini-1.5-pro-latest:generateContent?key=g-key"
    );
    assert_eq!(
        q.body,
        Some(json(
            r#"{"contents":[{"parts":[{"text":"hi"}]}],"generationConfig":{"temperature":0.7,"maxOutputTokens":2048}}"#
        ))
    );
    c.gemini_temperature = None;
    c.gemini_max_tokens = None;
    let q = gemini::generate_request(&c, "hi").unwrap();
    assert_eq!(q.body, Some(json(r#"{"contents":[{"parts":[{"text":"hi"}]}]}"#)));
    c.set_gemini_top_p("0.25").unwrap();
    let q = gemini::generate_request(&c, "hi").unwrap();
    assert_eq!(
        q.body,
        Some(json(r#"{"contents":[{"parts":[{"text":"hi"}]}],"generationConfig":{"topP":0.25}}"#))
    );
}

#[test]
fn local_request_uses_the_configured_server() {
    let c = Config::default();
    let q = ollama::generate_request(&c, None, "why?");
    assert_eq!(q.url, "http://localhost:11434/api/generate");
    assert_eq!(q.body, Some(json(r#"{"model":"llama3","prompt":"why?","stream":false}"#)));
    let q = ollama::generate_request(&c, Some("phi3"), "why?");
    assert_eq!(q.body, Some(json(r#"{"model":"phi3","prompt":"why?","stream":false}"#)));
    assert_eq!(ollama::check_connection_request(&c).timeout_secs, Some(5));
}

#[test]
fn hosted_requests_carry_their_keys() {
    let c = keyed();
    let q = huggingface::generate_request(&c, "hi").unwrap();
    assert_eq!(q.url, "https://api-inference.huggingface.co/models/meta-llama/Llama-2-7b-chat-hf");
    assert_eq!(q.bearer, Some("h-key".to_string()));
    assert_eq!(q.body, Some(json(r#"{"inputs":"hi"}"#)));
    let probe = huggingface::check_connection_request(&c).unwrap();
    assert_eq!(probe.body, Some(json(r#"{"inputs":"test"}"#)));
    assert!(probe.timeout_secs.is_some());
    let q = groq::generate_request(&c, "hi").unwrap();
    assert_eq!(q.url, "https://api.groq.com/openai/v1/chat/completions");
    assert_eq!(q.bearer, Some("q-key".to_string()));
    let listing = list_models_request(&c, LlmProvider::Gemini).unwrap().unwrap();
    assert_eq!(listing.url, "https://generativelanguage.googleapis.com/v1beta/models?key=g-key");
    assert_eq!(list_models_request(&c, LlmProvider::HuggingFace).unwrap().is_none(), true);
}

#[test]
fn schema_structs_decode_from_values() {
    let v = json(r#"{"role":"assistant","content":"x"}"#);
    let m = openai_compatible::ResponseMessage::from_json(&v).unwrap();
    assert_eq!(m.role, "assistant");
    assert_eq!(m.content, Some("x".to_string()));
    let v = json(r#"{"id":"m1","object":"model","created":7}"#);
    let info = openai_compatible::ModelInfo::from_json(&v).unwrap();
    assert_eq!(info.created, Some(7));
    assert!(openai_compatible::ModelInfo::from_json(&json(r#"{"id":"m1"}"#)).is_none());
    let req = openai_compatible::ChatCompletionRequest {
        model: "m".to_string(),
        messages: vec![openai_compatible::ChatMessage {
            role: "system".to_string(),
            content: "be brief".to_string(),
        }],
    };
    assert_eq!(
        req.to_json(),
        json(r#"{"model":"m","messages":[{"role":"system","content":"be brief"}]}"#)
    );
    let list = openai_compatible::ListModelsResponse::from_json(&json(r#"{"error":{"message":"no"}}"#)).unwrap();
    assert!(list.data.is_empty());
    assert_eq!(list.error.unwrap().message, "no");
    let resp = openai_compatible::ChatCompletionResponse::from_json(&json(r#"{"choices":[]}"#)).unwrap();
    assert!(resp.choices.is_empty());
    let choice = openai_compatible::ChatChoice::from_json(&json(
        r#"{"index":1,"message":{"role":"assistant"},"finish_reason":"stop"}"#,
    ))
    .unwrap();
    assert_eq!(choice.index, 1);
    let err = openai_compatible::ApiError::from_json(&json(r#"{"message":"m","param":"p"}"#)).unwrap();
    assert_eq!(err.param, Some("p".to_string()));
}
