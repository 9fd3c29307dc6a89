//! Hugging Face's inference endpoint: one request per model with a bearer
//! key, a reply holding the generated text or an error.

use vstd::prelude::*;
use serde_json::Value;
use crate::config::Config;
use crate::error::{
    missing_key, missing_key_error, parse_error, parse_failure, read_json, text_outcome,
    unit_outcome, GenerationError, GenerationErrorView, SoftFailure, SoftFailureView,
};
use crate::json::{json_tree, object1, opt_text, read_opt_text, string_value, FromJson, JsonTree};
use crate::llm::openai_compatible::through_json;
use crate::llm::{HttpMethod, HttpRequest, PROBE_TIMEOUT_SECS};

verus! {

/// A generation reply.
#[derive(Debug, Clone, PartialEq, Eq)]
pub struct HuggingFaceResponse {
    pub generated_text: Option<String>,
    pub error: Option<String>,
}

pub struct HuggingFaceResponseView {
    pub generated_text: Option<Seq<char>>,
    pub error: Option<Seq<char>>,
}

impl View for HuggingFaceResponse {
    type V = HuggingFaceResponseView;

    open spec fn view(&self) -> HuggingFaceResponseView {
        HuggingFaceResponseView {
            generated_text: crate::error::opt_view(self.generated_text),
            error: crate::error::opt_view(self.error),
        }
    }
}

impl FromJson for HuggingFaceResponse {
    open spec fn decoded(t: JsonTree) -> Option<HuggingFaceResponseView> {
        if !(t is Object) {
            None
        } else {
            match (opt_text(t, "generated_text"@), opt_text(t, "error"@)) {
                (Some(generated_text), Some(error)) => Some(
                    HuggingFaceResponseView { generated_text, error },
                ),
                _ => None,
            }
        }
    }

    fn from_json(v: &Value) -> (r: Option<HuggingFaceResponse>) {
        if !v.is_object() {
            return None;
        }
        match (read_opt_text(v, "generated_text"), read_opt_text(v, "error")) {
            (Some(generated_text), Some(error)) => Some(HuggingFaceResponse { generated_text, error }),
            _ => None,
        }
    }
}

/// What a generation reply whose body parsed to `t` means: a reported
/// error, a reply without text, or the generated text.
pub open spec fn generate_reply(status: u16, body: Seq<u8>, t: JsonTree) -> Result<
    Seq<char>,
    GenerationErrorView,
> {
    match HuggingFaceResponse::decoded(t) {
        None => Err(parse_failure(status, body)),
        Some(r) => match r.error {
            Some(m) => Err(GenerationErrorView::Api { code: None, kind: None, message: m }),
            None => match r.generated_text {
                Some(text) => Ok(text),
                None => Err(GenerationErrorView::Soft(SoftFailureView::MissingText)),
            },
        },
    }
}

/// What a reachability probe (a generation) whose body parsed to `t` means.
pub open spec fn probe_reply(status: u16, body: Seq<u8>, t: JsonTree) -> Result<(), GenerationErrorView> {
    match generate_reply(status, body, t) {
        Ok(_) => Ok(()),
        Err(e) => Err(e),
    }
}

pub open spec fn model_url(model: Seq<char>) -> Seq<char> {
    "https://api-inference.huggingface.co/models/"@ + model
}

/// `q` sends `prompt` to `model` with `key`, under `timeout`.
pub open spec fn generate_request_for(
    q: HttpRequest,
    key: Seq<char>,
    model: Seq<char>,
    prompt: Seq<char>,
    timeout: Option<u64>,
) -> bool {
    &&& q.method == HttpMethod::Post
    &&& q.url@ == model_url(model)
    &&& crate::error::opt_view(q.bearer) == Some(key)
    &&& q.body is Some
    &&& json_tree(q.body->Some_0) == JsonTree::Object(map!["inputs"@ => JsonTree::Str(prompt)])
    &&& q.timeout_secs == timeout
}

pub open spec fn huggingface_key_missing() -> GenerationErrorView {
    missing_key("HUGGINGFACE_API_KEY"@)
}

/// The generation request for `prompt`, or the missing key's error.
pub open spec fn generate_planned(c: Config, prompt: Seq<char>, r: Result<HttpRequest, GenerationError>) -> bool {
    match c.huggingface_api_key {
        Some(k) => r matches Ok(q) && generate_request_for(
            q,
            k@,
            c.default_huggingface_model@,
            prompt,
            None,
        ),
        None => r matches Err(e) && e@ == huggingface_key_missing(),
    }
}

/// The prompt that a reachability probe sends.
pub open spec fn probe_prompt() -> Seq<char> {
    "test"@
}

/// Reads a generation reply whose body has been parsed to `v`.
pub fn read_generate(status: u16, body: &[u8], v: &Value) -> (r: Result<String, GenerationError>)
    ensures
        text_outcome(r) == generate_reply(status, body@, json_tree(*v)),
{
    match HuggingFaceResponse::from_json(v) {
        None => Err(parse_error(status, body)),
        Some(resp) => match resp.error {
            Some(m) => Err(GenerationError::Api { code: None, kind: None, message: m }),
            None => match resp.generated_text {
                Some(text) => Ok(text),
                None => Err(GenerationError::Soft(SoftFailure::MissingText)),
            },
        },
    }
}

fn request(config: &Config, prompt: &str, timeout_secs: Option<u64>) -> (r: Result<HttpRequest, GenerationError>)
    ensures
        match config.huggingface_api_key {
            Some(k) => r matches Ok(q) && generate_request_for(
                q,
                k@,
                config.default_huggingface_model@,
                prompt@,
                timeout_secs,
            ),
            None => r matches Err(e) && e@ == huggingface_key_missing(),
        },
{
    match &config.huggingface_api_key {
        None => Err(missing_key_error("HUGGINGFACE_API_KEY")),
        Some(k) => {
            let mut url = String::from_str("https://api-inference.huggingface.co/models/");
            url.append(config.default_huggingface_model.as_str());
            Ok(
                HttpRequest {
                    method: HttpMethod::Post,
                    url,
                    bearer: Some(k.clone()),
                    body: Some(object1("inputs", string_value(String::from_str(prompt)))),
                    timeout_secs,
                },
            )
        },
    }
}

/// The request that sends `prompt` to the configured model; refused before
/// any network work while the key is not set.
pub fn generate_request(config: &Config, prompt: &str) -> (r: Result<HttpRequest, GenerationError>)
    ensures
        generate_planned(*config, prompt@, r),
{
    request(config, prompt, None)
}

/// Reads the reply to a generation request.
pub fn generate(status: u16, body: &[u8]) -> (r: Result<String, GenerationError>)
    ensures
        text_outcome(r) == through_json(status, body@, |t: JsonTree| generate_reply(status, body@, t)),
{
    match read_json(status, body) {
        Ok(v) => read_generate(status, body, &v),
        Err(e) => Err(e),
    }
}

/// The model listing: this provider offers none, so it is always empty.
pub fn list_models() -> (r: Vec<String>)
    ensures
        r@.len() == 0,
{
    Vec::new()
}

/// The reachability probe: there is no lighter endpoint, so it generates
/// from a short prompt, under a bounded timeout.
pub fn check_connection_request(config: &Config) -> (r: Result<HttpRequest, GenerationError>)
    ensures
        match config.huggingface_api_key {
            Some(k) => r matches Ok(q) && generate_request_for(
                q,
                k@,
                config.default_huggingface_model@,
                probe_prompt(),
                Some(PROBE_TIMEOUT_SECS),
            ),
            None => r matches Err(e) && e@ == huggingface_key_missing(),
        },
{
    request(config, "test", Some(PROBE_TIMEOUT_SECS))
}

/// Reads the reply to a reachability probe: reachable when generation
/// succeeds.
pub fn check_connection(status: u16, body: &[u8]) -> (r: Result<(), GenerationError>)
    ensures
        unit_outcome(r) == through_json(status, body@, |t: JsonTree| probe_reply(status, body@, t)),
{
    match generate(status, body) {
        Ok(_) => Ok(()),
        Err(e) => Err(e),
    }
}

} // verus!
