//! Groq, through the shared chat-completions schema at its configured base
//! URL with its API key.

use vstd::prelude::*;
use crate::config::Config;
use crate::error::{
    missing_key, missing_key_error, names_outcome, text_outcome, unit_outcome, GenerationError,
    GenerationErrorView,
};
use crate::json::JsonTree;
use crate::llm::openai_compatible::{
    chat_reply, chat_request, listing_request, models_reply, probe_reply, through_json,
};
use crate::llm::openai_compatible as common;
use crate::llm::{HttpRequest, PROBE_TIMEOUT_SECS};

verus! {

/// The failure of every Groq request while its key is not set.
pub open spec fn groq_key_missing() -> GenerationErrorView {
    missing_key("GROQ_API_KEY"@)
}

/// The generation request for `prompt`, or the missing key's error.
pub open spec fn generate_planned(c: Config, prompt: Seq<char>, r: Result<HttpRequest, GenerationError>) -> bool {
    match c.groq_api_key {
        Some(k) => r matches Ok(q) && chat_request(
            q,
            k@,
            c.groq_api_base_url@,
            c.default_groq_model@,
            prompt,
        ),
        None => r matches Err(e) && e@ == groq_key_missing(),
    }
}

fn key_missing() -> (r: GenerationError)
    ensures
        r@ == groq_key_missing(),
{
    missing_key_error("GROQ_API_KEY")
}

/// The request that sends `prompt` to the configured Groq model; refused
/// before any network work while the key is not set.
pub fn generate_request(config: &Config, prompt: &str) -> (r: Result<HttpRequest, GenerationError>)
    ensures
        generate_planned(*config, prompt@, r),
{
    match &config.groq_api_key {
        Some(k) => Ok(
            common::generate_request(
                k.as_str(),
                config.groq_api_base_url.as_str(),
                config.default_groq_model.as_str(),
                prompt,
            ),
        ),
        None => Err(key_missing()),
    }
}

/// Reads the reply to a generation request.
pub fn generate(status: u16, body: &[u8]) -> (r: Result<String, GenerationError>)
    ensures
        text_outcome(r) == through_json(status, body@, |t: JsonTree| chat_reply(status, body@, t)),
{
    common::generate(status, body)
}

/// The request for Groq's model listing.
pub fn list_models_request(config: &Config) -> (r: Result<HttpRequest, GenerationError>)
    ensures
        match config.groq_api_key {
            Some(k) => r matches Ok(q) && listing_request(q, k@, config.groq_api_base_url@, None),
            None => r matches Err(e) && e@ == groq_key_missing(),
        },
{
    match &config.groq_api_key {
        Some(k) => Ok(common::list_models_request(k.as_str(), config.groq_api_base_url.as_str())),
        None => Err(key_missing()),
    }
}

/// Reads the reply to a model listing.
pub fn list_models(status: u16, body: &[u8]) -> (r: Result<Vec<String>, GenerationError>)
    ensures
        names_outcome(r) == through_json(status, body@, |t: JsonTree| models_reply(status, body@, t)),
{
    common::list_models(status, body)
}

/// The reachability probe: the model listing under a bounded timeout.
pub fn check_connection_request(config: &Config) -> (r: Result<HttpRequest, GenerationError>)
    ensures
        match config.groq_api_key {
            Some(k) => r matches Ok(q) && listing_request(
                q,
                k@,
                config.groq_api_base_url@,
                Some(PROBE_TIMEOUT_SECS),
            ),
            None => r matches Err(e) && e@ == groq_key_missing(),
        },
{
    match &config.groq_api_key {
        Some(k) => Ok(
            common::check_connection_request(k.as_str(), config.groq_api_base_url.as_str()),
        ),
        None => Err(key_missing()),
    }
}

/// Reads the reply to a reachability probe.
pub fn check_connection(status: u16, body: &[u8]) -> (r: Result<(), GenerationError>)
    ensures
        unit_outcome(r) == probe_reply(status, body@),
{
    common::check_connection(status, body)
}

} // verus!
