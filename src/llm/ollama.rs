//! The local generation server: no key, a configurable base URL, one-shot
//! generation, and its list of installed models.

use vstd::prelude::*;
use serde_json::Value;
use crate::config::Config;
use crate::error::{
    names_outcome, parse_error, parse_failure, read_json, text_outcome,
    unit_outcome, GenerationError, GenerationErrorView, SoftFailure, SoftFailureView,
};
use crate::json::{
    bool_value, is_absent, json_tree, member, member_of, object3, read_opt_text, read_req_bool,
    read_req_list, read_req_text, read_req_uint, req_bool, req_list, req_text, req_uint, opt_text,
    string_value, text_of, views_of, FromJson, JsonTree,
};
use crate::llm::openai_compatible::{probe_reply, through_json};
use crate::llm::{HttpMethod, HttpRequest, LOCAL_PROBE_TIMEOUT_SECS};
use crate::text::{join, str_eq};

verus! {

/// A generation reply.
#[derive(Debug, Clone, PartialEq, Eq)]
pub struct OllamaResponse {
    pub model: String,
    pub created_at: String,
    pub response: String,
    pub done: bool,
    pub done_reason: Option<String>,
}

pub struct OllamaResponseView {
    pub model: Seq<char>,
    pub created_at: Seq<char>,
    pub response: Seq<char>,
    pub done: bool,
    pub done_reason: Option<Seq<char>>,
}

impl View for OllamaResponse {
    type V = OllamaResponseView;

    open spec fn view(&self) -> OllamaResponseView {
        OllamaResponseView {
            model: self.model@,
            created_at: self.created_at@,
            response: self.response@,
            done: self.done,
            done_reason: crate::error::opt_view(self.done_reason),
        }
    }
}

impl FromJson for OllamaResponse {
    open spec fn decoded(t: JsonTree) -> Option<OllamaResponseView> {
        match (
            req_text(t, "model"@),
            req_text(t, "created_at"@),
            req_text(t, "response"@),
            req_bool(t, "done"@),
            opt_text(t, "done_reason"@),
        ) {
            (Some(model), Some(created_at), Some(response), Some(done), Some(done_reason)) => Some(
                OllamaResponseView { model, created_at, response, done, done_reason },
            ),
            _ => None,
        }
    }

    fn from_json(v: &Value) -> (r: Option<OllamaResponse>) {
        match (
            read_req_text(v, "model"),
            read_req_text(v, "created_at"),
            read_req_text(v, "response"),
            read_req_bool(v, "done"),
            read_opt_text(v, "done_reason"),
        ) {
            (Some(model), Some(created_at), Some(response), Some(done), Some(done_reason)) => Some(
                OllamaResponse { model, created_at, response, done, done_reason },
            ),
            _ => None,
        }
    }
}

/// One installed model.
#[derive(Debug, Clone, PartialEq, Eq)]
pub struct OllamaTag {
    pub name: String,
    pub modified_at: String,
    pub size: u64,
}

pub struct OllamaTagView {
    pub name: Seq<char>,
    pub modified_at: Seq<char>,
    pub size: u64,
}

impl View for OllamaTag {
    type V = OllamaTagView;

    open spec fn view(&self) -> OllamaTagView {
        OllamaTagView { name: self.name@, modified_at: self.modified_at@, size: self.size }
    }
}

impl FromJson for OllamaTag {
    open spec fn decoded(t: JsonTree) -> Option<OllamaTagView> {
        match (req_text(t, "name"@), req_text(t, "modified_at"@), req_uint(t, "size"@, u64::MAX)) {
            (Some(name), Some(modified_at), Some(size)) => Some(
                OllamaTagView { name, modified_at, size },
            ),
            _ => None,
        }
    }

    fn from_json(v: &Value) -> (r: Option<OllamaTag>) {
        match (read_req_text(v, "name"), read_req_text(v, "modified_at"), read_req_uint(v, "size", u64::MAX)) {
            (Some(name), Some(modified_at), Some(size)) => Some(OllamaTag { name, modified_at, size }),
            _ => None,
        }
    }
}

/// The error the server reported in place of a reply: the text of an
/// `error` member that is there and not `null`; `Some(None)` where that
/// member is not text; `None` where there is no such member.
pub open spec fn reported_error(t: JsonTree) -> Option<Option<Seq<char>>> {
    if t is Object && !is_absent(member_of(t, "error"@)) {
        Some(text_of(member_of(t, "error"@)))
    } else {
        None
    }
}

pub open spec fn server_failure(m: Seq<char>) -> GenerationErrorView {
    GenerationErrorView::Api { code: None, kind: None, message: m }
}

/// What a generation reply whose body parsed to `t` means: a reported
/// error; a generation that ended for a reason other than `stop` (a missing
/// reason is taken as a normal stop); else the response text.
pub open spec fn generate_reply(status: u16, body: Seq<u8>, t: JsonTree) -> Result<
    Seq<char>,
    GenerationErrorView,
> {
    match reported_error(t) {
        Some(Some(m)) => Err(server_failure(m)),
        Some(None) => Err(parse_failure(status, body)),
        None => match OllamaResponse::decoded(t) {
            None => Err(parse_failure(status, body)),
            Some(r) => if r.done_reason is Some && r.done_reason->Some_0 != "stop"@ {
                Err(
                    GenerationErrorView::Soft(
                        SoftFailureView::FinishedEarly {
                            reason: r.done_reason->Some_0,
                            safety_ratings: None,
                        },
                    ),
                )
            } else {
                Ok(r.response)
            },
        },
    }
}

/// What a listing of installed models whose body parsed to `t` means: a
/// reported error, or the models' names in order.
pub open spec fn models_reply(status: u16, body: Seq<u8>, t: JsonTree) -> Result<
    Seq<Seq<char>>,
    GenerationErrorView,
> {
    match reported_error(t) {
        Some(Some(m)) => Err(server_failure(m)),
        Some(None) => Err(parse_failure(status, body)),
        None => match req_list::<OllamaTag>(t, "models"@) {
            None => Err(parse_failure(status, body)),
            Some(tags) => Ok(tags.map_values(|g: OllamaTagView| g.name)),
        },
    }
}

/// `q` sends `prompt` to `model` on the server at `base`.
pub open spec fn generate_request_for(q: HttpRequest, base: Seq<char>, model: Seq<char>, prompt: Seq<char>) -> bool {
    &&& q.method == HttpMethod::Post
    &&& q.url@ == base + "/api/generate"@
    &&& q.bearer is None
    &&& q.body is Some
    &&& json_tree(q.body->Some_0) == JsonTree::Object(
        map![
            "model"@ => JsonTree::Str(model),
            "prompt"@ => JsonTree::Str(prompt),
            "stream"@ => JsonTree::Bool(false),
        ],
    )
    &&& q.timeout_secs is None
}

/// Reads the error member of a reply, as `reported_error` describes it.
fn read_reported_error(v: &Value) -> (r: Option<Option<String>>)
    ensures
        match reported_error(json_tree(*v)) {
            Some(Some(m)) => r matches Some(Some(s)) && s@ == m,
            Some(None) => r == Some(None::<String>),
            None => r is None,
        },
{
    if !v.is_object() {
        return None;
    }
    match member(v, "error") {
        None => None,
        Some(e) => if e.is_null() {
            None
        } else {
            match e.as_str() {
                Some(s) => Some(Some(String::from_str(s))),
                None => Some(None),
            }
        },
    }
}

/// Reads a generation reply whose body has been parsed to `v`.
pub fn read_generate(status: u16, body: &[u8], v: &Value) -> (r: Result<String, GenerationError>)
    ensures
        text_outcome(r) == generate_reply(status, body@, json_tree(*v)),
{
    match read_reported_error(v) {
        Some(Some(m)) => {
            return Err(GenerationError::Api { code: None, kind: None, message: m });
        },
        Some(None) => {
            return Err(parse_error(status, body));
        },
        None => {},
    }
    match OllamaResponse::from_json(v) {
        None => Err(parse_error(status, body)),
        Some(resp) => {
            if let Some(reason) = &resp.done_reason {
                if !str_eq(reason.as_str(), "stop") {
                    return Err(
                        GenerationError::Soft(
                            SoftFailure::FinishedEarly { reason: reason.clone(), safety_ratings: None },
                        ),
                    );
                }
            }
            Ok(resp.response)
        },
    }
}

/// Reads a listing of installed models whose body has been parsed to `v`.
pub fn read_model_list(status: u16, body: &[u8], v: &Value) -> (r: Result<Vec<String>, GenerationError>)
    ensures
        names_outcome(r) == models_reply(status, body@, json_tree(*v)),
{
    match read_reported_error(v) {
        Some(Some(m)) => {
            return Err(GenerationError::Api { code: None, kind: None, message: m });
        },
        Some(None) => {
            return Err(parse_error(status, body));
        },
        None => {},
    }
    match read_req_list::<OllamaTag>(v, "models") {
        None => Err(parse_error(status, body)),
        Some(tags) => {
            let mut names: Vec<String> = Vec::new();
            let mut i: usize = 0;
            while i < tags.len()
                invariant
                    i <= tags@.len(),
                    names@.map_values(|s: String| s@) == views_of(tags@).take(i as int).map_values(
                        |g: OllamaTagView| g.name,
                    ),
                decreases tags@.len() - i,
            {
                let ghost n0 = names@;
                names.push(tags[i].name.clone());
                assert(names@.map_values(|s: String| s@) =~= n0.map_values(|s: String| s@).push(
                    tags@[i as int].name@,
                ));
                assert(views_of(tags@).take(i + 1) =~= views_of(tags@).take(i as int).push(
                    tags@[i as int]@,
                ));
                assert(views_of(tags@).take(i + 1).map_values(|g: OllamaTagView| g.name)
                    =~= views_of(tags@).take(i as int).map_values(|g: OllamaTagView| g.name).push(
                    tags@[i as int].name@,
                ));
                i = i + 1;
            }
            assert(views_of(tags@).take(i as int) =~= views_of(tags@));
            Ok(names)
        },
    }
}

/// The request that sends `prompt` to `model`, or to the configured model
/// when none is given.
pub fn generate_request(config: &Config, model: Option<&str>, prompt: &str) -> (r: HttpRequest)
    ensures
        generate_request_for(
            r,
            config.ollama_base_url@,
            match model {
                Some(m) => m@,
                None => config.default_ollama_model@,
            },
            prompt@,
        ),
{
    let target = match model {
        Some(m) => m,
        None => config.default_ollama_model.as_str(),
    };
    proof {
        reveal_strlit("model");
        reveal_strlit("prompt");
        reveal_strlit("stream");
        assert("prompt"@[0] != "stream"@[0]);
    }
    let body = object3(
        "model",
        string_value(String::from_str(target)),
        "prompt",
        string_value(String::from_str(prompt)),
        "stream",
        bool_value(false),
    );
    HttpRequest {
        method: HttpMethod::Post,
        url: join(config.ollama_base_url.as_str(), "/api/generate"),
        bearer: None,
        body: Some(body),
        timeout_secs: None,
    }
}

/// Reads the reply to a generation request.
pub fn generate(status: u16, body: &[u8]) -> (r: Result<String, GenerationError>)
    ensures
        text_outcome(r) == through_json(status, body@, |t: JsonTree| generate_reply(status, body@, t)),
{
    match read_json(status, body) {
        Ok(v) => read_generate(status, body, &v),
        Err(e) => Err(e),
    }
}

/// The request for the installed models.
pub fn list_models_request(config: &Config) -> (r: HttpRequest)
    ensures
        r.method == HttpMethod::Get,
        r.url@ == config.ollama_base_url@ + "/api/tags"@,
        r.bearer is None,
        r.body is None,
        r.timeout_secs is None,
{
    HttpRequest {
        method: HttpMethod::Get,
        url: join(config.ollama_base_url.as_str(), "/api/tags"),
        bearer: None,
        body: None,
        timeout_secs: None,
    }
}

/// Reads the reply to a listing of installed models.
pub fn list_models(status: u16, body: &[u8]) -> (r: Result<Vec<String>, GenerationError>)
    ensures
        names_outcome(r) == through_json(status, body@, |t: JsonTree| models_reply(status, body@, t)),
{
    match read_json(status, body) {
        Ok(v) => read_model_list(status, body, &v),
        Err(e) => Err(e),
    }
}

/// The reachability probe: the base URL itself, under a short timeout.
pub fn check_connection_request(config: &Config) -> (r: HttpRequest)
    ensures
        r.method == HttpMethod::Get,
        r.url@ == config.ollama_base_url@,
        r.bearer is None,
        r.body is None,
        r.timeout_secs == Some(LOCAL_PROBE_TIMEOUT_SECS),
{
    HttpRequest {
        method: HttpMethod::Get,
        url: config.ollama_base_url.clone(),
        bearer: None,
        body: None,
        timeout_secs: Some(LOCAL_PROBE_TIMEOUT_SECS),
    }
}

/// Reads the reply to a reachability probe: reachable on a success status.
pub fn check_connection(status: u16, body: &[u8]) -> (r: Result<(), GenerationError>)
    ensures
        unit_outcome(r) == probe_reply(status, body@),
{
    crate::llm::openai_compatible::check_connection(status, body)
}

} // verus!
