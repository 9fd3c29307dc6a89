//! The providers behind one contract: each builds the HTTP request of an
//! operation from the session's settings and reads the reply into text, a
//! list of model names or a verdict on reachability. Sending the request is
//! left to the caller.

pub mod gemini;
pub mod groq;
pub mod huggingface;
pub mod ollama;
pub mod openai_compatible;

use vstd::prelude::*;
use serde_json::Value;
use crate::config::{Config, LlmProvider};
use crate::error::{
    names_outcome, parse_failure, preview, text_outcome, unit_outcome, GenerationError,
    GenerationErrorView, SoftFailureView, BODY_PREVIEW,
};
use crate::json::{json_text_tree, JsonNumber, JsonTree};
use crate::llm::openai_compatible::{chat_reply, listing_request, through_json};

verus! {

#[derive(Debug, Clone, Copy, PartialEq, Eq, Structural)]
pub enum HttpMethod {
    Get,
    Post,
}

/// One HTTP request, as plain values.
#[derive(Debug, Clone)]
pub struct HttpRequest {
    pub method: HttpMethod,
    pub url: String,
    /// The token of an `Authorization: Bearer` header, if any.
    pub bearer: Option<String>,
    /// A JSON body, if any.
    pub body: Option<Value>,
    /// A bound on the whole exchange, in seconds; none means the client's own.
    pub timeout_secs: Option<u64>,
}

/// The bound that reachability probes put on their exchange, in seconds.
pub const PROBE_TIMEOUT_SECS: u64 = 10;

/// The bound on a probe of the local server, in seconds.
pub const LOCAL_PROBE_TIMEOUT_SECS: u64 = 5;

/// The generation request of a provider for `prompt`, or the configuration
/// error that stops it before any network work.
pub open spec fn generation_planned(
    c: Config,
    p: LlmProvider,
    prompt: Seq<char>,
    r: Result<HttpRequest, GenerationError>,
) -> bool {
    match p {
        LlmProvider::Ollama => r matches Ok(q) && ollama::generate_request_for(
            q,
            c.ollama_base_url@,
            c.default_ollama_model@,
            prompt,
        ),
        LlmProvider::Gemini => gemini::generate_planned(c, prompt, r),
        LlmProvider::Groq => groq::generate_planned(c, prompt, r),
        LlmProvider::HuggingFace => huggingface::generate_planned(c, prompt, r),
    }
}

/// The request that sends `prompt` to the active provider with the
/// session's current settings.
pub fn generate_request(config: &Config, prompt: &str) -> (r: Result<HttpRequest, GenerationError>)
    ensures
        generation_planned(*config, config.active_provider, prompt@, r),
{
    match config.active_provider {
        LlmProvider::Ollama => Ok(ollama::generate_request(config, None, prompt)),
        LlmProvider::Gemini => gemini::generate_request(config, prompt),
        LlmProvider::Groq => groq::generate_request(config, prompt),
        LlmProvider::HuggingFace => huggingface::generate_request(config, prompt),
    }
}

/// What a provider's reply to a generation request means.
pub open spec fn generate_outcome(p: LlmProvider, status: u16, body: Seq<u8>) -> Result<
    Seq<char>,
    GenerationErrorView,
> {
    match p {
        LlmProvider::Ollama => through_json(
            status,
            body,
            |t: JsonTree| ollama::generate_reply(status, body, t),
        ),
        LlmProvider::Gemini => through_json(
            status,
            body,
            |t: JsonTree| gemini::generate_reply(status, body, t),
        ),
        LlmProvider::Groq => through_json(status, body, |t: JsonTree| chat_reply(status, body, t)),
        LlmProvider::HuggingFace => through_json(
            status,
            body,
            |t: JsonTree| huggingface::generate_reply(status, body, t),
        ),
    }
}

/// Reads a provider's reply to a generation request.
pub fn generate_reply(provider: LlmProvider, status: u16, body: &[u8]) -> (r: Result<
    String,
    GenerationError,
>)
    ensures
        text_outcome(r) == generate_outcome(provider, status, body@),
{
    match provider {
        LlmProvider::Ollama => ollama::generate(status, body),
        LlmProvider::Gemini => gemini::generate(status, body),
        LlmProvider::Groq => groq::generate(status, body),
        LlmProvider::HuggingFace => huggingface::generate(status, body),
    }
}

/// The request for a provider's model listing: `Ok(None)` for a provider
/// that has no listing, whose list is then empty.
pub fn list_models_request(config: &Config, provider: LlmProvider) -> (r: Result<
    Option<HttpRequest>,
    GenerationError,
>)
    ensures
        provider == LlmProvider::HuggingFace ==> (r matches Ok(None)),
        provider == LlmProvider::Ollama ==> (r matches Ok(Some(q)) && q.url@ == config.ollama_base_url@
            + "/api/tags"@),
        provider == LlmProvider::Gemini ==> match config.gemini_api_key {
            Some(k) => r matches Ok(Some(q)) && gemini::listing_request(q, k@, None),
            None => r matches Err(e) && e@ == gemini::gemini_key_missing(),
        },
        provider == LlmProvider::Groq ==> match config.groq_api_key {
            Some(k) => r matches Ok(Some(q)) && listing_request(q, k@, config.groq_api_base_url@, None),
            None => r matches Err(e) && e@ == groq::groq_key_missing(),
        },
{
    match provider {
        LlmProvider::Ollama => Ok(Some(ollama::list_models_request(config))),
        LlmProvider::Gemini => match gemini::list_models_request(config) {
            Ok(q) => Ok(Some(q)),
            Err(e) => Err(e),
        },
        LlmProvider::Groq => match groq::list_models_request(config) {
            Ok(q) => Ok(Some(q)),
            Err(e) => Err(e),
        },
        LlmProvider::HuggingFace => Ok(None),
    }
}

/// What a provider's reply to a model listing means.
pub open spec fn list_models_outcome(p: LlmProvider, status: u16, body: Seq<u8>) -> Result<
    Seq<Seq<char>>,
    GenerationErrorView,
> {
    match p {
        LlmProvider::Ollama => through_json(
            status,
            body,
            |t: JsonTree| ollama::models_reply(status, body, t),
        ),
        LlmProvider::Gemini => through_json(
            status,
            body,
            |t: JsonTree| gemini::models_reply(status, body, t),
        ),
        LlmProvider::Groq => through_json(
            status,
            body,
            |t: JsonTree| openai_compatible::models_reply(status, body, t),
        ),
        LlmProvider::HuggingFace => Ok(Seq::empty()),
    }
}

/// Reads a provider's reply to a model listing.
pub fn list_models_reply(provider: LlmProvider, status: u16, body: &[u8]) -> (r: Result<
    Vec<String>,
    GenerationError,
>)
    ensures
        names_outcome(r) == list_models_outcome(provider, status, body@),
{
    match provider {
        LlmProvider::Ollama => ollama::list_models(status, body),
        LlmProvider::Gemini => gemini::list_models(status, body),
        LlmProvider::Groq => groq::list_models(status, body),
        LlmProvider::HuggingFace => {
            let r = huggingface::list_models();
            assert(r@.map_values(|s: String| s@) =~= Seq::<Seq<char>>::empty());
            Ok(r)
        },
    }
}

/// The reachability probe of a provider, or the configuration error that
/// stops it. Every probe carries a bounded timeout: the local server's root
/// URL; the model listing for Gemini and Groq; for Hugging Face, which has no
/// lighter endpoint, a generation from a short prompt.
pub open spec fn probe_planned(c: Config, p: LlmProvider, r: Result<HttpRequest, GenerationError>) -> bool {
    match p {
        LlmProvider::Ollama => r matches Ok(q) && q.method == HttpMethod::Get && q.url@
            == c.ollama_base_url@ && q.bearer is None && q.body is None && q.timeout_secs == Some(
            LOCAL_PROBE_TIMEOUT_SECS,
        ),
        LlmProvider::Gemini => match c.gemini_api_key {
            Some(k) => r matches Ok(q) && gemini::listing_request(q, k@, Some(PROBE_TIMEOUT_SECS)),
            None => r matches Err(e) && e@ == gemini::gemini_key_missing(),
        },
        LlmProvider::Groq => match c.groq_api_key {
            Some(k) => r matches Ok(q) && listing_request(
                q,
                k@,
                c.groq_api_base_url@,
                Some(PROBE_TIMEOUT_SECS),
            ),
            None => r matches Err(e) && e@ == groq::groq_key_missing(),
        },
        LlmProvider::HuggingFace => match c.huggingface_api_key {
            Some(k) => r matches Ok(q) && huggingface::generate_request_for(
                q,
                k@,
                c.default_huggingface_model@,
                huggingface::probe_prompt(),
                Some(PROBE_TIMEOUT_SECS),
            ),
            None => r matches Err(e) && e@ == huggingface::huggingface_key_missing(),
        },
    }
}

/// The reachability probe of a provider.
pub fn check_connection_request(config: &Config, provider: LlmProvider) -> (r: Result<
    HttpRequest,
    GenerationError,
>)
    ensures
        probe_planned(*config, provider, r),
{
    match provider {
        LlmProvider::Ollama => Ok(ollama::check_connection_request(config)),
        LlmProvider::Gemini => gemini::check_connection_request(config),
        LlmProvider::Groq => groq::check_connection_request(config),
        LlmProvider::HuggingFace => huggingface::check_connection_request(config),
    }
}

/// What a provider's reply to its reachability probe means.
pub open spec fn probe_outcome(p: LlmProvider, status: u16, body: Seq<u8>) -> Result<
    (),
    GenerationErrorView,
> {
    match p {
        LlmProvider::Ollama => openai_compatible::probe_reply(status, body),
        LlmProvider::Gemini => through_json(
            status,
            body,
            |t: JsonTree| gemini::probe_reply(status, body, t),
        ),
        LlmProvider::Groq => openai_compatible::probe_reply(status, body),
        LlmProvider::HuggingFace => through_json(
            status,
            body,
            |t: JsonTree| huggingface::probe_reply(status, body, t),
        ),
    }
}

/// Reads a provider's reply to its reachability probe.
pub fn check_connection_reply(provider: LlmProvider, status: u16, body: &[u8]) -> (r: Result<
    (),
    GenerationError,
>)
    ensures
        unit_outcome(r) == probe_outcome(provider, status, body@),
{
    match provider {
        LlmProvider::Ollama => ollama::check_connection(status, body),
        LlmProvider::Gemini => gemini::check_connection(status, body),
        LlmProvider::Groq => groq::check_connection(status, body),
        LlmProvider::HuggingFace => huggingface::check_connection(status, body),
    }
}

/// The finish reason that marks a normal end of generation.
pub open spec fn normal_stop(p: LlmProvider) -> Seq<char> {
    match p {
        LlmProvider::Gemini => "STOP"@,
        _ => "stop"@,
    }
}

/// A well-formed reply of a provider carrying `text`, whose generation ended
/// for `reason` (the reply of a provider without finish reasons has none).
pub open spec fn finished_tree(p: LlmProvider, text: Seq<char>, reason: Seq<char>) -> JsonTree {
    match p {
        LlmProvider::Ollama => JsonTree::Object(
            map![
                "model"@ => JsonTree::Str(Seq::empty()),
                "created_at"@ => JsonTree::Str(Seq::empty()),
                "response"@ => JsonTree::Str(text),
                "done"@ => JsonTree::Bool(true),
                "done_reason"@ => JsonTree::Str(reason),
            ],
        ),
        LlmProvider::Gemini => JsonTree::Object(
            map![
                "candidates"@ => JsonTree::Array(
                    seq![JsonTree::Object(
                        map![
                            "content"@ => JsonTree::Object(
                                map![
                                    "parts"@ => JsonTree::Array(
                                        seq![JsonTree::Object(map!["text"@ => JsonTree::Str(text)])],
                                    ),
                                ],
                            ),
                            "finishReason"@ => JsonTree::Str(reason),
                        ],
                    )],
                ),
            ],
        ),
        LlmProvider::Groq => JsonTree::Object(
            map![
                "choices"@ => JsonTree::Array(
                    seq![JsonTree::Object(
                        map![
                            "index"@ => JsonTree::Number(JsonNumber::PosInt(0)),
                            "message"@ => JsonTree::Object(
                                map![
                                    "role"@ => JsonTree::Str("assistant"@),
                                    "content"@ => JsonTree::Str(text),
                                ],
                            ),
                            "finish_reason"@ => JsonTree::Str(reason),
                        ],
                    )],
                ),
            ],
        ),
        LlmProvider::HuggingFace => JsonTree::Object(
            map!["generated_text"@ => JsonTree::Str(text)],
        ),
    }
}

/// A well-formed reply of a provider carrying `text`, ended normally.
pub open spec fn success_tree(p: LlmProvider, text: Seq<char>) -> JsonTree {
    finished_tree(p, text, normal_stop(p))
}

proof fn lemma_ollama_finished(status: u16, body: Seq<u8>, text: Seq<char>, reason: Seq<char>)
    ensures
        ollama::generate_reply(status, body, finished_tree(LlmProvider::Ollama, text, reason)) == if reason
            == "stop"@ {
            Ok::<Seq<char>, GenerationErrorView>(text)
        } else {
            Err(
                GenerationErrorView::Soft(
                    SoftFailureView::FinishedEarly { reason, safety_ratings: None },
                ),
            )
        },
{
    reveal_strlit("model");
    reveal_strlit("created_at");
    reveal_strlit("response");
    reveal_strlit("done");
    reveal_strlit("done_reason");
    reveal_strlit("error");
    assert("model"@.len() == 5);
    assert("created_at"@.len() == 10);
    assert("response"@.len() == 8);
    assert("done"@.len() == 4);
    assert("done_reason"@.len() == 11);
    assert("error"@.len() == 5);
    assert("model"@[0] != "error"@[0]);
    let t = finished_tree(LlmProvider::Ollama, text, reason);
    assert(crate::json::member_of(t, "error"@) is None);
    assert(ollama::reported_error(t) is None);
    assert(crate::json::opt_text(t, "done_reason"@) == Some(Some(reason)));
}

proof fn lemma_gemini_finished(status: u16, body: Seq<u8>, text: Seq<char>, reason: Seq<char>)
    ensures
        gemini::generate_reply(status, body, finished_tree(LlmProvider::Gemini, text, reason)) == if reason
            == "STOP"@ || reason == "UNKNOWN"@ {
            Ok::<Seq<char>, GenerationErrorView>(text)
        } else {
            Err(
                GenerationErrorView::Soft(
                    SoftFailureView::FinishedEarly {
                        reason,
                        safety_ratings: None,
                    },
                ),
            )
        },
{
    reveal_strlit("candidates");
    reveal_strlit("content");
    reveal_strlit("parts");
    reveal_strlit("text");
    reveal_strlit("finishReason");
    reveal_strlit("promptFeedback");
    reveal_strlit("safetyRatings");
    reveal_strlit("error");
    reveal_strlit("role");
    assert("candidates"@.len() == 10);
    assert("content"@.len() == 7);
    assert("parts"@.len() == 5);
    assert("text"@.len() == 4);
    assert("finishReason"@.len() == 12);
    assert("promptFeedback"@.len() == 14);
    assert("safetyRatings"@.len() == 13);
    assert("error"@.len() == 5);
    assert("role"@.len() == 4);
    let t = finished_tree(LlmProvider::Gemini, text, reason);
    let part = JsonTree::Object(map!["text"@ => JsonTree::Str(text)]);
    let content = JsonTree::Object(map!["parts"@ => JsonTree::Array(seq![part])]);
    let cand = JsonTree::Object(
        map!["content"@ => content, "finishReason"@ => JsonTree::Str(reason)],
    );
    assert(t == JsonTree::Object(map!["candidates"@ => JsonTree::Array(seq![cand])]));
    assert(<gemini::Part as crate::json::FromJson>::decoded(part) == Some(text));
    let parts = crate::json::decode_all::<gemini::Part>(seq![part]);
    assert(parts == Some(seq![text])) by {
        assert(seq![part].map_values(
            |x: JsonTree| <gemini::Part as crate::json::FromJson>::decoded(x)->Some_0,
        ) =~= seq![text]);
    }
    let cv = gemini::ContentView { parts: Some(seq![text]), role: None };
    assert(<gemini::ContentResponse as crate::json::FromJson>::decoded(content) == Some(cv));
    let kv = gemini::CandidateView {
        content: Some(cv),
        finish_reason: Some(reason),
        safety_ratings: None,
    };
    assert(<gemini::Candidate as crate::json::FromJson>::decoded(cand) == Some(kv));
    assert(crate::json::decode_all::<gemini::Candidate>(seq![cand]) == Some(seq![kv])) by {
        assert(seq![cand].map_values(
            |x: JsonTree| <gemini::Candidate as crate::json::FromJson>::decoded(x)->Some_0,
        ) =~= seq![kv]);
    }
    let rv = gemini::GeminiResponseView {
        candidates: Some(seq![kv]),
        prompt_feedback: None,
        error: None,
    };
    assert(<gemini::GeminiResponse as crate::json::FromJson>::decoded(t) == Some(rv));
}

proof fn lemma_groq_finished(status: u16, body: Seq<u8>, text: Seq<char>, reason: Seq<char>)
    ensures
        chat_reply(status, body, finished_tree(LlmProvider::Groq, text, reason)) == if reason == "stop"@ {
            Ok::<Seq<char>, GenerationErrorView>(text)
        } else {
            Err(
                GenerationErrorView::Soft(
                    SoftFailureView::FinishedEarly { reason, safety_ratings: None },
                ),
            )
        },
{
    reveal_strlit("choices");
    reveal_strlit("index");
    reveal_strlit("message");
    reveal_strlit("finish_reason");
    reveal_strlit("role");
    reveal_strlit("content");
    reveal_strlit("id");
    reveal_strlit("object");
    reveal_strlit("created");
    reveal_strlit("model");
    reveal_strlit("error");
    assert("choices"@.len() == 7);
    assert("index"@.len() == 5);
    assert("message"@.len() == 7);
    assert("finish_reason"@.len() == 13);
    assert("role"@.len() == 4);
    assert("content"@.len() == 7);
    assert("id"@.len() == 2);
    assert("object"@.len() == 6);
    assert("created"@.len() == 7);
    assert("model"@.len() == 5);
    assert("error"@.len() == 5);
    assert("created"@[1] != "choices"@[1]);
    let t = finished_tree(LlmProvider::Groq, text, reason);
    let msg = JsonTree::Object(
        map!["role"@ => JsonTree::Str("assistant"@), "content"@ => JsonTree::Str(text)],
    );
    let choice = JsonTree::Object(
        map![
            "index"@ => JsonTree::Number(JsonNumber::PosInt(0)),
            "message"@ => msg,
            "finish_reason"@ => JsonTree::Str(reason),
        ],
    );
    assert(t == JsonTree::Object(map!["choices"@ => JsonTree::Array(seq![choice])]));
    let mv = openai_compatible::ResponseMessageView { role: "assistant"@, content: Some(text) };
    assert(crate::json::member_of(msg, "role"@) == Some(JsonTree::Str("assistant"@)));
    assert(crate::json::req_text(msg, "role"@) == Some("assistant"@));
    assert(crate::json::member_of(msg, "content"@) == Some(JsonTree::Str(text)));
    assert(crate::json::opt_text(msg, "content"@) == Some(Some(text)));
    assert(<openai_compatible::ResponseMessage as crate::json::FromJson>::decoded(msg) == Some(mv));
    let cv = openai_compatible::ChatChoiceView { index: 0, message: mv, finish_reason: Some(reason) };
    assert(<openai_compatible::ChatChoice as crate::json::FromJson>::decoded(choice) == Some(cv));
    assert(crate::json::decode_all::<openai_compatible::ChatChoice>(seq![choice]) == Some(seq![cv]))
        by {
        assert(seq![choice].map_values(
            |x: JsonTree| <openai_compatible::ChatChoice as crate::json::FromJson>::decoded(x)->Some_0,
        ) =~= seq![cv]);
    }
    let rv = openai_compatible::ChatCompletionResponseView {
        id: None,
        object: None,
        created: None,
        model: None,
        choices: seq![cv],
        error: None,
    };
    assert(<openai_compatible::ChatCompletionResponse as crate::json::FromJson>::decoded(t) == Some(
        rv,
    ));
}

proof fn lemma_huggingface_text(status: u16, body: Seq<u8>, text: Seq<char>, reason: Seq<char>)
    ensures
        huggingface::generate_reply(status, body, finished_tree(LlmProvider::HuggingFace, text, reason))
            == Ok::<Seq<char>, GenerationErrorView>(text),
{
    reveal_strlit("generated_text");
    reveal_strlit("error");
    let t = finished_tree(LlmProvider::HuggingFace, text, reason);
    assert(t == JsonTree::Object(map!["generated_text"@ => JsonTree::Str(text)]));
    assert(crate::json::member_of(t, "generated_text"@) == Some(JsonTree::Str(text)));
    assert(!("error"@ =~= "generated_text"@));
    assert(crate::json::member_of(t, "error"@) is None);
    assert(crate::json::opt_text(t, "error"@) == Some(None::<Seq<char>>));
    assert(crate::json::opt_text(t, "generated_text"@) == Some(Some(text)));
}

/// For every provider, a well-formed reply that carries a text and ends
/// normally yields exactly that text.
pub proof fn synthetic_success_yields_text(p: LlmProvider, status: u16, body: Seq<u8>, text: Seq<char>)
    requires
        json_text_tree(body) == Some(success_tree(p, text)),
    ensures
        generate_outcome(p, status, body) == Ok::<Seq<char>, GenerationErrorView>(text),
{
    let reason = normal_stop(p);
    match p {
        LlmProvider::Ollama => lemma_ollama_finished(status, body, text, reason),
        LlmProvider::Gemini => lemma_gemini_finished(status, body, text, reason),
        LlmProvider::Groq => lemma_groq_finished(status, body, text, reason),
        LlmProvider::HuggingFace => lemma_huggingface_text(status, body, text, reason),
    }
}

/// For every provider whose replies carry a finish reason, a reply that
/// ended for another reason than the normal stop (and than the unknown
/// sentinel) is a soft failure naming that reason, never a success.
pub proof fn abnormal_finish_is_soft_failure(
    p: LlmProvider,
    status: u16,
    body: Seq<u8>,
    text: Seq<char>,
    reason: Seq<char>,
)
    requires
        p != LlmProvider::HuggingFace,
        reason != normal_stop(p),
        reason != "UNKNOWN"@,
        json_text_tree(body) == Some(finished_tree(p, text, reason)),
    ensures
        generate_outcome(p, status, body) == Err::<Seq<char>, GenerationErrorView>(
            GenerationErrorView::Soft(SoftFailureView::FinishedEarly { reason, safety_ratings: None }),
        ),
{
    match p {
        LlmProvider::Ollama => lemma_ollama_finished(status, body, text, reason),
        LlmProvider::Gemini => lemma_gemini_finished(status, body, text, reason),
        LlmProvider::Groq => lemma_groq_finished(status, body, text, reason),
        LlmProvider::HuggingFace => {},
    }
}

/// For every provider and operation, a body that is no JSON text is a parse
/// error that keeps the reply's status and the start of its body.
pub proof fn malformed_body_is_parse_error(p: LlmProvider, status: u16, body: Seq<u8>)
    requires
        json_text_tree(body) is None,
    ensures
        generate_outcome(p, status, body) == Err::<Seq<char>, GenerationErrorView>(
            parse_failure(status, body),
        ),
        p != LlmProvider::HuggingFace ==> list_models_outcome(p, status, body) == Err::<
            Seq<Seq<char>>,
            GenerationErrorView,
        >(parse_failure(status, body)),
        parse_failure(status, body) == (GenerationErrorView::Parse {
            status,
            body_prefix: preview(body),
        }),
        preview(body).len() == if body.len() <= BODY_PREVIEW {
            body.len()
        } else {
            BODY_PREVIEW as nat
        },
        preview(body) == body.take(preview(body).len() as int),
{
    assert(body.take(body.len() as int) =~= body);
}

} // verus!
