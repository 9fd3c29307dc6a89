//! The chat-completions schema shared by providers that follow it: the
//! request of one user message, replies with a list of choices, model
//! listings, and errors reported in the body.

use vstd::prelude::*;
use serde_json::Value;
use crate::error::{
    body_preview, is_success, opt_view, parse_error, parse_failure, preview, read_json, text_outcome,
    names_outcome, unit_outcome, GenerationError, GenerationErrorView, SoftFailure, SoftFailureView,
};
use crate::llm::{HttpMethod, HttpRequest, PROBE_TIMEOUT_SECS};
use crate::text::{join, str_eq, trim_end_char, trim_end_matches_char};
use crate::json::{
    array_value, json_tree, object2, opt_decoded, opt_list, opt_text, opt_uint, opt_views,
    read_opt, read_opt_list, read_opt_text, read_opt_uint, read_req, read_req_text, read_req_uint,
    json_text_tree, req_decoded, req_text, req_uint, string_value, trees, views_of, FromJson,
    JsonTree,
};

verus! {

/// One message of a chat.
#[derive(Debug, Clone, PartialEq, Eq)]
pub struct ChatMessage {
    pub role: String,
    pub content: String,
}

/// A chat-completions request.
#[derive(Debug, Clone, PartialEq, Eq)]
pub struct ChatCompletionRequest {
    pub model: String,
    pub messages: Vec<ChatMessage>,
}

pub open spec fn message_tree(m: ChatMessage) -> JsonTree {
    JsonTree::Object(map!["role"@ => JsonTree::Str(m.role@), "content"@ => JsonTree::Str(m.content@)])
}

pub open spec fn request_tree(r: ChatCompletionRequest) -> JsonTree {
    JsonTree::Object(
        map![
            "model"@ => JsonTree::Str(r.model@),
            "messages"@ => JsonTree::Array(r.messages@.map_values(|m: ChatMessage| message_tree(m))),
        ],
    )
}

impl ChatMessage {
    pub fn to_json(&self) -> (r: Value)
        ensures
            json_tree(r) == message_tree(*self),
    {
        proof {
            reveal_strlit("role");
            reveal_strlit("content");
            assert("role"@.len() != "content"@.len());
        }
        object2(
            "role",
            string_value(self.role.clone()),
            "content",
            string_value(self.content.clone()),
        )
    }
}

impl ChatCompletionRequest {
    pub fn to_json(&self) -> (r: Value)
        ensures
            json_tree(r) == request_tree(*self),
    {
        let mut items: Vec<Value> = Vec::new();
        let mut i: usize = 0;
        while i < self.messages.len()
            invariant
                i <= self.messages@.len(),
                trees(items@) == self.messages@.take(i as int).map_values(
                    |m: ChatMessage| message_tree(m),
                ),
            decreases self.messages@.len() - i,
        {
            let v = self.messages[i].to_json();
            let ghost i0 = items@;
            items.push(v);
            assert(trees(items@) =~= trees(i0).push(json_tree(v)));
            assert(self.messages@.take(i + 1) =~= self.messages@.take(i as int).push(
                self.messages@[i as int],
            ));
            assert(self.messages@.take(i + 1).map_values(|m: ChatMessage| message_tree(m))
                =~= self.messages@.take(i as int).map_values(|m: ChatMessage| message_tree(m)).push(
                message_tree(self.messages@[i as int]),
            ));
            i = i + 1;
        }
        assert(self.messages@.take(i as int) =~= self.messages@);
        proof {
            reveal_strlit("model");
            reveal_strlit("messages");
            assert("model"@.len() != "messages"@.len());
        }
        object2("model", string_value(self.model.clone()), "messages", array_value(items))
    }
}

/// The message of a choice.
#[derive(Debug, Clone, PartialEq, Eq)]
pub struct ResponseMessage {
    pub role: String,
    pub content: Option<String>,
}

pub struct ResponseMessageView {
    pub role: Seq<char>,
    pub content: Option<Seq<char>>,
}

impl View for ResponseMessage {
    type V = ResponseMessageView;

    open spec fn view(&self) -> ResponseMessageView {
        ResponseMessageView { role: self.role@, content: opt_view(self.content) }
    }
}

impl FromJson for ResponseMessage {
    open spec fn decoded(t: JsonTree) -> Option<ResponseMessageView> {
        match (req_text(t, "role"@), opt_text(t, "content"@)) {
            (Some(role), Some(content)) => Some(ResponseMessageView { role, content }),
            _ => None,
        }
    }

    fn from_json(v: &Value) -> (r: Option<ResponseMessage>) {
        let role = read_req_text(v, "role");
        let content = read_opt_text(v, "content");
        match (role, content) {
            (Some(role), Some(content)) => Some(ResponseMessage { role, content }),
            _ => None,
        }
    }
}

/// One choice of a completion.
#[derive(Debug, Clone, PartialEq, Eq)]
pub struct ChatChoice {
    pub index: u32,
    pub message: ResponseMessage,
    pub finish_reason: Option<String>,
}

pub struct ChatChoiceView {
    pub index: u32,
    pub message: ResponseMessageView,
    pub finish_reason: Option<Seq<char>>,
}

impl View for ChatChoice {
    type V = ChatChoiceView;

    open spec fn view(&self) -> ChatChoiceView {
        ChatChoiceView {
            index: self.index,
            message: self.message@,
            finish_reason: opt_view(self.finish_reason),
        }
    }
}

impl FromJson for ChatChoice {
    open spec fn decoded(t: JsonTree) -> Option<ChatChoiceView> {
        match (
            req_uint(t, "index"@, u32::MAX as u64),
            req_decoded::<ResponseMessage>(t, "message"@),
            opt_text(t, "finish_reason"@),
        ) {
            (Some(index), Some(message), Some(finish_reason)) => Some(
                ChatChoiceView { index: index as u32, message, finish_reason },
            ),
            _ => None,
        }
    }

    fn from_json(v: &Value) -> (r: Option<ChatChoice>) {
        let index = read_req_uint(v, "index", u32::MAX as u64);
        let message = read_req::<ResponseMessage>(v, "message");
        let finish_reason = read_opt_text(v, "finish_reason");
        match (index, message, finish_reason) {
            (Some(index), Some(message), Some(finish_reason)) => Some(
                ChatChoice { index: index as u32, message, finish_reason },
            ),
            _ => None,
        }
    }
}

/// An error that the provider reports in a reply's body.
#[derive(Debug, Clone, PartialEq, Eq)]
pub struct ApiError {
    pub message: String,
    pub error_type: Option<String>,
    pub param: Option<String>,
    pub code: Option<String>,
}

pub struct ApiErrorView {
    pub message: Seq<char>,
    pub error_type: Option<Seq<char>>,
    pub param: Option<Seq<char>>,
    pub code: Option<Seq<char>>,
}

impl View for ApiError {
    type V = ApiErrorView;

    open spec fn view(&self) -> ApiErrorView {
        ApiErrorView {
            message: self.message@,
            error_type: opt_view(self.error_type),
            param: opt_view(self.param),
            code: opt_view(self.code),
        }
    }
}

impl FromJson for ApiError {
    open spec fn decoded(t: JsonTree) -> Option<ApiErrorView> {
        match (
            req_text(t, "message"@),
            opt_text(t, "type"@),
            opt_text(t, "param"@),
            opt_text(t, "code"@),
        ) {
            (Some(message), Some(error_type), Some(param), Some(code)) => Some(
                ApiErrorView { message, error_type, param, code },
            ),
            _ => None,
        }
    }

    fn from_json(v: &Value) -> (r: Option<ApiError>) {
        let message = read_req_text(v, "message");
        let error_type = read_opt_text(v, "type");
        let param = read_opt_text(v, "param");
        let code = read_opt_text(v, "code");
        match (message, error_type, param, code) {
            (Some(message), Some(error_type), Some(param), Some(code)) => Some(
                ApiError { message, error_type, param, code },
            ),
            _ => None,
        }
    }
}

/// A chat-completions reply. A missing list of choices reads as empty, so
/// that a body holding only an error fits too.
#[derive(Debug, Clone, PartialEq, Eq)]
pub struct ChatCompletionResponse {
    pub id: Option<String>,
    pub object: Option<String>,
    pub created: Option<u64>,
    pub model: Option<String>,
    pub choices: Vec<ChatChoice>,
    pub error: Option<ApiError>,
}

pub struct ChatCompletionResponseView {
    pub id: Option<Seq<char>>,
    pub object: Option<Seq<char>>,
    pub created: Option<u64>,
    pub model: Option<Seq<char>>,
    pub choices: Seq<ChatChoiceView>,
    pub error: Option<ApiErrorView>,
}

impl View for ChatCompletionResponse {
    type V = ChatCompletionResponseView;

    open spec fn view(&self) -> ChatCompletionResponseView {
        ChatCompletionResponseView {
            id: opt_view(self.id),
            object: opt_view(self.object),
            created: self.created,
            model: opt_view(self.model),
            choices: views_of(self.choices@),
            error: opt_views(self.error),
        }
    }
}

pub open spec fn or_empty<V>(o: Option<Seq<V>>) -> Seq<V> {
    match o {
        Some(s) => s,
        None => Seq::empty(),
    }
}

impl FromJson for ChatCompletionResponse {
    open spec fn decoded(t: JsonTree) -> Option<ChatCompletionResponseView> {
        if !(t is Object) {
            None
        } else {
            match (
                opt_text(t, "id"@),
                opt_text(t, "object"@),
                opt_uint(t, "created"@, u64::MAX),
                opt_text(t, "model"@),
                opt_list::<ChatChoice>(t, "choices"@),
                opt_decoded::<ApiError>(t, "error"@),
            ) {
                (Some(id), Some(object), Some(created), Some(model), Some(choices), Some(error)) => Some(
                    ChatCompletionResponseView {
                        id,
                        object,
                        created,
                        model,
                        choices: or_empty(choices),
                        error,
                    },
                ),
                _ => None,
            }
        }
    }

    fn from_json(v: &Value) -> (r: Option<ChatCompletionResponse>) {
        if !v.is_object() {
            return None;
        }
        let id = read_opt_text(v, "id");
        let object = read_opt_text(v, "object");
        let created = read_opt_uint(v, "created", u64::MAX);
        let model = read_opt_text(v, "model");
        let choices = read_opt_list::<ChatChoice>(v, "choices");
        let error = read_opt::<ApiError>(v, "error");
        match (id, object, created, model, choices, error) {
            (Some(id), Some(object), Some(created), Some(model), Ok(choices), Ok(error)) => {
                let choices = match choices {
                    Some(c) => c,
                    None => {
                        let c: Vec<ChatChoice> = Vec::new();
                        assert(views_of(c@) =~= Seq::<ChatChoiceView>::empty());
                        c
                    },
                };
                Some(ChatCompletionResponse { id, object, created, model, choices, error })
            },
            _ => None,
        }
    }
}

/// One entry of a model listing.
#[derive(Debug, Clone, PartialEq, Eq)]
pub struct ModelInfo {
    pub id: String,
    pub object: String,
    pub created: Option<u64>,
    pub owned_by: Option<String>,
}

pub struct ModelInfoView {
    pub id: Seq<char>,
    pub object: Seq<char>,
    pub created: Option<u64>,
    pub owned_by: Option<Seq<char>>,
}

impl View for ModelInfo {
    type V = ModelInfoView;

    open spec fn view(&self) -> ModelInfoView {
        ModelInfoView {
            id: self.id@,
            object: self.object@,
            created: self.created,
            owned_by: opt_view(self.owned_by),
        }
    }
}

impl FromJson for ModelInfo {
    open spec fn decoded(t: JsonTree) -> Option<ModelInfoView> {
        match (
            req_text(t, "id"@),
            req_text(t, "object"@),
            opt_uint(t, "created"@, u64::MAX),
            opt_text(t, "owned_by"@),
        ) {
            (Some(id), Some(object), Some(created), Some(owned_by)) => Some(
                ModelInfoView { id, object, created, owned_by },
            ),
            _ => None,
        }
    }

    fn from_json(v: &Value) -> (r: Option<ModelInfo>) {
        let id = read_req_text(v, "id");
        let object = read_req_text(v, "object");
        let created = read_opt_uint(v, "created", u64::MAX);
        let owned_by = read_opt_text(v, "owned_by");
        match (id, object, created, owned_by) {
            (Some(id), Some(object), Some(created), Some(owned_by)) => Some(
                ModelInfo { id, object, created, owned_by },
            ),
            _ => None,
        }
    }
}

/// A model listing. A missing list reads as empty, so that a body holding
/// only an error fits too.
#[derive(Debug, Clone, PartialEq, Eq)]
pub struct ListModelsResponse {
    pub object: Option<String>,
    pub data: Vec<ModelInfo>,
    pub error: Option<ApiError>,
}

pub struct ListModelsResponseView {
    pub object: Option<Seq<char>>,
    pub data: Seq<ModelInfoView>,
    pub error: Option<ApiErrorView>,
}

impl View for ListModelsResponse {
    type V = ListModelsResponseView;

    open spec fn view(&self) -> ListModelsResponseView {
        ListModelsResponseView {
            object: opt_view(self.object),
            data: views_of(self.data@),
            error: opt_views(self.error),
        }
    }
}

impl FromJson for ListModelsResponse {
    open spec fn decoded(t: JsonTree) -> Option<ListModelsResponseView> {
        if !(t is Object) {
            None
        } else {
            match (
                opt_text(t, "object"@),
                opt_list::<ModelInfo>(t, "data"@),
                opt_decoded::<ApiError>(t, "error"@),
            ) {
                (Some(object), Some(data), Some(error)) => Some(
                    ListModelsResponseView { object, data: or_empty(data), error },
                ),
                _ => None,
            }
        }
    }

    fn from_json(v: &Value) -> (r: Option<ListModelsResponse>) {
        if !v.is_object() {
            return None;
        }
        let object = read_opt_text(v, "object");
        let data = read_opt_list::<ModelInfo>(v, "data");
        let error = read_opt::<ApiError>(v, "error");
        match (object, data, error) {
            (Some(object), Ok(data), Ok(error)) => {
                let data = match data {
                    Some(d) => d,
                    None => {
                        let d: Vec<ModelInfo> = Vec::new();
                        assert(views_of(d@) =~= Seq::<ModelInfoView>::empty());
                        d
                    },
                };
                Some(ListModelsResponse { object, data, error })
            },
            _ => None,
        }
    }
}

/// The endpoint of an operation: the base URL without trailing slashes,
/// then the operation's path.
pub open spec fn endpoint(base: Seq<char>, path: Seq<char>) -> Seq<char> {
    trim_end_char(base, '/') + path
}

/// The body of a request that sends `prompt` as the one user message.
pub open spec fn prompt_request_tree(model: Seq<char>, prompt: Seq<char>) -> JsonTree {
    JsonTree::Object(
        map![
            "model"@ => JsonTree::Str(model),
            "messages"@ => JsonTree::Array(seq![JsonTree::Object(
                map!["role"@ => JsonTree::Str("user"@), "content"@ => JsonTree::Str(prompt)],
            )]),
        ],
    )
}

/// `q` sends `prompt` to `model` as a chat, authorised by `key`.
pub open spec fn chat_request(
    q: HttpRequest,
    key: Seq<char>,
    base: Seq<char>,
    model: Seq<char>,
    prompt: Seq<char>,
) -> bool {
    &&& q.method == HttpMethod::Post
    &&& q.url@ == endpoint(base, "/chat/completions"@)
    &&& opt_view(q.bearer) == Some(key)
    &&& q.body is Some
    &&& json_tree(q.body->Some_0) == prompt_request_tree(model, prompt)
    &&& q.timeout_secs is None
}

/// `q` asks for the model listing, authorised by `key`, under `timeout`.
pub open spec fn listing_request(
    q: HttpRequest,
    key: Seq<char>,
    base: Seq<char>,
    timeout: Option<u64>,
) -> bool {
    &&& q.method == HttpMethod::Get
    &&& q.url@ == endpoint(base, "/models"@)
    &&& opt_view(q.bearer) == Some(key)
    &&& q.body is None
    &&& q.timeout_secs == timeout
}

/// The error a provider reported, carried verbatim.
pub open spec fn api_failure(e: ApiErrorView) -> GenerationErrorView {
    GenerationErrorView::Api { code: e.code, kind: e.error_type, message: e.message }
}

/// What a decoded chat reply means: a reported error; no choice; a first
/// choice that stopped for a reason other than `stop` (a missing reason is
/// taken as a normal stop); a first choice without text; or that text.
pub open spec fn chat_outcome(r: ChatCompletionResponseView) -> Result<Seq<char>, GenerationErrorView> {
    match r.error {
        Some(e) => Err(api_failure(e)),
        None => if r.choices.len() == 0 {
            Err(GenerationErrorView::Soft(SoftFailureView::NoCandidates))
        } else {
            let c = r.choices[0];
            if c.finish_reason is Some && c.finish_reason->Some_0 != "stop"@ {
                Err(
                    GenerationErrorView::Soft(
                        SoftFailureView::FinishedEarly {
                            reason: c.finish_reason->Some_0,
                            safety_ratings: None,
                        },
                    ),
                )
            } else {
                match c.message.content {
                    Some(t) => Ok(t),
                    None => Err(GenerationErrorView::Soft(SoftFailureView::MissingText)),
                }
            }
        },
    }
}

/// What a chat reply whose body parsed to `t` means.
pub open spec fn chat_reply(status: u16, body: Seq<u8>, t: JsonTree) -> Result<
    Seq<char>,
    GenerationErrorView,
> {
    match ChatCompletionResponse::decoded(t) {
        Some(r) => chat_outcome(r),
        None => Err(parse_failure(status, body)),
    }
}

/// What a model listing whose body parsed to `t` means: a reported error,
/// or the models' ids in order.
pub open spec fn models_reply(status: u16, body: Seq<u8>, t: JsonTree) -> Result<
    Seq<Seq<char>>,
    GenerationErrorView,
> {
    match ListModelsResponse::decoded(t) {
        Some(r) => match r.error {
            Some(e) => Err(api_failure(e)),
            None => Ok(r.data.map_values(|m: ModelInfoView| m.id)),
        },
        None => Err(parse_failure(status, body)),
    }
}

/// A reply read through `f` once its body parses; a parse error otherwise.
pub open spec fn through_json<V>(
    status: u16,
    body: Seq<u8>,
    f: spec_fn(JsonTree) -> Result<V, GenerationErrorView>,
) -> Result<V, GenerationErrorView> {
    match json_text_tree(body) {
        Some(t) => f(t),
        None => Err(parse_failure(status, body)),
    }
}

/// What a reachability probe's reply means: success for a success status,
/// else the status and the start of the body.
pub open spec fn probe_reply(status: u16, body: Seq<u8>) -> Result<(), GenerationErrorView> {
    if is_success(status) {
        Ok(())
    } else {
        Err(GenerationErrorView::HttpStatus { status, body_prefix: preview(body) })
    }
}

fn api_error(e: ApiError) -> (r: GenerationError)
    ensures
        r@ == api_failure(e@),
{
    GenerationError::Api { code: e.code, kind: e.error_type, message: e.message }
}

fn clone_text(o: &Option<String>) -> (r: Option<String>)
    ensures
        opt_view(r) == opt_view(*o),
{
    match o {
        Some(s) => Some(s.clone()),
        None => None,
    }
}

/// Classifies a decoded chat reply.
pub fn chat_result(resp: ChatCompletionResponse) -> (r: Result<String, GenerationError>)
    ensures
        text_outcome(r) == chat_outcome(resp@),
{
    let ChatCompletionResponse { choices, error, .. } = resp;
    if let Some(e) = error {
        return Err(api_error(e));
    }
    if choices.len() == 0 {
        return Err(GenerationError::Soft(SoftFailure::NoCandidates));
    }
    let c = &choices[0];
    if let Some(f) = &c.finish_reason {
        if !str_eq(f.as_str(), "stop") {
            return Err(
                GenerationError::Soft(
                    SoftFailure::FinishedEarly { reason: f.clone(), safety_ratings: None },
                ),
            );
        }
    }
    match &c.message.content {
        Some(t) => Ok(t.clone()),
        None => Err(GenerationError::Soft(SoftFailure::MissingText)),
    }
}

/// Reads a chat reply whose body has been parsed to `v`.
pub fn read_chat_completion(status: u16, body: &[u8], v: &Value) -> (r: Result<String, GenerationError>)
    ensures
        text_outcome(r) == chat_reply(status, body@, json_tree(*v)),
{
    match ChatCompletionResponse::from_json(v) {
        Some(resp) => chat_result(resp),
        None => Err(parse_error(status, body)),
    }
}

/// Reads a model listing whose body has been parsed to `v`.
pub fn read_model_list(status: u16, body: &[u8], v: &Value) -> (r: Result<Vec<String>, GenerationError>)
    ensures
        names_outcome(r) == models_reply(status, body@, json_tree(*v)),
{
    match ListModelsResponse::from_json(v) {
        Some(resp) => {
            let ListModelsResponse { data, error, .. } = resp;
            if let Some(e) = error {
                return Err(api_error(e));
            }
            let mut ids: Vec<String> = Vec::new();
            let mut i: usize = 0;
            while i < data.len()
                invariant
                    i <= data@.len(),
                    ids@.map_values(|s: String| s@) == views_of(data@).take(i as int).map_values(
                        |m: ModelInfoView| m.id,
                    ),
                decreases data@.len() - i,
            {
                let ghost i0 = ids@;
                ids.push(data[i].id.clone());
                assert(ids@.map_values(|s: String| s@) =~= i0.map_values(|s: String| s@).push(
                    data@[i as int].id@,
                ));
                assert(views_of(data@).take(i + 1) =~= views_of(data@).take(i as int).push(
                    data@[i as int]@,
                ));
                assert(views_of(data@).take(i + 1).map_values(|m: ModelInfoView| m.id)
                    =~= views_of(data@).take(i as int).map_values(|m: ModelInfoView| m.id).push(
                    data@[i as int].id@,
                ));
                i = i + 1;
            }
            assert(views_of(data@).take(i as int) =~= views_of(data@));
            Ok(ids)
        },
        None => Err(parse_error(status, body)),
    }
}

/// The request that sends `prompt` as a chat of one user message.
pub fn generate_request(api_key: &str, base_url: &str, model: &str, prompt: &str) -> (r: HttpRequest)
    ensures
        chat_request(r, api_key@, base_url@, model@, prompt@),
{
    let msg = ChatMessage { role: String::from_str("user"), content: String::from_str(prompt) };
    let req = ChatCompletionRequest { model: String::from_str(model), messages: vec![msg] };
    let body = req.to_json();
    assert(req.messages@.map_values(|m: ChatMessage| message_tree(m)) =~= seq![message_tree(msg)]);
    HttpRequest {
        method: HttpMethod::Post,
        url: join(trim_end_matches_char(base_url, '/'), "/chat/completions"),
        bearer: Some(String::from_str(api_key)),
        body: Some(body),
        timeout_secs: None,
    }
}

/// Reads the reply to a chat request.
pub fn generate(status: u16, body: &[u8]) -> (r: Result<String, GenerationError>)
    ensures
        text_outcome(r) == through_json(status, body@, |t: JsonTree| chat_reply(status, body@, t)),
{
    match read_json(status, body) {
        Ok(v) => read_chat_completion(status, body, &v),
        Err(e) => Err(e),
    }
}

/// The request for the model listing.
pub fn list_models_request(api_key: &str, base_url: &str) -> (r: HttpRequest)
    ensures
        listing_request(r, api_key@, base_url@, None),
{
    HttpRequest {
        method: HttpMethod::Get,
        url: join(trim_end_matches_char(base_url, '/'), "/models"),
        bearer: Some(String::from_str(api_key)),
        body: None,
        timeout_secs: None,
    }
}

/// Reads the reply to a model listing.
pub fn list_models(status: u16, body: &[u8]) -> (r: Result<Vec<String>, GenerationError>)
    ensures
        names_outcome(r) == through_json(status, body@, |t: JsonTree| models_reply(status, body@, t)),
{
    match read_json(status, body) {
        Ok(v) => read_model_list(status, body, &v),
        Err(e) => Err(e),
    }
}

/// The reachability probe: the model listing, under a bounded timeout.
pub fn check_connection_request(api_key: &str, base_url: &str) -> (r: HttpRequest)
    ensures
        listing_request(r, api_key@, base_url@, Some(PROBE_TIMEOUT_SECS)),
{
    let mut r = list_models_request(api_key, base_url);
    r.timeout_secs = Some(PROBE_TIMEOUT_SECS);
    r
}

/// Reads the reply to a reachability probe.
pub fn check_connection(status: u16, body: &[u8]) -> (r: Result<(), GenerationError>)
    ensures
        unit_outcome(r) == probe_reply(status, body@),
{
    if 200 <= status && status <= 299 {
        Ok(())
    } else {
        Err(GenerationError::HttpStatus { status, body_prefix: body_preview(body) })
    }
}

} // verus!
