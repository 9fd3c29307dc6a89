//! Gemini: a per-model generation endpoint keyed by the API key, replies
//! with candidates, prompt feedback and finish reasons, and a model listing
//! filtered to the models that can generate content.

use vstd::prelude::*;
use vstd::utf8::encode_utf8;
use serde_json::Value;
use crate::config::Config;
use crate::decimal::{decimal_text_of, Decimal};
use crate::error::{
    missing_key, missing_key_error, names_outcome, opt_view, parse_error, parse_failure,
    ratings_view, read_json, text_outcome, unit_outcome, GenerationError, GenerationErrorView,
    SafetyRating, SafetyRatingView, SoftFailure, SoftFailureView,
};
use crate::json::{
    array_value, json_text_tree, json_tree, members_map, object1, object2,
    object_growing, opt_decoded, opt_list, opt_list_views, opt_text, opt_views, parse_json,
    push_longer, read_opt, read_opt_list, read_opt_text, read_req_text, read_req_uint, req_text,
    req_uint, string_value, trees, uint_value, views_of, FromJson, JsonNumber, JsonTree,
};
use crate::llm::openai_compatible::through_json;
use crate::llm::{HttpMethod, HttpRequest, PROBE_TIMEOUT_SECS};
use crate::text::{decimal_digits, decimal_text, has_prefix, str_eq, strip_prefix};

verus! {

impl FromJson for SafetyRating {
    open spec fn decoded(t: JsonTree) -> Option<SafetyRatingView> {
        match (req_text(t, "category"@), req_text(t, "probability"@)) {
            (Some(category), Some(probability)) => Some(SafetyRatingView { category, probability }),
            _ => None,
        }
    }

    fn from_json(v: &Value) -> (r: Option<SafetyRating>) {
        match (read_req_text(v, "category"), read_req_text(v, "probability")) {
            (Some(category), Some(probability)) => Some(SafetyRating { category, probability }),
            _ => None,
        }
    }
}

/// One part of a candidate's content.
#[derive(Debug, Clone, PartialEq, Eq)]
pub struct Part {
    pub text: String,
}

impl View for Part {
    type V = Seq<char>;

    open spec fn view(&self) -> Seq<char> {
        self.text@
    }
}

impl FromJson for Part {
    open spec fn decoded(t: JsonTree) -> Option<Seq<char>> {
        req_text(t, "text"@)
    }

    fn from_json(v: &Value) -> (r: Option<Part>) {
        match read_req_text(v, "text") {
            Some(text) => Some(Part { text }),
            None => None,
        }
    }
}

/// The content of a candidate.
#[derive(Debug, Clone, PartialEq, Eq)]
pub struct ContentResponse {
    pub parts: Option<Vec<Part>>,
    pub role: Option<String>,
}

pub struct ContentView {
    pub parts: Option<Seq<Seq<char>>>,
    pub role: Option<Seq<char>>,
}

impl View for ContentResponse {
    type V = ContentView;

    open spec fn view(&self) -> ContentView {
        ContentView { parts: opt_list_views(self.parts), role: opt_view(self.role) }
    }
}

impl FromJson for ContentResponse {
    open spec fn decoded(t: JsonTree) -> Option<ContentView> {
        if !(t is Object) {
            None
        } else {
            match (opt_list::<Part>(t, "parts"@), opt_text(t, "role"@)) {
                (Some(parts), Some(role)) => Some(ContentView { parts, role }),
                _ => None,
            }
        }
    }

    fn from_json(v: &Value) -> (r: Option<ContentResponse>) {
        if !v.is_object() {
            return None;
        }
        match (read_opt_list::<Part>(v, "parts"), read_opt_text(v, "role")) {
            (Ok(parts), Some(role)) => Some(ContentResponse { parts, role }),
            _ => None,
        }
    }
}

/// One candidate of a reply.
#[derive(Debug, Clone, PartialEq, Eq)]
pub struct Candidate {
    pub content: Option<ContentResponse>,
    pub finish_reason: Option<String>,
    pub safety_ratings: Option<Vec<SafetyRating>>,
}

pub struct CandidateView {
    pub content: Option<ContentView>,
    pub finish_reason: Option<Seq<char>>,
    pub safety_ratings: Option<Seq<SafetyRatingView>>,
}

impl View for Candidate {
    type V = CandidateView;

    open spec fn view(&self) -> CandidateView {
        CandidateView {
            content: opt_views(self.content),
            finish_reason: opt_view(self.finish_reason),
            safety_ratings: opt_list_views(self.safety_ratings),
        }
    }
}

impl FromJson for Candidate {
    open spec fn decoded(t: JsonTree) -> Option<CandidateView> {
        if !(t is Object) {
            None
        } else {
            match (
                opt_decoded::<ContentResponse>(t, "content"@),
                opt_text(t, "finishReason"@),
                opt_list::<SafetyRating>(t, "safetyRatings"@),
            ) {
                (Some(content), Some(finish_reason), Some(safety_ratings)) => Some(
                    CandidateView { content, finish_reason, safety_ratings },
                ),
                _ => None,
            }
        }
    }

    fn from_json(v: &Value) -> (r: Option<Candidate>) {
        if !v.is_object() {
            return None;
        }
        match (
            read_opt::<ContentResponse>(v, "content"),
            read_opt_text(v, "finishReason"),
            read_opt_list::<SafetyRating>(v, "safetyRatings"),
        ) {
            (Ok(content), Some(finish_reason), Ok(safety_ratings)) => Some(
                Candidate { content, finish_reason, safety_ratings },
            ),
            _ => None,
        }
    }
}

/// What the provider says about the prompt itself.
#[derive(Debug, Clone, PartialEq, Eq)]
pub struct PromptFeedback {
    pub block_reason: Option<String>,
    pub safety_ratings: Option<Vec<SafetyRating>>,
}

pub struct PromptFeedbackView {
    pub block_reason: Option<Seq<char>>,
    pub safety_ratings: Option<Seq<SafetyRatingView>>,
}

impl View for PromptFeedback {
    type V = PromptFeedbackView;

    open spec fn view(&self) -> PromptFeedbackView {
        PromptFeedbackView {
            block_reason: opt_view(self.block_reason),
            safety_ratings: opt_list_views(self.safety_ratings),
        }
    }
}

impl FromJson for PromptFeedback {
    open spec fn decoded(t: JsonTree) -> Option<PromptFeedbackView> {
        if !(t is Object) {
            None
        } else {
            match (opt_text(t, "blockReason"@), opt_list::<SafetyRating>(t, "safetyRatings"@)) {
                (Some(block_reason), Some(safety_ratings)) => Some(
                    PromptFeedbackView { block_reason, safety_ratings },
                ),
                _ => None,
            }
        }
    }

    fn from_json(v: &Value) -> (r: Option<PromptFeedback>) {
        if !v.is_object() {
            return None;
        }
        match (read_opt_text(v, "blockReason"), read_opt_list::<SafetyRating>(v, "safetyRatings")) {
            (Some(block_reason), Ok(safety_ratings)) => Some(
                PromptFeedback { block_reason, safety_ratings },
            ),
            _ => None,
        }
    }
}

/// An error reported in a reply's body.
#[derive(Debug, Clone, PartialEq, Eq)]
pub struct GeminiApiError {
    pub code: u16,
    pub message: String,
    pub status: String,
}

pub struct GeminiApiErrorView {
    pub code: u16,
    pub message: Seq<char>,
    pub status: Seq<char>,
}

impl View for GeminiApiError {
    type V = GeminiApiErrorView;

    open spec fn view(&self) -> GeminiApiErrorView {
        GeminiApiErrorView { code: self.code, message: self.message@, status: self.status@ }
    }
}

impl FromJson for GeminiApiError {
    open spec fn decoded(t: JsonTree) -> Option<GeminiApiErrorView> {
        match (req_uint(t, "code"@, u16::MAX as u64), req_text(t, "message"@), req_text(t, "status"@)) {
            (Some(code), Some(message), Some(status)) => Some(
                GeminiApiErrorView { code: code as u16, message, status },
            ),
            _ => None,
        }
    }

    fn from_json(v: &Value) -> (r: Option<GeminiApiError>) {
        match (
            read_req_uint(v, "code", u16::MAX as u64),
            read_req_text(v, "message"),
            read_req_text(v, "status"),
        ) {
            (Some(code), Some(message), Some(status)) => Some(
                GeminiApiError { code: code as u16, message, status },
            ),
            _ => None,
        }
    }
}

/// A generation reply.
#[derive(Debug, Clone, PartialEq, Eq)]
pub struct GeminiResponse {
    pub candidates: Option<Vec<Candidate>>,
    pub prompt_feedback: Option<PromptFeedback>,
    pub error: Option<GeminiApiError>,
}

pub struct GeminiResponseView {
    pub candidates: Option<Seq<CandidateView>>,
    pub prompt_feedback: Option<PromptFeedbackView>,
    pub error: Option<GeminiApiErrorView>,
}

impl View for GeminiResponse {
    type V = GeminiResponseView;

    open spec fn view(&self) -> GeminiResponseView {
        GeminiResponseView {
            candidates: opt_list_views(self.candidates),
            prompt_feedback: opt_views(self.prompt_feedback),
            error: opt_views(self.error),
        }
    }
}

impl FromJson for GeminiResponse {
    open spec fn decoded(t: JsonTree) -> Option<GeminiResponseView> {
        if !(t is Object) {
            None
        } else {
            match (
                opt_list::<Candidate>(t, "candidates"@),
                opt_decoded::<PromptFeedback>(t, "promptFeedback"@),
                opt_decoded::<GeminiApiError>(t, "error"@),
            ) {
                (Some(candidates), Some(prompt_feedback), Some(error)) => Some(
                    GeminiResponseView { candidates, prompt_feedback, error },
                ),
                _ => None,
            }
        }
    }

    fn from_json(v: &Value) -> (r: Option<GeminiResponse>) {
        if !v.is_object() {
            return None;
        }
        match (
            read_opt_list::<Candidate>(v, "candidates"),
            read_opt::<PromptFeedback>(v, "promptFeedback"),
            read_opt::<GeminiApiError>(v, "error"),
        ) {
            (Ok(candidates), Ok(prompt_feedback), Ok(error)) => Some(
                GeminiResponse { candidates, prompt_feedback, error },
            ),
            _ => None,
        }
    }
}

/// One entry of the model listing.
#[derive(Debug, Clone, PartialEq, Eq)]
pub struct GeminiModelInfo {
    pub name: String,
    pub display_name: Option<String>,
    pub version: Option<String>,
    pub supported_generation_methods: Option<Vec<String>>,
}

pub struct GeminiModelInfoView {
    pub name: Seq<char>,
    pub display_name: Option<Seq<char>>,
    pub version: Option<Seq<char>>,
    pub supported_generation_methods: Option<Seq<Seq<char>>>,
}

impl View for GeminiModelInfo {
    type V = GeminiModelInfoView;

    open spec fn view(&self) -> GeminiModelInfoView {
        GeminiModelInfoView {
            name: self.name@,
            display_name: opt_view(self.display_name),
            version: opt_view(self.version),
            supported_generation_methods: opt_list_views(self.supported_generation_methods),
        }
    }
}

impl FromJson for GeminiModelInfo {
    open spec fn decoded(t: JsonTree) -> Option<GeminiModelInfoView> {
        match (
            req_text(t, "name"@),
            opt_text(t, "displayName"@),
            opt_text(t, "version"@),
            opt_list::<String>(t, "supportedGenerationMethods"@),
        ) {
            (Some(name), Some(display_name), Some(version), Some(supported_generation_methods)) => Some(
                GeminiModelInfoView { name, display_name, version, supported_generation_methods },
            ),
            _ => None,
        }
    }

    fn from_json(v: &Value) -> (r: Option<GeminiModelInfo>) {
        match (
            read_req_text(v, "name"),
            read_opt_text(v, "displayName"),
            read_opt_text(v, "version"),
            read_opt_list::<String>(v, "supportedGenerationMethods"),
        ) {
            (Some(name), Some(display_name), Some(version), Ok(supported_generation_methods)) => Some(
                GeminiModelInfo { name, display_name, version, supported_generation_methods },
            ),
            _ => None,
        }
    }
}

/// A model listing.
#[derive(Debug, Clone, PartialEq, Eq)]
pub struct GeminiListModelsResponse {
    pub models: Option<Vec<GeminiModelInfo>>,
    pub error: Option<GeminiApiError>,
}

pub struct GeminiListModelsView {
    pub models: Option<Seq<GeminiModelInfoView>>,
    pub error: Option<GeminiApiErrorView>,
}

impl View for GeminiListModelsResponse {
    type V = GeminiListModelsView;

    open spec fn view(&self) -> GeminiListModelsView {
        GeminiListModelsView { models: opt_list_views(self.models), error: opt_views(self.error) }
    }
}

impl FromJson for GeminiListModelsResponse {
    open spec fn decoded(t: JsonTree) -> Option<GeminiListModelsView> {
        if !(t is Object) {
            None
        } else {
            match (
                opt_list::<GeminiModelInfo>(t, "models"@),
                opt_decoded::<GeminiApiError>(t, "error"@),
            ) {
                (Some(models), Some(error)) => Some(GeminiListModelsView { models, error }),
                _ => None,
            }
        }
    }

    fn from_json(v: &Value) -> (r: Option<GeminiListModelsResponse>) {
        if !v.is_object() {
            return None;
        }
        match (
            read_opt_list::<GeminiModelInfo>(v, "models"),
            read_opt::<GeminiApiError>(v, "error"),
        ) {
            (Ok(models), Ok(error)) => Some(GeminiListModelsResponse { models, error }),
            _ => None,
        }
    }
}

/// The error the provider reported, carried verbatim: its numeric code in
/// decimal, its status and its message.
pub open spec fn gemini_api_failure(e: GeminiApiErrorView) -> GenerationErrorView {
    GenerationErrorView::Api {
        code: Some(decimal_digits(e.code as nat)),
        kind: Some(e.status),
        message: e.message,
    }
}

/// Whether a finish reason counts as a normal end: `STOP`, or the unknown
/// sentinel `UNKNOWN` that a missing reason stands for.
pub open spec fn normal_finish(f: Seq<char>) -> bool {
    f == "STOP"@ || f == "UNKNOWN"@
}

/// What a candidate's content yields: its first part's text, or which
/// level of the content is missing.
pub open spec fn content_text(c: Option<ContentView>) -> Result<Seq<char>, GenerationErrorView> {
    match c {
        None => Err(GenerationErrorView::Soft(SoftFailureView::MissingContent)),
        Some(ct) => match ct.parts {
            None => Err(GenerationErrorView::Soft(SoftFailureView::MissingParts)),
            Some(ps) => if ps.len() == 0 {
                Err(GenerationErrorView::Soft(SoftFailureView::EmptyParts))
            } else {
                Ok(ps[0])
            },
        },
    }
}

/// What a decoded reply means, checked in order: a reported error; a blocked
/// prompt; no candidate; a first candidate that finished abnormally (with
/// its safety ratings when the reason is `SAFETY`); a missing level of
/// content; else the first part's text.
pub open spec fn gemini_outcome(r: GeminiResponseView) -> Result<Seq<char>, GenerationErrorView> {
    match r.error {
        Some(e) => Err(gemini_api_failure(e)),
        None => if r.prompt_feedback is Some && r.prompt_feedback->Some_0.block_reason is Some {
            Err(
                GenerationErrorView::Soft(
                    SoftFailureView::Blocked {
                        reason: r.prompt_feedback->Some_0.block_reason->Some_0,
                        safety_ratings: r.prompt_feedback->Some_0.safety_ratings,
                    },
                ),
            )
        } else if r.candidates is None || r.candidates->Some_0.len() == 0 {
            Err(GenerationErrorView::Soft(SoftFailureView::NoCandidates))
        } else {
            let c = r.candidates->Some_0[0];
            if c.finish_reason is Some && !normal_finish(c.finish_reason->Some_0) {
                let f = c.finish_reason->Some_0;
                Err(
                    GenerationErrorView::Soft(
                        SoftFailureView::FinishedEarly {
                            reason: f,
                            safety_ratings: if f == "SAFETY"@ {
                                c.safety_ratings
                            } else {
                                None
                            },
                        },
                    ),
                )
            } else {
                content_text(c.content)
            }
        },
    }
}

/// What a generation reply whose body parsed to `t` means.
pub open spec fn generate_reply(status: u16, body: Seq<u8>, t: JsonTree) -> Result<
    Seq<char>,
    GenerationErrorView,
> {
    match GeminiResponse::decoded(t) {
        Some(r) => gemini_outcome(r),
        None => Err(parse_failure(status, body)),
    }
}

/// Whether a listed model supports generating content.
pub open spec fn supports_generation(m: GeminiModelInfoView) -> bool {
    m.supported_generation_methods is Some && m.supported_generation_methods->Some_0.contains(
        "generateContent"@,
    )
}

/// The ids of the models that support generating content, in order: their
/// names without the `models/` prefix; a name without it is left out.
pub open spec fn chat_model_ids(ms: Seq<GeminiModelInfoView>) -> Seq<Seq<char>>
    decreases ms.len(),
{
    if ms.len() == 0 {
        Seq::empty()
    } else {
        let rest = chat_model_ids(ms.drop_last());
        let m = ms.last();
        if supports_generation(m) && has_prefix(m.name, "models/"@) {
            rest.push(m.name.skip(7))
        } else {
            rest
        }
    }
}

/// What a model listing whose body parsed to `t` means.
pub open spec fn models_reply(status: u16, body: Seq<u8>, t: JsonTree) -> Result<
    Seq<Seq<char>>,
    GenerationErrorView,
> {
    match GeminiListModelsResponse::decoded(t) {
        Some(r) => match r.error {
            Some(e) => Err(gemini_api_failure(e)),
            None => Ok(
                match r.models {
                    Some(ms) => chat_model_ids(ms),
                    None => Seq::empty(),
                },
            ),
        },
        None => Err(parse_failure(status, body)),
    }
}

/// What a reachability probe (a model listing) whose body parsed to `t`
/// means: reachable exactly when the listing succeeds.
pub open spec fn probe_reply(status: u16, body: Seq<u8>, t: JsonTree) -> Result<(), GenerationErrorView> {
    match models_reply(status, body, t) {
        Ok(_) => Ok(()),
        Err(e) => Err(e),
    }
}

fn api_error(e: GeminiApiError) -> (r: GenerationError)
    ensures
        r@ == gemini_api_failure(e@),
{
    GenerationError::Api {
        code: Some(decimal_text(e.code as u64)),
        kind: Some(e.status),
        message: e.message,
    }
}

fn first_part_text(c: &Option<ContentResponse>) -> (r: Result<String, GenerationError>)
    ensures
        text_outcome(r) == content_text(opt_views(*c)),
{
    match c {
        None => Err(GenerationError::Soft(SoftFailure::MissingContent)),
        Some(ct) => match &ct.parts {
            None => Err(GenerationError::Soft(SoftFailure::MissingParts)),
            Some(ps) => if ps.len() == 0 {
                Err(GenerationError::Soft(SoftFailure::EmptyParts))
            } else {
                Ok(ps[0].text.clone())
            },
        },
    }
}

fn clone_ratings(o: &Option<Vec<SafetyRating>>) -> (r: Option<Vec<SafetyRating>>)
    ensures
        ratings_view(r) == ratings_view(*o),
{
    match o {
        None => None,
        Some(v) => {
            let mut out: Vec<SafetyRating> = Vec::new();
            let mut i: usize = 0;
            while i < v.len()
                invariant
                    i <= v@.len(),
                    views_of(out@) == views_of(v@).take(i as int),
                decreases v@.len() - i,
            {
                let ghost o0 = out@;
                let x = SafetyRating {
                    category: v[i].category.clone(),
                    probability: v[i].probability.clone(),
                };
                out.push(x);
                assert(views_of(out@) =~= views_of(o0).push(x@));
                assert(views_of(v@).take(i + 1) =~= views_of(v@).take(i as int).push(v@[i as int]@));
                i = i + 1;
            }
            assert(views_of(v@).take(i as int) =~= views_of(v@));
            Some(out)
        },
    }
}

/// Classifies a decoded generation reply.
pub fn gemini_result(resp: &GeminiResponse) -> (r: Result<String, GenerationError>)
    ensures
        text_outcome(r) == gemini_outcome(resp@),
{
    if let Some(e) = &resp.error {
        return Err(
            api_error(
                GeminiApiError { code: e.code, message: e.message.clone(), status: e.status.clone() },
            ),
        );
    }
    if let Some(feedback) = &resp.prompt_feedback {
        if let Some(reason) = &feedback.block_reason {
            return Err(
                GenerationError::Soft(
                    SoftFailure::Blocked {
                        reason: reason.clone(),
                        safety_ratings: clone_ratings(&feedback.safety_ratings),
                    },
                ),
            );
        }
    }
    let candidates = match &resp.candidates {
        Some(cs) => cs,
        None => {
            return Err(GenerationError::Soft(SoftFailure::NoCandidates));
        },
    };
    if candidates.len() == 0 {
        return Err(GenerationError::Soft(SoftFailure::NoCandidates));
    }
    let c = &candidates[0];
    assert(c@ == resp@.candidates->Some_0[0]);
    if let Some(f) = &c.finish_reason {
        if !str_eq(f.as_str(), "STOP") && !str_eq(f.as_str(), "UNKNOWN") {
            let safety_ratings = if str_eq(f.as_str(), "SAFETY") {
                clone_ratings(&c.safety_ratings)
            } else {
                None
            };
            return Err(
                GenerationError::Soft(SoftFailure::FinishedEarly { reason: f.clone(), safety_ratings }),
            );
        }
    }
    first_part_text(&c.content)
}

/// Reads a generation reply whose body has been parsed to `v`.
pub fn read_generate(status: u16, body: &[u8], v: &Value) -> (r: Result<String, GenerationError>)
    ensures
        text_outcome(r) == generate_reply(status, body@, json_tree(*v)),
{
    match GeminiResponse::from_json(v) {
        Some(resp) => gemini_result(&resp),
        None => Err(parse_error(status, body)),
    }
}

fn supports(m: &GeminiModelInfo) -> (r: bool)
    ensures
        r == supports_generation(m@),
{
    match &m.supported_generation_methods {
        None => false,
        Some(ms) => {
            let ghost target = "generateContent"@;
            let mut i: usize = 0;
            while i < ms.len()
                invariant
                    i <= ms@.len(),
                    m.supported_generation_methods == Some(*ms),
                    target == "generateContent"@,
                    forall|j: int| 0 <= j < i ==> (#[trigger] views_of(ms@)[j]) != target,
                decreases ms@.len() - i,
            {
                if str_eq(ms[i].as_str(), "generateContent") {
                    assert(views_of(ms@)[i as int] == ms@[i as int]@);
                    assert(m@.supported_generation_methods == Some(views_of(ms@)));
                    assert(views_of(ms@)[i as int] == target);
                    assert(views_of(ms@).contains(target));
                    return true;
                }
                i = i + 1;
            }
            assert(!views_of(ms@).contains(target));
            false
        },
    }
}

/// The ids of the listed models that support generating content.
pub fn chat_models(models: &Vec<GeminiModelInfo>) -> (r: Vec<String>)
    ensures
        r@.map_values(|s: String| s@) == chat_model_ids(views_of(models@)),
{
    let mut ids: Vec<String> = Vec::new();
    let mut i: usize = 0;
    while i < models.len()
        invariant
            i <= models@.len(),
            ids@.map_values(|s: String| s@) == chat_model_ids(views_of(models@).take(i as int)),
        decreases models@.len() - i,
    {
        let m = &models[i];
        let ghost pre = views_of(models@).take(i as int);
        assert(views_of(models@).take(i + 1).drop_last() =~= pre);
        assert(views_of(models@).take(i + 1).last() == m@);
        if supports(m) {
            match strip_prefix(m.name.as_str(), "models/") {
                Some(rest) => {
                    let ghost i0 = ids@;
                    ids.push(String::from_str(rest));
                    proof {
                        reveal_strlit("models/");
                    }
                    assert(ids@.map_values(|s: String| s@) =~= i0.map_values(|s: String| s@).push(
                        rest@,
                    ));
                },
                None => {},
            }
        }
        i = i + 1;
    }
    assert(views_of(models@).take(i as int) =~= views_of(models@));
    ids
}

/// Reads a model listing whose body has been parsed to `v`.
pub fn read_model_list(status: u16, body: &[u8], v: &Value) -> (r: Result<Vec<String>, GenerationError>)
    ensures
        names_outcome(r) == models_reply(status, body@, json_tree(*v)),
{
    match GeminiListModelsResponse::from_json(v) {
        Some(resp) => {
            if let Some(e) = resp.error {
                return Err(api_error(e));
            }
            match &resp.models {
                Some(ms) => Ok(chat_models(ms)),
                None => {
                    let ids: Vec<String> = Vec::new();
                    assert(ids@.map_values(|s: String| s@) =~= Seq::<Seq<char>>::empty());
                    Ok(ids)
                },
            }
        },
        None => Err(parse_error(status, body)),
    }
}

/// The number a decimal parameter is sent as: the JSON that its written
/// form parses to.
pub open spec fn number_tree(d: Decimal) -> Option<JsonTree> {
    json_text_tree(encode_utf8(decimal_text_of(d)))
}

pub open spec fn with_number(
    m: Map<Seq<char>, JsonTree>,
    k: Seq<char>,
    d: Option<Decimal>,
) -> Map<Seq<char>, JsonTree> {
    match d {
        Some(x) => match number_tree(x) {
            Some(t) => m.insert(k, t),
            None => m,
        },
        None => m,
    }
}

/// The members of `generationConfig`: each parameter that is set.
pub open spec fn generation_config(c: Config) -> Map<Seq<char>, JsonTree> {
    let m = with_number(with_number(Map::empty(), "topP"@, c.gemini_top_p), "temperature"@, c.gemini_temperature);
    match c.gemini_max_tokens {
        Some(n) => m.insert("maxOutputTokens"@, JsonTree::Number(JsonNumber::PosInt(n as u64))),
        None => m,
    }
}

/// Whether any generation parameter is set.
pub open spec fn has_params(c: Config) -> bool {
    c.gemini_temperature is Some || c.gemini_top_p is Some || c.gemini_max_tokens is Some
}

pub open spec fn contents_tree(prompt: Seq<char>) -> JsonTree {
    JsonTree::Array(
        seq![JsonTree::Object(
            map![
                "parts"@ => JsonTree::Array(
                    seq![JsonTree::Object(map!["text"@ => JsonTree::Str(prompt)])],
                ),
            ],
        )],
    )
}

/// The body of a generation request: the prompt as the one part of the one
/// content, and the parameters that are set.
pub open spec fn request_tree(c: Config, prompt: Seq<char>) -> JsonTree {
    if has_params(c) {
        JsonTree::Object(
            map![
                "contents"@ => contents_tree(prompt),
                "generationConfig"@ => JsonTree::Object(generation_config(c)),
            ],
        )
    } else {
        JsonTree::Object(map!["contents"@ => contents_tree(prompt)])
    }
}

pub open spec fn api_base() -> Seq<char> {
    "https://generativelanguage.googleapis.com/v1beta/models"@
}

pub open spec fn generate_url(model: Seq<char>, key: Seq<char>) -> Seq<char> {
    api_base() + "/"@ + model + ":generateContent?key="@ + key
}

pub open spec fn models_url(key: Seq<char>) -> Seq<char> {
    api_base() + "?key="@ + key
}

/// `q` lists the models with `key`, under `timeout`.
pub open spec fn listing_request(q: HttpRequest, key: Seq<char>, timeout: Option<u64>) -> bool {
    &&& q.method == HttpMethod::Get
    &&& q.url@ == models_url(key)
    &&& q.bearer is None
    &&& q.body is None
    &&& q.timeout_secs == timeout
}

/// The generation request for `prompt`, or the missing key's error.
pub open spec fn generate_planned(c: Config, prompt: Seq<char>, r: Result<HttpRequest, GenerationError>) -> bool {
    match c.gemini_api_key {
        Some(k) => r matches Ok(q) && q.method == HttpMethod::Post && q.url@ == generate_url(
            c.default_gemini_model@,
            k@,
        ) && q.bearer is None && q.body is Some && json_tree(q.body->Some_0) == request_tree(c, prompt)
            && q.timeout_secs is None,
        None => r matches Err(e) && e@ == gemini_key_missing(),
    }
}

pub open spec fn gemini_key_missing() -> GenerationErrorView {
    missing_key("GEMINI_API_KEY"@)
}

fn key_missing() -> (r: GenerationError)
    ensures
        r@ == gemini_key_missing(),
{
    missing_key_error("GEMINI_API_KEY")
}

fn number_value(d: Decimal) -> (r: Option<Value>)
    ensures
        match number_tree(d) {
            Some(t) => r matches Some(v) && json_tree(v) == t,
            None => r is None,
        },
{
    let t = d.to_text();
    parse_json(t.as_str().as_bytes())
}

fn config_value(config: &Config) -> (r: Value)
    ensures
        json_tree(r) == JsonTree::Object(generation_config(*config)),
{
    let mut e: Vec<(String, Value)> = Vec::new();
    proof {
        reveal_strlit("topP");
        reveal_strlit("temperature");
        reveal_strlit("maxOutputTokens");
    }
    if let Some(d) = config.gemini_top_p {
        if let Some(v) = number_value(d) {
            push_longer(&mut e, "topP", v);
        }
    }
    assert(members_map(e@) == with_number(Map::empty(), "topP"@, config.gemini_top_p));
    assert(forall|i: int| 0 <= i < e@.len() ==> (#[trigger] e@[i]).0@.len() <= 4);
    let ghost m1 = members_map(e@);
    if let Some(d) = config.gemini_temperature {
        if let Some(v) = number_value(d) {
            push_longer(&mut e, "temperature", v);
        }
    }
    assert(members_map(e@) == with_number(m1, "temperature"@, config.gemini_temperature));
    assert(forall|i: int| 0 <= i < e@.len() ==> (#[trigger] e@[i]).0@.len() <= 11);
    if let Some(n) = config.gemini_max_tokens {
        push_longer(&mut e, "maxOutputTokens", uint_value(n as u64));
    }
    object_growing(e)
}

/// The request that sends `prompt` to the configured model with the
/// parameters that are set; refused before any network work while the key
/// is not set.
pub fn generate_request(config: &Config, prompt: &str) -> (r: Result<HttpRequest, GenerationError>)
    ensures
        generate_planned(*config, prompt@, r),
{
    let key = match &config.gemini_api_key {
        Some(k) => k,
        None => {
            return Err(key_missing());
        },
    };
    let mut url = String::from_str("https://generativelanguage.googleapis.com/v1beta/models");
    url.append("/");
    url.append(config.default_gemini_model.as_str());
    url.append(":generateContent?key=");
    url.append(key.as_str());
    proof {
        reveal_strlit("text");
        reveal_strlit("parts");
        reveal_strlit("contents");
        reveal_strlit("generationConfig");
    }
    assert("contents"@.len() != "generationConfig"@.len());
    let part = object1("text", string_value(String::from_str(prompt)));
    let ghost pt = json_tree(part);
    let parts = vec![part];
    assert(trees(parts@) =~= seq![pt]);
    let content = object1("parts", array_value(parts));
    let ghost ct = json_tree(content);
    let cs = vec![content];
    assert(trees(cs@) =~= seq![ct]);
    let contents = array_value(cs);
    assert(json_tree(contents) == contents_tree(prompt@));
    let body = if config.gemini_temperature.is_some() || config.gemini_top_p.is_some()
        || config.gemini_max_tokens.is_some() {
        object2("contents", contents, "generationConfig", config_value(config))
    } else {
        object1("contents", contents)
    };
    Ok(HttpRequest { method: HttpMethod::Post, url, bearer: None, body: Some(body), timeout_secs: None })
}

/// Reads the reply to a generation request.
pub fn generate(status: u16, body: &[u8]) -> (r: Result<String, GenerationError>)
    ensures
        text_outcome(r) == through_json(status, body@, |t: JsonTree| generate_reply(status, body@, t)),
{
    match read_json(status, body) {
        Ok(v) => read_generate(status, body, &v),
        Err(e) => Err(e),
    }
}

fn listing(config: &Config, timeout_secs: Option<u64>) -> (r: Result<HttpRequest, GenerationError>)
    ensures
        match config.gemini_api_key {
            Some(k) => r matches Ok(q) && listing_request(q, k@, timeout_secs),
            None => r matches Err(e) && e@ == gemini_key_missing(),
        },
{
    match &config.gemini_api_key {
        Some(k) => {
            let mut url = String::from_str("https://generativelanguage.googleapis.com/v1beta/models");
            url.append("?key=");
            url.append(k.as_str());
            Ok(HttpRequest { method: HttpMethod::Get, url, bearer: None, body: None, timeout_secs })
        },
        None => Err(key_missing()),
    }
}

/// The request for the model listing.
pub fn list_models_request(config: &Config) -> (r: Result<HttpRequest, GenerationError>)
    ensures
        match config.gemini_api_key {
            Some(k) => r matches Ok(q) && listing_request(q, k@, None),
            None => r matches Err(e) && e@ == gemini_key_missing(),
        },
{
    listing(config, None)
}

/// Reads the reply to a model listing.
pub fn list_models(status: u16, body: &[u8]) -> (r: Result<Vec<String>, GenerationError>)
    ensures
        names_outcome(r) == through_json(status, body@, |t: JsonTree| models_reply(status, body@, t)),
{
    match read_json(status, body) {
        Ok(v) => read_model_list(status, body, &v),
        Err(e) => Err(e),
    }
}

/// The reachability probe: the model listing under a bounded timeout.
pub fn check_connection_request(config: &Config) -> (r: Result<HttpRequest, GenerationError>)
    ensures
        match config.gemini_api_key {
            Some(k) => r matches Ok(q) && listing_request(q, k@, Some(PROBE_TIMEOUT_SECS)),
            None => r matches Err(e) && e@ == gemini_key_missing(),
        },
{
    listing(config, Some(PROBE_TIMEOUT_SECS))
}

/// Reads the reply to a reachability probe: reachable when the listing
/// succeeds.
pub fn check_connection(status: u16, body: &[u8]) -> (r: Result<(), GenerationError>)
    ensures
        unit_outcome(r) == through_json(status, body@, |t: JsonTree| probe_reply(status, body@, t)),
{
    match list_models(status, body) {
        Ok(_) => Ok(()),
        Err(e) => Err(e),
    }
}

} // verus!
