//! How a provider call can fail: missing credentials, transport failures,
//! replies that do not fit the schema, provider-reported errors, and soft
//! failures where a well-formed reply holds no usable text.

use vstd::prelude::*;
use crate::json::{json_text_tree, json_tree, opt_list_views, parse_json};
use serde_json::Value;

verus! {

/// How many bytes of a reply's body an error keeps for diagnosis.
pub const BODY_PREVIEW: usize = 512;

/// One safety rating of a content filter.
#[derive(Debug, Clone, PartialEq, Eq)]
pub struct SafetyRating {
    pub category: String,
    pub probability: String,
}

pub struct SafetyRatingView {
    pub category: Seq<char>,
    pub probability: Seq<char>,
}

impl View for SafetyRating {
    type V = SafetyRatingView;

    open spec fn view(&self) -> SafetyRatingView {
        SafetyRatingView { category: self.category@, probability: self.probability@ }
    }
}

pub open spec fn ratings_view(o: Option<Vec<SafetyRating>>) -> Option<Seq<SafetyRatingView>> {
    opt_list_views(o)
}

/// A well-formed reply that nonetheless holds no usable text.
#[derive(Debug, Clone, PartialEq, Eq)]
pub enum SoftFailure {
    /// The prompt was blocked, for the given reason.
    Blocked { reason: String, safety_ratings: Option<Vec<SafetyRating>> },
    /// The reply holds no candidate or choice.
    NoCandidates,
    /// Generation stopped for a reason other than the normal stop.
    FinishedEarly { reason: String, safety_ratings: Option<Vec<SafetyRating>> },
    /// The first candidate has no content.
    MissingContent,
    /// The content has no list of parts.
    MissingParts,
    /// The list of parts is empty.
    EmptyParts,
    /// There is no text where the reply should hold it.
    MissingText,
}

pub enum SoftFailureView {
    Blocked { reason: Seq<char>, safety_ratings: Option<Seq<SafetyRatingView>> },
    NoCandidates,
    FinishedEarly { reason: Seq<char>, safety_ratings: Option<Seq<SafetyRatingView>> },
    MissingContent,
    MissingParts,
    EmptyParts,
    MissingText,
}

impl View for SoftFailure {
    type V = SoftFailureView;

    open spec fn view(&self) -> SoftFailureView {
        match self {
            SoftFailure::Blocked { reason, safety_ratings } => SoftFailureView::Blocked {
                reason: reason@,
                safety_ratings: ratings_view(*safety_ratings),
            },
            SoftFailure::NoCandidates => SoftFailureView::NoCandidates,
            SoftFailure::FinishedEarly { reason, safety_ratings } => SoftFailureView::FinishedEarly {
                reason: reason@,
                safety_ratings: ratings_view(*safety_ratings),
            },
            SoftFailure::MissingContent => SoftFailureView::MissingContent,
            SoftFailure::MissingParts => SoftFailureView::MissingParts,
            SoftFailure::EmptyParts => SoftFailureView::EmptyParts,
            SoftFailure::MissingText => SoftFailureView::MissingText,
        }
    }
}

/// The failure of one provider operation.
#[derive(Debug, Clone, PartialEq, Eq)]
pub enum GenerationError {
    /// A credential that the provider needs is not set; names its variable.
    MissingKey { variable: String },
    /// The request could not be sent or its reply could not be read.
    Transport { detail: String },
    /// The reply's body does not fit the provider's schema.
    Parse { status: u16, body_prefix: Vec<u8> },
    /// The endpoint answered with a status other than success.
    HttpStatus { status: u16, body_prefix: Vec<u8> },
    /// The provider reported an error in the reply's body, verbatim.
    Api { code: Option<String>, kind: Option<String>, message: String },
    /// The reply is well-formed but holds no usable text.
    Soft(SoftFailure),
}

pub enum GenerationErrorView {
    MissingKey { variable: Seq<char> },
    Transport { detail: Seq<char> },
    Parse { status: u16, body_prefix: Seq<u8> },
    HttpStatus { status: u16, body_prefix: Seq<u8> },
    Api { code: Option<Seq<char>>, kind: Option<Seq<char>>, message: Seq<char> },
    Soft(SoftFailureView),
}

pub open spec fn opt_view(o: Option<String>) -> Option<Seq<char>> {
    match o {
        Some(s) => Some(s@),
        None => None,
    }
}

impl View for GenerationError {
    type V = GenerationErrorView;

    open spec fn view(&self) -> GenerationErrorView {
        match self {
            GenerationError::MissingKey { variable } => GenerationErrorView::MissingKey {
                variable: variable@,
            },
            GenerationError::Transport { detail } => GenerationErrorView::Transport {
                detail: detail@,
            },
            GenerationError::Parse { status, body_prefix } => GenerationErrorView::Parse {
                status: *status,
                body_prefix: body_prefix@,
            },
            GenerationError::HttpStatus { status, body_prefix } => GenerationErrorView::HttpStatus {
                status: *status,
                body_prefix: body_prefix@,
            },
            GenerationError::Api { code, kind, message } => GenerationErrorView::Api {
                code: opt_view(*code),
                kind: opt_view(*kind),
                message: message@,
            },
            GenerationError::Soft(s) => GenerationErrorView::Soft(s@),
        }
    }
}

/// The outcome of an operation whose success carries text.
pub open spec fn text_outcome(r: Result<String, GenerationError>) -> Result<
    Seq<char>,
    GenerationErrorView,
> {
    match r {
        Ok(s) => Ok(s@),
        Err(e) => Err(e@),
    }
}

/// The outcome of an operation whose success carries a list of names.
pub open spec fn names_outcome(r: Result<Vec<String>, GenerationError>) -> Result<
    Seq<Seq<char>>,
    GenerationErrorView,
> {
    match r {
        Ok(v) => Ok(v@.map_values(|s: String| s@)),
        Err(e) => Err(e@),
    }
}

/// The outcome of an operation whose success carries nothing.
pub open spec fn unit_outcome(r: Result<(), GenerationError>) -> Result<(), GenerationErrorView> {
    match r {
        Ok(_) => Ok(()),
        Err(e) => Err(e@),
    }
}

/// The first bytes of a body, at most `BODY_PREVIEW` of them.
pub open spec fn preview(b: Seq<u8>) -> Seq<u8> {
    if b.len() <= BODY_PREVIEW {
        b
    } else {
        b.take(BODY_PREVIEW as int)
    }
}

pub open spec fn parse_failure(status: u16, b: Seq<u8>) -> GenerationErrorView {
    GenerationErrorView::Parse { status, body_prefix: preview(b) }
}

pub open spec fn missing_key(variable: Seq<char>) -> GenerationErrorView {
    GenerationErrorView::MissingKey { variable }
}

/// Whether an HTTP status reports success.
pub open spec fn is_success(status: u16) -> bool {
    200 <= status <= 299
}

pub fn body_preview(b: &[u8]) -> (r: Vec<u8>)
    ensures
        r@ == preview(b@),
{
    let n = if b.len() <= BODY_PREVIEW {
        b.len()
    } else {
        BODY_PREVIEW
    };
    let mut r: Vec<u8> = Vec::new();
    let mut i: usize = 0;
    while i < n
        invariant
            i <= n <= b@.len(),
            n == (if b@.len() <= BODY_PREVIEW {
                b@.len()
            } else {
                BODY_PREVIEW as nat
            }),
            r@ == b@.take(i as int),
        decreases n - i,
    {
        r.push(b[i]);
        assert(r@ =~= b@.take(i + 1));
        i = i + 1;
    }
    assert(r@ =~= preview(b@));
    r
}

/// The parse error for a reply: its status and the start of its body.
pub fn parse_error(status: u16, b: &[u8]) -> (r: GenerationError)
    ensures
        r@ == parse_failure(status, b@),
{
    GenerationError::Parse { status, body_prefix: body_preview(b) }
}

pub fn missing_key_error(variable: &str) -> (r: GenerationError)
    ensures
        r@ == missing_key(variable@),
{
    GenerationError::MissingKey { variable: String::from_str(variable) }
}

/// Parses a reply's body as JSON; a body that is no JSON text is a parse
/// error carrying the status and the start of the body.
pub fn read_json(status: u16, body: &[u8]) -> (r: Result<Value, GenerationError>)
    ensures
        match json_text_tree(body@) {
            Some(t) => r matches Ok(v) && json_tree(v) == t,
            None => r matches Err(e) && e@ == parse_failure(status, body@),
        },
{
    match parse_json(body) {
        Some(v) => Ok(v),
        None => Err(parse_error(status, body)),
    }
}

} // verus!
