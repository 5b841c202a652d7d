//! The inference client's decision logic: building the provider request
//! from the startup configuration, and classifying the provider's reply
//! into a success or a failure outcome. The HTTP transport itself lives
//! outside the library and hands in a plain `ProviderReply`.

use vstd::prelude::*;
use vstd::string::*;
use crate::detection::{Detection, DetectionView};
use crate::json::{parse_response, spec_parse_response};

verus! {

/// Why an inference call failed.
#[derive(Clone, Copy, PartialEq, Eq, Structural, Debug)]
pub enum FailureReason {
    /// The provider could not be reached, or did not answer in time.
    Transport,
    /// The provider answered with a non-success status.
    Provider,
    /// The provider's body did not hold the expected schema.
    Decode,
}

/// The outcome of one inference call: the detections the provider reported,
/// or the reason nothing could be had from it.
pub enum InferenceOutcome {
    Success(Vec<Detection>),
    Failure(FailureReason),
}

/// The mathematical model of an inference outcome.
pub ghost enum OutcomeView {
    Success(Seq<DetectionView>),
    Failure(FailureReason),
}

impl View for InferenceOutcome {
    type V = OutcomeView;

    open spec fn view(&self) -> OutcomeView {
        match self {
            InferenceOutcome::Success(ds) => OutcomeView::Success(ds.deep_view()),
            InferenceOutcome::Failure(r) => OutcomeView::Failure(*r),
        }
    }
}

/// What came back from the transport layer: an HTTP reply with its status
/// code and body text, or no reply at all (unreachable, timed out).
pub enum ProviderReply {
    Answered(u16, String),
    Unreachable,
}

/// The mathematical model of a provider reply.
pub ghost enum ReplyView {
    Answered(u16, Seq<char>),
    Unreachable,
}

impl View for ProviderReply {
    type V = ReplyView;

    open spec fn view(&self) -> ReplyView {
        match self {
            ProviderReply::Answered(st, body) => ReplyView::Answered(*st, body@),
            ProviderReply::Unreachable => ReplyView::Unreachable,
        }
    }
}

/// An HTTP status code that counts as success.
pub open spec fn is_success_status(st: u16) -> bool {
    200 <= st < 300
}

/// What `detect_outcome` returns for each reply: no reply is a transport
/// failure; a non-success status is a provider failure; a success status
/// whose body does not hold the expected schema is a decode failure; and a
/// success status with a well-formed body yields the parsed detection
/// list, in the provider's order.
pub open spec fn spec_outcome(r: ReplyView) -> OutcomeView {
    match r {
        ReplyView::Unreachable => OutcomeView::Failure(FailureReason::Transport),
        ReplyView::Answered(st, body) => if !is_success_status(st) {
            OutcomeView::Failure(FailureReason::Provider)
        } else {
            match spec_parse_response(body) {
                Some(ds) => OutcomeView::Success(ds),
                None => OutcomeView::Failure(FailureReason::Decode),
            }
        },
    }
}

/// Classifies one provider reply. Total: every reply, well-formed or not,
/// maps to a success or a failure outcome; nothing panics and no failure
/// escapes this boundary.
pub fn detect_outcome(reply: &ProviderReply) -> (o: InferenceOutcome)
    ensures
        o@ == spec_outcome(reply@),
{
    match reply {
        ProviderReply::Unreachable => InferenceOutcome::Failure(FailureReason::Transport),
        ProviderReply::Answered(st, body) => {
            if !(200 <= *st && *st < 300) {
                InferenceOutcome::Failure(FailureReason::Provider)
            } else {
                match parse_response(body.as_str()) {
                    Some(ds) => InferenceOutcome::Success(ds),
                    None => InferenceOutcome::Failure(FailureReason::Decode),
                }
            }
        },
    }
}

/// The read-only configuration of the inference client, resolved once at
/// startup and shared by all sessions: the provider credentials and the
/// model coordinates.
pub struct ProviderConfig {
    pub api_key: String,
    pub model_id: String,
    pub model_version: String,
}

/// The mathematical model of the configuration.
pub ghost struct ProviderConfigView {
    pub api_key: Seq<char>,
    pub model_id: Seq<char>,
    pub model_version: Seq<char>,
}

impl View for ProviderConfig {
    type V = ProviderConfigView;

    open spec fn view(&self) -> ProviderConfigView {
        ProviderConfigView {
            api_key: self.api_key@,
            model_id: self.model_id@,
            model_version: self.model_version@,
        }
    }
}

/// The provider request URL for a configuration.
pub open spec fn spec_request_url(c: ProviderConfigView) -> Seq<char> {
    "https://detect.roboflow.com/"@ + c.model_id + "/"@ + c.model_version + "?api_key="@
        + c.api_key
}

/// Builds the provider request URL: the model identifier and version in the
/// path, the API key as a query parameter.
pub fn request_url(c: &ProviderConfig) -> (r: String)
    ensures
        r@ == spec_request_url(c@),
{
    let mut url = String::from_str("https://detect.roboflow.com/");
    url.append(c.model_id.as_str());
    url.append("/");
    url.append(c.model_version.as_str());
    url.append("?api_key=");
    url.append(c.api_key.as_str());
    url
}

/// The form-encoded request body: the raw base64 string embedded verbatim
/// in the provider's `image` form field, with no further encoding.
pub open spec fn spec_request_body(b64: Seq<char>) -> Seq<char> {
    "image="@ + b64
}

/// Builds the provider request body.
pub fn request_body(base64_image: &str) -> (r: String)
    ensures
        r@ == spec_request_body(base64_image@),
{
    let mut body = String::from_str("image=");
    body.append(base64_image);
    body
}

} // verus!
