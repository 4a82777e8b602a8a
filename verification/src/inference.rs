//! The client side of the inference API: what is asked of the endpoint, and what its answers
//! mean. The transport itself is the caller's; this module sees only plain values.

use crate::failure::Failure;
use crate::text::{strip_trailing, without_trailing};
use vstd::prelude::*;
use vstd::string::StringExecFns;

verus! {

/// The lowest status code that reports success.
pub const SUCCESS_FLOOR: u16 = 200;

/// The first status code above those that report success.
pub const SUCCESS_CEILING: u16 = 300;

/// The body of a "generate" request.
#[derive(Debug)]
pub struct InferenceRequest {
    /// The identifier of the model.
    pub model: String,
    /// What the model is asked.
    pub prompt: String,
    /// The images the model is shown, each in base64.
    pub images: Vec<String>,
    /// Whether the answer is wanted piece by piece.
    pub stream: bool,
}

/// A "generate" request as plain values.
pub struct InferenceRequestView {
    pub model: Seq<char>,
    pub prompt: Seq<char>,
    pub images: Seq<Seq<char>>,
    pub stream: bool,
}

impl View for InferenceRequest {
    type V = InferenceRequestView;

    open spec fn view(&self) -> InferenceRequestView {
        InferenceRequestView {
            model: self.model@,
            prompt: self.prompt@,
            images: Seq::new(self.images@.len(), |i: int| self.images@[i]@),
            stream: self.stream,
        }
    }
}

/// The body of the answer to a "generate" request.
#[derive(Debug)]
pub struct InferenceResponse {
    /// The text that the model produced.
    pub response: String,
}

/// What came of one HTTP exchange, as the transport saw it. `T` is what the body holds once it
/// is read.
#[derive(Debug)]
pub enum Reply<T> {
    /// The request failed on the way: no connection, a timeout, a name that did not resolve.
    Unreachable { message: String },
    /// The endpoint answered. `body` is the body read as the expected JSON, or why it could not
    /// be read so; it counts only where `status` reports success.
    Responded { status: u16, body: Result<T, String> },
}

/// Whether a status code reports success: 200 up to 299.
pub open spec fn is_success(status: u16) -> bool {
    SUCCESS_FLOOR <= status < SUCCESS_CEILING
}

/// The instruction that every naming prompt ends in: only the file name is wanted, without
/// extension and without comment.
pub open spec fn naming_instruction() -> Seq<char> {
    "。请只返回文件名，不要包含扩展名和其他说明。"@
}

/// The address of the operation at `route` on the endpoint at `api_url`: the slashes that
/// `api_url` ends in do not count.
pub open spec fn endpoint(api_url: Seq<char>, route: Seq<char>) -> Seq<char> {
    without_trailing(api_url, '/') + route
}

/// The address of the "generate" operation.
pub open spec fn generate_endpoint(api_url: Seq<char>) -> Seq<char> {
    endpoint(api_url, "/api/generate"@)
}

/// The address of the model list.
pub open spec fn tags_endpoint(api_url: Seq<char>) -> Seq<char> {
    endpoint(api_url, "/api/tags"@)
}

/// The request that asks `model` to name the one image `image`, given in base64.
pub open spec fn naming_request(model: Seq<char>, prompt: Seq<char>, image: Seq<char>)
    -> InferenceRequestView {
    InferenceRequestView {
        model,
        prompt: prompt + naming_instruction(),
        images: seq![image],
        stream: false,
    }
}

/// What a reply means: a failure on the way is a network error, a status that is no success an
/// API error, an unreadable body a parse error; else the reply yields what its body holds.
pub open spec fn meaning<T>(reply: Reply<T>) -> Result<T, Failure> {
    match reply {
        Reply::Unreachable { message } => Err(Failure::NetworkError { message }),
        Reply::Responded { status, body } => if !is_success(status) {
            Err(Failure::ApiError { status })
        } else {
            match body {
                Ok(content) => Ok(content),
                Err(message) => Err(Failure::ParseError { message }),
            }
        },
    }
}

/// What is said where the endpoint answered the probe with success.
pub open spec fn connected_message() -> Seq<char> {
    "连接成功！Ollama服务正常运行"@
}

/// Tells whether `status` reports success.
pub fn status_is_success(status: u16) -> (yes: bool)
    ensures
        yes == is_success(status),
{
    SUCCESS_FLOOR <= status && status < SUCCESS_CEILING
}

/// The address of the "generate" operation of the endpoint at `api_url`.
pub fn generate_url(api_url: &str) -> (url: String)
    ensures
        url@ == generate_endpoint(api_url@),
{
    strip_trailing(api_url, '/').concat("/api/generate")
}

/// The address of the model list of the endpoint at `api_url`.
pub fn tags_url(api_url: &str) -> (url: String)
    ensures
        url@ == tags_endpoint(api_url@),
{
    strip_trailing(api_url, '/').concat("/api/tags")
}

/// The request that asks `model` to name the image `image`, given in base64: the prompt ends in
/// the naming instruction, the image is the only one, and the answer is wanted whole.
pub fn build_request(model: &str, prompt: &str, image: String) -> (request: InferenceRequest)
    ensures
        request@ == naming_request(model@, prompt@, image@),
{
    let mut images: Vec<String> = Vec::new();
    images.push(image);
    let request = InferenceRequest {
        model: String::from_str(model),
        prompt: String::from_str(prompt).concat("。请只返回文件名，不要包含扩展名和其他说明。"),
        images,
        stream: false,
    };
    assert(request@.images =~= seq![image@]);
    request
}

/// Reads a reply: see [`meaning`].
pub fn interpret<T>(reply: Reply<T>) -> (result: Result<T, Failure>)
    ensures
        result == meaning(reply),
{
    match reply {
        Reply::Unreachable { message } => Err(Failure::NetworkError { message }),
        Reply::Responded { status, body } => {
            if !status_is_success(status) {
                Err(Failure::ApiError { status })
            } else {
                match body {
                    Ok(content) => Ok(content),
                    Err(message) => Err(Failure::ParseError { message }),
                }
            }
        },
    }
}

/// What the reply to a probe means. A probe looks at the status alone and never at the body:
/// an answer with a status of success is success, whatever its body holds and whether or not
/// it could be read; an answer with another status is an API error; no answer is a network
/// error.
pub open spec fn probe_meaning<T>(reply: Reply<T>) -> Result<(), Failure> {
    match reply {
        Reply::Unreachable { message } => Err(Failure::NetworkError { message }),
        Reply::Responded { status, body } => if is_success(status) {
            Ok(())
        } else {
            Err(Failure::ApiError { status })
        },
    }
}

/// Reads the reply to a probe of the endpoint. A probe asks for the model list and looks at the
/// status alone, not at the body: where the status reports success the endpoint is there, and
/// the message says so; another status is an API error; an endpoint that cannot be reached
/// gives a network error.
pub fn probe_report<T>(reply: Reply<T>) -> (report: Result<String, Failure>)
    ensures
        match reply {
            Reply::Unreachable { message } => report == Err::<String, Failure>(
                Failure::NetworkError { message },
            ),
            Reply::Responded { status, .. } => if is_success(status) {
                report matches Ok(text) && text@ == connected_message()
            } else {
                report == Err::<String, Failure>(Failure::ApiError { status })
            },
        },
        report is Ok <==> probe_meaning(reply) is Ok,
{
    match reply {
        Reply::Unreachable { message } => Err(Failure::NetworkError { message }),
        Reply::Responded { status, body } => {
            if status_is_success(status) {
                Ok(String::from_str("连接成功！Ollama服务正常运行"))
            } else {
                Err(Failure::ApiError { status })
            }
        },
    }
}

} // verus!
