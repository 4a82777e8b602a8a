//! Naming one image, step by step. The session decides what is to be done next; the caller does
//! it (looks for the file, reads it, sends the request) and reports back what came of it.

use crate::failure::Failure;
use crate::inference::{
    build_request, generate_endpoint, generate_url, interpret, meaning, naming_request,
    InferenceRequest, InferenceResponse, Reply,
};
use crate::paths::{is_placeholder, is_placeholder_path};
use crate::compress::CompressError;
use crate::payload::{can_encode, is_prepared_from, prepare_image};
use crate::sanitize::{clean_filename, is_safe, sanitized, MAX_NAME_CHARS};
use vstd::prelude::*;

verus! {

/// Which model is asked, and where.
#[derive(Debug)]
pub struct ProcessingConfig {
    /// The identifier of the model.
    pub model: String,
    /// The context length of the model in tokens, where it is known.
    pub context_length: Option<usize>,
    /// The address of the inference endpoint.
    pub api_url: String,
}

/// What is needed to name one image.
#[derive(Debug)]
pub struct NamingJob {
    /// Where the image lies.
    pub image_path: String,
    /// What the model is asked about the image.
    pub prompt: String,
    /// Which model is asked, and where.
    pub config: ProcessingConfig,
}

/// The name found for an image and the time it took. The name is always sanitized: at most
/// [`MAX_NAME_CHARS`] characters, each of them safe in a file name.
#[derive(Debug)]
pub struct ProcessingResult {
    new_name: String,
    processing_time_ms: u64,
}

impl ProcessingResult {
    #[verifier::type_invariant]
    spec fn name_is_sanitized(self) -> bool {
        &&& self.new_name@.len() <= MAX_NAME_CHARS
        &&& forall|i: int| 0 <= i < self.new_name@.len() ==> is_safe(#[trigger] self.new_name@[i])
    }

    /// The name as a sequence of characters.
    pub closed spec fn name(self) -> Seq<char> {
        self.new_name@
    }

    /// The time taken, in milliseconds.
    pub closed spec fn elapsed_ms(self) -> u64 {
        self.processing_time_ms
    }

    /// The result for the text `response` that the model gave after `processing_time_ms`
    /// milliseconds: its name is the text sanitized.
    pub fn new(response: &str, processing_time_ms: u64) -> (result: ProcessingResult)
        ensures
            result.name() == sanitized(response@),
            result.elapsed_ms() == processing_time_ms,
    {
        ProcessingResult { new_name: clean_filename(response), processing_time_ms }
    }

    /// The sanitized name.
    pub fn new_name(&self) -> (name: &str)
        ensures
            name@ == self.name(),
            name@.len() <= MAX_NAME_CHARS,
            forall|i: int| 0 <= i < name@.len() ==> is_safe(#[trigger] name@[i]),
    {
        proof {
            use_type_invariant(self);
        }
        self.new_name.as_str()
    }

    /// The time taken, in milliseconds.
    pub fn processing_time_ms(&self) -> (ms: u64)
        ensures
            ms == self.elapsed_ms(),
    {
        self.processing_time_ms
    }
}

/// How far a naming session has come.
#[derive(Clone, Copy, Debug, PartialEq, Eq, Structural)]
pub enum NamingStage {
    /// It waits to hear whether the file exists.
    ConfirmingFile,
    /// It waits for the bytes of the file.
    ReadingFile,
    /// It waits for the reply of the endpoint.
    AwaitingReply,
    /// It has ended, with a name or a failure.
    Finished,
}

/// What the caller of a naming session is to do next.
#[derive(Debug)]
pub enum NamingAction {
    /// Find out whether a file lies at `path`, and report it with `on_exists`.
    CheckExists { path: String },
    /// Read the file at `path`, and report its bytes, or why there are none, with `on_contents`.
    ReadFile { path: String },
    /// Post `request` as JSON to `url`, once, and report the reply with `on_reply`. Where the
    /// image could not be compressed, `compression_failure` says why: the request then holds the
    /// image as it was read, and the failure is for the log alone.
    Post { url: String, request: InferenceRequest, compression_failure: Option<CompressError> },
    /// Nothing more: the session has ended with `outcome`.
    Finish { outcome: Result<ProcessingResult, Failure> },
}

/// The naming of one image in progress.
#[derive(Debug)]
pub struct NamingSession {
    job: NamingJob,
    stage: NamingStage,
}

impl NamingSession {
    /// The job that the session works on.
    pub closed spec fn job(self) -> NamingJob {
        self.job
    }

    /// How far the session has come.
    pub closed spec fn stage(self) -> NamingStage {
        self.stage
    }

    /// How far the session has come.
    pub fn current_stage(&self) -> (stage: NamingStage)
        ensures
            stage == self.stage(),
    {
        self.stage
    }

    /// Begins to name the image of `job`. A placeholder in place of the path ends the session
    /// at once, before any file or endpoint is touched; else the first thing to do is to look
    /// for the file.
    pub fn start(job: NamingJob) -> (begun: (NamingSession, NamingAction))
        ensures
            begun.0.job() == job,
            is_placeholder(job.image_path@) ==> {
                &&& begun.0.stage() == NamingStage::Finished
                &&& begun.1 matches NamingAction::Finish { outcome: Err(Failure::InvalidPath) }
            },
            !is_placeholder(job.image_path@) ==> {
                &&& begun.0.stage() == NamingStage::ConfirmingFile
                &&& begun.1 matches NamingAction::CheckExists { path }
                &&& path@ == job.image_path@
            },
    {
        if is_placeholder_path(job.image_path.as_str()) {
            (
                NamingSession { job, stage: NamingStage::Finished },
                NamingAction::Finish { outcome: Err(Failure::InvalidPath) },
            )
        } else {
            let path = job.image_path.clone();
            (NamingSession { job, stage: NamingStage::ConfirmingFile }, NamingAction::CheckExists {
                path,
            })
        }
    }

    /// Takes the answer to `CheckExists`. A file that is there is read next; one that is not
    /// ends the session. Where no such answer is awaited, nothing changes and there is nothing
    /// to do.
    pub fn on_exists(&mut self, exists: bool) -> (next: Option<NamingAction>)
        ensures
            final(self).job() == old(self).job(),
            old(self).stage() != NamingStage::ConfirmingFile ==> {
                &&& next is None
                &&& final(self).stage() == old(self).stage()
            },
            old(self).stage() == NamingStage::ConfirmingFile && exists ==> {
                &&& final(self).stage() == NamingStage::ReadingFile
                &&& next matches Some(NamingAction::ReadFile { path })
                &&& path@ == old(self).job().image_path@
            },
            old(self).stage() == NamingStage::ConfirmingFile && !exists ==> {
                &&& final(self).stage() == NamingStage::Finished
                &&& next matches Some(
                    NamingAction::Finish { outcome: Err(Failure::FileNotFound { path }) },
                )
                &&& path@ == old(self).job().image_path@
            },
    {
        if self.stage != NamingStage::ConfirmingFile {
            return None;
        }
        let path = self.job.image_path.clone();
        if exists {
            self.stage = NamingStage::ReadingFile;
            Some(NamingAction::ReadFile { path })
        } else {
            self.stage = NamingStage::Finished;
            Some(NamingAction::Finish { outcome: Err(Failure::FileNotFound { path }) })
        }
    }

    /// Takes the answer to `ReadFile`: the bytes of the file, or why it could not be read. The
    /// bytes are compressed to the budget of the job where that works, written in base64 and
    /// put into the request that is sent next; a file that could not be read ends the session.
    /// Where no such answer is awaited, nothing changes and there is nothing to do.
    pub fn on_contents(&mut self, contents: Result<Vec<u8>, String>) -> (next: Option<
        NamingAction,
    >)
        requires
            contents matches Ok(data) ==> can_encode(data@.len()),
        ensures
            final(self).job() == old(self).job(),
            old(self).stage() != NamingStage::ReadingFile ==> {
                &&& next is None
                &&& final(self).stage() == old(self).stage()
            },
            old(self).stage() == NamingStage::ReadingFile ==> match contents {
                Ok(data) => {
                    &&& final(self).stage() == NamingStage::AwaitingReply
                    &&& next matches Some(NamingAction::Post { url, request, compression_failure })
                    &&& url@ == generate_endpoint(old(self).job().config.api_url@)
                    &&& request@.images.len() == 1
                    &&& is_prepared_from(
                        request@.images[0],
                        compression_failure,
                        data@,
                        old(self).job().config.context_length,
                    )
                    &&& request@ == naming_request(
                        old(self).job().config.model@,
                        old(self).job().prompt@,
                        request@.images[0],
                    )
                },
                Err(cause) => {
                    &&& final(self).stage() == NamingStage::Finished
                    &&& next matches Some(
                        NamingAction::Finish { outcome: Err(Failure::ReadError { path, cause: told }) },
                    )
                    &&& path@ == old(self).job().image_path@
                    &&& told == cause
                },
            },
    {
        if self.stage != NamingStage::ReadingFile {
            return None;
        }
        match contents {
            Ok(data) => {
                let prepared = prepare_image(data.as_slice(), self.job.config.context_length);
                let request = build_request(
                    self.job.config.model.as_str(),
                    self.job.prompt.as_str(),
                    prepared.image,
                );
                let url = generate_url(self.job.config.api_url.as_str());
                self.stage = NamingStage::AwaitingReply;
                Some(
                    NamingAction::Post {
                        url,
                        request,
                        compression_failure: prepared.compression_failure,
                    },
                )
            },
            Err(cause) => {
                let path = self.job.image_path.clone();
                self.stage = NamingStage::Finished;
                Some(NamingAction::Finish { outcome: Err(Failure::ReadError { path, cause }) })
            },
        }
    }

    /// Takes the answer to `Post`: the reply of the endpoint, and the time in milliseconds that
    /// has passed since the session began. The session ends, with the sanitized text of the
    /// model as the name, or with what the reply means as a failure. Where no such answer is
    /// awaited, nothing changes and there is nothing to do.
    pub fn on_reply(&mut self, reply: Reply<InferenceResponse>, elapsed_ms: u64) -> (next: Option<
        NamingAction,
    >)
        ensures
            final(self).job() == old(self).job(),
            old(self).stage() != NamingStage::AwaitingReply ==> {
                &&& next is None
                &&& final(self).stage() == old(self).stage()
            },
            old(self).stage() == NamingStage::AwaitingReply ==> {
                &&& final(self).stage() == NamingStage::Finished
                &&& next matches Some(NamingAction::Finish { outcome })
                &&& match meaning(reply) {
                    Ok(answer) => {
                        &&& outcome matches Ok(result)
                        &&& result.name() == sanitized(answer.response@)
                        &&& result.elapsed_ms() == elapsed_ms
                    },
                    Err(failure) => outcome matches Err(told) && told == failure,
                }
            },
    {
        if self.stage != NamingStage::AwaitingReply {
            return None;
        }
        self.stage = NamingStage::Finished;
        let outcome = match interpret(reply) {
            Ok(answer) => Ok(ProcessingResult::new(answer.response.as_str(), elapsed_ms)),
            Err(failure) => Err(failure),
        };
        Some(NamingAction::Finish { outcome })
    }
}

} // verus!
