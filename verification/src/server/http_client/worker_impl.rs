//! The fetch client for a host runtime that brings its own way to send a request.
//!
//! The head of the response is checked before any of the body is read, and the body is
//! streamed under the size budget, chunk by chunk, whatever length was declared.
use vstd::prelude::*;
use crate::error::{CamoError, Failure};
use crate::headers::{check_head, head_verdict, held, relay_headers, Headers};
use crate::proxy::{at_stage, responded_outcome, Act, Transfer};
use crate::server::config::Config;
use crate::stage::Stage;

verus! {

broadcast use vstd::string::group_string_axioms;

/// A fetch client under the settings of the server.
#[derive(Debug, Clone)]
pub struct WorkerFetchClient {
    pub config: Config,
}

/// A response that is relayed: the status and the headers that go to the caller. The
/// body follows as a stream.
#[derive(Debug)]
pub struct WorkerFetchResponse {
    pub status: u16,
    pub headers: Headers,
}

/// Where a fetch failed.
#[derive(Debug, Clone, Copy, PartialEq, Eq, Structural)]
pub enum FetchStep {
    /// The request could not be made from the URL.
    Request,
    /// The request could not be sent, or no response came.
    Send,
    /// The body could not be read.
    Body,
}

impl WorkerFetchClient {
    /// A fetch client under the given settings.
    pub fn new(config: &Config) -> (client: Self)
        ensures
            client.config == *config,
    {
        WorkerFetchClient { config: config.clone() }
    }

    /// The failure that is reported where the fetch itself fails: a request that cannot
    /// be made means an invalid URL, anything later an upstream failure.
    pub fn failure(step: FetchStep, reason: String) -> (error: CamoError)
        ensures
            error@ == if step == FetchStep::Request {
                Failure::InvalidUrl(reason@)
            } else {
                Failure::Upstream(reason@)
            },
    {
        match step {
            FetchStep::Request => CamoError::InvalidUrl(reason),
            FetchStep::Send => CamoError::Upstream(reason),
            FetchStep::Body => CamoError::Upstream(reason),
        }
    }

    /// Checks the head of the upstream response, before the body is asked for: the
    /// declared media type must be in the policy, and a declared length must not exceed
    /// the size budget.
    pub fn check_head(&self, headers: &Headers) -> (verdict: Result<(), CamoError>)
        ensures
            match verdict {
                Ok(_) => head_verdict(
                    self.config.allow_video,
                    self.config.allow_audio,
                    self.config.max_size,
                    held(headers),
                ) is Ok,
                Err(error) => head_verdict(
                    self.config.allow_video,
                    self.config.allow_audio,
                    self.config.max_size,
                    held(headers),
                ) == Err::<(), Failure>(error@),
            },
    {
        check_head(
            self.config.allow_video,
            self.config.allow_audio,
            self.config.max_size,
            headers,
        )
    }

    /// Takes the head of the upstream response into account. A head that passes the
    /// check is answered with status 200 and the relayed headers, and the body is
    /// streamed under the size budget: each chunk is reported to the transfer that comes
    /// back, which counts it and says whether to send it on.
    pub fn respond(
        &self,
        headers: &Headers,
    ) -> (outcome: Result<(WorkerFetchResponse, Transfer), CamoError>)
        ensures
            match outcome {
                Ok((response, transfer)) => responded_outcome(
                    self.config.allow_video,
                    self.config.allow_audio,
                    self.config.max_size,
                    Ok(held(headers)),
                ) == (
                    Stage::Streaming,
                    Act::Respond { status: response.status, headers: held(&response.headers) },
                ) && transfer == at_stage(Stage::Streaming, self.config.max_size),
                Err(error) => responded_outcome(
                    self.config.allow_video,
                    self.config.allow_audio,
                    self.config.max_size,
                    Ok(held(headers)),
                ) == (Stage::Rejected(error@.kind()), Act::Reject(error@)),
            },
    {
        match self.check_head(headers) {
            Ok(_) => Ok(
                (
                    WorkerFetchResponse { status: 200, headers: relay_headers(headers) },
                    Transfer { stage: Stage::Streaming, budget: self.config.max_size, forwarded: 0 },
                ),
            ),
            Err(error) => Err(error),
        }
    }
}

} // verus!
