//! The proxy: what it does with a request, step by step.
//!
//! The library decides; the program around it resolves names, opens connections and moves
//! bytes. For each request the program keeps a `Transfer`, reports what happened (the
//! request came, the host resolved, the response arrived, a chunk of the body came, the
//! body ended) and performs the `Action` that comes back.
use vstd::prelude::*;
use crate::config::Cli;
use crate::crypto::{digest_matches, verify_digest};
use crate::error::{CamoError, Failure, Kind};
use crate::headers::{
    check_head,
    declared_length,
    head_verdict,
    held,
    relay_headers,
    relayed_headers,
    Headers,
    Fields,
};
use crate::network::{any_private, check_private_network, is_private_address, IpAddress};
use crate::server::content_types::{allowed_types, declared_type, is_allowed_content_type};
use crate::stage::{
    advance,
    lemma_reaches_itself,
    lemma_reaches_next,
    next_stage,
    reaches,
    Signal,
    Stage,
};
use crate::target::{checked_target, parsed_target, resolution_target, validate_target};

verus! {

broadcast use vstd::string::group_string_axioms;

/// A response that is relayed: the status and the headers that go to the caller. The
/// body follows as a stream.
#[derive(Debug)]
pub struct ProxyResponse {
    pub status: u16,
    pub headers: Headers,
}

/// How a fetch failed.
#[derive(Debug, Clone)]
pub enum FetchFailure {
    /// The request took longer than the socket timeout.
    Timeout,
    /// The upstream redirected more often than allowed.
    TooManyRedirects,
    /// Anything else; the text says what.
    Upstream(String),
}

impl FetchFailure {
    /// The failure that is reported for a failed fetch.
    pub open spec fn failure(self) -> Failure {
        match self {
            FetchFailure::Timeout => Failure::Timeout,
            FetchFailure::TooManyRedirects => Failure::TooManyRedirects,
            FetchFailure::Upstream(reason) => Failure::Upstream(reason@),
        }
    }

    /// The failure that is reported for a failed fetch.
    pub fn into_error(self) -> (error: CamoError)
        ensures
            error@ == self.failure(),
    {
        match self {
            FetchFailure::Timeout => CamoError::Timeout,
            FetchFailure::TooManyRedirects => CamoError::TooManyRedirects,
            FetchFailure::Upstream(reason) => CamoError::Upstream(reason),
        }
    }
}

/// What the program around the library is to do next for a request.
#[derive(Debug)]
pub enum Action {
    /// Nothing: the request does not await what was reported.
    Ignore,
    /// Look the host up, and report the addresses with `resolved`.
    Resolve { host: String, port: u16 },
    /// Send a GET for the target URL, without a body and without headers of the caller,
    /// and report the outcome with `responded`.
    Fetch,
    /// Answer with this status and these headers, then report each chunk of the body
    /// with `chunk`, and its end with `finish`.
    Respond(ProxyResponse),
    /// Send the chunk on to the caller.
    Forward,
    /// Drop the chunk and close both connections.
    Abort,
    /// End the response.
    Finish,
    /// Answer with the failure.
    Reject(CamoError),
}

/// An action with its texts as character sequences.
pub enum Act {
    Ignore,
    Resolve { host: Seq<char>, port: u16 },
    Fetch,
    Respond { status: u16, headers: Fields },
    Forward,
    Abort,
    Finish,
    Reject(Failure),
}

impl View for Action {
    type V = Act;

    open spec fn view(&self) -> Act {
        match self {
            Action::Ignore => Act::Ignore,
            Action::Resolve { host, port } => Act::Resolve { host: host@, port: *port },
            Action::Fetch => Act::Fetch,
            Action::Respond(response) => Act::Respond {
                status: response.status,
                headers: held(&response.headers),
            },
            Action::Forward => Act::Forward,
            Action::Abort => Act::Abort,
            Action::Finish => Act::Finish,
            Action::Reject(error) => Act::Reject(error@),
        }
    }
}

/// The progress of one request: its stage, its size budget, and the bytes of the body
/// that were sent on to the caller.
#[derive(Debug, Clone, Copy, PartialEq, Eq, Structural)]
pub struct Transfer {
    pub stage: Stage,
    pub budget: u64,
    pub forwarded: u64,
}

/// Where a request stands once its digest and its URL were checked, and what is to be
/// done: a wrong digest and an invalid URL reject it; a valid one is fetched at once
/// where private targets are not refused, and has its host looked up first where they
/// are.
pub open spec fn start_outcome(
    key: Seq<char>,
    block_private: bool,
    digest: Seq<char>,
    url: Seq<char>,
) -> (Stage, Act) {
    if !digest_matches(key, url, digest) {
        (Stage::Rejected(Kind::DigestMismatch), Act::Reject(Failure::DigestMismatch))
    } else {
        match checked_target(parsed_target(url)) {
            Err(failure) => (Stage::Rejected(Kind::InvalidUrl), Act::Reject(failure)),
            Ok(target) => if !block_private {
                (Stage::Fetching, Act::Fetch)
            } else {
                match target.host {
                    None => (
                        Stage::Rejected(Kind::InvalidUrl),
                        Act::Reject(Failure::InvalidUrl("No host"@)),
                    ),
                    Some(host) => (
                        Stage::NetworkChecking,
                        Act::Resolve {
                            host,
                            port: match target.port {
                                Some(port) => port,
                                None => 80u16,
                            },
                        },
                    ),
                }
            },
        }
    }
}

/// Where a request stands once the host of its target was looked up, and what is to be
/// done: a failed lookup and an address in private or reserved space reject it.
pub open spec fn resolved_outcome(lookup: Result<Seq<IpAddress>, Seq<char>>) -> (Stage, Act) {
    match lookup {
        Err(reason) => (
            Stage::Rejected(Kind::InvalidUrl),
            Act::Reject(Failure::InvalidUrl(reason)),
        ),
        Ok(addresses) => if any_private(addresses) {
            (
                Stage::Rejected(Kind::PrivateNetworkNotAllowed),
                Act::Reject(Failure::PrivateNetworkNotAllowed),
            )
        } else {
            (Stage::Fetching, Act::Fetch)
        },
    }
}

/// Where a request stands once the fetch has failed or the head of the response has
/// come, and what is to be done: a failed fetch and a refused head reject it, before any
/// of the body is read; an accepted head is answered with status 200 and the relayed
/// headers.
pub open spec fn responded_outcome(
    allow_video: bool,
    allow_audio: bool,
    max_size: u64,
    outcome: Result<Fields, Failure>,
) -> (Stage, Act) {
    match outcome {
        Err(failure) => (Stage::Rejected(failure.kind()), Act::Reject(failure)),
        Ok(headers) => match head_verdict(allow_video, allow_audio, max_size, headers) {
            Err(failure) => (Stage::Rejected(failure.kind()), Act::Reject(failure)),
            Ok(_) => (
                Stage::Streaming,
                Act::Respond { status: 200, headers: relayed_headers(headers) },
            ),
        },
    }
}

/// The progress of a request after a chunk of its body has come. While the body is
/// streamed, a chunk that fits the rest of the budget is counted and sent on; the first
/// one that does not aborts the request and is not sent on.
pub open spec fn after_chunk(transfer: Transfer, length: u64) -> Transfer {
    if transfer.stage is Streaming {
        if transfer.forwarded + length > transfer.budget {
            Transfer { stage: Stage::Aborted, ..transfer }
        } else {
            Transfer { forwarded: (transfer.forwarded + length) as u64, ..transfer }
        }
    } else {
        transfer
    }
}

/// The progress of a request after a run of chunks.
pub open spec fn after_chunks(transfer: Transfer, lengths: Seq<u64>) -> Transfer
    decreases lengths.len(),
{
    if lengths.len() == 0 {
        transfer
    } else {
        after_chunk(after_chunks(transfer, lengths.drop_last()), lengths.last())
    }
}

/// The number of bytes in a run of chunks.
pub open spec fn total(lengths: Seq<u64>) -> nat
    decreases lengths.len(),
{
    if lengths.len() == 0 {
        0
    } else {
        total(lengths.drop_last()) + lengths.last() as nat
    }
}

impl Transfer {
    /// Takes a chunk of the body into account.
    pub fn chunk(&mut self, length: u64) -> (action: Action)
        ensures
            *final(self) == after_chunk(*old(self), length),
            reaches(old(self).stage, final(self).stage),
            action@ == if !(old(self).stage is Streaming) {
                Act::Ignore
            } else if old(self).forwarded + length > old(self).budget {
                Act::Abort
            } else {
                Act::Forward
            },
    {
        let ghost from = self.stage;
        proof {
            lemma_reaches_itself(from);
        }
        if self.stage != Stage::Streaming {
            return Action::Ignore;
        }
        let fits = match self.forwarded.checked_add(length) {
            Some(count) => count <= self.budget,
            None => false,
        };
        if fits {
            proof {
                lemma_reaches_next(from, self.stage, Signal::Passed);
            }
            self.stage = advance(self.stage, Signal::Passed);
            self.forwarded = self.forwarded + length;
            Action::Forward
        } else {
            proof {
                lemma_reaches_next(from, self.stage, Signal::Failed(Kind::ContentTooLarge));
            }
            self.stage = advance(self.stage, Signal::Failed(Kind::ContentTooLarge));
            Action::Abort
        }
    }

    /// Takes the end of the body into account.
    pub fn finish(&mut self) -> (action: Action)
        ensures
            final(self).budget == old(self).budget,
            final(self).forwarded == old(self).forwarded,
            final(self).stage == next_stage(old(self).stage, Signal::Done),
            reaches(old(self).stage, final(self).stage),
            action@ == if old(self).stage is Streaming {
                Act::Finish
            } else {
                Act::Ignore
            },
    {
        let ghost from = self.stage;
        proof {
            lemma_reaches_itself(from);
        }
        if self.stage != Stage::Streaming {
            return Action::Ignore;
        }
        proof {
            lemma_reaches_next(from, self.stage, Signal::Done);
        }
        self.stage = advance(self.stage, Signal::Done);
        Action::Finish
    }
}

/// The settings of the outbound client.
#[derive(Debug, Clone, Copy, PartialEq, Eq, Structural)]
pub struct ClientSettings {
    /// The timeout of a whole request, in seconds.
    pub timeout_secs: u64,
    /// How many redirects are followed.
    pub max_redirects: usize,
}

/// The proxy: the settings it runs under, and the decisions it takes on each request.
#[derive(Debug)]
pub struct ProxyClient {
    config: Cli,
}

impl ProxyClient {
    /// The settings of a proxy name its signing key.
    #[verifier::type_invariant]
    spec fn has_key(self) -> bool {
        self.config.key is Some
    }

    /// The settings that the proxy runs under.
    pub closed spec fn config(&self) -> Cli {
        self.config
    }

    /// The signing key of the proxy.
    pub open spec fn key(&self) -> Seq<char> {
        self.config().key->0@
    }

    /// A proxy under the given settings. The settings name the signing key.
    pub fn new(config: Cli) -> (client: Self)
        requires
            config.key is Some,
        ensures
            client.config() == config,
    {
        ProxyClient { config }
    }

    /// The name that the proxy gives as its user agent.
    pub fn user_agent() -> (name: &'static str)
        ensures
            name@ == "camo-rs"@,
    {
        "camo-rs"
    }

    /// The settings of the outbound client: the socket timeout bounds the whole request,
    /// and the redirect count bounds the redirects that are followed.
    pub fn client_settings(&self) -> (settings: ClientSettings)
        ensures
            settings.timeout_secs == self.config().timeout,
            settings.max_redirects == self.config().max_redirects,
    {
        ClientSettings {
            timeout_secs: self.config.timeout,
            max_redirects: self.config.max_redirects as usize,
        }
    }

    /// Whether the policy of the proxy holds the media type that a content type
    /// declares.
    pub fn is_allowed_content_type(&self, content_type: &str) -> (allowed: bool)
        ensures
            allowed == allowed_types(
                self.config().allow_video,
                self.config().allow_audio,
            ).contains(declared_type(content_type@)),
    {
        is_allowed_content_type(content_type, self.config.allow_video, self.config.allow_audio)
    }

    /// The progress of a request that has just arrived.
    pub fn receive(&self) -> (transfer: Transfer)
        ensures
            transfer == at_stage(Stage::Received, self.config().max_size),
    {
        Transfer { stage: Stage::Received, budget: self.config.max_size, forwarded: 0 }
    }

    /// Takes up a request for a target URL under a digest: verifies the digest, then
    /// validates the URL.
    pub fn start(&self, transfer: &mut Transfer, digest: &str, url: &str) -> (action: Action)
        ensures
            final(transfer).budget == old(transfer).budget,
            final(transfer).forwarded == old(transfer).forwarded,
            reaches(old(transfer).stage, final(transfer).stage),
            old(transfer).stage is Received ==> (final(transfer).stage, action@) == start_outcome(
                self.key(),
                self.config().block_private,
                digest@,
                url@,
            ),
            !(old(transfer).stage is Received) ==> final(transfer).stage == old(transfer).stage
                && action@ == Act::Ignore,
    {
        let ghost from = transfer.stage;
        proof {
            use_type_invariant(self);
            lemma_reaches_itself(from);
        }
        if transfer.stage != Stage::Received {
            return Action::Ignore;
        }
        let key = match &self.config.key {
            Some(key) => key.as_str(),
            None => "",
        };
        proof {
            lemma_reaches_next(from, transfer.stage, Signal::Passed);
        }
        transfer.stage = advance(transfer.stage, Signal::Passed);
        if !verify_digest(key, url, digest) {
            let error = CamoError::DigestMismatch;
            proof {
                lemma_reaches_next(from, transfer.stage, Signal::Failed(error@.kind()));
            }
            transfer.stage = advance(transfer.stage, Signal::Failed(error.kind()));
            return Action::Reject(error);
        }
        proof {
            lemma_reaches_next(from, transfer.stage, Signal::Passed);
        }
        transfer.stage = advance(transfer.stage, Signal::Passed);
        let target = match validate_target(url) {
            Ok(target) => target,
            Err(error) => {
                proof {
                    lemma_reaches_next(from, transfer.stage, Signal::Failed(error@.kind()));
                }
                transfer.stage = advance(transfer.stage, Signal::Failed(error.kind()));
                return Action::Reject(error);
            },
        };
        proof {
            lemma_reaches_next(from, transfer.stage, Signal::Passed);
        }
        transfer.stage = advance(transfer.stage, Signal::Passed);
        if !self.config.block_private {
            proof {
                lemma_reaches_next(from, transfer.stage, Signal::Passed);
            }
            transfer.stage = advance(transfer.stage, Signal::Passed);
            return Action::Fetch;
        }
        match resolution_target(&target) {
            Ok((host, port)) => Action::Resolve { host, port },
            Err(error) => {
                proof {
                    lemma_reaches_next(from, transfer.stage, Signal::Failed(error@.kind()));
                }
                transfer.stage = advance(transfer.stage, Signal::Failed(error.kind()));
                Action::Reject(error)
            },
        }
    }

    /// Takes the outcome of the name lookup into account: guards the network.
    pub fn resolved(
        &self,
        transfer: &mut Transfer,
        lookup: &Result<Vec<IpAddress>, String>,
    ) -> (action: Action)
        ensures
            final(transfer).budget == old(transfer).budget,
            final(transfer).forwarded == old(transfer).forwarded,
            reaches(old(transfer).stage, final(transfer).stage),
            old(transfer).stage is NetworkChecking ==> (final(transfer).stage, action@)
                == resolved_outcome(
                    match lookup {
                        Ok(addresses) => Ok(addresses@),
                        Err(reason) => Err(reason@),
                    },
                ),
            !(old(transfer).stage is NetworkChecking) ==> final(transfer).stage
                == old(transfer).stage && action@ == Act::Ignore,
    {
        let ghost from = transfer.stage;
        proof {
            lemma_reaches_itself(from);
        }
        if transfer.stage != Stage::NetworkChecking {
            return Action::Ignore;
        }
        match check_private_network(lookup) {
            Ok(_) => {
                proof {
                    lemma_reaches_next(from, transfer.stage, Signal::Passed);
                }
                transfer.stage = advance(transfer.stage, Signal::Passed);
                Action::Fetch
            },
            Err(error) => {
                proof {
                    lemma_reaches_next(from, transfer.stage, Signal::Failed(error@.kind()));
                }
                transfer.stage = advance(transfer.stage, Signal::Failed(error.kind()));
                Action::Reject(error)
            },
        }
    }

    /// Takes the outcome of the fetch into account: checks the head of the response
    /// against the content policy and the size budget, and picks the headers to relay.
    pub fn responded(
        &self,
        transfer: &mut Transfer,
        outcome: Result<&Headers, FetchFailure>,
    ) -> (action: Action)
        ensures
            final(transfer).budget == old(transfer).budget,
            final(transfer).forwarded == old(transfer).forwarded,
            reaches(old(transfer).stage, final(transfer).stage),
            old(transfer).stage is Fetching ==> (final(transfer).stage, action@)
                == responded_outcome(
                    self.config().allow_video,
                    self.config().allow_audio,
                    old(transfer).budget,
                    match outcome {
                        Ok(headers) => Ok(held(headers)),
                        Err(failure) => Err(failure.failure()),
                    },
                ),
            !(old(transfer).stage is Fetching) ==> final(transfer).stage == old(transfer).stage
                && action@ == Act::Ignore,
    {
        let ghost from = transfer.stage;
        proof {
            lemma_reaches_itself(from);
        }
        if transfer.stage != Stage::Fetching {
            return Action::Ignore;
        }
        let headers = match outcome {
            Ok(headers) => headers,
            Err(failure) => {
                let error = failure.into_error();
                proof {
                    lemma_reaches_next(from, transfer.stage, Signal::Failed(error@.kind()));
                }
                transfer.stage = advance(transfer.stage, Signal::Failed(error.kind()));
                return Action::Reject(error);
            },
        };
        proof {
            lemma_reaches_next(from, transfer.stage, Signal::Passed);
        }
        transfer.stage = advance(transfer.stage, Signal::Passed);
        match check_head(
            self.config.allow_video,
            self.config.allow_audio,
            transfer.budget,
            headers,
        ) {
            Ok(_) => {
                proof {
                    lemma_reaches_next(from, transfer.stage, Signal::Passed);
                }
                transfer.stage = advance(transfer.stage, Signal::Passed);
                Action::Respond(ProxyResponse { status: 200, headers: relay_headers(headers) })
            },
            Err(error) => {
                proof {
                    lemma_reaches_next(from, transfer.stage, Signal::Failed(error@.kind()));
                }
                transfer.stage = advance(transfer.stage, Signal::Failed(error.kind()));
                Action::Reject(error)
            },
        }
    }
}

/// Whether an address lies in loopback space `127.0.0.0/8`, in the private range
/// `10.0.0.0/8`, in link-local space `169.254.0.0/16` or in the carrier-grade NAT range
/// `100.64.0.0/10`.
pub open spec fn is_inner_address(address: IpAddress) -> bool {
    address matches IpAddress::V4(a, b, _, _) && (a == 127 || a == 10 || (a == 169 && b == 254)
        || (a == 100 && 64 <= b <= 127))
}

/// Where private targets are refused, a host that resolves to a loopback, private,
/// link-local or carrier-grade NAT address is rejected, whatever else it resolves to.
pub proof fn law_private_targets_refused(addresses: Seq<IpAddress>, i: int)
    requires
        0 <= i < addresses.len(),
        is_inner_address(addresses[i]),
    ensures
        resolved_outcome(Ok(addresses)) == (
            Stage::Rejected(Kind::PrivateNetworkNotAllowed),
            Act::Reject(Failure::PrivateNetworkNotAllowed),
        ),
{
    assert(is_private_address(addresses[i]));
}

/// Where private targets are not refused, a request with the right digest and a valid
/// URL goes on to the fetch without any lookup, wherever its host may resolve to. Where
/// they are refused, it is never fetched before its host was looked up.
pub proof fn law_unguarded_targets_fetched(key: Seq<char>, digest: Seq<char>, url: Seq<char>)
    requires
        digest_matches(key, url, digest),
        checked_target(parsed_target(url)) is Ok,
    ensures
        start_outcome(key, false, digest, url) == (Stage::Fetching, Act::Fetch),
        !(start_outcome(key, true, digest, url).0 is Fetching),
        !(start_outcome(key, true, digest, url).1 is Fetch),
{
}

/// The progress of a request that stands at a stage and has sent nothing on.
pub open spec fn at_stage(stage: Stage, budget: u64) -> Transfer {
    Transfer { stage, budget, forwarded: 0 }
}

/// Chunks change nothing for a request that does not stream.
pub proof fn lemma_chunks_keep_stage(transfer: Transfer, chunks: Seq<u64>)
    requires
        !(transfer.stage is Streaming),
    ensures
        after_chunks(transfer, chunks) == transfer,
    decreases chunks.len(),
{
    if chunks.len() > 0 {
        lemma_chunks_keep_stage(transfer, chunks.drop_last());
    }
}

/// A response that declares more bytes than the size budget is rejected when its head
/// is checked: the request never streams, and whatever chunks are reported afterwards,
/// none is sent on.
pub proof fn law_oversized_declaration_rejected(
    allow_video: bool,
    allow_audio: bool,
    max_size: u64,
    headers: Fields,
    chunks: Seq<u64>,
)
    requires
        declared_length(headers) matches Some(length) && length > max_size,
    ensures
        responded_outcome(allow_video, allow_audio, max_size, Ok(headers)).0 is Rejected,
        responded_outcome(allow_video, allow_audio, max_size, Ok(headers)).1 is Reject,
        after_chunks(
            at_stage(
                responded_outcome(allow_video, allow_audio, max_size, Ok(headers)).0,
                max_size,
            ),
            chunks,
        ).forwarded == 0,
{
    lemma_chunks_keep_stage(
        at_stage(responded_outcome(allow_video, allow_audio, max_size, Ok(headers)).0, max_size),
        chunks,
    );
}

/// A response whose head is accepted is relayed with status 200, and with the security
/// headers at the end of its headers.
pub proof fn law_relayed_with_status_200(
    allow_video: bool,
    allow_audio: bool,
    max_size: u64,
    headers: Fields,
)
    requires
        head_verdict(allow_video, allow_audio, max_size, headers) is Ok,
    ensures
        responded_outcome(allow_video, allow_audio, max_size, Ok(headers)) == (
            Stage::Streaming,
            Act::Respond { status: 200, headers: relayed_headers(headers) },
        ),
{
}

/// However many bytes the upstream sends, no more than the size budget are sent on. A
/// body within the budget is sent on whole; a body beyond it is aborted.
pub proof fn law_relay_within_budget(budget: u64, chunks: Seq<u64>)
    ensures
        after_chunks(at_stage(Stage::Streaming, budget), chunks).budget == budget,
        after_chunks(at_stage(Stage::Streaming, budget), chunks).forwarded <= budget,
        after_chunks(at_stage(Stage::Streaming, budget), chunks).forwarded <= total(chunks),
        total(chunks) <= budget ==> after_chunks(
            at_stage(Stage::Streaming, budget),
            chunks,
        ).stage is Streaming,
        total(chunks) <= budget ==> after_chunks(
            at_stage(Stage::Streaming, budget),
            chunks,
        ).forwarded == total(chunks),
        total(chunks) > budget ==> after_chunks(
            at_stage(Stage::Streaming, budget),
            chunks,
        ).stage is Aborted,
    decreases chunks.len(),
{
    if chunks.len() > 0 {
        law_relay_within_budget(budget, chunks.drop_last());
    }
}

/// A body is aborted on the very chunk that takes it beyond the size budget: what was
/// read from the upstream by then exceeds the budget by no more than that one chunk, and
/// the chunk itself is not sent on.
pub proof fn law_abort_on_first_excess(budget: u64, chunks: Seq<u64>)
    requires
        chunks.len() > 0,
        after_chunks(at_stage(Stage::Streaming, budget), chunks.drop_last()).stage is Streaming,
        after_chunks(at_stage(Stage::Streaming, budget), chunks).stage is Aborted,
    ensures
        total(chunks.drop_last()) <= budget < total(chunks),
        total(chunks) - budget <= chunks.last(),
        after_chunks(at_stage(Stage::Streaming, budget), chunks).forwarded == total(
            chunks.drop_last(),
        ),
{
    law_relay_within_budget(budget, chunks.drop_last());
    law_relay_within_budget(budget, chunks);
}

} // verus!
