//! The stages that a proxy request passes through.
//!
//! A request is received, its digest is verified, its URL is validated, the network guard
//! checks where the target resolves to, the target is fetched, the head of the response
//! is checked, and the body is streamed. Each check either passes the request on or
//! rejects it for good; a body that outgrows the size budget is aborted. A request that is
//! rejected, aborted or completed stays so.
use vstd::prelude::*;
use crate::error::Kind;

verus! {

/// Where a request stands.
#[derive(Debug, Clone, Copy, PartialEq, Eq, Structural)]
pub enum Stage {
    /// The request has arrived.
    Received,
    /// The digest is being verified.
    DigestVerifying,
    /// The target URL is being validated.
    UrlValidating,
    /// The network guard is checking the addresses of the target.
    NetworkChecking,
    /// The target is being fetched.
    Fetching,
    /// The head of the upstream response is being checked.
    HeaderChecking,
    /// The body is being relayed.
    Streaming,
    /// The request was refused, for the given kind of failure.
    Rejected(Kind),
    /// The body outgrew the size budget while it was relayed.
    Aborted,
    /// The whole body was relayed.
    Completed,
}

/// What a stage learns.
#[derive(Debug, Clone, Copy, PartialEq, Eq, Structural)]
pub enum Signal {
    /// The work of the stage succeeded; while streaming, a chunk fits the budget.
    Passed,
    /// The work of the stage failed; while streaming, a chunk exceeds the budget.
    Failed(Kind),
    /// The body has ended.
    Done,
}

/// Whether a request is finished: rejected, aborted or completed.
pub open spec fn is_terminal(stage: Stage) -> bool {
    stage is Rejected || stage is Aborted || stage is Completed
}

/// Whether a stage can reject a request for a kind of failure: digest verification for
/// a digest mismatch, URL validation for an invalid URL, the network guard for a private
/// target or a host that cannot be looked up, the fetch for an upstream failure, a timeout
/// or too many redirects, the header check for a refused media type or an oversized body.
pub open spec fn may_reject(stage: Stage, kind: Kind) -> bool {
    match stage {
        Stage::DigestVerifying => kind == Kind::DigestMismatch,
        Stage::UrlValidating => kind == Kind::InvalidUrl,
        Stage::NetworkChecking => kind == Kind::PrivateNetworkNotAllowed || kind
            == Kind::InvalidUrl,
        Stage::Fetching => kind == Kind::Upstream || kind == Kind::Timeout || kind
            == Kind::TooManyRedirects,
        Stage::HeaderChecking => kind == Kind::ContentTypeNotAllowed || kind
            == Kind::ContentTooLarge,
        _ => false,
    }
}

/// The stage that follows a stage on a signal. A signal that the stage does not await
/// changes nothing.
pub open spec fn next_stage(stage: Stage, signal: Signal) -> Stage {
    match signal {
        Signal::Passed => match stage {
            Stage::Received => Stage::DigestVerifying,
            Stage::DigestVerifying => Stage::UrlValidating,
            Stage::UrlValidating => Stage::NetworkChecking,
            Stage::NetworkChecking => Stage::Fetching,
            Stage::Fetching => Stage::HeaderChecking,
            Stage::HeaderChecking => Stage::Streaming,
            _ => stage,
        },
        Signal::Failed(kind) => if stage is Streaming {
            Stage::Aborted
        } else if may_reject(stage, kind) {
            Stage::Rejected(kind)
        } else {
            stage
        },
        Signal::Done => if stage is Streaming {
            Stage::Completed
        } else {
            stage
        },
    }
}

/// The stage that a run of signals leads to.
pub open spec fn stage_after(stage: Stage, signals: Seq<Signal>) -> Stage
    decreases signals.len(),
{
    if signals.len() == 0 {
        stage
    } else {
        next_stage(stage_after(stage, signals.drop_last()), signals.last())
    }
}

/// Whether a request at stage `from` can come to stage `to`.
pub open spec fn reaches(from: Stage, to: Stage) -> bool {
    exists|signals: Seq<Signal>| stage_after(from, signals) == to
}

/// A request is where it is.
pub proof fn lemma_reaches_itself(stage: Stage)
    ensures
        reaches(stage, stage),
{
    assert(stage_after(stage, Seq::empty()) == stage);
}

/// A request that can come to a stage can come to the stage that follows it.
pub proof fn lemma_reaches_next(from: Stage, to: Stage, signal: Signal)
    requires
        reaches(from, to),
    ensures
        reaches(from, next_stage(to, signal)),
{
    let signals = choose|signals: Seq<Signal>| stage_after(from, signals) == to;
    assert(signals.push(signal).drop_last() =~= signals);
    assert(stage_after(from, signals.push(signal)) == next_stage(to, signal));
}

/// Whether a stage can reject a request for a kind of failure.
pub fn can_reject(stage: Stage, kind: Kind) -> (allowed: bool)
    ensures
        allowed == may_reject(stage, kind),
{
    match stage {
        Stage::DigestVerifying => kind == Kind::DigestMismatch,
        Stage::UrlValidating => kind == Kind::InvalidUrl,
        Stage::NetworkChecking => kind == Kind::PrivateNetworkNotAllowed || kind
            == Kind::InvalidUrl,
        Stage::Fetching => kind == Kind::Upstream || kind == Kind::Timeout || kind
            == Kind::TooManyRedirects,
        Stage::HeaderChecking => kind == Kind::ContentTypeNotAllowed || kind
            == Kind::ContentTooLarge,
        _ => false,
    }
}

/// Moves a request on by one signal.
pub fn advance(stage: Stage, signal: Signal) -> (next: Stage)
    ensures
        next == next_stage(stage, signal),
{
    match signal {
        Signal::Passed => match stage {
            Stage::Received => Stage::DigestVerifying,
            Stage::DigestVerifying => Stage::UrlValidating,
            Stage::UrlValidating => Stage::NetworkChecking,
            Stage::NetworkChecking => Stage::Fetching,
            Stage::Fetching => Stage::HeaderChecking,
            Stage::HeaderChecking => Stage::Streaming,
            _ => stage,
        },
        Signal::Failed(kind) => {
            if stage == Stage::Streaming {
                Stage::Aborted
            } else if can_reject(stage, kind) {
                Stage::Rejected(kind)
            } else {
                stage
            }
        },
        Signal::Done => {
            if stage == Stage::Streaming {
                Stage::Completed
            } else {
                stage
            }
        },
    }
}

/// Whether a request is finished.
pub fn is_finished(stage: Stage) -> (finished: bool)
    ensures
        finished == is_terminal(stage),
{
    match stage {
        Stage::Rejected(_) => true,
        Stage::Aborted => true,
        Stage::Completed => true,
        _ => false,
    }
}

/// A finished request stays as it is, whatever is signalled.
pub proof fn law_terminal_stages_absorb(stage: Stage, signals: Seq<Signal>)
    requires
        is_terminal(stage),
    ensures
        stage_after(stage, signals) == stage,
    decreases signals.len(),
{
    if signals.len() > 0 {
        law_terminal_stages_absorb(stage, signals.drop_last());
    }
}

/// A finished request can come to no other stage.
pub proof fn law_finished_requests_stay(stage: Stage, later: Stage)
    requires
        is_terminal(stage),
        reaches(stage, later),
    ensures
        later == stage,
{
    let signals = choose|signals: Seq<Signal>| stage_after(stage, signals) == later;
    law_terminal_stages_absorb(stage, signals);
}

/// A body is streamed only after the head of the response was checked and passed: the
/// one step into streaming leads from the header check.
pub proof fn law_streaming_follows_header_check(stage: Stage, signal: Signal)
    requires
        !(stage is Streaming),
        next_stage(stage, signal) is Streaming,
    ensures
        stage is HeaderChecking,
        signal is Passed,
{
}

/// A request is rejected only by a check, and only for a failure of that check.
pub proof fn law_rejections_by_stage(stage: Stage, signal: Signal, kind: Kind)
    requires
        !(stage is Rejected),
        next_stage(stage, signal) == Stage::Rejected(kind),
    ensures
        signal == Signal::Failed(kind),
        may_reject(stage, kind),
{
}

} // verus!
