use camo::error::Kind;
use camo::stage::{advance, can_reject, is_finished, Signal, Stage};

const KINDS: [Kind; 10] = [
    Kind::InvalidDigest,
    Kind::InvalidUrlEncoding,
    Kind::InvalidUrl,
    Kind::DigestMismatch,
    Kind::ContentTypeNotAllowed,
    Kind::ContentTooLarge,
    Kind::TooManyRedirects,
    Kind::Timeout,
    Kind::Upstream,
    Kind::PrivateNetworkNotAllowed,
];

#[test]
fn a_request_passes_through_the_stages_in_order() {
    let mut stage = Stage::Received;
    for expected in [
        Stage::DigestVerifying,
        Stage::UrlValidating,
        Stage::NetworkChecking,
        Stage::Fetching,
        Stage::HeaderChecking,
        Stage::Streaming,
        Stage::Streaming,
    ] {
        stage = advance(stage, Signal::Passed);
        assert_eq!(stage, expected);
        assert!(!is_finished(stage));
    }
    stage = advance(stage, Signal::Done);
    assert_eq!(stage, Stage::Completed);
    assert!(is_finished(stage));
}

#[test]
fn each_check_rejects_for_its_own_failures_only() {
    let allowed = |stage: Stage, kind: Kind| match stage {
        Stage::DigestVerifying => kind == Kind::DigestMismatch,
        Stage::UrlValidating => kind == Kind::InvalidUrl,
        Stage::NetworkChecking => kind == Kind::PrivateNetworkNotAllowed || kind == Kind::InvalidUrl,
        Stage::Fetching => matches!(kind, Kind::Upstream | Kind::Timeout | Kind::TooManyRedirects),
        Stage::HeaderChecking => matches!(kind, Kind::ContentTypeNotAllowed | Kind::ContentTooLarge),
        _ => false,
    };
    for stage in [
        Stage::Received,
        Stage::DigestVerifying,
        Stage::UrlValidating,
        Stage::NetworkChecking,
        Stage::Fetching,
        Stage::HeaderChecking,
    ] {
        for kind in KINDS {
            assert_eq!(can_reject(stage, kind), allowed(stage, kind));
            let next = advance(stage, Signal::Failed(kind));
            if allowed(stage, kind) {
                assert_eq!(next, Stage::Rejected(kind));
            } else {
                assert_eq!(next, stage);
            }
        }
        assert_eq!(advance(stage, Signal::Done), stage);
    }
}

#[test]
fn streaming_aborts_on_failure() {
    for kind in KINDS {
        assert_eq!(advance(Stage::Streaming, Signal::Failed(kind)), Stage::Aborted);
    }
    assert!(is_finished(Stage::Aborted));
}

#[test]
fn finished_requests_stay_finished() {
    let mut finished = vec![Stage::Aborted, Stage::Completed];
    for kind in KINDS {
        finished.push(Stage::Rejected(kind));
    }
    for stage in finished {
        assert!(is_finished(stage));
        assert_eq!(advance(stage, Signal::Passed), stage);
        assert_eq!(advance(stage, Signal::Done), stage);
        for kind in KINDS {
            assert_eq!(advance(stage, Signal::Failed(kind)), stage);
        }
    }
}
