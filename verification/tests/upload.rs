use nojoin_companion::state::Disposition;
use nojoin_companion::upload::{
    bearer, call_after, finalize_url, first_call, init_url, segment_url, status_url,
    RemoteCall, RetryEvent, RetryPhase, RetryState, RetryStep, UploadTally, MAX_ATTEMPTS,
};

#[test]
fn five_failures_exhaust_the_schedule() {
    let mut call = RetryState::new();
    let mut attempts = Vec::new();
    let mut waits = Vec::new();
    let mut step = call.step();
    loop {
        match step {
            RetryStep::Send { attempt } => {
                attempts.push(attempt);
                step = call.on(RetryEvent::AttemptFailed);
            }
            RetryStep::Wait { secs } => {
                waits.push(secs);
                step = call.on(RetryEvent::WaitOver);
            }
            RetryStep::Done => panic!("the call cannot have gone through"),
            RetryStep::GiveUp => break,
        }
    }
    assert_eq!(attempts, vec![1, 2, 3, 4, 5]);
    assert_eq!(waits, vec![2, 4, 8, 16, 32]);
    assert_eq!(call.phase(), RetryPhase::Failed);
    assert_eq!(call.attempt(), MAX_ATTEMPTS);
    assert_eq!(call.on(RetryEvent::AttemptSucceeded), RetryStep::GiveUp);
}

#[test]
fn success_ends_the_call_at_once() {
    let mut call = RetryState::new();
    assert_eq!(call.step(), RetryStep::Send { attempt: 1 });
    assert_eq!(call.on(RetryEvent::AttemptSucceeded), RetryStep::Done);
    assert_eq!(call.phase(), RetryPhase::Succeeded);
    assert_eq!(call.on(RetryEvent::AttemptFailed), RetryStep::Done);
    assert_eq!(call.on(RetryEvent::WaitOver), RetryStep::Done);
}

#[test]
fn success_after_failures_needs_no_further_wait() {
    let mut call = RetryState::new();
    assert_eq!(call.on(RetryEvent::AttemptFailed), RetryStep::Wait { secs: 2 });
    assert_eq!(call.on(RetryEvent::WaitOver), RetryStep::Send { attempt: 2 });
    assert_eq!(call.on(RetryEvent::AttemptFailed), RetryStep::Wait { secs: 4 });
    assert_eq!(call.on(RetryEvent::WaitOver), RetryStep::Send { attempt: 3 });
    assert_eq!(call.on(RetryEvent::AttemptSucceeded), RetryStep::Done);
    assert_eq!(call.attempt(), 3);
}

#[test]
fn events_out_of_turn_change_nothing() {
    let mut call = RetryState::new();
    assert_eq!(call.on(RetryEvent::WaitOver), RetryStep::Send { attempt: 1 });
    assert_eq!(call.on(RetryEvent::AttemptFailed), RetryStep::Wait { secs: 2 });
    assert_eq!(call.on(RetryEvent::AttemptFailed), RetryStep::Wait { secs: 2 });
    assert_eq!(call.on(RetryEvent::AttemptSucceeded), RetryStep::Wait { secs: 2 });
    assert_eq!(call.attempt(), 1);
}

#[test]
fn addresses_name_recording_and_sequence() {
    let api = "https://localhost:14443/api/v1";
    assert_eq!(segment_url(api, 12, 3), "https://localhost:14443/api/v1/recordings/12/segment?sequence=3");
    assert_eq!(finalize_url(api, 12), "https://localhost:14443/api/v1/recordings/12/finalize");
    assert_eq!(init_url(api), "https://localhost:14443/api/v1/recordings/init");
    assert_eq!(status_url(api), "https://localhost:14443/api/v1/system/status");
    assert_eq!(segment_url("", -1, 0), "/recordings/-1/segment?sequence=0");
    assert_eq!(bearer("abc"), "Bearer abc");
    assert_eq!(bearer(""), "Bearer ");
}

#[test]
fn discarded_recording_is_deleted_and_finalized_if_that_fails() {
    assert_eq!(first_call(Disposition::Discard), RemoteCall::Delete);
    assert_eq!(first_call(Disposition::Finalize), RemoteCall::Finalize);
    assert_eq!(call_after(RemoteCall::Delete, true), None);
    assert_eq!(call_after(RemoteCall::Delete, false), Some(RemoteCall::Finalize));
    assert_eq!(call_after(RemoteCall::Finalize, true), None);
    assert_eq!(call_after(RemoteCall::Finalize, false), None);
}

#[test]
fn tally_reports_progress_within_its_band() {
    let mut tally = UploadTally::new();
    assert_eq!(tally.progress(), 0);
    assert_eq!(tally.outstanding(), 0);
    tally.settle(true);
    assert_eq!(tally.progress(), 0);
    tally.submit();
    tally.submit();
    tally.submit();
    assert_eq!(tally.outstanding(), 3);
    assert_eq!(tally.progress(), 0);
    tally.settle(true);
    assert_eq!(tally.progress(), 6);
    tally.settle(false);
    assert_eq!(tally.outstanding(), 1);
    assert_eq!(tally.progress(), 6);
    tally.settle(true);
    assert_eq!(tally.progress(), 13);
    assert_eq!(tally.outstanding(), 0);
    tally.settle(true);
    assert_eq!(tally.progress(), 13);
    let mut all = UploadTally::new();
    all.submit();
    all.settle(true);
    assert_eq!(all.progress(), 20);
}
