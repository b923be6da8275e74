//! How segments and recordings reach the remote service: the addresses
//! called, the schedule of retries, the tally of uploads, and the calls
//! that settle a recording.

use vstd::prelude::*;
use vstd::string::*;
use crate::state::Disposition;
use crate::text::{push_signed_decimal, signed_decimal};

verus! {

/// Number of times a call is tried before it fails for good.
pub const MAX_ATTEMPTS: u32 = 5;

/// Upper end of the band of the overall progress that uploads fill.
pub const UPLOAD_PROGRESS_BAND: u32 = 20;

/// Seconds to wait after attempt number `attempt` has failed: two to the
/// power of `attempt`.
pub open spec fn backoff_secs(attempt: nat) -> nat
    decreases attempt,
{
    if attempt == 0 {
        1
    } else {
        2 * backoff_secs((attempt - 1) as nat)
    }
}

/// Where a call stands.
#[derive(Debug, PartialEq, Eq, Clone, Copy, Structural)]
pub enum RetryPhase {
    /// An attempt is to be made, or is under way.
    Sending,
    /// The last attempt failed and its wait is to be sat out.
    Waiting,
    /// An attempt succeeded.
    Succeeded,
    /// The last attempt allowed has failed and its wait is over.
    Failed,
}

/// What happened to a call.
#[derive(Debug, PartialEq, Eq, Clone, Copy, Structural)]
pub enum RetryEvent {
    /// The attempt was answered with a success status.
    AttemptSucceeded,
    /// The attempt met a transport error or another status.
    AttemptFailed,
    /// The wait has been sat out.
    WaitOver,
}

/// What the caller does next.
#[derive(Debug, PartialEq, Eq, Clone, Copy, Structural)]
pub enum RetryStep {
    /// Make the attempt with this number.
    Send { attempt: u32 },
    /// Wait this many seconds, then report `WaitOver`.
    Wait { secs: u64 },
    /// The call went through. For a segment: delete the local file and
    /// count the upload as completed.
    Done,
    /// The call failed for good. For a segment: keep the local file; the
    /// recording goes on.
    GiveUp,
}

/// A call's attempt number and phase, as contracts speak of them.
pub ghost struct RetryView {
    pub attempt: u32,
    pub phase: RetryPhase,
}

impl RetryView {
    /// The call after `event`. A failed attempt is followed by its wait;
    /// after the wait comes the next attempt, or failure once
    /// `MAX_ATTEMPTS` have been made. An event that does not fit the phase
    /// changes nothing.
    pub open spec fn after(self, event: RetryEvent) -> RetryView {
        match (self.phase, event) {
            (RetryPhase::Sending, RetryEvent::AttemptSucceeded) => RetryView { phase: RetryPhase::Succeeded, ..self },
            (RetryPhase::Sending, RetryEvent::AttemptFailed) => RetryView { phase: RetryPhase::Waiting, ..self },
            (RetryPhase::Waiting, RetryEvent::WaitOver) => if self.attempt < MAX_ATTEMPTS {
                RetryView { attempt: (self.attempt + 1) as u32, phase: RetryPhase::Sending }
            } else {
                RetryView { phase: RetryPhase::Failed, ..self }
            },
            _ => self,
        }
    }

    /// What the caller is to do in this state.
    pub open spec fn step(self) -> RetryStep {
        match self.phase {
            RetryPhase::Sending => RetryStep::Send { attempt: self.attempt },
            RetryPhase::Waiting => RetryStep::Wait { secs: backoff_secs(self.attempt as nat) as u64 },
            RetryPhase::Succeeded => RetryStep::Done,
            RetryPhase::Failed => RetryStep::GiveUp,
        }
    }

    /// The call after `rounds` attempts have failed in a row and each wait
    /// has been sat out.
    pub open spec fn after_failures(self, rounds: nat) -> RetryView
        decreases rounds,
    {
        if rounds == 0 {
            self
        } else {
            self.after(RetryEvent::AttemptFailed).after(RetryEvent::WaitOver).after_failures((rounds - 1) as nat)
        }
    }
}

/// The state of one call that is retried on failure.
#[derive(Debug)]
pub struct RetryState {
    attempt: u32,
    phase: RetryPhase,
}

impl RetryState {
    pub closed spec fn view(&self) -> RetryView {
        RetryView { attempt: self.attempt, phase: self.phase }
    }

    #[verifier::type_invariant]
    closed spec fn attempts_bounded(&self) -> bool {
        1 <= self.attempt <= MAX_ATTEMPTS
    }

    /// A call whose first attempt is to be made.
    pub fn new() -> (state: Self)
        ensures
            state@ == (RetryView { attempt: 1, phase: RetryPhase::Sending }),
    {
        RetryState { attempt: 1, phase: RetryPhase::Sending }
    }

    /// Number of the attempt last begun; from 1 to `MAX_ATTEMPTS`.
    pub fn attempt(&self) -> (attempt: u32)
        ensures
            attempt == self@.attempt,
            1 <= attempt <= MAX_ATTEMPTS,
    {
        proof {
            use_type_invariant(self);
        }
        self.attempt
    }

    pub fn phase(&self) -> (phase: RetryPhase)
        ensures
            phase == self@.phase,
    {
        self.phase
    }

    /// What the caller is to do now.
    pub fn step(&self) -> (step: RetryStep)
        ensures
            step == self@.step(),
            step matches RetryStep::Wait { secs } ==> secs == backoff_secs(self@.attempt as nat),
    {
        proof {
            use_type_invariant(self);
        }
        match self.phase {
            RetryPhase::Sending => RetryStep::Send { attempt: self.attempt },
            RetryPhase::Waiting => RetryStep::Wait { secs: backoff(self.attempt) },
            RetryPhase::Succeeded => RetryStep::Done,
            RetryPhase::Failed => RetryStep::GiveUp,
        }
    }

    /// Takes note of `event` and says what to do next.
    pub fn on(&mut self, event: RetryEvent) -> (step: RetryStep)
        ensures
            final(self)@ == old(self)@.after(event),
            step == final(self)@.step(),
    {
        proof {
            use_type_invariant(&*self);
        }
        match (self.phase, event) {
            (RetryPhase::Sending, RetryEvent::AttemptSucceeded) => {
                self.phase = RetryPhase::Succeeded;
            },
            (RetryPhase::Sending, RetryEvent::AttemptFailed) => {
                self.phase = RetryPhase::Waiting;
            },
            (RetryPhase::Waiting, RetryEvent::WaitOver) => {
                if self.attempt < MAX_ATTEMPTS {
                    *self = RetryState { attempt: self.attempt + 1, phase: RetryPhase::Sending };
                } else {
                    self.phase = RetryPhase::Failed;
                }
            },
            _ => {},
        }
        self.step()
    }
}

/// Two to the power of `attempt`, for the attempts that are made.
fn backoff(attempt: u32) -> (secs: u64)
    requires
        attempt <= MAX_ATTEMPTS,
    ensures
        secs == backoff_secs(attempt as nat),
        secs <= 32,
{
    let mut secs: u64 = 1;
    let mut done: u32 = 0;
    while done < attempt
        invariant
            done <= attempt <= MAX_ATTEMPTS,
            secs == backoff_secs(done as nat),
            secs <= 32,
            done < 5 ==> secs <= 16,
            done < 4 ==> secs <= 8,
            done < 3 ==> secs <= 4,
            done < 2 ==> secs <= 2,
            done < 1 ==> secs <= 1,
        decreases attempt - done,
    {
        secs = secs * 2;
        done = done + 1;
    }
    secs
}

/// A run of failures uses up the attempts: from the attempt numbered
/// `state.attempt`, as many failed attempts as are left, each with its wait
/// sat out, end in `Failed`, with the attempt number at `MAX_ATTEMPTS`;
/// any shorter run of failures leaves a further attempt to be made.
pub proof fn lemma_failures_exhaust_attempts(state: RetryView, rounds: nat)
    requires
        state.phase == RetryPhase::Sending,
        1 <= state.attempt <= MAX_ATTEMPTS,
        rounds <= MAX_ATTEMPTS - state.attempt + 1,
    ensures
        rounds == MAX_ATTEMPTS - state.attempt + 1 ==> state.after_failures(rounds) == (RetryView {
            attempt: MAX_ATTEMPTS,
            phase: RetryPhase::Failed,
        }),
        rounds < MAX_ATTEMPTS - state.attempt + 1 ==> state.after_failures(rounds) == (RetryView {
            attempt: (state.attempt + rounds) as u32,
            phase: RetryPhase::Sending,
        }),
    decreases rounds,
{
    if rounds > 0 {
        let next = state.after(RetryEvent::AttemptFailed).after(RetryEvent::WaitOver);
        if state.attempt < MAX_ATTEMPTS {
            lemma_failures_exhaust_attempts(next, (rounds - 1) as nat);
        } else {
            assert(rounds == 1);
            assert(next.after_failures(0) == next);
        }
    }
}

/// The wait after a failed attempt doubles from one attempt to the next,
/// starting at two seconds.
pub proof fn lemma_backoff_doubles(attempt: nat)
    ensures
        backoff_secs(1) == 2,
        backoff_secs(attempt + 1) == 2 * backoff_secs(attempt),
{
    reveal_with_fuel(backoff_secs, 2);
}

/// Address to which a segment is posted.
pub open spec fn segment_url_of(api_url: Seq<char>, recording_id: i64, sequence: i32) -> Seq<char> {
    api_url + "/recordings/"@ + signed_decimal(recording_id as int) + "/segment?sequence="@ + signed_decimal(
        sequence as int,
    )
}

/// Address that marks a recording complete.
pub open spec fn finalize_url_of(api_url: Seq<char>, recording_id: i64) -> Seq<char> {
    api_url + "/recordings/"@ + signed_decimal(recording_id as int) + "/finalize"@
}

pub fn segment_url(api_url: &str, recording_id: i64, sequence: i32) -> (url: String)
    ensures
        url@ == segment_url_of(api_url@, recording_id, sequence),
{
    let mut url = String::from_str(api_url);
    url.append("/recordings/");
    push_signed_decimal(&mut url, recording_id);
    url.append("/segment?sequence=");
    push_signed_decimal(&mut url, sequence as i64);
    url
}

pub fn finalize_url(api_url: &str, recording_id: i64) -> (url: String)
    ensures
        url@ == finalize_url_of(api_url@, recording_id),
{
    let mut url = String::from_str(api_url);
    url.append("/recordings/");
    push_signed_decimal(&mut url, recording_id);
    url.append("/finalize");
    url
}

/// Address that opens a recording.
pub fn init_url(api_url: &str) -> (url: String)
    ensures
        url@ == api_url@ + "/recordings/init"@,
{
    let mut url = String::from_str(api_url);
    url.append("/recordings/init");
    url
}

/// Address that tells whether the remote service is up.
pub fn status_url(api_url: &str) -> (url: String)
    ensures
        url@ == api_url@ + "/system/status"@,
{
    let mut url = String::from_str(api_url);
    url.append("/system/status");
    url
}

/// Value of the authorization header for `token`.
pub fn bearer(token: &str) -> (value: String)
    ensures
        value@ == "Bearer "@ + token@,
{
    let mut value = String::from_str("Bearer ");
    value.append(token);
    value
}

/// A call that settles a recording.
#[derive(Debug, PartialEq, Eq, Clone, Copy, Structural)]
pub enum RemoteCall {
    Delete,
    Finalize,
}

/// The call with which settling starts: a recording to discard is deleted,
/// any other is finalized.
pub fn first_call(disposition: Disposition) -> (call: RemoteCall)
    ensures
        call == (match disposition {
            Disposition::Discard => RemoteCall::Delete,
            Disposition::Finalize => RemoteCall::Finalize,
        }),
{
    match disposition {
        Disposition::Discard => RemoteCall::Delete,
        Disposition::Finalize => RemoteCall::Finalize,
    }
}

/// The call that follows `call`: a recording whose deletion failed is
/// finalized instead, so that it can still be dealt with by hand; nothing
/// follows otherwise.
pub fn call_after(call: RemoteCall, succeeded: bool) -> (next: Option<RemoteCall>)
    ensures
        next == (if call == RemoteCall::Delete && !succeeded {
            Some(RemoteCall::Finalize)
        } else {
            None
        }),
{
    match call {
        RemoteCall::Delete => if succeeded {
            None
        } else {
            Some(RemoteCall::Finalize)
        },
        RemoteCall::Finalize => None,
    }
}

/// Share of the uploads submitted that have been completed, on the scale
/// `0..=UPLOAD_PROGRESS_BAND`, rounded down; 0 while nothing is submitted.
pub open spec fn progress_of(submitted: u32, completed: u32) -> nat {
    if submitted == 0 {
        0
    } else {
        (completed as nat * UPLOAD_PROGRESS_BAND as nat) / submitted as nat
    }
}

/// The uploads of a session, counted.
pub ghost struct TallyView {
    pub submitted: u32,
    pub completed: u32,
    pub failed: u32,
}

#[derive(Debug)]
pub struct UploadTally {
    submitted: u32,
    completed: u32,
    failed: u32,
}

impl UploadTally {
    pub closed spec fn view(&self) -> TallyView {
        TallyView { submitted: self.submitted, completed: self.completed, failed: self.failed }
    }

    #[verifier::type_invariant]
    closed spec fn settled_within_submitted(&self) -> bool {
        self.completed + self.failed <= self.submitted
    }

    pub fn new() -> (tally: Self)
        ensures
            tally@ == (TallyView { submitted: 0, completed: 0, failed: 0 }),
    {
        UploadTally { submitted: 0, completed: 0, failed: 0 }
    }

    /// Number of segments handed to the uploader.
    pub fn submitted(&self) -> (count: u32)
        ensures
            count == self@.submitted,
    {
        self.submitted
    }

    /// Number of uploads that went through.
    pub fn completed(&self) -> (count: u32)
        ensures
            count == self@.completed,
    {
        self.completed
    }

    /// Number of uploads that failed for good.
    pub fn failed(&self) -> (count: u32)
        ensures
            count == self@.failed,
    {
        self.failed
    }

    /// Counts a segment handed to the uploader.
    pub fn submit(&mut self)
        requires
            old(self)@.submitted < u32::MAX,
        ensures
            final(self)@ == (TallyView { submitted: (old(self)@.submitted + 1) as u32, ..old(self)@ }),
    {
        proof {
            use_type_invariant(&*self);
        }
        self.submitted = self.submitted + 1;
    }

    /// Counts the end of an upload. One that is not outstanding is not
    /// counted.
    pub fn settle(&mut self, succeeded: bool)
        ensures
            final(self)@ == (if old(self)@.completed + old(self)@.failed >= old(self)@.submitted {
                old(self)@
            } else if succeeded {
                TallyView { completed: (old(self)@.completed + 1) as u32, ..old(self)@ }
            } else {
                TallyView { failed: (old(self)@.failed + 1) as u32, ..old(self)@ }
            }),
    {
        proof {
            use_type_invariant(&*self);
        }
        if self.outstanding() == 0 {
            return ;
        }
        if succeeded {
            self.completed = self.completed + 1;
        } else {
            self.failed = self.failed + 1;
        }
    }

    /// Number of uploads submitted and not yet ended.
    pub fn outstanding(&self) -> (count: u32)
        ensures
            count == self@.submitted - self@.completed - self@.failed,
    {
        proof {
            use_type_invariant(self);
        }
        self.submitted - self.completed - self.failed
    }

    /// Progress of the uploads within their band of the overall progress.
    pub fn progress(&self) -> (percent: u32)
        ensures
            percent == progress_of(self@.submitted, self@.completed),
            percent <= UPLOAD_PROGRESS_BAND,
    {
        proof {
            use_type_invariant(self);
        }
        if self.submitted == 0 {
            0
        } else {
            assert(UPLOAD_PROGRESS_BAND == 20);
            let scaled: u64 = self.completed as u64 * 20;
            let percent: u64 = scaled / self.submitted as u64;
            assert(percent <= 20) by (nonlinear_arith)
                requires
                    scaled <= 20 * self.submitted,
                    self.submitted > 0,
                    percent == scaled / (self.submitted as u64),
            ;
            percent as u32
        }
    }
}

} // verus!
