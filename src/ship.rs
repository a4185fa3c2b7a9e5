use vstd::prelude::*;

use crate::retry::{RetryDecision, RetryPolicy};

verus! {

/// Log group that records are shipped to.
pub const LOG_GROUP_NAME: &'static str = "test-group";

/// Log stream, inside the group, that records are shipped to.
pub const LOG_STREAM_NAME: &'static str = "test-stream";

/// One stream of a describe response: its name and its current write token.
pub struct StreamInfo {
    pub log_stream_name: Option<String>,
    pub upload_sequence_token: Option<String>,
}

/// One append call: a single entry, sent with the write token last seen.
pub struct AppendRequest {
    pub log_group_name: String,
    pub log_stream_name: String,
    pub sequence_token: Option<String>,
    pub message: String,
    pub timestamp: i64,
}

pub open spec fn opt_view(o: Option<String>) -> Option<Seq<char>> {
    match o {
        Some(s) => Some(s@),
        None => None,
    }
}

pub open spec fn names_stream(s: StreamInfo, name: Seq<char>) -> bool {
    match s.log_stream_name {
        Some(n) => n@ == name,
        None => false,
    }
}

/// Index of the first stream called `name`, if any.
pub open spec fn is_first_named(streams: Seq<StreamInfo>, name: Seq<char>, i: int) -> bool {
    &&& 0 <= i < streams.len()
    &&& names_stream(streams[i], name)
    &&& forall|j: int| 0 <= j < i ==> !names_stream(#[trigger] streams[j], name)
}

fn clone_token(t: &Option<String>) -> (r: Option<String>)
    ensures
        opt_view(r) == opt_view(*t),
{
    match t {
        Some(s) => Some(s.clone()),
        None => None,
    }
}

/// The write token of the first stream called `name`; `None` when no stream is.
pub fn find_stream_token(streams: &Vec<StreamInfo>, name: &str) -> (r: Option<Option<String>>)
    ensures
        r is None <==> forall|i: int| 0 <= i < streams@.len() ==> !names_stream(#[trigger] streams@[i], name@),
        r is Some ==> exists|i: int| is_first_named(streams@, name@, i)
            && opt_view(r->0) == opt_view(streams@[i].upload_sequence_token),
{
    let target = String::from_str(name);
    let mut i: usize = 0;
    while i < streams.len()
        invariant
            i <= streams@.len(),
            target@ == name@,
            forall|j: int| 0 <= j < i ==> !names_stream(#[trigger] streams@[j], name@),
        decreases streams@.len() - i,
    {
        let s = &streams[i];
        match &s.log_stream_name {
            Some(n) => {
                if n.eq(&target) {
                    let t = clone_token(&s.upload_sequence_token);
                    assert(is_first_named(streams@, name@, i as int));
                    return Some(t);
                }
            },
            None => {},
        }
        i = i + 1;
    }
    None
}

/// The append call for one rendered line, to the configured group and stream.
pub fn build_request(token: Option<String>, message: &String, timestamp: i64) -> (r: AppendRequest)
    ensures
        r.log_group_name@ == LOG_GROUP_NAME@,
        r.log_stream_name@ == LOG_STREAM_NAME@,
        opt_view(r.sequence_token) == opt_view(token),
        r.message@ == message@,
        r.timestamp == timestamp,
{
    AppendRequest {
        log_group_name: String::from_str(LOG_GROUP_NAME),
        log_stream_name: String::from_str(LOG_STREAM_NAME),
        sequence_token: token,
        message: message.clone(),
        timestamp,
    }
}

/// Where one shipping sequence stands.
#[derive(Clone, Copy, Debug, PartialEq, Eq, Structural)]
pub enum Phase {
    /// Waiting for the answer to a describe call.
    Describing,
    /// Waiting for the answer to an append call.
    Appending,
    /// The record was appended.
    Delivered,
    /// The outer attempts ran out: the record is dropped.
    Abandoned,
}

/// What the backend answered to the last request.
pub enum Event {
    DescribeFailed,
    Described(Vec<StreamInfo>),
    AppendFailed,
    Appended,
}

/// The next thing to do for the sequence.
pub enum Action {
    /// Wait this long, then describe the stream.
    Describe { after_ms: u64 },
    /// Send this append call now.
    Append(AppendRequest),
    /// The record was delivered.
    Done,
    /// The record is dropped.
    GiveUp,
    /// The event did not belong to the current phase; nothing changes.
    Ignore,
}

/// The describe-then-append sequence that ships one rendered line. Each describe
/// runs under `inner`; the whole sequence runs under `outer`, so a failed or
/// conflicting append starts again from a fresh describe.
pub struct Shipper {
    pub outer: RetryPolicy,
    pub inner: RetryPolicy,
    pub message: String,
    pub timestamp: i64,
    pub phase: Phase,
    /// Failed passes of the whole sequence.
    pub outer_failures: u64,
    /// Failed describes in the current pass.
    pub inner_failures: u64,
    /// Describe calls asked for so far.
    pub describes: Ghost<nat>,
    /// Append calls asked for so far.
    pub appends: Ghost<nat>,
}

impl Shipper {
    pub open spec fn wf(&self) -> bool {
        let o = self.outer.max_retries as nat;
        let n = self.inner.max_retries as nat + 1;
        let of = self.outer_failures as nat;
        let inf = self.inner_failures as nat;
        match self.phase {
            Phase::Describing => of <= o && inf < n && self.describes@ <= of * n + inf + 1
                && self.appends@ <= of,
            Phase::Appending | Phase::Delivered => of <= o && inf < n && self.describes@ <= of
                * n + inf + 1 && self.appends@ <= of + 1,
            Phase::Abandoned => of == o + 1 && self.describes@ <= of * n && self.appends@ <= of,
        }
    }

    /// Policies, record and timestamp never change.
    pub open spec fn same_record(&self, other: Shipper) -> bool {
        &&& other.outer == self.outer
        &&& other.inner == self.inner
        &&& other.message@ == self.message@
        &&& other.timestamp == self.timestamp
    }

    /// The whole pass failed: count it, and start a new pass or give up.
    pub open spec fn outer_failed(&self, post: Shipper, r: Action) -> bool {
        let f = self.outer_failures + 1;
        &&& post.outer_failures == f
        &&& post.inner_failures == 0
        &&& post.appends@ == self.appends@
        &&& match self.outer.decide(f as nat) {
            RetryDecision::RetryAfter(ms) => post.phase == Phase::Describing && r == (Action::Describe {
                after_ms: ms,
            }) && post.describes@ == self.describes@ + 1,
            RetryDecision::GiveUp => post.phase == Phase::Abandoned && r == Action::GiveUp
                && post.describes@ == self.describes@,
        }
    }

    /// A new sequence for one line, whose first request is a describe.
    pub fn new(outer: RetryPolicy, inner: RetryPolicy, message: String, timestamp: i64) -> (r: Shipper)
        ensures
            r.wf(),
            r.outer == outer,
            r.inner == inner,
            r.message@ == message@,
            r.timestamp == timestamp,
            r.phase == Phase::Describing,
            r.outer_failures == 0,
            r.inner_failures == 0,
            r.describes@ == 1,
            r.appends@ == 0,
    {
        Shipper {
            outer,
            inner,
            message,
            timestamp,
            phase: Phase::Describing,
            outer_failures: 0,
            inner_failures: 0,
            describes: Ghost(1),
            appends: Ghost(0),
        }
    }

    fn fail_outer(&mut self) -> (r: Action)
        requires
            old(self).phase == Phase::Describing || old(self).phase == Phase::Appending,
            old(self).outer_failures <= old(self).outer.max_retries,
            old(self).inner_failures <= old(self).inner.max_retries,
            old(self).describes@ <= (old(self).outer_failures + 1) * (old(self).inner.max_retries
                + 1),
            old(self).appends@ <= old(self).outer_failures + 1,
        ensures
            final(self).wf(),
            old(self).same_record(*final(self)),
            old(self).outer_failed(*final(self), r),
    {
        let f = self.outer_failures + 1;
        self.outer_failures = f;
        self.inner_failures = 0;
        match self.outer.on_failure(f) {
            RetryDecision::RetryAfter(ms) => {
                self.phase = Phase::Describing;
                self.describes = Ghost(self.describes@ + 1);
                Action::Describe { after_ms: ms }
            },
            RetryDecision::GiveUp => {
                self.phase = Phase::Abandoned;
                Action::GiveUp
            },
        }
    }

    /// Takes the backend's answer to the last request and returns the next step.
    pub fn step(&mut self, event: Event) -> (r: Action)
        requires
            old(self).wf(),
        ensures
            final(self).wf(),
            old(self).same_record(*final(self)),
            match (old(self).phase, event) {
                (Phase::Describing, Event::DescribeFailed) => {
                    let f = old(self).inner_failures + 1;
                    match old(self).inner.decide(f as nat) {
                        RetryDecision::RetryAfter(ms) => final(self).phase == Phase::Describing
                            && final(self).inner_failures == f && final(self).outer_failures
                            == old(self).outer_failures && r == (Action::Describe { after_ms: ms })
                            && final(self).describes@ == old(self).describes@ + 1
                            && final(self).appends@ == old(self).appends@,
                        RetryDecision::GiveUp => old(self).outer_failed(*final(self), r),
                    }
                },
                (Phase::Describing, Event::Described(streams)) => {
                    if forall|i: int| 0 <= i < streams@.len() ==> !names_stream(#[trigger] streams@[i], LOG_STREAM_NAME@) {
                        old(self).outer_failed(*final(self), r)
                    } else {
                        &&& final(self).phase == Phase::Appending
                        &&& final(self).outer_failures == old(self).outer_failures
                        &&& final(self).inner_failures == old(self).inner_failures
                        &&& final(self).describes@ == old(self).describes@
                        &&& final(self).appends@ == old(self).appends@ + 1
                        &&& r matches Action::Append(req)
                        &&& req.log_group_name@ == LOG_GROUP_NAME@
                        &&& req.log_stream_name@ == LOG_STREAM_NAME@
                        &&& req.message@ == old(self).message@
                        &&& req.timestamp == old(self).timestamp
                        &&& exists|i: int| is_first_named(streams@, LOG_STREAM_NAME@, i)
                            && opt_view(req.sequence_token) == opt_view(streams@[i].upload_sequence_token)
                    }
                },
                (Phase::Appending, Event::AppendFailed) => old(self).outer_failed(*final(self), r),
                (Phase::Appending, Event::Appended) => {
                    &&& final(self).phase == Phase::Delivered
                    &&& r == Action::Done
                    &&& final(self).outer_failures == old(self).outer_failures
                    &&& final(self).inner_failures == old(self).inner_failures
                    &&& final(self).describes@ == old(self).describes@
                    &&& final(self).appends@ == old(self).appends@
                },
                _ => *final(self) == *old(self) && r == Action::Ignore,
            },
    {
        let ghost n = self.inner.max_retries as nat + 1;
        let ghost of = self.outer_failures as nat;
        proof {
            assert(of * n + n == (of + 1) * n) by (nonlinear_arith);
        }
        match (self.phase, event) {
            (Phase::Describing, Event::DescribeFailed) => {
                let f = self.inner_failures + 1;
                match self.inner.on_failure(f) {
                    RetryDecision::RetryAfter(ms) => {
                        self.inner_failures = f;
                        self.describes = Ghost(self.describes@ + 1);
                        Action::Describe { after_ms: ms }
                    },
                    RetryDecision::GiveUp => self.fail_outer(),
                }
            },
            (Phase::Describing, Event::Described(streams)) => {
                match find_stream_token(&streams, LOG_STREAM_NAME) {
                    Some(token) => {
                        let req = build_request(token, &self.message, self.timestamp);
                        self.phase = Phase::Appending;
                        self.appends = Ghost(self.appends@ + 1);
                        Action::Append(req)
                    },
                    None => self.fail_outer(),
                }
            },
            (Phase::Appending, Event::AppendFailed) => self.fail_outer(),
            (Phase::Appending, Event::Appended) => {
                self.phase = Phase::Delivered;
                Action::Done
            },
            _ => Action::Ignore,
        }
    }
}

/// However the backend answers, one shipping sequence asks for at most
/// `outer.max_attempts() * inner.max_attempts()` describes and at most
/// `outer.max_attempts()` appends.
pub proof fn lemma_requests_bounded(s: Shipper)
    requires
        s.wf(),
    ensures
        s.describes@ <= s.outer.max_attempts() * s.inner.max_attempts(),
        s.appends@ <= s.outer.max_attempts(),
{
    let o = s.outer.max_retries as nat;
    let n = s.inner.max_retries as nat + 1;
    let of = s.outer_failures as nat;
    let inf = s.inner_failures as nat;
    if s.phase == Phase::Abandoned {
        assert(of * n <= (o + 1) * n) by (nonlinear_arith)
            requires
                of == o + 1,
        ;
    } else {
        assert(of * n + inf + 1 <= (o + 1) * n) by (nonlinear_arith)
            requires
                of <= o,
                inf < n,
        ;
    }
}

/// Two sequences dispatched side by side under the same policies, however
/// their requests interleave and whatever conflicts the backend reports, ask
/// together for at most `2 * outer.max_attempts() * inner.max_attempts()`
/// describes and `2 * outer.max_attempts()` appends.
pub proof fn lemma_concurrent_requests_bounded(a: Shipper, b: Shipper)
    requires
        a.wf(),
        b.wf(),
        a.outer == b.outer,
        a.inner == b.inner,
    ensures
        a.describes@ + b.describes@ <= 2 * a.outer.max_attempts() * a.inner.max_attempts(),
        a.appends@ + b.appends@ <= 2 * a.outer.max_attempts(),
{
    lemma_requests_bounded(a);
    lemma_requests_bounded(b);
    let x = a.outer.max_attempts();
    let y = a.inner.max_attempts();
    assert(2 * x * y == 2 * (x * y)) by (nonlinear_arith);
}

} // verus!
