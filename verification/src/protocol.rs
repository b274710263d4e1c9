//! The session with the local Codex App Server: the handshake, the requests
//! for rate limits, and what each line that the server writes leads to.
//!
//! The server speaks JSON lines. The caller reads a line, parses it, and hands
//! the session a `LineEvent`; the session answers with what to do next.
use crate::usage::RateLimitBucket;
use vstd::prelude::*;

verus! {

/// The limit id of the overall Codex bucket.
pub open spec fn main_limit_id() -> Seq<char> {
    "codex"@
}

/// The method of the notification that carries updated rate limits.
pub open spec fn rate_limits_updated_method() -> Seq<char> {
    "account/rateLimits/updated"@
}

/// The result of an `account/rateLimits/read` request.
pub struct RateLimitsReadResult {
    /// The single bucket of the single-bucket shape.
    pub rate_limits: Option<RateLimitBucket>,
    /// The buckets of the multi-bucket shape, by limit id, in the order read.
    /// A JSON object holds each id once; the selection below is defined for
    /// any list and takes the first bucket with the main id.
    pub rate_limits_by_limit_id: Vec<(String, RateLimitBucket)>,
}

/// The parameters of an `account/rateLimits/updated` notification.
pub struct RateLimitsUpdatedParams {
    pub rate_limits: RateLimitBucket,
}

/// Index of the first bucket whose limit id is `id`, if there is one.
pub open spec fn first_with_id(entries: Seq<(String, RateLimitBucket)>, id: Seq<char>) -> Option<int>
    decreases entries.len(),
{
    if entries.len() == 0 {
        None
    } else if entries[0].0@ == id {
        Some(0)
    } else {
        match first_with_id(entries.drop_first(), id) {
            Some(i) => Some(i + 1),
            None => None,
        }
    }
}

/// The bucket that the dock shows from a read result: the single bucket if
/// there is one, else the bucket with the main limit id, else the first bucket
/// read, else none.
pub open spec fn main_bucket(response: RateLimitsReadResult) -> Option<RateLimitBucket> {
    let entries = response.rate_limits_by_limit_id@;
    match response.rate_limits {
        Some(bucket) => Some(bucket),
        None => match first_with_id(entries, main_limit_id()) {
            Some(i) => Some(entries[i].1),
            None => if entries.len() > 0 {
                Some(entries[0].1)
            } else {
                None
            },
        },
    }
}

proof fn lemma_first_with_id(entries: Seq<(String, RateLimitBucket)>, id: Seq<char>)
    ensures
        match first_with_id(entries, id) {
            Some(i) => 0 <= i < entries.len() && entries[i].0@ == id && forall|k: int|
                0 <= k < i ==> entries[k].0@ != id,
            None => forall|k: int| 0 <= k < entries.len() ==> entries[k].0@ != id,
        },
    decreases entries.len(),
{
    if entries.len() > 0 && entries[0].0@ != id {
        let rest = entries.drop_first();
        lemma_first_with_id(rest, id);
        assert forall|k: int| 1 <= k < entries.len() implies entries[k] == rest[k - 1] by {}
    }
}

proof fn lemma_first_with_id_prefix(entries: Seq<(String, RateLimitBucket)>, id: Seq<char>, n: int)
    requires
        0 <= n <= entries.len(),
        forall|k: int| 0 <= k < n ==> entries[k].0@ != id,
        n < entries.len() ==> entries[n].0@ == id,
    ensures
        n < entries.len() ==> first_with_id(entries, id) == Some(n),
        n == entries.len() ==> first_with_id(entries, id) is None,
{
    lemma_first_with_id(entries, id);
    match first_with_id(entries, id) {
        Some(i) => {
            if i < n {
                assert(entries[i].0@ != id);
            }
            if n < i {
                assert(entries[n].0@ != id);
            }
        },
        None => {
            if n < entries.len() {
                assert(entries[n].0@ != id);
            }
        },
    }
}

/// The dock shows a bucket exactly when the result has the single-bucket
/// shape or at least one bucket by limit id; in the multi-bucket shape it
/// shows the first bucket whose limit id is `codex`, when there is one.
pub proof fn lemma_main_bucket_choice(response: RateLimitsReadResult, i: int)
    ensures
        main_bucket(response) is Some <==> (response.rate_limits is Some
            || response.rate_limits_by_limit_id@.len() > 0),
        response.rate_limits is None && 0 <= i < response.rate_limits_by_limit_id@.len()
            && response.rate_limits_by_limit_id@[i].0@ == main_limit_id() && (forall|k: int|
            0 <= k < i ==> response.rate_limits_by_limit_id@[k].0@ != main_limit_id())
            ==> main_bucket(response) == Some(response.rate_limits_by_limit_id@[i].1),
{
    let entries = response.rate_limits_by_limit_id@;
    lemma_first_with_id(entries, main_limit_id());
    if 0 <= i < entries.len() && entries[i].0@ == main_limit_id() && (forall|k: int|
        0 <= k < i ==> entries[k].0@ != main_limit_id()) {
        lemma_first_with_id_prefix(entries, main_limit_id(), i);
    }
}

/// The single bucket, when the result has one, is always the one shown,
/// whatever buckets by limit id come with it.
pub proof fn lemma_single_bucket_wins(response: RateLimitsReadResult)
    ensures
        response.rate_limits matches Some(b) ==> main_bucket(response) == Some(b),
{
}

/// Picks the bucket to show from a read result (see `main_bucket`).
pub fn select_main_bucket(response: RateLimitsReadResult) -> (bucket: Option<RateLimitBucket>)
    ensures
        bucket == main_bucket(response),
{
    if let Some(bucket) = response.rate_limits {
        return Some(bucket);
    }
    let entries = &response.rate_limits_by_limit_id;
    let main_id = String::from_str("codex");
    let mut i: usize = 0;
    while i < entries.len()
        invariant
            0 <= i <= entries.len(),
            main_id@ == main_limit_id(),
            response.rate_limits is None,
            entries@ == response.rate_limits_by_limit_id@,
            forall|k: int| 0 <= k < i ==> entries@[k].0@ != main_limit_id(),
        decreases entries.len() - i,
    {
        if entries[i].0 == main_id {
            proof {
                lemma_first_with_id_prefix(entries@, main_limit_id(), i as int);
            }
            return Some(entries[i].1);
        }
        i = i + 1;
    }
    proof {
        lemma_first_with_id_prefix(entries@, main_limit_id(), i as int);
    }
    if entries.len() > 0 {
        Some(entries[0].1)
    } else {
        None
    }
}

} // verus!

verus! {

/// What the caller read of one JSON line from the server. Each field keeps
/// what the line's object holds under a member:
/// - `id`: the `id` member when it is an unsigned integer;
/// - `error`: the `error` member, written back as JSON text, when present;
/// - `result`: when the `result` member is present, it read as a
///   `RateLimitsReadResult`, or the text of the error that reading it gave;
/// - `result_text`: the `result` member, written back as JSON text, when
///   present;
/// - `method`: the `method` member when it is a string;
/// - `params`: the `params` member (JSON `null` when absent) read as
///   `RateLimitsUpdatedParams`, or the text of the error that gave.
pub struct ServerMessage {
    pub id: Option<u64>,
    pub error: Option<String>,
    pub result: Option<Result<RateLimitsReadResult, String>>,
    pub result_text: Option<String>,
    pub method: Option<String>,
    pub params: Result<RateLimitsUpdatedParams, String>,
}

/// What reading the next line from the server gave.
pub enum LineEvent {
    /// A line that parsed as JSON.
    Message(ServerMessage),
    /// A line that did not parse as JSON, with the parser's error.
    InvalidJson(String),
    /// Reading failed, with the reader's error.
    ReadFailed(String),
    /// The server closed its output.
    Closed,
}

/// Why a session with the server ended.
pub enum SessionError {
    /// The server process could not be started: the binary and the error.
    SpawnFailed { binary: String, detail: String },
    StdinUnavailable,
    StdoutUnavailable,
    InitTimedOut,
    ReadFailed(String),
    StoppedDuringInit,
    Stopped,
    InvalidJson(String),
    /// The server answered `initialize` with an error (its JSON text).
    InitRejected(String),
    /// The server answered a rate-limit read with an error (its JSON text).
    UsageRejected(String),
    UsageUnparsable(String),
    UpdateUnparsable(String),
    SerializeFailed(String),
    WriteFailed(String),
    FlushFailed(String),
}

impl SessionError {
    /// The message shown to the user for this error.
    pub open spec fn spec_message(self) -> Seq<char> {
        match self {
            SessionError::SpawnFailed { binary, detail } => "Could not start Codex App Server at "@
                + binary@ + ": "@ + detail@,
            SessionError::StdinUnavailable => "Codex App Server stdin was unavailable"@,
            SessionError::StdoutUnavailable => "Codex App Server stdout was unavailable"@,
            SessionError::InitTimedOut => "Codex App Server initialization timed out"@,
            SessionError::ReadFailed(d) => "Could not read Codex App Server output: "@ + d@,
            SessionError::StoppedDuringInit => "Codex App Server stopped during initialization"@,
            SessionError::Stopped => "Codex App Server stopped"@,
            SessionError::InvalidJson(d) => "Codex App Server returned invalid JSON: "@ + d@,
            SessionError::InitRejected(e) => "Codex App Server rejected initialization: "@ + e@,
            SessionError::UsageRejected(e) => "Could not read Codex usage: "@ + e@,
            SessionError::UsageUnparsable(d) => "Could not parse Codex usage: "@ + d@,
            SessionError::UpdateUnparsable(d) => "Could not parse a Codex usage update: "@ + d@,
            SessionError::SerializeFailed(d) => "Could not serialize an App Server request: "@
                + d@,
            SessionError::WriteFailed(d) => "Could not write to Codex App Server: "@ + d@,
            SessionError::FlushFailed(d) => "Could not flush Codex App Server input: "@ + d@,
        }
    }

    /// The message shown to the user for this error.
    pub fn message(&self) -> (text: String)
        ensures
            text@ == self.spec_message(),
    {
        match self {
            SessionError::SpawnFailed { binary, detail } => String::from_str(
                "Could not start Codex App Server at ",
            ).concat(binary.as_str()).concat(": ").concat(detail.as_str()),
            SessionError::StdinUnavailable => String::from_str(
                "Codex App Server stdin was unavailable",
            ),
            SessionError::StdoutUnavailable => String::from_str(
                "Codex App Server stdout was unavailable",
            ),
            SessionError::InitTimedOut => String::from_str(
                "Codex App Server initialization timed out",
            ),
            SessionError::ReadFailed(d) => String::from_str(
                "Could not read Codex App Server output: ",
            ).concat(d.as_str()),
            SessionError::StoppedDuringInit => String::from_str(
                "Codex App Server stopped during initialization",
            ),
            SessionError::Stopped => String::from_str("Codex App Server stopped"),
            SessionError::InvalidJson(d) => String::from_str(
                "Codex App Server returned invalid JSON: ",
            ).concat(d.as_str()),
            SessionError::InitRejected(e) => String::from_str(
                "Codex App Server rejected initialization: ",
            ).concat(e.as_str()),
            SessionError::UsageRejected(e) => String::from_str(
                "Could not read Codex usage: ",
            ).concat(e.as_str()),
            SessionError::UsageUnparsable(d) => String::from_str(
                "Could not parse Codex usage: ",
            ).concat(d.as_str()),
            SessionError::UpdateUnparsable(d) => String::from_str(
                "Could not parse a Codex usage update: ",
            ).concat(d.as_str()),
            SessionError::SerializeFailed(d) => String::from_str(
                "Could not serialize an App Server request: ",
            ).concat(d.as_str()),
            SessionError::WriteFailed(d) => String::from_str(
                "Could not write to Codex App Server: ",
            ).concat(d.as_str()),
            SessionError::FlushFailed(d) => String::from_str(
                "Could not flush Codex App Server input: ",
            ).concat(d.as_str()),
        }
    }
}

/// What a message from the server leads to once the session is running: the
/// bucket to apply (if any), or the error that ends the session.
///
/// A response (a message with an id) carrying an error ends the session; one
/// carrying a result applies the main bucket of the result, if it has one. A
/// rate-limits-updated notification applies the bucket that it carries. A
/// result or parameters that could not be read end the session. Anything else
/// is ignored.
pub open spec fn message_outcome(message: ServerMessage) -> Result<Option<RateLimitBucket>, SessionError> {
    if message.id is Some {
        match message.error {
            Some(e) => Err(SessionError::UsageRejected(e)),
            None => match message.result {
                Some(Ok(response)) => Ok(main_bucket(response)),
                Some(Err(d)) => Err(SessionError::UsageUnparsable(d)),
                None => Ok(None),
            },
        }
    } else if message.method matches Some(m) && m@ == rate_limits_updated_method() {
        match message.params {
            Ok(params) => Ok(Some(params.rate_limits)),
            Err(d) => Err(SessionError::UpdateUnparsable(d)),
        }
    } else {
        Ok(None)
    }
}

/// Decides what a message from a running session leads to (see
/// `message_outcome`).
pub fn handle_server_message(message: ServerMessage) -> (outcome: Result<
    Option<RateLimitBucket>,
    SessionError,
>)
    ensures
        outcome == message_outcome(message),
{
    let ServerMessage { id, error, result, method, params, .. } = message;
    if id.is_some() {
        match error {
            Some(e) => Err(SessionError::UsageRejected(e)),
            None => match result {
                Some(Ok(response)) => Ok(select_main_bucket(response)),
                Some(Err(d)) => Err(SessionError::UsageUnparsable(d)),
                None => Ok(None),
            },
        }
    } else {
        let is_update = match &method {
            Some(m) => {
                let expected = String::from_str("account/rateLimits/updated");
                *m == expected
            },
            None => false,
        };
        if is_update {
            match params {
                Ok(p) => Ok(Some(p.rate_limits)),
                Err(d) => Err(SessionError::UpdateUnparsable(d)),
            }
        } else {
            Ok(None)
        }
    }
}

} // verus!

verus! {

/// Id of the `initialize` request, the first request of every session.
pub const INITIALIZE_REQUEST_ID: u64 = 0;

/// A request that the dock sends to the server.
#[derive(Debug, Clone, Copy, PartialEq, Eq, Structural)]
pub enum Request {
    /// `initialize`, with id `INITIALIZE_REQUEST_ID`.
    Initialize,
    /// The `initialized` notification.
    Initialized,
    /// `account/rateLimits/read` with the given id.
    ReadRateLimits { id: u64 },
}

/// What the caller does after a line from the server.
#[derive(Debug, Clone, PartialEq, Eq)]
pub enum SessionStep {
    /// Nothing: read the next line.
    Continue,
    /// The server accepted `initialize`: send `Initialized`, then
    /// `ReadRateLimits` with `read_request_id`, then start refreshing.
    /// `init_result` is the result of the answer to `initialize`, as JSON
    /// text (`None` when the answer has no result: JSON `null`).
    Ready { read_request_id: u64, init_result: Option<String> },
    /// Apply this bucket to the usage snapshot.
    Apply(RateLimitBucket),
}

/// The state of one session with the server.
#[derive(Debug, Clone, Copy, PartialEq, Eq, Structural)]
pub struct Session {
    /// Whether the server has accepted `initialize`.
    pub running: bool,
    /// The id of the last request sent.
    pub last_request_id: u64,
}

impl Session {
    /// A new session, which has just sent `initialize`.
    pub open spec fn started() -> Session {
        Session { running: false, last_request_id: INITIALIZE_REQUEST_ID }
    }

    /// The session's state and answer after reading `event`.
    ///
    /// Before initialization completes, only the response to `initialize`
    /// counts: an error in it ends the session, anything else in it makes the
    /// session run with its first rate-limit read (id 1); other messages are
    /// skipped. Once running, messages go by `message_outcome`. A line that is
    /// not JSON, a failed read and a closed stream end the session at any time.
    pub open spec fn after_line(self, event: LineEvent) -> (Session, Result<SessionStep, SessionError>) {
        match event {
            LineEvent::ReadFailed(d) => (self, Err(SessionError::ReadFailed(d))),
            LineEvent::InvalidJson(d) => (self, Err(SessionError::InvalidJson(d))),
            LineEvent::Closed => (
                self,
                Err(
                    if self.running {
                        SessionError::Stopped
                    } else {
                        SessionError::StoppedDuringInit
                    },
                ),
            ),
            LineEvent::Message(message) => if self.running {
                (
                    self,
                    match message_outcome(message) {
                        Ok(Some(bucket)) => Ok(SessionStep::Apply(bucket)),
                        Ok(None) => Ok(SessionStep::Continue),
                        Err(e) => Err(e),
                    },
                )
            } else if message.id == Some(INITIALIZE_REQUEST_ID) {
                match message.error {
                    Some(e) => (self, Err(SessionError::InitRejected(e))),
                    None => (
                        Session { running: true, last_request_id: 1 },
                        Ok(
                            SessionStep::Ready {
                                read_request_id: 1,
                                init_result: message.result_text,
                            },
                        ),
                    ),
                }
            } else {
                (self, Ok(SessionStep::Continue))
            },
        }
    }

    /// Starts a session: its state and the first request to send.
    pub fn start() -> (started: (Session, Request))
        ensures
            started.0 == Session::started(),
            started.1 == Request::Initialize,
    {
        (Session { running: false, last_request_id: INITIALIZE_REQUEST_ID }, Request::Initialize)
    }

    /// Handles what reading the next line gave (see `after_line`).
    pub fn on_line(&mut self, event: LineEvent) -> (step: Result<SessionStep, SessionError>)
        ensures
            (*final(self), step) == old(self).after_line(event),
    {
        match event {
            LineEvent::ReadFailed(d) => Err(SessionError::ReadFailed(d)),
            LineEvent::InvalidJson(d) => Err(SessionError::InvalidJson(d)),
            LineEvent::Closed => {
                if self.running {
                    Err(SessionError::Stopped)
                } else {
                    Err(SessionError::StoppedDuringInit)
                }
            },
            LineEvent::Message(message) => {
                if self.running {
                    match handle_server_message(message) {
                        Ok(Some(bucket)) => Ok(SessionStep::Apply(bucket)),
                        Ok(None) => Ok(SessionStep::Continue),
                        Err(e) => Err(e),
                    }
                } else if message.id == Some(INITIALIZE_REQUEST_ID) {
                    match message.error {
                        Some(e) => Err(SessionError::InitRejected(e)),
                        None => {
                            self.running = true;
                            self.last_request_id = 1;
                            Ok(
                                SessionStep::Ready {
                                    read_request_id: 1,
                                    init_result: message.result_text,
                                },
                            )
                        },
                    }
                } else {
                    Ok(SessionStep::Continue)
                }
            },
        }
    }

    /// The refresh timer fired: the next rate-limit read to send, whose id is
    /// one more than that of the last request.
    pub fn on_refresh(&mut self) -> (request: Request)
        requires
            old(self).running,
            old(self).last_request_id < u64::MAX,
        ensures
            final(self).running,
            final(self).last_request_id == old(self).last_request_id + 1,
            request == (Request::ReadRateLimits { id: final(self).last_request_id }),
    {
        self.last_request_id = self.last_request_id + 1;
        Request::ReadRateLimits { id: self.last_request_id }
    }
}

/// No usage is applied before the server has accepted `initialize`, and the
/// session starts running only on an accepted `initialize` response, with the
/// first rate-limit read numbered 1.
pub proof fn lemma_no_usage_before_initialization(session: Session, event: LineEvent)
    requires
        !session.running,
    ensures
        !(session.after_line(event).1 matches Ok(SessionStep::Apply(_))),
        session.after_line(event).0.running ==> (event matches LineEvent::Message(m) && m.id
            == Some(INITIALIZE_REQUEST_ID) && m.error is None && session.after_line(event).1
            == Ok::<SessionStep, SessionError>(
            SessionStep::Ready { read_request_id: 1, init_result: m.result_text },
        )),
{
}

/// A running session keeps running and keeps its request ids on every line
/// that does not end it; only the refresh timer advances the ids.
pub proof fn lemma_running_session_is_stable(session: Session, event: LineEvent)
    requires
        session.running,
    ensures
        session.after_line(event).0 == session,
{
}

/// In a running session, the answer to a rate-limit read is applied: a
/// response with a result shows that result's main bucket (and goes on when it
/// has none), a response with an error ends the session with that error, an
/// unreadable result ends it too, and a rate-limits-updated notification shows
/// the bucket it carries. The session's state does not change.
pub proof fn lemma_running_session_applies_usage(session: Session, message: ServerMessage)
    requires
        session.running,
    ensures
        session.after_line(LineEvent::Message(message)).0 == session,
        message.id is Some ==> (message.error matches Some(e) ==> session.after_line(
            LineEvent::Message(message),
        ).1 == Err::<SessionStep, SessionError>(SessionError::UsageRejected(e))),
        message.id is Some && message.error is None ==> (message.result matches Some(Ok(r)) ==> (
        match main_bucket(r) {
            Some(b) => session.after_line(LineEvent::Message(message)).1 == Ok::<
                SessionStep,
                SessionError,
            >(SessionStep::Apply(b)),
            None => session.after_line(LineEvent::Message(message)).1 == Ok::<
                SessionStep,
                SessionError,
            >(SessionStep::Continue),
        })),
        message.id is Some && message.error is None ==> (message.result matches Some(Err(d))
            ==> session.after_line(LineEvent::Message(message)).1 == Err::<
            SessionStep,
            SessionError,
        >(SessionError::UsageUnparsable(d))),
        message.id is None && message.method is Some && message.method.unwrap()@
            == "account/rateLimits/updated"@ ==> (message.params matches Ok(p)
            ==> session.after_line(LineEvent::Message(message)).1 == Ok::<
            SessionStep,
            SessionError,
        >(SessionStep::Apply(p.rate_limits))),
{
}

/// Failures of the stream end the session whatever its state.
pub proof fn lemma_stream_failures_end_the_session(session: Session, detail: String)
    ensures
        session.after_line(LineEvent::Closed).1 is Err,
        session.after_line(LineEvent::ReadFailed(detail)).1 is Err,
        session.after_line(LineEvent::InvalidJson(detail)).1 is Err,
{
}

} // verus!
