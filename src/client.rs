use vstd::prelude::*;

use std::time::Duration;

use crate::error::RpcError;
use crate::json::{json_view, JsonValue};
use crate::presence::{Activity, User};
use crate::protocol::{
    activity_update_encodable, activity_update_payload, activity_update_spec, handshake_payload,
    handshake_spec, handshake_user, response_user, user_readable,
};

verus! {

/// The file name of the endpoint's socket inside its directory.
pub const SOCKET_NAME: &'static str = "discord-ipc-0";

/// The length of a nonce: a UUID in its hyphenated text form.
pub const NONCE_LEN: usize = 36;

/// The directory that holds the endpoint's socket: the first of
/// `XDG_RUNTIME_DIR`, `TMPDIR` and the platform's temporary directory that is
/// known, else `/tmp`.
pub fn socket_directory(
    xdg_runtime_dir: Option<String>,
    tmpdir: Option<String>,
    temp_dir: Option<String>,
) -> (r: String)
    ensures
        xdg_runtime_dir matches Some(d) ==> r == d,
        xdg_runtime_dir is None ==> (tmpdir matches Some(d) ==> r == d),
        xdg_runtime_dir is None && tmpdir is None ==> (temp_dir matches Some(d) ==> r == d),
        xdg_runtime_dir is None && tmpdir is None && temp_dir is None ==> r@ == "/tmp"@,
{
    match xdg_runtime_dir {
        Some(d) => d,
        None => match tmpdir {
            Some(d) => d,
            None => match temp_dir {
                Some(d) => d,
                None => "/tmp".to_owned(),
            },
        },
    }
}

/// What a failed attempt to open the endpoint reported.
#[derive(Debug, Clone, Copy, PartialEq, Eq, Structural)]
pub enum ConnectError {
    /// The endpoint exists but refused the connection.
    Refused,
    /// There is no endpoint at the path.
    NotFound,
    /// Any other failure, such as a denied permission.
    Other,
}

impl ConnectError {
    /// The error that this failure stands for.
    pub open spec fn spec_error(self) -> RpcError {
        match self {
            ConnectError::Other => RpcError::FatalConnection,
            _ => RpcError::TransientConnection,
        }
    }

    pub fn error(&self) -> (r: RpcError)
        ensures
            r == self.spec_error(),
    {
        match self {
            ConnectError::Other => RpcError::FatalConnection,
            _ => RpcError::TransientConnection,
        }
    }
}

/// How a connect call ended without an error.
#[derive(Debug, Clone, Copy, PartialEq, Eq, Structural)]
pub enum ConnectOutcome {
    Connected,
    /// The retry limit was reached; the client stays disconnected.
    Exhausted,
}

/// What to do after a failed attempt.
#[derive(Debug, Clone, Copy, PartialEq, Eq, Structural)]
pub enum RetryDecision {
    /// Wait for the retry interval, then try again.
    Wait,
    /// Stop trying: the retry limit is reached. Not an error.
    Exhausted,
    /// Stop trying: the failure is not a transient one.
    Fatal,
}

impl RetryDecision {
    /// What the connect call returns when it stops on this decision.
    pub open spec fn spec_result(self) -> Option<Result<ConnectOutcome, RpcError>> {
        match self {
            RetryDecision::Wait => None,
            RetryDecision::Exhausted => Some(Ok(ConnectOutcome::Exhausted)),
            RetryDecision::Fatal => Some(Err(RpcError::FatalConnection)),
        }
    }

    pub fn result(&self) -> (r: Option<Result<ConnectOutcome, RpcError>>)
        ensures
            r == self.spec_result(),
    {
        match self {
            RetryDecision::Wait => None,
            RetryDecision::Exhausted => Some(Ok(ConnectOutcome::Exhausted)),
            RetryDecision::Fatal => Some(Err(RpcError::FatalConnection)),
        }
    }
}

/// The failure count after one more transient failure; it stops growing at
/// the largest `u32`.
pub open spec fn next_failures(failures: nat) -> nat {
    if failures < u32::MAX {
        failures + 1
    } else {
        failures
    }
}

/// What follows a transient failure, once `failures` of them have been seen.
pub open spec fn retry_decision(failures: nat, limit: Option<u32>) -> RetryDecision {
    match limit {
        Some(m) => if failures >= m {
            RetryDecision::Exhausted
        } else {
            RetryDecision::Wait
        },
        None => RetryDecision::Wait,
    }
}

/// One failed attempt: the new failure count and what to do next.
pub open spec fn retry_step(failures: nat, limit: Option<u32>, error: ConnectError) -> (
    nat,
    RetryDecision,
) {
    match error {
        ConnectError::Other => (failures, RetryDecision::Fatal),
        _ => (next_failures(failures), retry_decision(next_failures(failures), limit)),
    }
}

/// A connect call whose attempts fail with `errors` in turn: the number of
/// attempts made, the number of waits, and the decision it stopped on, if it
/// stopped within those attempts.
pub open spec fn retry_run(failures: nat, limit: Option<u32>, errors: Seq<ConnectError>) -> (
    nat,
    nat,
    Option<RetryDecision>,
)
    decreases errors.len(),
{
    if errors.len() == 0 {
        (0, 0, None)
    } else {
        let (next, decision) = retry_step(failures, limit, errors[0]);
        if decision == RetryDecision::Wait {
            let (attempts, waits, end) = retry_run(next, limit, errors.drop_first());
            (attempts + 1, waits + 1, end)
        } else {
            (1, 0, Some(decision))
        }
    }
}

/// The retry bookkeeping of one connect call.
pub struct RetryState {
    failures: u32,
    max_retry: Option<u32>,
    retry_interval: Duration,
}

impl RetryState {
    /// The transient failures seen so far.
    pub closed spec fn failures(self) -> nat {
        self.failures as nat
    }

    /// The most transient failures before giving up; none for no limit.
    pub closed spec fn limit(self) -> Option<u32> {
        self.max_retry
    }

    /// The wait before each new attempt.
    pub closed spec fn spec_interval(self) -> Duration {
        self.retry_interval
    }

    pub fn new(max_retry: Option<u32>, retry_interval: Duration) -> (r: RetryState)
        ensures
            r.failures() == 0,
            r.limit() == max_retry,
            r.spec_interval() == retry_interval,
    {
        RetryState { failures: 0, max_retry, retry_interval }
    }

    /// How long to wait after a `Wait` decision.
    pub fn interval(&self) -> (r: Duration)
        ensures
            r == self.spec_interval(),
    {
        self.retry_interval
    }

    /// Records a failed attempt and decides whether to try again.
    pub fn on_failure(&mut self, error: ConnectError) -> (r: RetryDecision)
        ensures
            (final(self).failures(), r) == retry_step(old(self).failures(), old(self).limit(), error),
            final(self).limit() == old(self).limit(),
            final(self).spec_interval() == old(self).spec_interval(),
    {
        match error {
            ConnectError::Other => RetryDecision::Fatal,
            _ => {
                if self.failures < u32::MAX {
                    self.failures = self.failures + 1;
                }
                match self.max_retry {
                    Some(m) => if self.failures >= m {
                        RetryDecision::Exhausted
                    } else {
                        RetryDecision::Wait
                    },
                    None => RetryDecision::Wait,
                }
            },
        }
    }
}

/// With a limit of `n` and attempts that keep being refused, a connect call
/// makes exactly `n` attempts, waits between each two of them, and ends with
/// the exhausted outcome rather than an error.
pub proof fn lemma_retry_bound(n: u32, errors: Seq<ConnectError>)
    requires
        n >= 1,
        errors.len() >= n,
        forall|i: int| 0 <= i < errors.len() ==> errors[i] == ConnectError::Refused,
    ensures
        retry_run(0, Some(n), errors) == (n as nat, (n - 1) as nat, Some(
            RetryDecision::Exhausted,
        )),
        RetryDecision::Exhausted.spec_result() == Some(
            Ok::<ConnectOutcome, RpcError>(ConnectOutcome::Exhausted),
        ),
{
    lemma_retry_bound_from(n, 0, errors);
}

proof fn lemma_retry_bound_from(n: u32, failures: nat, errors: Seq<ConnectError>)
    requires
        failures < n,
        errors.len() >= n - failures,
        forall|i: int| 0 <= i < errors.len() ==> errors[i] == ConnectError::Refused,
    ensures
        retry_run(failures, Some(n), errors) == ((n - failures) as nat, (n - failures - 1) as nat, Some(
            RetryDecision::Exhausted,
        )),
    decreases n - failures,
{
    if failures + 1 < n {
        lemma_retry_bound_from(n, failures + 1, errors.drop_first());
    }
}

/// Relies on uuid::Uuid::new_v4 for a random UUID, and on its text form,
/// which is the hyphenated one of 36 characters.
#[verifier::external_body]
fn new_nonce() -> (r: String)
    ensures
        r@.len() == NONCE_LEN,
{
    uuid::Uuid::new_v4().to_string()
}

/// Why an activity update is refused before anything is sent, if it is.
pub open spec fn update_refusal(ready: bool, connected: bool) -> Option<RpcError> {
    if !ready {
        Some(RpcError::HandshakeIncomplete)
    } else if !connected {
        Some(RpcError::NotConnected)
    } else {
        None
    }
}

/// Before a successful handshake, an activity update is refused with
/// `HandshakeIncomplete`, whether or not a socket is open.
pub proof fn lemma_update_gated(connected: bool)
    ensures
        update_refusal(false, connected) == Some(RpcError::HandshakeIncomplete),
{
}

/// A client of the endpoint. It owns the socket of type `S`, when one is
/// open, and knows whether the handshake over it has completed.
///
/// Exchanges run one at a time: each borrows the client mutably for the
/// write of a request and the read of its response. The nonce of a request
/// is therefore not matched against the response.
pub struct DiscordRPCClient<S> {
    socket: Option<S>,
    handshake_done: bool,
}

impl<S> DiscordRPCClient<S> {
    /// Whether a socket is open.
    pub closed spec fn connected(&self) -> bool {
        self.socket is Some
    }

    /// Whether a handshake has completed over the open socket.
    pub closed spec fn ready(&self) -> bool {
        self.handshake_done
    }

    /// Only a connected client can be ready.
    pub closed spec fn wf(&self) -> bool {
        self.handshake_done ==> self.socket is Some
    }

    pub fn new() -> (r: Self)
        ensures
            r.wf(),
            !r.connected(),
            !r.ready(),
    {
        DiscordRPCClient { socket: None, handshake_done: false }
    }

    pub fn is_connected(&self) -> (r: bool)
        ensures
            r == self.connected(),
    {
        self.socket.is_some()
    }

    pub fn handshake_done(&self) -> (r: bool)
        ensures
            r == self.ready(),
    {
        self.handshake_done
    }

    /// Takes a newly opened socket; a handshake is due over it.
    pub fn attach(&mut self, socket: S)
        ensures
            final(self).wf(),
            final(self).connected(),
            !final(self).ready(),
    {
        self.socket = Some(socket);
        self.handshake_done = false;
    }

    /// Drops the socket after an error or on request.
    pub fn disconnect(&mut self)
        ensures
            final(self).wf(),
            !final(self).connected(),
            !final(self).ready(),
    {
        self.socket = None;
        self.handshake_done = false;
    }

    /// Lends the open socket for one exchange.
    pub fn socket_mut(&mut self) -> (r: Option<&mut S>)
        ensures
            r is Some <==> old(self).connected(),
            final(self).connected() == old(self).connected(),
            final(self).ready() == old(self).ready(),
            final(self).wf() == old(self).wf(),
    {
        match &mut self.socket {
            Some(s) => Some(s),
            None => None,
        }
    }

    /// The handshake request for `client_id`, with a fresh nonce.
    pub fn handshake_request(&self, client_id: &str) -> (r: Result<JsonValue, RpcError>)
        ensures
            !self.connected() ==> r == Err::<JsonValue, RpcError>(RpcError::NotConnected),
            self.connected() ==> r is Ok && exists|nonce: Seq<char>|
                nonce.len() == NONCE_LEN && json_view(r->Ok_0) == handshake_spec(client_id@, nonce),
    {
        if self.socket.is_none() {
            return Err(RpcError::NotConnected);
        }
        let nonce = new_nonce();
        Ok(handshake_payload(client_id, nonce.as_str()))
    }

    /// Takes the handshake response. The client is ready afterwards exactly
    /// when the response names a user; that user is returned.
    pub fn finish_handshake(&mut self, response: &JsonValue) -> (r: Result<User, RpcError>)
        ensures
            final(self).wf(),
            final(self).connected() == old(self).connected(),
            !old(self).connected() ==> r == Err::<User, RpcError>(RpcError::NotConnected),
            old(self).connected() ==> (r is Ok <==> (response_user(json_view(*response)) matches Some(
                u,
            ) && user_readable(u))),
            old(self).connected() && r is Err ==> r == Err::<User, RpcError>(RpcError::Protocol),
            r matches Ok(user) ==> user.described_by(response_user(json_view(*response))->Some_0),
            final(self).ready() == r is Ok,
    {
        if self.socket.is_none() {
            self.handshake_done = false;
            return Err(RpcError::NotConnected);
        }
        let r = handshake_user(response);
        self.handshake_done = r.is_ok();
        r
    }

    /// The activity update request for the process `pid`, with a fresh nonce.
    pub fn activity_request(&self, pid: u32, activity: &Option<Activity>) -> (r: Result<
        JsonValue,
        RpcError,
    >)
        ensures
            update_refusal(self.ready(), self.connected()) matches Some(e) ==> r == Err::<
                JsonValue,
                RpcError,
            >(e),
            update_refusal(self.ready(), self.connected()) is None && !activity_update_encodable(
                *activity,
            ) ==> r == Err::<JsonValue, RpcError>(RpcError::Encoding),
            update_refusal(self.ready(), self.connected()) is None && activity_update_encodable(
                *activity,
            ) ==> r is Ok && exists|nonce: Seq<char>|
                nonce.len() == NONCE_LEN && json_view(r->Ok_0) == activity_update_spec(
                    pid,
                    *activity,
                    nonce,
                ),
    {
        if !self.handshake_done {
            return Err(RpcError::HandshakeIncomplete);
        }
        if self.socket.is_none() {
            return Err(RpcError::NotConnected);
        }
        let nonce = new_nonce();
        activity_update_payload(pid, activity, nonce.as_str())
    }
}

} // verus!
