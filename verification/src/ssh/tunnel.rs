//! The decisions taken while opening and running a local-port-forward SSH
//! tunnel. The sockets, the SSH session and the worker threads live with
//! the caller; each step here takes what they reported and says what to do
//! next.
use vstd::prelude::*;
use crate::ssh::config::SshConfig;
use crate::text::{concat, decimal, push_decimal, push_str};

verus! {

/// Where the tunnel's local listener binds: the loopback interface, on a
/// port the system picks.
pub const LISTEN_ADDRESS: &'static str = "127.0.0.1:0";

/// The host a database client uses to reach the tunnel.
pub const LOOPBACK_HOST: &'static str = "127.0.0.1";

/// Seconds after which reads and writes on the SSH server socket time out.
pub const SOCKET_TIMEOUT_SECS: u64 = 30;

/// Milliseconds the worker waits when no connection is pending.
pub const ACCEPT_POLL_MS: u64 = 50;

/// Milliseconds a pipe waits when neither side had data.
pub const PIPE_IDLE_MS: u64 = 5;

/// `host:port` of the SSH server.
pub fn server_address(cfg: &SshConfig) -> (s: String)
    ensures
        s@ == cfg.host@ + ":"@ + decimal(cfg.port as nat),
{
    let mut s = concat(cfg.host.as_str(), ":");
    push_decimal(&mut s, cfg.port as u128);
    s
}

/// The name of the worker thread serving the listener on `local_port`.
pub fn worker_thread_name(local_port: u16) -> (s: String)
    ensures
        s@ == "ssh-tunnel:"@ + decimal(local_port as nat),
{
    let mut s = "ssh-tunnel:".to_owned();
    push_decimal(&mut s, local_port as u128);
    s
}

/// The error for a server that could not be reached.
pub fn unreachable_server_message(address: &str) -> (s: String)
    ensures
        s@ == "Failed to connect to SSH server at "@ + address@,
{
    concat("Failed to connect to SSH server at ", address)
}

/// The error for a key file that does not exist.
pub fn missing_key_message(path: &str) -> (s: String)
    ensures
        s@ == "SSH private key not found: "@ + path@,
{
    concat("SSH private key not found: ", path)
}

/// The error for a key the server did not accept.
pub fn key_rejected_message(username: &str, path: &str) -> (s: String)
    ensures
        s@ == "SSH key authentication failed for user '"@ + username@ + "' using '"@ + path@
            + "'"@,
{
    let mut s = concat("SSH key authentication failed for user '", username);
    push_str(&mut s, "' using '");
    push_str(&mut s, path);
    push_str(&mut s, "'");
    s
}

/// Progress of authenticating with the identities of an SSH agent, tried
/// one after another until one is accepted.
#[derive(Debug, Clone)]
pub struct AgentAuth {
    pub authed: bool,
    /// The error of the last identity that was refused.
    pub last_error: Option<String>,
}

/// The outcome of trying a sequence of identities: accepted when one was,
/// else the last refusal, if any.
pub open spec fn agent_outcome(attempts: Seq<Result<(), String>>) -> (bool, Option<Seq<char>>)
    decreases attempts.len(),
{
    if attempts.len() == 0 {
        (false, None)
    } else {
        let prev = agent_outcome(attempts.drop_last());
        if prev.0 {
            prev
        } else {
            match attempts.last() {
                Ok(_) => (true, prev.1),
                Err(e) => (false, Some(e@)),
            }
        }
    }
}

impl AgentAuth {
    /// Nothing tried yet.
    pub fn new() -> (a: Self)
        ensures
            !a.authed,
            a.last_error is None,
    {
        AgentAuth { authed: false, last_error: None }
    }

    /// Records the outcome of one identity; returns whether to stop
    /// trying (an identity was accepted).
    pub fn record(&mut self, outcome: Result<(), String>) -> (stop: bool)
        requires
            !old(self).authed,
        ensures
            stop == outcome is Ok,
            final(self).authed == outcome is Ok,
            match outcome {
                Ok(_) => final(self).last_error == old(self).last_error,
                Err(e) => final(self).last_error == Some(e),
            },
    {
        match outcome {
            Ok(()) => {
                self.authed = true;
                true
            },
            Err(e) => {
                self.last_error = Some(e);
                false
            },
        }
    }

    /// The end result, given how many identities the agent offered.
    pub fn verdict(&self, identities: usize) -> (r: Result<(), String>)
        ensures
            identities == 0 ==> (r matches Err(m) && m@ == "SSH agent has no identities loaded"@),
            identities > 0 && self.authed ==> r is Ok,
            identities > 0 && !self.authed ==> match self.last_error {
                Some(e) => r matches Err(m) && m@ == "SSH agent authentication failed: "@ + e@,
                None => r matches Err(m) && m@ == "SSH agent authentication failed"@,
            },
    {
        if identities == 0 {
            return Err("SSH agent has no identities loaded".to_owned());
        }
        if self.authed {
            return Ok(());
        }
        match &self.last_error {
            Some(e) => Err(concat("SSH agent authentication failed: ", e.as_str())),
            None => Err("SSH agent authentication failed".to_owned()),
        }
    }
}

/// One more refused or accepted identity changes the outcome of a
/// sequence with none accepted exactly as [`AgentAuth::record`] changes
/// its state.
pub proof fn lemma_agent_outcome_step(attempts: Seq<Result<(), String>>, outcome: Result<(), String>)
    requires
        !agent_outcome(attempts).0,
    ensures
        agent_outcome(attempts.push(outcome)) == match outcome {
            Ok(_) => (true, agent_outcome(attempts).1),
            Err(e) => (false, Some(e@)),
        },
{
    assert(attempts.push(outcome).drop_last() =~= attempts);
}

/// Trying identities in order until one is accepted ends accepted exactly
/// when one of them was accepted, and otherwise reports the last refusal.
pub proof fn lemma_agent_outcome_accepts_any(attempts: Seq<Result<(), String>>)
    ensures
        agent_outcome(attempts).0 <==> exists|i: int| 0 <= i < attempts.len() && (
        #[trigger] attempts[i]) is Ok,
        !agent_outcome(attempts).0 && attempts.len() > 0 ==> (attempts.last() matches Err(e)
            && agent_outcome(attempts).1 == Some(e@)),
    decreases attempts.len(),
{
    if attempts.len() > 0 {
        let prev = attempts.drop_last();
        lemma_agent_outcome_accepts_any(prev);
        if agent_outcome(prev).0 {
            let i = choose|i: int| 0 <= i < prev.len() && (#[trigger] prev[i]) is Ok;
            assert(attempts[i] == prev[i]);
        } else {
            assert forall|i: int| 0 <= i < attempts.len() - 1 implies !(#[trigger] attempts[i] is Ok) by {
                assert(attempts[i] == prev[i]);
            }
            if attempts.last() is Ok {
                assert(attempts[attempts.len() - 1] is Ok);
            }
        }
    }
}

/// What accepting on the local listener reported.
#[derive(Debug, Clone)]
pub enum AcceptOutcome {
    /// A local client connected.
    Accepted,
    /// No client is waiting.
    WouldBlock,
    /// The listener failed.
    Failed(String),
}

/// What the tunnel worker does next.
#[derive(Debug, Clone, PartialEq, Eq)]
pub enum WorkerStep {
    /// Leave the loop; the tunnel is shutting down or broken.
    Stop,
    /// Open a channel to the remote end and pipe the client through it.
    OpenChannel,
    /// Sleep briefly, then poll again.
    Wait,
}

/// The worker's next step, given whether shutdown was requested before and
/// after accepting, and what accepting reported.
pub fn worker_step(shutdown_before: bool, outcome: &AcceptOutcome, shutdown_after: bool) -> (s: WorkerStep)
    ensures
        shutdown_before ==> s == WorkerStep::Stop,
        !shutdown_before ==> s == match outcome {
            AcceptOutcome::Accepted => if shutdown_after {
                WorkerStep::Stop
            } else {
                WorkerStep::OpenChannel
            },
            AcceptOutcome::WouldBlock => WorkerStep::Wait,
            AcceptOutcome::Failed(_) => WorkerStep::Stop,
        },
{
    if shutdown_before {
        return WorkerStep::Stop;
    }
    match outcome {
        AcceptOutcome::Accepted => if shutdown_after {
            WorkerStep::Stop
        } else {
            WorkerStep::OpenChannel
        },
        AcceptOutcome::WouldBlock => WorkerStep::Wait,
        AcceptOutcome::Failed(_) => WorkerStep::Stop,
    }
}

/// What reading the local client reported.
#[derive(Debug, Clone)]
pub enum ReadOutcome {
    /// This many bytes arrived; zero means the client closed its side.
    Data(usize),
    /// The read would block.
    WouldBlock,
    /// The read failed.
    Failed(String),
}

/// What a pipe does after reading one side.
#[derive(Debug, Clone, PartialEq, Eq)]
pub enum PipeStep {
    /// Write these bytes to the other side.
    Forward(usize),
    /// Nothing to pass on; go on.
    Idle,
    /// The conversation is over: close the channel.
    Finish,
    /// The pipe failed with this error.
    Fail(String),
}

/// After reading the local client: end of stream finishes the pipe (the
/// channel is told so first).
pub fn local_read_step(outcome: &ReadOutcome) -> (s: PipeStep)
    ensures
        s == match outcome {
            ReadOutcome::Data(n) => if *n == 0 {
                PipeStep::Finish
            } else {
                PipeStep::Forward(*n)
            },
            ReadOutcome::WouldBlock => PipeStep::Idle,
            ReadOutcome::Failed(e) => PipeStep::Fail(*e),
        },
{
    match outcome {
        ReadOutcome::Data(n) => if *n == 0 {
            PipeStep::Finish
        } else {
            PipeStep::Forward(*n)
        },
        ReadOutcome::WouldBlock => PipeStep::Idle,
        ReadOutcome::Failed(e) => PipeStep::Fail(e.clone()),
    }
}

/// After reading the SSH channel (`Err` carries any channel error): an
/// empty read finishes the pipe only once the channel reports end of
/// file; any error ends it.
pub fn remote_read_step(outcome: &Result<usize, String>, channel_eof: bool) -> (s: PipeStep)
    ensures
        s == match outcome {
            Ok(n) => if *n == 0 {
                if channel_eof {
                    PipeStep::Finish
                } else {
                    PipeStep::Idle
                }
            } else {
                PipeStep::Forward(*n)
            },
            Err(e) => PipeStep::Fail(*e),
        },
{
    match outcome {
        Ok(n) => if *n == 0 {
            if channel_eof {
                PipeStep::Finish
            } else {
                PipeStep::Idle
            }
        } else {
            PipeStep::Forward(*n)
        },
        Err(e) => PipeStep::Fail(e.clone()),
    }
}

} // verus!
