//! One debugger session: a spawned external process, its pipes, and the
//! state machine that frames commands over them.
//!
//! The process itself and its pipes live outside this library; the session
//! value here is the machine that decides what is written, how replies are
//! delimited, and what each stream event means.  A driver spawns the
//! process from the [`SpawnPlan`], feeds raw output lines and the way each
//! read ended back in, and obeys the returned payloads and errors.
//!
//! State machine: `ReadyWait -> Ready -> (Executing -> Ready)* -> Closing
//! -> ClosedClean | ClosedForced`.  An end of file while waiting or
//! executing moves the session to `ClosedUnexpected` and fails the
//! operation in flight with `ProcessTerminated`.

use vstd::prelude::*;
use vstd::string::*;

use crate::error::CdbError;
use crate::protocol::StreamEnd;
use crate::protocol::command_payload;
use crate::protocol::command_payload_spec;
use crate::protocol::kept_lines;
use crate::protocol::marker_for;
use crate::protocol::marker_seen;
use crate::protocol::marker_spec;
use crate::protocol::read_until_marker;
use crate::protocol::ready_sentinel;
use crate::protocol::ready_sentinel_spec;
use crate::protocol::scan_for_sentinel;

verus! {

/// Seconds a closing session waits for the process to exit before it is
/// force-killed.
pub const SHUTDOWN_GRACE_SECS: u64 = 5;

/// What a session debugs, which decides spawn arguments and the shutdown
/// byte sequence.
#[derive(Debug, Clone, Copy, PartialEq, Eq, Structural)]
pub enum SessionKind {
    /// A crash dump file, opened from disk.
    Dump,
    /// A live remote target, reached through a connection string.
    Remote,
}

/// Where a session stands in its life.
#[derive(Debug, Clone, Copy, PartialEq, Eq, Structural)]
pub enum SessionState {
    /// Spawned; the readiness sentinel has not been seen yet.
    ReadyWait,
    /// The handshake finished; commands may be sent.
    Ready,
    /// One command is in flight; the output stream is being scanned.
    Executing,
    /// The shutdown sequence has been written; waiting for process exit.
    Closing,
    /// The process exited within the grace period.
    ClosedClean,
    /// The process had to be force-killed.
    ClosedForced,
    /// The process is gone without a shutdown: its output stream ended
    /// unexpectedly, or it never started.
    ClosedUnexpected,
}

/// Everything a driver needs to spawn the debugger process for a session:
/// the executable, its arguments in order, and the optional value for the
/// symbol-path environment variable.
#[derive(Debug)]
pub struct SpawnPlan {
    /// The debugger executable to run.
    pub executable: String,
    /// Arguments, in order: the mode switch and target, then an initial
    /// command that prints the readiness sentinel.
    pub args: Vec<String>,
    /// Value for the symbol-path environment variable, if one is set.
    pub symbols_path: Option<String>,
}

/// The name of the environment variable that hands the symbol search path
/// to the debugger process.
pub fn symbols_env_var() -> (r: &'static str)
    ensures
        r@ == "_NT_SYMBOL_PATH"@,
{
    "_NT_SYMBOL_PATH"
}

/// The spawn arguments for a session of `kind` against `target`: the mode
/// switch (`-z` opens a dump, `-remote` attaches), the target, and an
/// initial command that echoes the readiness sentinel.
pub open spec fn spawn_args_spec(kind: SessionKind, target: Seq<char>) -> Seq<Seq<char>> {
    seq![
        if kind == SessionKind::Dump {
            "-z"@
        } else {
            "-remote"@
        },
        target,
        "-c"@,
        ".echo CDB_READY"@,
    ]
}

/// Build the spawn arguments for a session of `kind` against `target`.
pub fn spawn_args(kind: SessionKind, target: &String) -> (r: Vec<String>)
    ensures
        r.deep_view() == spawn_args_spec(kind, target@),
{
    let mut args: Vec<String> = Vec::new();
    match kind {
        SessionKind::Dump => args.push(String::from_str("-z")),
        SessionKind::Remote => args.push(String::from_str("-remote")),
    }
    args.push(target.clone());
    args.push(String::from_str("-c"));
    args.push(String::from_str(".echo CDB_READY"));
    proof {
        assert(args.deep_view() =~= spawn_args_spec(kind, target@));
    }
    args
}

/// The registry key of a dump session: the canonicalized absolute path
/// when canonicalization succeeded, the path as given otherwise.
pub open spec fn dump_key_spec(dump_path: Seq<char>, canonical: Option<String>) -> Seq<char> {
    match canonical {
        Option::Some(c) => c@,
        Option::None => dump_path,
    }
}

/// Derive the key of a dump session from the path and the result of
/// canonicalizing it, which is `None` when canonicalization failed.
pub fn dump_session_key(dump_path: &String, canonical: Option<String>) -> (r: String)
    ensures
        r@ == dump_key_spec(dump_path@, canonical),
{
    match canonical {
        Option::Some(c) => c,
        Option::None => dump_path.clone(),
    }
}

/// The session state machine.  The fields are the whole truth about the
/// session as far as the library is concerned; the process handle and the
/// pipes belong to the driver.
#[derive(Debug)]
pub struct CdbSession {
    /// Unique identifier, equal to the registry key of the session.
    pub session_id: String,
    /// Dump-backed or remote-backed.
    pub kind: SessionKind,
    /// Bound, in seconds, on one command's read-until-marker scan.
    pub timeout_secs: u64,
    /// Bound, in seconds, on the startup handshake.
    pub init_timeout_secs: u64,
    /// Whether the driver should log every line it reads.
    pub verbose: bool,
    /// Where the session stands in its life.
    pub state: SessionState,
    /// How many commands have been framed so far; the next command's
    /// marker carries this number, so markers never repeat.
    pub commands_sent: u64,
}

impl CdbSession {
    /// Plan a new dump-backed session.  `canonical` is the result of
    /// canonicalizing `dump_path` (`None` when that failed, in which case
    /// the path as given identifies the session); `cdb_exe` is the result
    /// of discovering the debugger executable.  Fails with
    /// `ExecutableNotFound` when no executable was discovered.
    pub fn new_dump(
        dump_path: &String,
        canonical: Option<String>,
        cdb_exe: Option<String>,
        symbols_path: Option<String>,
        timeout_secs: u64,
        init_timeout_secs: u64,
        verbose: bool,
    ) -> (r: Result<(CdbSession, SpawnPlan), CdbError>)
        ensures
            r is Ok <==> cdb_exe is Some,
            cdb_exe is None <==> r == Err::<(CdbSession, SpawnPlan), CdbError>(
                CdbError::ExecutableNotFound,
            ),
            r matches Ok((s, plan)) ==> {
                &&& s == (CdbSession {
                    session_id: s.session_id,
                    kind: SessionKind::Dump,
                    timeout_secs,
                    init_timeout_secs,
                    verbose,
                    state: SessionState::ReadyWait,
                    commands_sent: 0,
                })
                &&& s.session_id@ == dump_key_spec(dump_path@, canonical)
                &&& plan.executable@ == cdb_exe.unwrap()@
                &&& plan.args.deep_view() == spawn_args_spec(SessionKind::Dump, dump_path@)
                &&& plan.symbols_path == symbols_path
            },
    {
        let exe = match cdb_exe {
            Option::Some(e) => e,
            Option::None => {
                return Err(CdbError::ExecutableNotFound);
            },
        };
        let session = CdbSession {
            session_id: dump_session_key(dump_path, canonical),
            kind: SessionKind::Dump,
            timeout_secs,
            init_timeout_secs,
            verbose,
            state: SessionState::ReadyWait,
            commands_sent: 0,
        };
        let plan = SpawnPlan {
            executable: exe,
            args: spawn_args(SessionKind::Dump, dump_path),
            symbols_path,
        };
        Ok((session, plan))
    }

    /// Plan a new remote-backed session; the raw connection string is the
    /// session identifier.  Fails with `ExecutableNotFound` when no
    /// executable was discovered.
    pub fn new_remote(
        connection_string: &String,
        cdb_exe: Option<String>,
        symbols_path: Option<String>,
        timeout_secs: u64,
        init_timeout_secs: u64,
        verbose: bool,
    ) -> (r: Result<(CdbSession, SpawnPlan), CdbError>)
        ensures
            r is Ok <==> cdb_exe is Some,
            cdb_exe is None <==> r == Err::<(CdbSession, SpawnPlan), CdbError>(
                CdbError::ExecutableNotFound,
            ),
            r matches Ok((s, plan)) ==> {
                &&& s == (CdbSession {
                    session_id: s.session_id,
                    kind: SessionKind::Remote,
                    timeout_secs,
                    init_timeout_secs,
                    verbose,
                    state: SessionState::ReadyWait,
                    commands_sent: 0,
                })
                &&& s.session_id@ == connection_string@
                &&& plan.executable@ == cdb_exe.unwrap()@
                &&& plan.args.deep_view() == spawn_args_spec(
                    SessionKind::Remote,
                    connection_string@,
                )
                &&& plan.symbols_path == symbols_path
            },
    {
        let exe = match cdb_exe {
            Option::Some(e) => e,
            Option::None => {
                return Err(CdbError::ExecutableNotFound);
            },
        };
        let session = CdbSession {
            session_id: connection_string.clone(),
            kind: SessionKind::Remote,
            timeout_secs,
            init_timeout_secs,
            verbose,
            state: SessionState::ReadyWait,
            commands_sent: 0,
        };
        let plan = SpawnPlan {
            executable: exe,
            args: spawn_args(SessionKind::Remote, connection_string),
            symbols_path,
        };
        Ok((session, plan))
    }

    /// Report that spawning the process, or acquiring one of its pipes,
    /// failed before any handshake: the session is dead, no handshake is
    /// attempted, and the cause comes back as `ProcessStartFailed`.
    pub fn spawn_failed(&mut self, err: String) -> (r: CdbError)
        requires
            old(self).state == SessionState::ReadyWait,
        ensures
            r == CdbError::ProcessStartFailed(err),
            *final(self) == (CdbSession {
                state: SessionState::ClosedUnexpected,
                ..*old(self)
            }),
    {
        self.state = SessionState::ClosedUnexpected;
        CdbError::ProcessStartFailed(err)
    }

    /// The session's identifier, equal to its registry key.
    pub fn session_id(&self) -> (r: &str)
        ensures
            r@ == self.session_id@,
    {
        self.session_id.as_str()
    }

    /// Resolve the startup handshake from the lines read after spawning.
    /// Succeeds exactly when a line contains the readiness sentinel; end
    /// of file first kills the session (`ProcessTerminated`), a fired
    /// startup timer leaves it waiting (`CommandTimeout` of the startup
    /// bound), and any other stream fault leaves it waiting too
    /// (`IoError` with the fault's description).
    pub fn wait_for_ready(&mut self, lines: &Vec<String>, end: StreamEnd) -> (r: Result<
        (),
        CdbError,
    >)
        requires
            old(self).state == SessionState::ReadyWait,
            marker_seen(lines.deep_view(), ready_sentinel_spec()) || end != StreamEnd::Open,
        ensures
            r is Ok <==> marker_seen(lines.deep_view(), ready_sentinel_spec()),
            r is Ok ==> *final(self) == (CdbSession {
                state: SessionState::Ready,
                ..*old(self)
            }),
            !marker_seen(lines.deep_view(), ready_sentinel_spec()) && end == StreamEnd::Eof
                ==> r == Err::<(), CdbError>(CdbError::ProcessTerminated) && *final(self) == (
            CdbSession { state: SessionState::ClosedUnexpected, ..*old(self) }),
            !marker_seen(lines.deep_view(), ready_sentinel_spec()) && end
                == StreamEnd::TimedOut ==> r == Err::<(), CdbError>(
                CdbError::CommandTimeout(old(self).init_timeout_secs),
            ) && *final(self) == *old(self),
            end matches StreamEnd::Failed(e) ==> (!marker_seen(
                lines.deep_view(),
                ready_sentinel_spec(),
            ) ==> r == Err::<(), CdbError>(CdbError::IoError(e)) && *final(self) == *old(
                self,
            )),
    {
        let r = scan_for_sentinel(ready_sentinel(), self.init_timeout_secs, lines, end);
        match &r {
            Result::Ok(_) => {
                self.state = SessionState::Ready;
            },
            Result::Err(CdbError::ProcessTerminated) => {
                self.state = SessionState::ClosedUnexpected;
            },
            Result::Err(_) => {},
        }
        r
    }

    /// Frame the next command: returns the payload to write to the input
    /// pipe as one flushed write, and the fresh marker whose first
    /// occurrence on a line will end the reply.
    pub fn begin_command(&mut self, command: &str) -> (r: (String, String))
        requires
            old(self).state == SessionState::Ready,
            old(self).commands_sent < u64::MAX,
        ensures
            r.1@ == marker_spec(old(self).commands_sent as nat),
            r.0@ == command_payload_spec(command@, r.1@),
            *final(self) == (CdbSession {
                state: SessionState::Executing,
                commands_sent: (old(self).commands_sent + 1) as u64,
                ..*old(self)
            }),
    {
        let marker = marker_for(self.commands_sent);
        let payload = command_payload(command, &marker);
        self.state = SessionState::Executing;
        self.commands_sent = self.commands_sent + 1;
        (payload, marker)
    }

    /// The marker of the command currently in flight.
    pub open spec fn pending_marker(&self) -> Seq<char> {
        marker_spec((self.commands_sent - 1) as nat)
    }

    /// Report that writing the framed command to the input pipe failed;
    /// the command is abandoned and the session returns to `Ready`.
    pub fn send_failed(&mut self, err: String) -> (r: CdbError)
        requires
            old(self).state == SessionState::Executing,
        ensures
            r == CdbError::CommandSendFailed(err),
            *final(self) == (CdbSession { state: SessionState::Ready, ..*old(self) }),
    {
        self.state = SessionState::Ready;
        CdbError::CommandSendFailed(err)
    }

    /// Resolve the command in flight from the lines read since the write.
    /// Returns exactly the lines preceding the first marker line, each
    /// right-trimmed, blank lines preserved; the marker line and anything
    /// after it are discarded.  End of file before the marker kills the
    /// session (`ProcessTerminated`); a fired timer is `CommandTimeout` of
    /// the command bound and any other stream fault is `IoError`, never a
    /// success with partial output; after a timeout or a fault the session
    /// is not evicted.
    pub fn complete_command(&mut self, lines: &Vec<String>, end: StreamEnd) -> (r: Result<
        Vec<String>,
        CdbError,
    >)
        requires
            old(self).state == SessionState::Executing,
            old(self).commands_sent >= 1,
            marker_seen(lines.deep_view(), old(self).pending_marker()) || end
                != StreamEnd::Open,
        ensures
            r is Ok <==> marker_seen(lines.deep_view(), old(self).pending_marker()),
            r matches Ok(out) ==> out.deep_view() == kept_lines(
                lines.deep_view(),
                old(self).pending_marker(),
            ) && *final(self) == (CdbSession { state: SessionState::Ready, ..*old(self) }),
            !marker_seen(lines.deep_view(), old(self).pending_marker()) && end
                == StreamEnd::Eof ==> r == Err::<Vec<String>, CdbError>(
                CdbError::ProcessTerminated,
            ) && *final(self) == (CdbSession {
                state: SessionState::ClosedUnexpected,
                ..*old(self)
            }),
            !marker_seen(lines.deep_view(), old(self).pending_marker()) && end
                == StreamEnd::TimedOut ==> r == Err::<Vec<String>, CdbError>(
                CdbError::CommandTimeout(old(self).timeout_secs),
            ) && *final(self) == (CdbSession { state: SessionState::Ready, ..*old(self) }),
            end matches StreamEnd::Failed(e) ==> (!marker_seen(
                lines.deep_view(),
                old(self).pending_marker(),
            ) ==> r == Err::<Vec<String>, CdbError>(CdbError::IoError(e)) && *final(self)
                == (CdbSession { state: SessionState::Ready, ..*old(self) })),
    {
        let marker = marker_for(self.commands_sent - 1);
        let r = read_until_marker(&marker, self.timeout_secs, lines, end);
        match &r {
            Result::Ok(_) => {
                self.state = SessionState::Ready;
            },
            Result::Err(CdbError::ProcessTerminated) => {
                self.state = SessionState::ClosedUnexpected;
            },
            Result::Err(_) => {
                self.state = SessionState::Ready;
            },
        }
        r
    }

    /// Begin the shutdown sequence: returns the kind-specific bytes to
    /// write to the input pipe.  A dump session quits with `q` and a
    /// newline; a remote session detaches with one control byte followed
    /// immediately by the quit command, no separator between them.
    pub fn begin_shutdown(&mut self) -> (r: &'static str)
        requires
            old(self).state != SessionState::Closing,
            old(self).state != SessionState::ClosedClean,
            old(self).state != SessionState::ClosedForced,
        ensures
            old(self).kind == SessionKind::Dump ==> r@ == "q\n"@,
            old(self).kind == SessionKind::Remote ==> r@ == "\u{2}q\n"@,
            *final(self) == (CdbSession { state: SessionState::Closing, ..*old(self) }),
    {
        self.state = SessionState::Closing;
        match self.kind {
            SessionKind::Dump => "q\n",
            SessionKind::Remote => "\u{2}q\n",
        }
    }

    /// Resolve the shutdown: the driver has written the quit sequence and
    /// waited up to the grace period for the process to exit.  A clean
    /// exit succeeds with the process's exit code; a wait error or a
    /// timed-out wait means the process was force-killed, and the
    /// corresponding error is returned.
    pub fn shutdown(&mut self, wait: WaitOutcome) -> (r: Result<Option<i32>, CdbError>)
        requires
            old(self).state == SessionState::Closing,
        ensures
            wait matches WaitOutcome::Exited(code) ==> r == Ok::<Option<i32>, CdbError>(code)
                && *final(self) == (CdbSession {
                state: SessionState::ClosedClean,
                ..*old(self)
            }),
            wait matches WaitOutcome::WaitFailed(e) ==> ({
                &&& r matches Err(CdbError::ProcessStartFailed(m)) && m@
                    == "Failed to terminate process: "@ + e@
                &&& *final(self) == (CdbSession {
                    state: SessionState::ClosedForced,
                    ..*old(self)
                })
            }),
            wait is TimedOut ==> r == Err::<Option<i32>, CdbError>(
                CdbError::CommandTimeout(SHUTDOWN_GRACE_SECS as u64),
            ) && *final(self) == (CdbSession {
                state: SessionState::ClosedForced,
                ..*old(self)
            }),
    {
        match wait {
            WaitOutcome::Exited(code) => {
                self.state = SessionState::ClosedClean;
                Ok(code)
            },
            WaitOutcome::WaitFailed(e) => {
                self.state = SessionState::ClosedForced;
                let mut m = String::from_str("Failed to terminate process: ");
                m.append(e.as_str());
                Err(CdbError::ProcessStartFailed(m))
            },
            WaitOutcome::TimedOut => {
                self.state = SessionState::ClosedForced;
                Err(CdbError::CommandTimeout(SHUTDOWN_GRACE_SECS))
            },
        }
    }
}

/// How waiting for the process to exit during shutdown came out.
#[derive(Debug, Clone)]
pub enum WaitOutcome {
    /// The process exited within the grace period, with this exit code
    /// (`None` when it was ended by a signal and left no code).
    Exited(Option<i32>),
    /// Waiting itself failed, with the underlying description; the
    /// process was force-killed.
    WaitFailed(String),
    /// The grace period elapsed; the process was force-killed.
    TimedOut,
}

} // verus!
