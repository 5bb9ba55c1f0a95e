//! The channel to the player on a Unix system: how it is set up, waited on and
//! taken down.
//!
//! Nothing here opens, polls or closes anything. Each step of a set-up or a
//! teardown names the one operation that the owner of the socket and the child
//! process has to perform; the outcome of that operation decides the next step.

use super::{MpvLinkDeinitError, MpvLinkInitError};
use crate::io::{IoErrorKind, IoFailure};
use crate::text::{decimal, push_decimal, push_str, utf8};
use vstd::prelude::*;

verus! {

/// What a channel holds.
#[derive(Clone, Copy, Debug, PartialEq, Eq, Structural)]
pub enum MpvLinkInner {
    /// The channel has been closed.
    Closed,
    /// A socket to a player that runs on its own.
    Socket,
    /// A socket to a player that is a child of this process, and the child.
    Child,
}

/// The state of a channel.
#[derive(Debug, PartialEq, Eq)]
pub struct MpvLink {
    inner: MpvLinkInner,
}

/// A step of setting up a channel: the operation to perform next, or how the
/// set-up ended.
#[derive(Debug, PartialEq, Eq)]
pub enum Setup {
    /// Remove the socket file that an earlier player left at the path.
    RemoveStale,
    /// Spawn the player with the argument of [`server_argument`].
    SpawnServer,
    /// Connect to the socket at the path. The player makes the socket some
    /// time after it has started, so this step comes again, after yielding,
    /// for as long as the socket is not there.
    ConnectServer,
    /// Connect to the socket at the path, on which a player already listens.
    Connect,
    /// Make a pair of connected sockets.
    SocketPair,
    /// Clear the close-on-exec flag of the end that the player gets.
    ClearCloexec,
    /// Spawn the player with the argument of [`client_argument`], then close
    /// this process's copy of the player's end.
    SpawnClient,
    /// Switch this process's socket to non-blocking mode.
    SetNonblocking { child: bool },
    /// The channel is ready.
    Done(MpvLink),
    /// The set-up has failed; nothing is tried again. `link` is the channel
    /// that had been set up when it failed, which is taken down like any other;
    /// it is closed where there was none yet.
    Failed { error: MpvLinkInitError, link: MpvLink },
}

/// A step of taking a channel down: the operation to perform next, or how the
/// teardown ended.
#[derive(Debug, PartialEq, Eq)]
pub enum Deinit {
    /// Write [`quit_command`] to the socket, to make the child exit.
    WriteQuit,
    /// Shut down both directions of the socket to the child.
    ShutdownChild,
    /// Wait, for as long as it takes, for the child to exit. `shutdown` is how
    /// the shutdown of the socket ended.
    WaitChild { shutdown: Result<(), IoFailure> },
    /// Shut down both directions of the socket.
    ShutdownSocket,
    /// The teardown has run its course.
    Done(Result<(), MpvLinkDeinitError>),
}

/// What a poll of the socket for readability reported.
#[derive(Clone, Copy, Debug, PartialEq, Eq)]
pub struct PollReport {
    /// What the poll returned: the number of ready descriptors, 0 where the
    /// timeout elapsed, a negative number where the poll itself failed.
    pub ready: i32,
    /// The descriptor is not valid.
    pub invalid: bool,
    /// The descriptor is in an error state.
    pub error: bool,
    /// The peer has hung up.
    pub hang_up: bool,
    /// The failure that the system reported, for a poll that failed.
    pub failure: IoFailure,
}

impl PollReport {
    /// What a wait that ended with this report comes to. A poll that failed
    /// hands its failure on; an elapsed timeout is told apart from a failure;
    /// an invalid descriptor and an error state on it are failures; a hang-up
    /// alone is none.
    pub open spec fn verdict(self) -> Result<(), IoFailure> {
        if self.ready < 0 {
            Err(self.failure)
        } else if self.ready == 0 {
            Err(IoFailure { kind: IoErrorKind::TimedOut, code: None })
        } else if self.invalid {
            Err(IoFailure { kind: IoErrorKind::InvalidInput, code: None })
        } else if self.error {
            Err(IoFailure { kind: IoErrorKind::Other, code: None })
        } else {
            Ok(())
        }
    }
}

/// The timeout to poll with, in milliseconds as the poll counts them: none,
/// written as -1, where the wait has no limit, else the limit, at most
/// `i32::MAX`.
pub open spec fn poll_timeout_of(timeout: Option<u128>) -> i32 {
    match timeout {
        None => -1i32,
        Some(milliseconds) => if milliseconds > i32::MAX {
            i32::MAX
        } else {
            milliseconds as i32
        },
    }
}

/// The command that asks the player to exit, as it is written to the socket.
pub fn quit_command() -> (r: &'static str)
    ensures
        r@ == "quit\n"@,
{
    "quit\n"
}

/// The name of the player's program.
pub fn player_program() -> (r: &'static str)
    ensures
        r@ == "mpv"@,
{
    "mpv"
}

/// The argument that keeps the player running without a file to play.
pub fn idle_argument() -> (r: &'static str)
    ensures
        r@ == "--idle"@,
{
    "--idle"
}

/// The argument that keeps the player off the terminal.
pub fn no_terminal_argument() -> (r: &'static str)
    ensures
        r@ == "--no-terminal"@,
{
    "--no-terminal"
}

/// The argument that tells the player to listen on a socket at `path`.
pub fn server_argument(path: &[u8]) -> (r: Vec<u8>)
    ensures
        r@ == utf8("--input-ipc-server="@) + path@,
{
    let mut argument: Vec<u8> = Vec::new();
    push_str(&mut argument, "--input-ipc-server=");
    argument.extend_from_slice(path);
    assert(argument@ =~= utf8("--input-ipc-server="@) + path@);
    argument
}

/// The argument that hands the player the descriptor of its end of a socket
/// pair.
pub fn client_argument(descriptor: i32) -> (r: Vec<u8>)
    ensures
        r@ == utf8("--input-ipc-client=fd://"@) + decimal(descriptor as int),
{
    let mut argument: Vec<u8> = Vec::new();
    push_str(&mut argument, "--input-ipc-client=fd://");
    push_decimal(&mut argument, descriptor as i64);
    assert(argument@ =~= utf8("--input-ipc-client=fd://"@) + decimal(descriptor as int));
    argument
}

impl Setup {
    /// The step that follows `self` once its operation has ended with
    /// `outcome`. A failure ends the set-up with the error of the operation
    /// that failed, with one exception: connecting to a socket that the
    /// spawned player has not made yet is tried again. Only where the switch
    /// to non-blocking mode fails is there a channel to take down. A set-up
    /// that has ended stays as it is.
    pub open spec fn next(self, outcome: Result<(), IoFailure>) -> Setup {
        match self {
            Setup::RemoveStale => match outcome {
                Ok(()) => Setup::SpawnServer,
                Err(e) => Setup::Failed {
                    error: MpvLinkInitError::RemovePrevious(e),
                    link: MpvLink::holding(MpvLinkInner::Closed),
                },
            },
            Setup::SpawnServer => match outcome {
                Ok(()) => Setup::ConnectServer,
                Err(e) => Setup::Failed {
                    error: MpvLinkInitError::Spawn(e),
                    link: MpvLink::holding(MpvLinkInner::Closed),
                },
            },
            Setup::ConnectServer => match outcome {
                Ok(()) => Setup::SetNonblocking { child: true },
                Err(e) => if e.kind == IoErrorKind::NotFound {
                    Setup::ConnectServer
                } else {
                    Setup::Failed {
                    error: MpvLinkInitError::Connect(e),
                    link: MpvLink::holding(MpvLinkInner::Closed),
                }
                },
            },
            Setup::Connect => match outcome {
                Ok(()) => Setup::SetNonblocking { child: false },
                Err(e) => Setup::Failed {
                    error: MpvLinkInitError::Connect(e),
                    link: MpvLink::holding(MpvLinkInner::Closed),
                },
            },
            Setup::SocketPair => match outcome {
                Ok(()) => Setup::ClearCloexec,
                Err(e) => Setup::Failed {
                    error: MpvLinkInitError::SocketPair(e),
                    link: MpvLink::holding(MpvLinkInner::Closed),
                },
            },
            Setup::ClearCloexec => match outcome {
                Ok(()) => Setup::SpawnClient,
                Err(e) => Setup::Failed {
                    error: MpvLinkInitError::Cloexec(e),
                    link: MpvLink::holding(MpvLinkInner::Closed),
                },
            },
            Setup::SpawnClient => match outcome {
                Ok(()) => Setup::SetNonblocking { child: true },
                Err(e) => Setup::Failed {
                    error: MpvLinkInitError::Spawn(e),
                    link: MpvLink::holding(MpvLinkInner::Closed),
                },
            },
            Setup::SetNonblocking { child } => match outcome {
                Ok(()) => Setup::Done(
                    MpvLink::holding(
                        if child {
                            MpvLinkInner::Child
                        } else {
                            MpvLinkInner::Socket
                        },
                    ),
                ),
                Err(e) => Setup::Failed {
                    error: MpvLinkInitError::Nonblocking(e),
                    link: MpvLink::holding(
                        if child {
                            MpvLinkInner::Child
                        } else {
                            MpvLinkInner::Socket
                        },
                    ),
                },
            },
            Setup::Done(link) => Setup::Done(link),
            Setup::Failed { error, link } => Setup::Failed { error, link },
        }
    }

    /// Goes on to the next step, given how the operation of this one ended.
    pub fn advance(self, outcome: Result<(), IoFailure>) -> (r: Setup)
        ensures
            r == self.next(outcome),
    {
        match self {
            Setup::RemoveStale => match outcome {
                Ok(()) => Setup::SpawnServer,
                Err(e) => Setup::Failed {
                    error: MpvLinkInitError::RemovePrevious(e),
                    link: MpvLink { inner: MpvLinkInner::Closed },
                },
            },
            Setup::SpawnServer => match outcome {
                Ok(()) => Setup::ConnectServer,
                Err(e) => Setup::Failed {
                    error: MpvLinkInitError::Spawn(e),
                    link: MpvLink { inner: MpvLinkInner::Closed },
                },
            },
            Setup::ConnectServer => match outcome {
                Ok(()) => Setup::SetNonblocking { child: true },
                Err(e) => if e.kind == IoErrorKind::NotFound {
                    Setup::ConnectServer
                } else {
                    Setup::Failed {
                    error: MpvLinkInitError::Connect(e),
                    link: MpvLink { inner: MpvLinkInner::Closed },
                }
                },
            },
            Setup::Connect => match outcome {
                Ok(()) => Setup::SetNonblocking { child: false },
                Err(e) => Setup::Failed {
                    error: MpvLinkInitError::Connect(e),
                    link: MpvLink { inner: MpvLinkInner::Closed },
                },
            },
            Setup::SocketPair => match outcome {
                Ok(()) => Setup::ClearCloexec,
                Err(e) => Setup::Failed {
                    error: MpvLinkInitError::SocketPair(e),
                    link: MpvLink { inner: MpvLinkInner::Closed },
                },
            },
            Setup::ClearCloexec => match outcome {
                Ok(()) => Setup::SpawnClient,
                Err(e) => Setup::Failed {
                    error: MpvLinkInitError::Cloexec(e),
                    link: MpvLink { inner: MpvLinkInner::Closed },
                },
            },
            Setup::SpawnClient => match outcome {
                Ok(()) => Setup::SetNonblocking { child: true },
                Err(e) => Setup::Failed {
                    error: MpvLinkInitError::Spawn(e),
                    link: MpvLink { inner: MpvLinkInner::Closed },
                },
            },
            Setup::SetNonblocking { child } => match outcome {
                Ok(()) => Setup::Done(
                    MpvLink {
                        inner: if child {
                            MpvLinkInner::Child
                        } else {
                            MpvLinkInner::Socket
                        },
                    },
                ),
                Err(e) => Setup::Failed {
                    error: MpvLinkInitError::Nonblocking(e),
                    link: MpvLink {
                        inner: if child {
                            MpvLinkInner::Child
                        } else {
                            MpvLinkInner::Socket
                        },
                    },
                },
            },
            Setup::Done(link) => Setup::Done(link),
            Setup::Failed { error, link } => Setup::Failed { error, link },
        }
    }

    /// Whether the set-up has ended.
    pub fn is_over(&self) -> (r: bool)
        ensures
            r == (self is Done || self is Failed),
    {
        match self {
            Setup::Done(_) | Setup::Failed { .. } => true,
            _ => false,
        }
    }
}

impl Deinit {
    /// The step that follows `self` once its operation has ended with
    /// `outcome`. A failed write of the quit command is passed over. With a
    /// child, a failed shutdown does not stop the teardown: the child is waited
    /// for all the same, and the teardown then ends with the failure of the
    /// wait where the wait failed, else with that of the shutdown where the
    /// shutdown failed. Without a child, a failed shutdown ends it.
    pub open spec fn next(self, outcome: Result<(), IoFailure>) -> Deinit {
        match self {
            Deinit::WriteQuit => Deinit::ShutdownChild,
            Deinit::ShutdownChild => Deinit::WaitChild { shutdown: outcome },
            Deinit::WaitChild { shutdown } => match outcome {
                Ok(()) => match shutdown {
                    Ok(()) => Deinit::Done(Ok(())),
                    Err(e) => Deinit::Done(Err(MpvLinkDeinitError::Shutdown(e))),
                },
                Err(e) => Deinit::Done(Err(MpvLinkDeinitError::Wait(e))),
            },
            Deinit::ShutdownSocket => match outcome {
                Ok(()) => Deinit::Done(Ok(())),
                Err(e) => Deinit::Done(Err(MpvLinkDeinitError::Shutdown(e))),
            },
            Deinit::Done(result) => Deinit::Done(result),
        }
    }

    /// Goes on to the next step, given how the operation of this one ended.
    pub fn advance(self, outcome: Result<(), IoFailure>) -> (r: Deinit)
        ensures
            r == self.next(outcome),
    {
        match self {
            Deinit::WriteQuit => Deinit::ShutdownChild,
            Deinit::ShutdownChild => Deinit::WaitChild { shutdown: outcome },
            Deinit::WaitChild { shutdown } => match outcome {
                Ok(()) => match shutdown {
                    Ok(()) => Deinit::Done(Ok(())),
                    Err(e) => Deinit::Done(Err(MpvLinkDeinitError::Shutdown(e))),
                },
                Err(e) => Deinit::Done(Err(MpvLinkDeinitError::Wait(e))),
            },
            Deinit::ShutdownSocket => match outcome {
                Ok(()) => Deinit::Done(Ok(())),
                Err(e) => Deinit::Done(Err(MpvLinkDeinitError::Shutdown(e))),
            },
            Deinit::Done(result) => Deinit::Done(result),
        }
    }
}

/// How the teardown of a channel with a child ends, from how its three
/// operations ended: the failure of the wait where the wait failed, else that
/// of the shutdown where the shutdown failed, else success. How the write of
/// the quit command ended plays no part.
pub open spec fn child_teardown(
    shutdown: Result<(), IoFailure>,
    wait: Result<(), IoFailure>,
) -> Result<(), MpvLinkDeinitError> {
    match wait {
        Err(e) => Err(MpvLinkDeinitError::Wait(e)),
        Ok(()) => match shutdown {
            Err(e) => Err(MpvLinkDeinitError::Shutdown(e)),
            Ok(()) => Ok(()),
        },
    }
}

/// Every teardown ends after the operations that its channel calls for, and no
/// failure of a shutdown or of a wait is lost: with a child, after the write,
/// the shutdown and the wait, as [`child_teardown`] says; without one, after
/// the shutdown, with its failure where it failed.
pub proof fn lemma_teardown(
    quit: Result<(), IoFailure>,
    shutdown: Result<(), IoFailure>,
    wait: Result<(), IoFailure>,
)
    ensures
        Deinit::WriteQuit.next(quit).next(shutdown).next(wait) == Deinit::Done(
            child_teardown(shutdown, wait),
        ),
        Deinit::ShutdownSocket.next(shutdown) == Deinit::Done(
            match shutdown {
                Ok(()) => Ok(()),
                Err(e) => Err(MpvLinkDeinitError::Shutdown(e)),
            },
        ),
{
}

impl MpvLink {
    /// What the channel holds.
    pub closed spec fn held(&self) -> MpvLinkInner {
        self.inner
    }

    /// The channel that holds `inner`.
    pub closed spec fn holding(inner: MpvLinkInner) -> MpvLink {
        MpvLink { inner }
    }

    /// The channel that holds `inner` holds `inner`, and a channel is known by
    /// what it holds.
    pub proof fn lemma_holding(inner: MpvLinkInner, link: MpvLink)
        ensures
            MpvLink::holding(inner).held() == inner,
            MpvLink::holding(link.held()) == link,
    {
    }

    /// Starts the set-up of a channel to a new player that gets one end of a
    /// socket pair.
    pub fn spawn_client() -> (r: Setup)
        ensures
            r == Setup::SocketPair,
    {
        Setup::SocketPair
    }

    /// Starts the set-up of a channel to a new player that listens on a socket
    /// at a path. `stale_socket` says whether a socket file is at that path
    /// already; it is removed first.
    pub fn spawn_server(stale_socket: bool) -> (r: Setup)
        ensures
            r == if stale_socket {
                Setup::RemoveStale
            } else {
                Setup::SpawnServer
            },
    {
        if stale_socket {
            Setup::RemoveStale
        } else {
            Setup::SpawnServer
        }
    }

    /// Starts the set-up of a channel to a player that listens on a socket at a
    /// path.
    pub fn connect() -> (r: Setup)
        ensures
            r == Setup::Connect,
    {
        Setup::Connect
    }

    /// The timeout to poll the socket with for a wait of at most `timeout`
    /// milliseconds, or without limit.
    pub fn wait_timeout(&self, timeout: Option<u128>) -> (r: i32)
        requires
            self.held() != MpvLinkInner::Closed,
        ensures
            r == poll_timeout_of(timeout),
    {
        match timeout {
            None => -1,
            Some(milliseconds) => if milliseconds > 0x7fff_ffff {
                0x7fff_ffff
            } else {
                milliseconds as i32
            },
        }
    }

    /// Tells how a wait for the socket to become readable has ended, from what
    /// the poll reported.
    pub fn wait_read(&self, report: PollReport) -> (r: Result<(), IoFailure>)
        requires
            self.held() != MpvLinkInner::Closed,
        ensures
            r == report.verdict(),
    {
        if report.ready < 0 {
            Err(report.failure)
        } else if report.ready == 0 {
            Err(IoFailure::from_kind(IoErrorKind::TimedOut))
        } else if report.invalid {
            Err(IoFailure::from_kind(IoErrorKind::InvalidInput))
        } else if report.error {
            Err(IoFailure::from_kind(IoErrorKind::Other))
        } else {
            Ok(())
        }
    }

    /// Whether the channel has been taken down.
    pub fn is_deinit(&self) -> (r: bool)
        ensures
            r == (self.held() == MpvLinkInner::Closed),
    {
        match self.inner {
            MpvLinkInner::Closed => true,
            _ => false,
        }
    }

    /// Takes the channel down: it is closed from now on, and the first step of
    /// releasing what it held is returned. A channel that is closed already
    /// has nothing to release, and the teardown is over at once, with success.
    pub fn deinit(&mut self) -> (r: Deinit)
        ensures
            final(self).held() == MpvLinkInner::Closed,
            r == match old(self).held() {
                MpvLinkInner::Closed => Deinit::Done(Ok(())),
                MpvLinkInner::Socket => Deinit::ShutdownSocket,
                MpvLinkInner::Child => Deinit::WriteQuit,
            },
    {
        let inner = self.inner;
        self.inner = MpvLinkInner::Closed;
        match inner {
            MpvLinkInner::Closed => Deinit::Done(Ok(())),
            MpvLinkInner::Socket => Deinit::ShutdownSocket,
            MpvLinkInner::Child => Deinit::WriteQuit,
        }
    }
}

} // verus!
