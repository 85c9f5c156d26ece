//! Where the service listens, and how long to wait between the attempts to
//! reach it.
//!
//! Connecting is a loop of attempts and sleeps. The attempts and the sleeps
//! belong to the caller; what this module decides is the endpoint, the delay
//! before each new attempt, and the moment to give up.

use crate::error::IoError;
use vstd::prelude::*;

verus! {

/// The directory of the application under the user's cache directory.
pub const DEFAULT_APP_DIR: &'static str = "Perpetua";

/// The file name of the service's socket.
pub const DEFAULT_DAEMON_SOCKET: &'static str = "perpetua_daemon.sock";

/// The loopback address on which the service listens where sockets are TCP.
pub const DEFAULT_DAEMON_HOST: &'static str = "127.0.0.1";

/// The port on which the service listens where sockets are TCP.
pub const DEFAULT_DAEMON_PORT: u16 = 55652;

/// The kind of system the process runs on, as far as the endpoint goes.
#[derive(Debug, Clone, Copy, PartialEq, Eq, Structural)]
pub enum Platform {
    /// A socket file under the home directory.
    Unix,
    /// A TCP port on the loopback interface.
    Windows,
}

/// The endpoint could not be worked out.
#[derive(Debug, Clone)]
pub enum SocketPathError {
    /// The home directory is not known; the reason is kept in words.
    HomeDirNotFound(String),
}

/// Why no channel to the service was established.
#[derive(Debug, Clone)]
pub enum ConnectionError {
    /// The endpoint could not be worked out: nothing was attempted.
    SocketPath(SocketPathError),
    /// A read or a write failed.
    Io(IoError),
    /// Every attempt failed and the delay had reached its cap.
    Timeout,
}

/// Where the service listens.
#[derive(Debug, Clone)]
pub enum DefaultPath {
    /// A socket file, as the segments of its path: the home directory first,
    /// the file name last.
    Unix(Vec<String>),
    /// A host and a port.
    Tcp(String, u16),
}

/// The segments of the socket file's path under `home`.
pub open spec fn socket_segments(home: Seq<char>) -> Seq<Seq<char>> {
    seq![home, "Library"@, "Caches"@, DEFAULT_APP_DIR@, DEFAULT_DAEMON_SOCKET@]
}

impl View for DefaultPath {
    type V = EndpointView;

    open spec fn view(&self) -> EndpointView {
        match self {
            DefaultPath::Unix(segments) => EndpointView::Unix(segments.deep_view()),
            DefaultPath::Tcp(host, port) => EndpointView::Tcp(host@, *port),
        }
    }
}

/// An endpoint, as mathematics.
pub enum EndpointView {
    /// The segments of a socket file's path.
    Unix(Seq<Seq<char>>),
    /// A host and a port.
    Tcp(Seq<char>, u16),
}

/// The endpoint of the service on `platform`.
///
/// `home` is what looking up the home directory gave: the directory, or the
/// reason why there is none. Where sockets are files, the endpoint lies under
/// the home directory and cannot be had without it; where they are TCP ports,
/// it is fixed and `home` is not looked at.
pub fn default_path(platform: Platform, home: Result<String, String>) -> (res: Result<
    DefaultPath,
    SocketPathError,
>)
    ensures
        match (platform, home) {
            (Platform::Windows, _) => res matches Ok(path) && path@ == EndpointView::Tcp(
                DEFAULT_DAEMON_HOST@,
                DEFAULT_DAEMON_PORT,
            ),
            (Platform::Unix, Ok(dir)) => res matches Ok(path) && path@ == EndpointView::Unix(
                socket_segments(dir@),
            ),
            (Platform::Unix, Err(reason)) => res matches Err(SocketPathError::HomeDirNotFound(r))
                && r@ == reason@,
        },
{
    match platform {
        Platform::Windows => Ok(DefaultPath::Tcp(DEFAULT_DAEMON_HOST.to_owned(), DEFAULT_DAEMON_PORT)),
        Platform::Unix => match home {
            Ok(dir) => {
                let ghost dir_view = dir@;
                let mut segments: Vec<String> = Vec::new();
                segments.push(dir);
                segments.push("Library".to_owned());
                segments.push("Caches".to_owned());
                segments.push(DEFAULT_APP_DIR.to_owned());
                segments.push(DEFAULT_DAEMON_SOCKET.to_owned());
                assert(segments.deep_view() =~= socket_segments(dir_view));
                Ok(DefaultPath::Unix(segments))
            },
            Err(reason) => Err(SocketPathError::HomeDirNotFound(reason)),
        },
    }
}

impl SocketPathError {
    /// The error in words.
    pub fn to_string(&self) -> (s: String)
        ensures
            match self {
                SocketPathError::HomeDirNotFound(reason) => s@ == "could not determine $HOME: `"@
                    + reason@ + "`"@,
            },
    {
        match self {
            SocketPathError::HomeDirNotFound(reason) => {
                let mut s = "could not determine $HOME: `".to_owned();
                s.append(reason.as_str());
                s.append("`");
                s
            },
        }
    }
}

impl ConnectionError {
    /// The error in words.
    pub fn to_string(&self) -> (s: String)
        ensures
            match self {
                ConnectionError::SocketPath(SocketPathError::HomeDirNotFound(reason)) => s@
                    == "could not determine $HOME: `"@ + reason@ + "`"@,
                ConnectionError::Io(e) => s@ == e.message@,
                ConnectionError::Timeout => s@ == "connection timed out"@,
            },
    {
        match self {
            ConnectionError::SocketPath(e) => e.to_string(),
            ConnectionError::Io(e) => e.to_string(),
            ConnectionError::Timeout => "connection timed out".to_owned(),
        }
    }
}

/// The delay that follows `timeout`: twice as long, but no longer than
/// `max_timeout`. A delay of zero has no double to grow into: it is followed
/// by the cap, so that every schedule ends.
pub open spec fn next_timeout(timeout: nat, max_timeout: nat) -> nat {
    if 0 < 2 * timeout < max_timeout {
        2 * timeout
    } else {
        max_timeout
    }
}

/// The delay before the attempt that follows `failures` failed ones, when the
/// first delay is `initial` and the cap `max_timeout`.
pub open spec fn nth_timeout(initial: nat, max_timeout: nat, failures: nat) -> nat
    decreases failures,
{
    if failures == 0 {
        initial
    } else {
        next_timeout(nth_timeout(initial, max_timeout, (failures - 1) as nat), max_timeout)
    }
}

/// What the schedule holds, as mathematics: the delay before the next attempt
/// and the cap, both in nanoseconds.
pub struct BackoffView {
    /// The delay that the next failed attempt is followed by.
    pub timeout: nat,
    /// The delay at which the schedule ends.
    pub max_timeout: nat,
}

/// The schedule of delays between the attempts to connect, in nanoseconds.
///
/// Each failed attempt is followed by a sleep of the current delay, and the
/// delay doubles up to the cap. A failed attempt that finds the delay at the
/// cap ends the schedule. A first delay of zero is slept once and followed by
/// the cap. So every schedule ends, whatever it starts with.
pub struct Backoff {
    timeout: u128,
    max_timeout: u128,
}

impl View for Backoff {
    type V = BackoffView;

    closed spec fn view(&self) -> BackoffView {
        BackoffView { timeout: self.timeout as nat, max_timeout: self.max_timeout as nat }
    }
}

impl Backoff {
    /// A schedule that starts with a delay of `timeout` and ends at
    /// `max_timeout`.
    pub fn new(timeout: u128, max_timeout: u128) -> (backoff: Backoff)
        ensures
            backoff@ == (BackoffView {
                timeout: timeout as nat,
                max_timeout: max_timeout as nat,
            }),
    {
        Backoff { timeout, max_timeout }
    }

    /// The delay that the next failed attempt is followed by.
    pub fn timeout(&self) -> (t: u128)
        ensures
            t == self@.timeout,
    {
        self.timeout
    }

    /// The delay at which the schedule ends.
    pub fn max_timeout(&self) -> (t: u128)
        ensures
            t == self@.max_timeout,
    {
        self.max_timeout
    }

    /// What follows a failed attempt: the time to sleep before the next one,
    /// or `None` when the delay has reached the cap and it is time to give
    /// up. After a sleep the delay is the next of the schedule.
    pub fn next_delay(&mut self) -> (sleep: Option<u128>)
        ensures
            final(self)@.max_timeout == old(self)@.max_timeout,
            old(self)@.timeout == old(self)@.max_timeout ==> sleep is None && final(self)@ == old(
                self,
            )@,
            old(self)@.timeout != old(self)@.max_timeout ==> sleep is Some && sleep->0 == old(
                self,
            )@.timeout && final(self)@.timeout == next_timeout(
                old(self)@.timeout,
                old(self)@.max_timeout,
            ),
    {
        if self.timeout == self.max_timeout {
            return None;
        }
        let sleep = self.timeout;
        self.timeout = match sleep.checked_add(sleep) {
            Some(doubled) => if 0 < doubled && doubled < self.max_timeout {
                doubled
            } else {
                self.max_timeout
            },
            None => self.max_timeout,
        };
        Some(sleep)
    }

    /// What follows a failed attempt, as the caller of `connect` sees it: the
    /// time to sleep before the next attempt, or the timeout that ends the
    /// connecting once the delay has reached the cap.
    pub fn after_failure(&mut self) -> (step: Result<u128, ConnectionError>)
        ensures
            final(self)@.max_timeout == old(self)@.max_timeout,
            match step {
                Ok(sleep) => old(self)@.timeout != old(self)@.max_timeout && sleep == old(
                    self,
                )@.timeout && final(self)@.timeout == next_timeout(
                    old(self)@.timeout,
                    old(self)@.max_timeout,
                ),
                Err(e) => old(self)@.timeout == old(self)@.max_timeout && e is Timeout
                    && final(self)@ == old(self)@,
            },
    {
        match self.next_delay() {
            Some(sleep) => Ok(sleep),
            None => Err(ConnectionError::Timeout),
        }
    }
}

/// The start of connecting: the endpoint to try and the schedule of delays,
/// or the error that ends the connecting before anything is attempted.
///
/// The only such error is an endpoint that cannot be worked out, which is
/// the case exactly where sockets are files and there is no home directory.
/// `timeout` is the first delay and `max_timeout` the cap, in nanoseconds.
pub fn begin(
    platform: Platform,
    home: Result<String, String>,
    timeout: u128,
    max_timeout: u128,
) -> (res: Result<(DefaultPath, Backoff), ConnectionError>)
    ensures
        match (platform, home) {
            (Platform::Unix, Err(reason)) => res matches Err(
                ConnectionError::SocketPath(SocketPathError::HomeDirNotFound(r)),
            ) && r@ == reason@,
            (Platform::Unix, Ok(dir)) => res matches Ok((path, backoff)) && path@
                == EndpointView::Unix(socket_segments(dir@)) && backoff@ == (BackoffView {
                timeout: timeout as nat,
                max_timeout: max_timeout as nat,
            }),
            (Platform::Windows, _) => res matches Ok((path, backoff)) && path@
                == EndpointView::Tcp(DEFAULT_DAEMON_HOST@, DEFAULT_DAEMON_PORT) && backoff@ == (
            BackoffView { timeout: timeout as nat, max_timeout: max_timeout as nat }),
        },
{
    match default_path(platform, home) {
        Ok(path) => Ok((path, Backoff::new(timeout, max_timeout))),
        Err(e) => Err(ConnectionError::SocketPath(e)),
    }
}

/// `initial`, doubled `times` times.
pub open spec fn doubled(initial: nat, times: nat) -> nat
    decreases times,
{
    if times == 0 {
        initial
    } else {
        2 * doubled(initial, (times - 1) as nat)
    }
}

/// After the first failure, the delay is the first one doubled once for each
/// failure, or the cap where that is less or the first delay was zero.
pub proof fn lemma_backoff_doubles(initial: nat, max_timeout: nat, failures: nat)
    requires
        failures >= 1,
    ensures
        nth_timeout(initial, max_timeout, failures) == if 0 < doubled(initial, failures)
            < max_timeout {
            doubled(initial, failures)
        } else {
            max_timeout
        },
    decreases failures,
{
    reveal_with_fuel(nth_timeout, 2);
    reveal_with_fuel(doubled, 2);
    if failures > 1 {
        lemma_backoff_doubles(initial, max_timeout, (failures - 1) as nat);
    }
}

/// Every schedule ends: after one failure more than the cap counts
/// nanoseconds, at the latest, the delay is at the cap, where the next
/// failure gives up. A schedule that starts at zero is there after one.
pub proof fn lemma_backoff_ends(initial: nat, max_timeout: nat)
    ensures
        nth_timeout(initial, max_timeout, max_timeout + 1) == max_timeout,
        initial == 0 ==> nth_timeout(initial, max_timeout, 1) == max_timeout,
{
    reveal_with_fuel(nth_timeout, 2);
    if initial > 0 {
        lemma_doubled_grows(initial, max_timeout + 1);
    } else {
        lemma_doubled_zero(max_timeout + 1);
    }
    lemma_backoff_doubles(initial, max_timeout, max_timeout + 1);
}

proof fn lemma_doubled_zero(times: nat)
    ensures
        doubled(0, times) == 0,
    decreases times,
{
    if times > 0 {
        lemma_doubled_zero((times - 1) as nat);
    }
}

proof fn lemma_doubled_grows(initial: nat, times: nat)
    requires
        initial > 0,
    ensures
        doubled(initial, times) >= times + 1,
    decreases times,
{
    if times > 0 {
        lemma_doubled_grows(initial, (times - 1) as nat);
    }
}

/// Backoff monotonicity: as long as the first delay is within the cap, no
/// delay is shorter than the one before it, and none is over the cap.
pub proof fn lemma_backoff_monotonic(initial: nat, max_timeout: nat, failures: nat)
    requires
        initial <= max_timeout,
    ensures
        nth_timeout(initial, max_timeout, failures) <= nth_timeout(
            initial,
            max_timeout,
            failures + 1,
        ) <= max_timeout,
    decreases failures,
{
    if failures > 0 {
        lemma_backoff_monotonic(initial, max_timeout, (failures - 1) as nat);
    }
}

} // verus!
