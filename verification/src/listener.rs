//! The listener's decisions.
//!
//! Listening is a loop: read with a timeout, then deliver, probe or stop. The
//! reads and the writes belong to the caller. This module holds the state of
//! the loop and decides, after each read and each probe, what comes next.
//!
//! A round of the loop goes like this. While the handler is running, the
//! caller reads once and hands the result to `on_read`. The answer is to
//! deliver a notification, to skip a line that is none, to send the liveness
//! probe, or to stop with the error. After a probe the caller hands what the
//! write gave to `on_ping`, which says whether to go on. A handler that is no
//! longer running ends the loop without an error.
//!
//! `replay` is that loop over a channel whose behaviour was written down in
//! advance; `run` says what it comes to.

use crate::channel::{read_view, write_view};
use crate::error::IoError;
use crate::event::{
    parse_notification, EventParser, NotificationEvent, NotificationView, ParseError,
};
use vstd::prelude::*;

verus! {

/// Where the listener stands.
#[derive(Debug, Clone, Copy, PartialEq, Eq, Structural)]
pub enum ListenerState {
    /// Not listening: not started yet, or asked to stop.
    Stopped,
    /// Listening.
    Running,
    /// Stopped by a failed read or a failed probe.
    Faulted,
}

/// What the caller does after a read.
#[derive(Debug, Clone)]
pub enum ListenAction {
    /// Hand the notification to the handler, then read again.
    Deliver(NotificationEvent),
    /// The line was no notification: report it, then read again.
    Skip(String, ParseError),
    /// Nothing arrived in time: send the liveness probe.
    Ping,
    /// Stop listening and return the error.
    Fail(IoError),
}

/// What the caller does after a read, as mathematics.
pub enum ActionView {
    Deliver(NotificationView),
    Skip(Seq<char>, ParseError),
    Ping,
    Fail(Seq<char>),
}

impl View for ListenAction {
    type V = ActionView;

    open spec fn view(&self) -> ActionView {
        match self {
            ListenAction::Deliver(event) => ActionView::Deliver(event@),
            ListenAction::Skip(line, e) => ActionView::Skip(line@, *e),
            ListenAction::Ping => ActionView::Ping,
            ListenAction::Fail(e) => ActionView::Fail(e.message@),
        }
    }
}

/// What follows a read.
///
/// A line that is a notification is delivered, one that is none is skipped.
/// No line in time calls for the probe. A failed read is the listener's
/// failure.
pub open spec fn action_after_read(read: Result<Option<Seq<char>>, Seq<char>>) -> ActionView {
    match read {
        Ok(Some(line)) => match parse_notification(line) {
            Ok(event) => ActionView::Deliver(event),
            Err(e) => ActionView::Skip(line, e),
        },
        Ok(None) => ActionView::Ping,
        Err(message) => ActionView::Fail(message),
    }
}

/// Where a read leaves a listener that was in `state`: where it was, unless
/// the read failed, which stops it for good.
pub open spec fn state_after_read(
    state: ListenerState,
    read: Result<Option<Seq<char>>, Seq<char>>,
) -> ListenerState {
    match read {
        Ok(_) => state,
        Err(_) => ListenerState::Faulted,
    }
}

/// Where a probe leaves a listener that was in `state`: where it was if the
/// probe was sent, stopped for good if it was not.
pub open spec fn state_after_ping(state: ListenerState, sent: Result<(), Seq<char>>)
    -> ListenerState {
    match sent {
        Ok(()) => state,
        Err(_) => ListenerState::Faulted,
    }
}

/// One round of the loop, as the channel behaved in it: what the read gave,
/// and what sending the probe gives if the round comes to that.
pub struct Round {
    pub read: Result<Option<Seq<char>>, Seq<char>>,
    pub sent: Result<(), Seq<char>>,
}

/// What a run of the loop amounts to.
pub struct Summary {
    /// The number of probes sent.
    pub pings: nat,
    /// The notifications delivered, first one first.
    pub delivered: Seq<NotificationView>,
    /// The message of the error that ended the run, if one did.
    pub error: Option<Seq<char>>,
}

/// What a listener that keeps running does over `rounds`, one after the
/// other: it goes through them until a read or a probe fails, and through
/// all of them if none does.
pub open spec fn run(rounds: Seq<Round>) -> Summary
    decreases rounds.len(),
{
    if rounds.len() == 0 {
        Summary { pings: 0, delivered: Seq::empty(), error: None }
    } else {
        let round = rounds[0];
        let rest = run(rounds.skip(1));
        match action_after_read(round.read) {
            ActionView::Deliver(event) => Summary {
                delivered: seq![event] + rest.delivered,
                ..rest
            },
            ActionView::Skip(_, _) => rest,
            ActionView::Fail(message) => Summary {
                pings: 0,
                delivered: Seq::empty(),
                error: Some(message),
            },
            ActionView::Ping => match round.sent {
                Ok(()) => Summary { pings: rest.pings + 1, ..rest },
                Err(message) => Summary {
                    pings: 1,
                    delivered: Seq::empty(),
                    error: Some(message),
                },
            },
        }
    }
}

/// Every read of `rounds` gave nothing in time.
pub open spec fn all_idle(rounds: Seq<Round>) -> bool {
    forall|i: int| 0 <= i < rounds.len() ==> (#[trigger] rounds[i]).read == Ok::<
        Option<Seq<char>>,
        Seq<char>,
    >(None)
}

/// The first round of `rounds` in which the probe cannot be sent, or the
/// number of rounds if there is none.
pub open spec fn first_failed_probe(rounds: Seq<Round>) -> nat
    decreases rounds.len(),
{
    if rounds.len() == 0 || rounds[0].sent is Err {
        0
    } else {
        1 + first_failed_probe(rounds.skip(1))
    }
}

/// Liveness: while nothing arrives, the listener sends one probe for each
/// read that timed out, and it stops with an error exactly when a probe
/// cannot be sent: with that probe's error, after that probe.
pub proof fn lemma_one_probe_per_timeout(rounds: Seq<Round>)
    requires
        all_idle(rounds),
    ensures
        ({
            let failed = first_failed_probe(rounds);
            let summary = run(rounds);
            &&& failed <= rounds.len()
            &&& summary.delivered == Seq::<NotificationView>::empty()
            &&& failed == rounds.len() ==> summary.pings == rounds.len() && summary.error is None
            &&& failed < rounds.len() ==> summary.pings == failed + 1 && rounds[failed as int].sent
                == Err::<(), Seq<char>>(summary.error->0) && summary.error is Some
            &&& forall|i: int| 0 <= i < failed ==> (#[trigger] rounds[i]).sent is Ok
        }),
    decreases rounds.len(),
{
    if rounds.len() > 0 {
        // The rounds after the first are idle too, and each of them is one
        // place further on in `rounds`.
        let rest = rounds.skip(1);
        assert(all_idle(rest));
        lemma_one_probe_per_timeout(rest);
        if rounds[0].sent is Ok {
            let failed = first_failed_probe(rounds);
            assert forall|i: int| 0 <= i < failed implies (#[trigger] rounds[i]).sent is Ok by {
                if i > 0 {
                    assert(rounds[i] == rest[i - 1]);
                }
            }
        }
    }
}

/// One round of the loop as the channel behaved in it, written down: what
/// the read gave, and what sending the probe gives if the round comes to
/// that.
#[derive(Debug)]
pub struct ChannelRound {
    pub read: Result<Option<String>, IoError>,
    pub sent: Result<(), IoError>,
}

impl View for ChannelRound {
    type V = Round;

    open spec fn view(&self) -> Round {
        Round { read: read_view(self.read), sent: write_view(self.sent) }
    }
}

/// The rounds of `rounds`, as mathematics.
pub open spec fn rounds_view(rounds: Seq<ChannelRound>) -> Seq<Round> {
    rounds.map_values(|round: ChannelRound| round@)
}

/// What a run of the loop came to.
#[derive(Debug)]
pub struct ListenReport {
    /// The number of probes sent.
    pub pings: usize,
    /// The notifications delivered, first one first.
    pub delivered: Vec<NotificationEvent>,
    /// How the run ended: with the error of the read or the probe that
    /// failed, or without one when the rounds ran out.
    pub result: Result<(), IoError>,
}

impl View for ListenReport {
    type V = Summary;

    open spec fn view(&self) -> Summary {
        Summary {
            pings: self.pings as nat,
            delivered: self.delivered@.map_values(|event: NotificationEvent| event@),
            error: match self.result {
                Ok(()) => None,
                Err(e) => Some(e.message@),
            },
        }
    }
}

/// What was done so far, followed by what `rest` amounts to.
pub open spec fn followed_by(pings: nat, delivered: Seq<NotificationView>, rest: Summary)
    -> Summary {
    Summary { pings: pings + rest.pings, delivered: delivered + rest.delivered, error: rest.error }
}

/// The state of one listener.
pub struct ConnectionHandler {
    state: ListenerState,
}

impl View for ConnectionHandler {
    type V = ListenerState;

    closed spec fn view(&self) -> ListenerState {
        self.state
    }
}

impl ConnectionHandler {
    /// A listener that has not started.
    pub fn new() -> (handler: ConnectionHandler)
        ensures
            handler@ == ListenerState::Stopped,
    {
        ConnectionHandler { state: ListenerState::Stopped }
    }

    /// Where the listener stands.
    pub fn state(&self) -> (state: ListenerState)
        ensures
            state == self@,
    {
        self.state
    }

    /// Whether the listener is listening.
    pub fn is_running(&self) -> (running: bool)
        ensures
            running == (self@ == ListenerState::Running),
    {
        match self.state {
            ListenerState::Running => true,
            _ => false,
        }
    }

    /// Starts listening, from whatever state.
    pub fn start(&mut self)
        ensures
            final(self)@ == ListenerState::Running,
    {
        self.state = ListenerState::Running;
    }

    /// Asks a running listener to stop. The request is seen when the round
    /// that is under way has ended: a read that has begun is not cut short.
    /// A listener that is not running stays as it is.
    pub fn stop(&mut self)
        ensures
            final(self)@ == if old(self)@ == ListenerState::Running {
                ListenerState::Stopped
            } else {
                old(self)@
            },
    {
        if self.is_running() {
            self.state = ListenerState::Stopped;
        }
    }

    /// Decides what follows a read: see `after_read`.
    pub fn on_read(&mut self, read: Result<Option<String>, IoError>) -> (action: ListenAction)
        ensures
            action@ == action_after_read(read_view(read)),
            final(self)@ == state_after_read(old(self)@, read_view(read)),
    {
        match read {
            Ok(Some(line)) => match EventParser::parse_json(line.as_str()) {
                Ok(event) => ListenAction::Deliver(event),
                Err(e) => ListenAction::Skip(line, e),
            },
            Ok(None) => ListenAction::Ping,
            Err(e) => {
                self.state = ListenerState::Faulted;
                ListenAction::Fail(e)
            },
        }
    }

    /// Runs the loop over a channel whose behaviour was written down in
    /// advance, round by round, and reports what the listener did: see `run`.
    /// The listener starts, and it is left running unless a read or a probe
    /// failed.
    pub fn replay(&mut self, rounds: Vec<ChannelRound>) -> (report: ListenReport)
        ensures
            report@ == run(rounds_view(rounds@)),
            final(self)@ == if report.result is Ok {
                ListenerState::Running
            } else {
                ListenerState::Faulted
            },
    {
        let ghost goal = run(rounds_view(rounds@));
        let total = rounds.len();
        let mut left = rounds;
        let mut pings: usize = 0;
        let mut delivered: Vec<NotificationEvent> = Vec::new();
        self.start();
        assert(followed_by(0, Seq::empty(), goal) == goal);
        while left.len() > 0
            invariant
                self@ == ListenerState::Running,
                pings + left@.len() <= total,
                goal == run(rounds_view(rounds@)),
                goal == followed_by(
                    pings as nat,
                    delivered@.map_values(|event: NotificationEvent| event@),
                    run(rounds_view(left@)),
                ),
            decreases left@.len(),
        {
            let ghost before = rounds_view(left@);
            let ghost done = delivered@.map_values(|event: NotificationEvent| event@);
            let round = left.remove(0);
            assert(rounds_view(left@) =~= before.skip(1));
            let ghost rest = run(before.skip(1));
            match self.on_read(round.read) {
                ListenAction::Deliver(event) => {
                    let ghost event_view = event@;
                    delivered.push(event);
                    assert(delivered@.map_values(|event: NotificationEvent| event@) =~= done.push(
                        event_view,
                    ));
                    assert(done.push(event_view) + rest.delivered =~= done + (seq![event_view]
                        + rest.delivered));
                },
                ListenAction::Skip(_, _) => {},
                ListenAction::Fail(e) => {
                    return ListenReport { pings, delivered, result: Err(e) };
                },
                ListenAction::Ping => {
                    pings = pings + 1;
                    match self.on_ping(round.sent) {
                        Ok(()) => {},
                        Err(e) => {
                            return ListenReport { pings, delivered, result: Err(e) };
                        },
                    }
                },
            }
        }
        assert(delivered@.map_values(|event: NotificationEvent| event@) + Seq::<
            NotificationView,
        >::empty() =~= delivered@.map_values(|event: NotificationEvent| event@));
        ListenReport { pings, delivered, result: Ok(()) }
    }

    /// Decides what follows a probe: a probe that was sent lets the listener
    /// go on; one that failed stops it for good, and its error is the
    /// listener's.
    pub fn on_ping(&mut self, sent: Result<(), IoError>) -> (res: Result<(), IoError>)
        ensures
            final(self)@ == state_after_ping(old(self)@, write_view(sent)),
            write_view(res) == write_view(sent),
    {
        match sent {
            Ok(()) => Ok(()),
            Err(e) => {
                self.state = ListenerState::Faulted;
                Err(e)
            },
        }
    }
}

} // verus!
