//! The decisions of the websocket connection: which events it waits for, how it
//! reconnects, when it gives up, and what it makes of each frame.
use vstd::prelude::*;

verus! {

/// Failed reconnection attempts after which the connection gives up, when one more fails.
pub const MAX_FAILED_RECONNECTS: u32 = 10;

/// Seconds to wait after a failed reconnection attempt.
pub const RECONNECT_TIMEOUT_SECS: u64 = 30;

/// The state of the loop that keeps the websocket open.
#[derive(Debug, Clone, Copy, PartialEq, Eq, Structural)]
pub struct Reconnect {
    /// The socket is closed and is to be reopened.
    pub closed: bool,
    /// A failed attempt was made; the pause after it has not yet passed.
    pub timeout: bool,
    /// Failed reconnection attempts so far.
    pub failed_reconnect_count: u32,
}

/// Something that the loop waited for and that has happened.
pub enum WsEvent<M> {
    /// The owner asked the connection to end.
    TerminationRequested,
    /// The pause after a failed attempt has passed.
    TimeoutElapsed,
    /// An attempt to reopen the socket succeeded.
    Reconnected,
    /// An attempt to reopen the socket failed.
    ReconnectFailed,
    /// The open socket yielded an item.
    Received(M),
    /// The open socket ended.
    StreamEnded,
}

/// What the loop does after an event.
pub enum WsAction<M> {
    /// Leave the loop: the connection is over.
    Stop,
    /// Wait for the next event.
    Continue,
    /// Hand the item to the handler, then wait for the next event.
    Deliver(M),
}

impl Reconnect {
    /// A loop over a socket that was just opened.
    pub fn new() -> (res: Self)
        ensures
            !res.closed,
            !res.timeout,
            res.failed_reconnect_count == 0,
    {
        Reconnect { closed: false, timeout: false, failed_reconnect_count: 0 }
    }

    /// The loop has not given up: at most `MAX_FAILED_RECONNECTS` attempts have failed.
    pub open spec fn running(&self) -> bool {
        self.failed_reconnect_count <= MAX_FAILED_RECONNECTS
    }

    /// Whether the loop waits for the pause after a failed attempt.
    pub fn waits_for_timeout(&self) -> (res: bool)
        ensures
            res == self.timeout,
    {
        self.timeout
    }

    /// Whether the loop tries to reopen the socket.
    pub fn waits_for_reconnect(&self) -> (res: bool)
        ensures
            res == self.closed,
    {
        self.closed
    }

    /// Whether the loop reads from the socket.
    pub fn waits_for_message(&self) -> (res: bool)
        ensures
            res == !self.closed,
    {
        !self.closed
    }

    /// Whether the loop waits for `event` in this state: termination always, the pause
    /// only after a failed attempt, reconnection only while closed, items and the end
    /// of the socket only while open.
    pub open spec fn awaits<M>(&self, event: WsEvent<M>) -> bool {
        match event {
            WsEvent::TerminationRequested => true,
            WsEvent::TimeoutElapsed => self.timeout,
            WsEvent::Reconnected | WsEvent::ReconnectFailed => self.closed,
            WsEvent::Received(_) | WsEvent::StreamEnded => !self.closed,
        }
    }

    /// The state after `event` and what the loop does then.
    pub open spec fn next<M>(self, event: WsEvent<M>) -> (Reconnect, WsAction<M>) {
        match event {
            WsEvent::TerminationRequested => (self, WsAction::Stop),
            WsEvent::TimeoutElapsed => (Reconnect { timeout: false, ..self }, WsAction::Continue),
            WsEvent::Reconnected => (Reconnect { closed: false, ..self }, WsAction::Continue),
            WsEvent::ReconnectFailed => {
                let after = Reconnect {
                    timeout: true,
                    failed_reconnect_count: (self.failed_reconnect_count + 1) as u32,
                    ..self
                };
                if self.failed_reconnect_count + 1 > MAX_FAILED_RECONNECTS {
                    (after, WsAction::Stop)
                } else {
                    (after, WsAction::Continue)
                }
            },
            WsEvent::Received(m) => (self, WsAction::Deliver(m)),
            WsEvent::StreamEnded => (Reconnect { closed: true, ..self }, WsAction::Continue),
        }
    }

    /// Takes an event that the loop waited for: termination stops the loop; the pause
    /// passing, a reconnection or the end of the socket change the state; an item is
    /// handed on unchanged; a failed attempt is counted, and stops the loop once more
    /// than `MAX_FAILED_RECONNECTS` attempts have failed.
    pub fn step<M>(&mut self, event: WsEvent<M>) -> (action: WsAction<M>)
        requires
            old(self).running(),
            old(self).awaits(event),
        ensures
            (*final(self), action) == old(self).next(event),
            action is Stop || final(self).running(),
    {
        match event {
            WsEvent::TerminationRequested => WsAction::Stop,
            WsEvent::TimeoutElapsed => {
                self.timeout = false;
                WsAction::Continue
            },
            WsEvent::Reconnected => {
                self.closed = false;
                WsAction::Continue
            },
            WsEvent::ReconnectFailed => {
                self.failed_reconnect_count = self.failed_reconnect_count + 1;
                self.timeout = true;
                if self.failed_reconnect_count > MAX_FAILED_RECONNECTS {
                    WsAction::Stop
                } else {
                    WsAction::Continue
                }
            },
            WsEvent::Received(m) => WsAction::Deliver(m),
            WsEvent::StreamEnded => {
                self.closed = true;
                WsAction::Continue
            },
        }
    }
}

/// What is done with a frame read from the socket.
#[derive(Debug, Clone, Copy, PartialEq, Eq, Structural)]
pub enum FrameDisposition {
    /// A close frame: the stream ends.
    End,
    /// An empty frame, likely a keep-alive: nothing is yielded for it.
    KeepAlive,
    /// A frame with a payload: it is decoded as a message.
    Decode,
}

/// What is done with a frame, given whether it is a close frame and the length of its payload.
pub fn frame_disposition(is_close: bool, payload_len: usize) -> (res: FrameDisposition)
    ensures
        is_close ==> res == FrameDisposition::End,
        !is_close && payload_len == 0 ==> res == FrameDisposition::KeepAlive,
        !is_close && payload_len > 0 ==> res == FrameDisposition::Decode,
{
    if is_close {
        FrameDisposition::End
    } else if payload_len == 0 {
        FrameDisposition::KeepAlive
    } else {
        FrameDisposition::Decode
    }
}

/// Whether a websocket whose end signal is held should be reopened: exactly when that
/// signal's receiver is gone.
pub fn should_reopen(holds_terminator: bool, terminator_closed: bool) -> (res: bool)
    ensures
        res == (holds_terminator && terminator_closed),
{
    holds_terminator && terminator_closed
}

/// The path and query of the websocket address for an auth token: `/?authToken=` and the token.
pub fn websocket_path_and_query(auth_token: &str) -> (res: String)
    ensures
        res@ == "/?authToken="@ + auth_token@,
{
    let mut res = String::from_str("/?authToken=");
    res.append(auth_token);
    res
}

/// What a run of the loop over `events` does: the items it hands on, in order, the
/// number of events it takes before it stops (all of them when it does not stop),
/// whether it stops, and the state it ends in.
pub open spec fn run<M>(r: Reconnect, events: Seq<WsEvent<M>>) -> (Seq<M>, nat, bool, Reconnect)
    decreases events.len(),
{
    if events.len() == 0 {
        (seq![], 0, false, r)
    } else {
        let (after, action) = r.next(events[0]);
        match action {
            WsAction::Stop => (seq![], 1, true, after),
            WsAction::Deliver(m) => {
                let rest = run(after, events.drop_first());
                (seq![m] + rest.0, rest.1 + 1, rest.2, rest.3)
            },
            WsAction::Continue => {
                let rest = run(after, events.drop_first());
                (rest.0, rest.1 + 1, rest.2, rest.3)
            },
        }
    }
}

/// The items among the events, in order.
pub open spec fn received<M>(events: Seq<WsEvent<M>>) -> Seq<M>
    decreases events.len(),
{
    if events.len() == 0 {
        seq![]
    } else {
        match events[0] {
            WsEvent::Received(m) => seq![m] + received(events.drop_first()),
            _ => received(events.drop_first()),
        }
    }
}

/// The number of failed reconnection attempts among the events.
pub open spec fn failures<M>(events: Seq<WsEvent<M>>) -> nat
    decreases events.len(),
{
    if events.len() == 0 {
        0
    } else {
        match events[0] {
            WsEvent::ReconnectFailed => failures(events.drop_first()) + 1,
            _ => failures(events.drop_first()),
        }
    }
}

/// Over any run of the loop from a state that has not given up: every item that
/// arrives before the loop stops is handed on exactly once and in order of arrival,
/// and nothing after the stop; the loop stops no later than at the first termination
/// request; and while it has not stopped, the failed attempts so far are counted and
/// are at most `MAX_FAILED_RECONNECTS`. So the attempt that fails after
/// `MAX_FAILED_RECONNECTS` failed ones stops the loop.
pub proof fn lemma_run<M>(r: Reconnect, events: Seq<WsEvent<M>>)
    requires
        r.running(),
    ensures
        run(r, events).1 <= events.len(),
        run(r, events).0 == received(events.take(run(r, events).1 as int)),
        forall|t: int|
            0 <= t < events.len() && #[trigger] events[t] is TerminationRequested ==> run(
                r,
                events,
            ).2 && run(r, events).1 <= t + 1,
        !run(r, events).2 ==> run(r, events).3.failed_reconnect_count == r.failed_reconnect_count
            + failures(events) && run(r, events).3.running(),
        r.failed_reconnect_count + failures(events) > MAX_FAILED_RECONNECTS ==> run(r, events).2,
    decreases events.len(),
{
    if events.len() > 0 {
        let (after, action) = r.next(events[0]);
        let rest = events.drop_first();
        if !(action is Stop) {
            lemma_run(after, rest);
            let n = run(after, rest).1;
            assert(events.take((n + 1) as int).drop_first() =~= rest.take(n as int));
            assert forall|t: int|
                0 <= t < events.len() && #[trigger] events[t] is TerminationRequested implies run(
                    r,
                    events,
                ).2 && run(r, events).1 <= t + 1 by {
                assert(t > 0);
                assert(rest[t - 1] == events[t]);
            }
        } else {
            assert(events.take(1).drop_first() =~= Seq::<WsEvent<M>>::empty());
            assert(received(events.take(1).drop_first()) =~= Seq::<M>::empty());
        }
    }
}

/// The loop stops only for a cause: at a termination request, or at a failed attempt
/// that brings the failed attempts above `MAX_FAILED_RECONNECTS`. The end of the
/// socket, an item, the pause passing or a successful reconnection never stop it.
pub proof fn lemma_run_stops_only_for_cause<M>(r: Reconnect, events: Seq<WsEvent<M>>)
    requires
        r.running(),
    ensures
        run(r, events).2 ==> 1 <= run(r, events).1 <= events.len() && (events[run(r, events).1 - 1] is TerminationRequested
            || (events[run(r, events).1 - 1] is ReconnectFailed && r.failed_reconnect_count + failures(
            events.take(run(r, events).1 as int),
        ) > MAX_FAILED_RECONNECTS)),
    decreases events.len(),
{
    if events.len() > 0 {
        let (after, action) = r.next(events[0]);
        let rest = events.drop_first();
        if action is Stop {
            let t1 = events.take(1);
            assert(t1.drop_first() =~= Seq::<WsEvent<M>>::empty());
            assert(t1[0] == events[0]);
            assert(failures(t1.drop_first()) == 0);
        } else {
            lemma_run_stops_only_for_cause(after, rest);
            lemma_run(after, rest);
            let n = run(after, rest).1;
            if run(r, events).2 {
                let tn = events.take((n + 1) as int);
                assert(tn.drop_first() =~= rest.take(n as int));
                assert(tn[0] == events[0]);
                assert(events[n as int] == rest[n - 1]);
            }
        }
    }
}

} // verus!
