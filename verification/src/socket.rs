use vstd::prelude::*;

use crate::counts::{lemma_counts_view_injective, ViewerCounts};

verus! {

/// What arrived from the client on the socket.
#[derive(Debug, PartialEq, Eq, Structural, Clone, Copy)]
pub enum ClientMessage {
    /// A `Close` frame.
    Close,
    /// The stream of frames ended.
    Ended,
    /// Reading a frame failed.
    Error,
    /// Any other frame (ping, pong, text, binary): ignored.
    Other,
}

/// What happened to an open socket.
#[derive(Debug, PartialEq, Eq, Structural, Clone, Copy)]
pub enum SocketEvent {
    /// The client sent something, or went away.
    Client(ClientMessage),
    /// A poll of the platforms gave these counts.
    Polled(ViewerCounts),
    /// The counts last handed out for sending reached the client.
    Delivered,
    /// Sending to the client failed.
    SendFailed,
}

/// What the server does next on the socket.
#[derive(Debug, PartialEq, Eq, Structural, Clone, Copy)]
pub enum SocketAction {
    /// Keep waiting for the client or the next poll.
    Wait,
    /// Send these counts to the client.
    Send(ViewerCounts),
    /// Close the socket and forget its session.
    Finish,
}

/// The state of one client's socket: the counts last delivered to it, the
/// counts being sent, whether it is still open, and when (in milliseconds
/// since it opened) the next poll is due, polls being `interval` apart.
pub struct SocketSession {
    delivered: ViewerCounts,
    sending: Option<ViewerCounts>,
    open: bool,
    next_poll: u64,
    interval: u64,
}

/// The state of a socket as plain values.
pub struct SocketState {
    pub delivered: ViewerCounts,
    pub sending: Option<ViewerCounts>,
    pub open: bool,
    pub next_poll: u64,
    pub interval: u64,
}

impl View for SocketSession {
    type V = SocketState;

    closed spec fn view(&self) -> SocketState {
        SocketState {
            delivered: self.delivered,
            sending: self.sending,
            open: self.open,
            next_poll: self.next_poll,
            interval: self.interval,
        }
    }
}

/// `a + b`, or `u64::MAX` where that does not fit.
pub open spec fn saturating_sum(a: u64, b: u64) -> u64 {
    if a + b <= u64::MAX {
        (a + b) as u64
    } else {
        u64::MAX
    }
}

/// One step of a socket: the state after `event`, and what to do.
pub open spec fn socket_step(s: SocketState, event: SocketEvent) -> (SocketState, SocketAction) {
    if !s.open {
        (s, SocketAction::Finish)
    } else {
        match event {
            SocketEvent::Client(ClientMessage::Other) => (s, SocketAction::Wait),
            SocketEvent::Client(_) => (SocketState { open: false, ..s }, SocketAction::Finish),
            SocketEvent::SendFailed => (SocketState { open: false, ..s }, SocketAction::Finish),
            SocketEvent::Polled(c) => if c != s.delivered {
                (SocketState { sending: Some(c), ..s }, SocketAction::Send(c))
            } else {
                (SocketState { sending: None, ..s }, SocketAction::Wait)
            },
            SocketEvent::Delivered => match s.sending {
                Some(c) => (SocketState { delivered: c, sending: None, ..s }, SocketAction::Wait),
                None => (s, SocketAction::Wait),
            },
        }
    }
}

impl SocketSession {
    /// A socket that was just opened, polled every `interval_ms`
    /// milliseconds: nothing delivered yet (no count at all), the first poll
    /// due one interval after opening.
    pub fn new(interval_ms: u64) -> (res: Self)
        ensures
            res@.open,
            res@.sending is None,
            res@.delivered@ == (None::<u64>, None::<u64>, None::<u64>, None::<u64>),
            res@.interval == interval_ms,
            res@.next_poll == interval_ms,
            res@ == fresh_socket(interval_ms),
    {
        SocketSession {
            delivered: ViewerCounts::default(),
            sending: None,
            open: true,
            next_poll: interval_ms,
            interval: interval_ms,
        }
    }

    /// How many milliseconds, at time `now`, are left until the next poll is
    /// due (none once it is due).
    pub fn poll_wait(&self, now: u64) -> (res: u64)
        ensures
            res == (if now < self@.next_poll { (self@.next_poll - now) as u64 } else { 0 }),
    {
        if now < self.next_poll {
            self.next_poll - now
        } else {
            0
        }
    }

    /// A poll finished at time `now`: the next one is due an interval later.
    pub fn poll_finished(&mut self, now: u64)
        ensures
            final(self)@ == (SocketState { next_poll: saturating_sum(now, old(self)@.interval), ..old(self)@ }),
    {
        self.next_poll = now.saturating_add(self.interval);
    }

    /// Whether the socket is still open.
    pub fn is_open(&self) -> (res: bool)
        ensures
            res == self@.open,
    {
        self.open
    }

    /// Takes one event and says what to do next.
    pub fn step(&mut self, event: SocketEvent) -> (action: SocketAction)
        ensures
            (final(self)@, action) == socket_step(old(self)@, event),
            final(self)@.next_poll == old(self)@.next_poll,
            final(self)@.interval == old(self)@.interval,
    {
        if !self.open {
            return SocketAction::Finish;
        }
        match event {
            SocketEvent::Client(ClientMessage::Other) => SocketAction::Wait,
            SocketEvent::Client(_) => {
                self.open = false;
                SocketAction::Finish
            },
            SocketEvent::SendFailed => {
                self.open = false;
                SocketAction::Finish
            },
            SocketEvent::Polled(c) => {
                proof {
                    lemma_counts_view_injective(c, self.delivered);
                }
                if c.differs(&self.delivered) {
                    self.sending = Some(c);
                    SocketAction::Send(c)
                } else {
                    self.sending = None;
                    SocketAction::Wait
                }
            },
            SocketEvent::Delivered => {
                match self.sending {
                    Some(c) => {
                        self.delivered = c;
                        self.sending = None;
                    },
                    None => {},
                }
                SocketAction::Wait
            },
        }
    }
}

/// The counts a run of polls sends, when every send is delivered: each
/// poll's counts that differ from those last sent, starting from `last`.
pub open spec fn changes(last: ViewerCounts, polls: Seq<ViewerCounts>) -> Seq<ViewerCounts>
    decreases polls.len(),
{
    if polls.len() == 0 {
        seq![]
    } else if polls[0] != last {
        seq![polls[0]] + changes(polls[0], polls.drop_first())
    } else {
        changes(last, polls.drop_first())
    }
}

/// A socket run over a sequence of polls, each send being delivered: the
/// state at the end and the counts sent, in order.
pub open spec fn run_polls(s: SocketState, polls: Seq<ViewerCounts>) -> (SocketState, Seq<ViewerCounts>)
    decreases polls.len(),
{
    if polls.len() == 0 {
        (s, seq![])
    } else {
        let (s1, a) = socket_step(s, SocketEvent::Polled(polls[0]));
        match a {
            SocketAction::Send(c) => {
                let (s2, _) = socket_step(s1, SocketEvent::Delivered);
                let (s3, rest) = run_polls(s2, polls.drop_first());
                (s3, seq![c] + rest)
            },
            _ => run_polls(s1, polls.drop_first()),
        }
    }
}

/// Over a whole run of polls whose sends are delivered, an open socket sends,
/// in order, exactly the polled counts that differ from those sent before
/// (from those delivered before the run, at first); it stays open.
pub proof fn lemma_run_sends_changes(s: SocketState, polls: Seq<ViewerCounts>)
    requires
        s.open,
    ensures
        run_polls(s, polls).1 == changes(s.delivered, polls),
        run_polls(s, polls).0.open,
    decreases polls.len(),
{
    if polls.len() > 0 {
        let (s1, a) = socket_step(s, SocketEvent::Polled(polls[0]));
        if polls[0] != s.delivered {
            let (s2, _) = socket_step(s1, SocketEvent::Delivered);
            assert(s2.delivered == polls[0] && s2.open);
            lemma_run_sends_changes(s2, polls.drop_first());
        } else {
            assert(s1.delivered == s.delivered && s1.open);
            lemma_run_sends_changes(s1, polls.drop_first());
        }
    }
}

/// What a run sends never repeats itself: the first message differs from the
/// counts delivered before, and each message from the one before it. A fresh
/// socket thus never sends counts that hold no count at all as its first.
pub proof fn lemma_changes_never_repeat(last: ViewerCounts, polls: Seq<ViewerCounts>)
    ensures
        changes(last, polls).len() > 0 ==> changes(last, polls)[0] != last,
        forall|i: int|
            0 < i < changes(last, polls).len() ==> #[trigger] changes(last, polls)[i] != changes(
                last,
                polls,
            )[i - 1],
    decreases polls.len(),
{
    if polls.len() > 0 {
        let rest = polls.drop_first();
        if polls[0] != last {
            lemma_changes_never_repeat(polls[0], rest);
            let c = changes(last, polls);
            let r = changes(polls[0], rest);
            assert(c == seq![polls[0]] + r);
            assert forall|i: int| 0 < i < c.len() implies #[trigger] c[i] != c[i - 1] by {
                if i == 1 {
                    assert(c[1] == r[0]);
                } else {
                    assert(c[i] == r[i - 1] && c[i - 1] == r[i - 2]);
                }
            }
        } else {
            lemma_changes_never_repeat(last, rest);
        }
    }
}

/// The state of a socket that was just opened with polls `interval` apart.
pub open spec fn fresh_socket(interval: u64) -> SocketState {
    SocketState {
        delivered: ViewerCounts::spec_default(),
        sending: None,
        open: true,
        next_poll: interval,
        interval,
    }
}

/// What the socket of session `id` sends, when its polls are delivered: the
/// socket opens with the session's poll interval, and its polls give what
/// the platforms answer for the session's services (`polls_of`); an unknown
/// id gets no socket.
pub open spec fn session_messages<S>(
    sessions: Map<Seq<char>, S>,
    id: Seq<char>,
    interval_of: spec_fn(S) -> u64,
    polls_of: spec_fn(S) -> Seq<ViewerCounts>,
) -> Option<Seq<ViewerCounts>> {
    if sessions.contains_key(id) {
        let services = sessions[id];
        Some(run_polls(fresh_socket(interval_of(services)), polls_of(services)).1)
    } else {
        None
    }
}

/// What the socket of session `id` sends depends on that session alone: two
/// servers whose sessions agree under `id`, whatever they hold under other
/// ids, send the same messages on that socket, given the same platform
/// answers; and those messages are the changes of the polled counts.
pub proof fn lemma_socket_depends_only_on_its_session<S>(
    sessions1: Map<Seq<char>, S>,
    sessions2: Map<Seq<char>, S>,
    id: Seq<char>,
    interval_of: spec_fn(S) -> u64,
    polls_of: spec_fn(S) -> Seq<ViewerCounts>,
)
    requires
        sessions1.contains_key(id) == sessions2.contains_key(id),
        sessions1.contains_key(id) ==> sessions1[id] == sessions2[id],
    ensures
        session_messages(sessions1, id, interval_of, polls_of) == session_messages(
            sessions2,
            id,
            interval_of,
            polls_of,
        ),
        sessions1.contains_key(id) ==> session_messages(sessions1, id, interval_of, polls_of)
            == Some(changes(ViewerCounts::spec_default(), polls_of(sessions1[id]))),
{
    if sessions1.contains_key(id) {
        let services = sessions1[id];
        lemma_run_sends_changes(fresh_socket(interval_of(services)), polls_of(services));
    }
}

/// Only `poll_finished` schedules polls: no event (a frame from the client,
/// a poll's counts, a delivery or a failed send) moves the time the next poll
/// is due or the interval, so polls stay one interval apart whatever is sent.
pub proof fn lemma_events_keep_poll_schedule(s: SocketState, e: SocketEvent)
    ensures
        socket_step(s, e).0.next_poll == s.next_poll,
        socket_step(s, e).0.interval == s.interval,
{
}

/// A socket closes exactly on a close frame, the end of the client's stream,
/// a read error or a failed send; every other event leaves it open.
pub proof fn lemma_socket_closes_only_when_the_client_goes(s: SocketState, e: SocketEvent)
    ensures
        socket_step(s, e).0.open == (s.open && match e {
            SocketEvent::Client(ClientMessage::Other) => true,
            SocketEvent::Client(_) => false,
            SocketEvent::SendFailed => false,
            _ => true,
        }),
        socket_step(s, e).1 == SocketAction::Finish <==> !socket_step(s, e).0.open,
{
}

/// Counts are sent exactly when a poll gives counts that differ from those
/// delivered, and the counts sent are the polled ones; a delivery makes the
/// counts being sent the delivered ones.
pub proof fn lemma_poll_sends_exactly_changes(s: SocketState, c: ViewerCounts)
    requires
        s.open,
    ensures
        socket_step(s, SocketEvent::Polled(c)).1 == (if c@ != s.delivered@ {
            SocketAction::Send(c)
        } else {
            SocketAction::Wait
        }),
        s.sending matches Some(d) ==> socket_step(s, SocketEvent::Delivered).0.delivered == d,
{
    lemma_counts_view_injective(c, s.delivered);
}

/// Frames from the client never put a poll off: they leave the time the next
/// poll is due as it was.
pub proof fn lemma_client_frames_do_not_delay_polls(s: SocketState, m: ClientMessage)
    ensures
        socket_step(s, SocketEvent::Client(m)).0.next_poll == s.next_poll,
        socket_step(s, SocketEvent::Client(m)).0.interval == s.interval,
{
}

/// A socket that has finished stays finished: whatever happens next, it
/// answers `Finish` and its state does not change.
pub proof fn lemma_finished_socket_stays_finished(s: SocketState, event: SocketEvent)
    requires
        !s.open,
    ensures
        socket_step(s, event) == (s, SocketAction::Finish),
{
}

/// Counts are sent only when they differ from those last delivered, and the
/// delivered counts change only when a send is delivered.
pub proof fn lemma_sends_only_changes(s: SocketState, event: SocketEvent)
    ensures
        socket_step(s, event).1 matches SocketAction::Send(c) ==> c != s.delivered && event == SocketEvent::Polled(c),
        socket_step(s, event).0.delivered != s.delivered ==> event == SocketEvent::Delivered,
{
}

/// Counts that were delivered are not sent again: after a poll was sent and
/// delivered, a poll with the same counts asks for no send.
pub proof fn lemma_delivered_counts_not_resent(s: SocketState, c: ViewerCounts)
    requires
        s.open,
    ensures
        ({
            let (s1, a1) = socket_step(s, SocketEvent::Polled(c));
            let (s2, _) = socket_step(s1, SocketEvent::Delivered);
            let (_, a3) = socket_step(s2, SocketEvent::Polled(c));
            a3 == SocketAction::Wait
        }),
{
}

} // verus!
