//! One relay session: the log output of one workload on its way to one
//! client.
//!
//! A session owns one subscription, the framer of its byte stream, and the
//! frames that wait for the client. It does no input or output itself. Whoever
//! drives it carries out what the session asks for, tells it what happened,
//! and is told what to do next:
//!
//! - `Open`: connect to the source as the request says;
//! - `Transfer`: offer the given frame to the client, if there is one, and
//!   wait for the next chunk of the source, if reading is asked for;
//! - `Finish`: let go of the source and end the outbound stream.
//!
//! Frames leave in the order in which their lines arrived. Reading pauses
//! while more frames wait than the bound allows, so a slow client slows the
//! reading down instead of filling the memory. When the client goes away,
//! whatever still waits is dropped and the subscription is cancelled.

use crate::encoder::encode;
use crate::encoder::frame_of;
use crate::encoder::frames_of;
use crate::encoder::EventFrame;
use crate::framer::complete_lines;
use crate::framer::remainder;
use crate::framer::LineFramer;
use crate::framer::LogLine;
use crate::subscription::next_state;
use crate::subscription::RelayError;
use crate::subscription::SourceSignal;
use crate::subscription::Subscription;
use crate::subscription::SubscriptionRequest;
use crate::subscription::SubscriptionState;
use std::collections::VecDeque;
use vstd::prelude::*;

verus! {

/// The number of most recent lines that a session asks the source for before
/// it follows the live output.
pub const DEFAULT_BACKLOG_LINES: u32 = 1;

/// The number of waiting frames above which a session stops reading.
pub const DEFAULT_QUEUE_BOUND: usize = 64;

/// How a session ended.
#[derive(Clone, Copy, Debug, PartialEq, Eq, Structural)]
pub enum Outcome {
    /// The source closed and every frame was delivered.
    Completed,
    /// The subscription failed. The client is told so in a last event.
    Failed(RelayError),
    /// The client went away.
    ClientDisconnected,
}

impl Outcome {
    /// The name of the outcome, as it is reported.
    pub fn name(&self) -> (name: &'static str)
        ensures
            *self == Outcome::Completed ==> name@ == "Completed"@,
            *self == Outcome::Failed(RelayError::SourceUnavailable) ==> name@
                == "SourceUnavailable"@,
            *self == Outcome::Failed(RelayError::SourceReadError) ==> name@ == "SourceReadError"@,
            *self == Outcome::ClientDisconnected ==> name@ == "ClientDisconnected"@,
    {
        match self {
            Outcome::Completed => "Completed",
            Outcome::Failed(cause) => cause.name(),
            Outcome::ClientDisconnected => "ClientDisconnected",
        }
    }
}

/// What the driver of a session tells it.
#[derive(Debug, PartialEq, Eq)]
pub enum SessionEvent {
    /// The connection to the source stands.
    SourceOpened,
    /// The workload was not found, or the connection could not be made.
    SourceUnavailable,
    /// The source has sent these bytes.
    Chunk(Vec<u8>),
    /// The source has closed the stream.
    SourceClosed,
    /// Reading from the source has failed.
    SourceFailed,
    /// The client has taken the frame that was offered.
    FrameDelivered,
    /// The client has gone away, or writing to it has failed.
    ClientGone,
}

/// A session event, for contracts.
pub enum EventModel {
    SourceOpened,
    SourceUnavailable,
    Chunk(Seq<u8>),
    SourceClosed,
    SourceFailed,
    FrameDelivered,
    ClientGone,
}

impl View for SessionEvent {
    type V = EventModel;

    open spec fn view(&self) -> EventModel {
        match self {
            SessionEvent::SourceOpened => EventModel::SourceOpened,
            SessionEvent::SourceUnavailable => EventModel::SourceUnavailable,
            SessionEvent::Chunk(bytes) => EventModel::Chunk(bytes@),
            SessionEvent::SourceClosed => EventModel::SourceClosed,
            SessionEvent::SourceFailed => EventModel::SourceFailed,
            SessionEvent::FrameDelivered => EventModel::FrameDelivered,
            SessionEvent::ClientGone => EventModel::ClientGone,
        }
    }
}

/// What a session asks of its driver.
#[derive(Debug, PartialEq, Eq)]
pub enum Action {
    /// Connect to the source.
    Open(SubscriptionRequest),
    /// Offer `frame` to the client, if there is one, and wait for the next
    /// chunk of the source, if `read` is set. Whatever happens first is
    /// reported.
    Transfer { read: bool, frame: Option<EventFrame> },
    /// Let go of the source and end the outbound stream.
    Finish(Outcome),
}

/// An action, for contracts.
pub enum ActionModel {
    Open(SubscriptionRequest),
    Transfer { read: bool, frame: Option<Seq<char>> },
    Finish(Outcome),
}

impl View for Action {
    type V = ActionModel;

    open spec fn view(&self) -> ActionModel {
        match self {
            Action::Open(request) => ActionModel::Open(*request),
            Action::Transfer { read, frame } => ActionModel::Transfer {
                read: *read,
                frame: match frame {
                    Some(frame) => Some(frame@),
                    None => None,
                },
            },
            Action::Finish(outcome) => ActionModel::Finish(*outcome),
        }
    }
}

/// What a session is, for contracts.
pub struct SessionModel {
    /// What is asked of the source.
    pub request: SubscriptionRequest,
    /// Where the subscription stands.
    pub source: SubscriptionState,
    /// The bytes held back by the framer.
    pub pending: Seq<u8>,
    /// The payloads of the frames that wait for the client, the next one
    /// first.
    pub queue: Seq<Seq<char>>,
    /// The number of waiting frames above which reading pauses.
    pub bound: nat,
    /// Whether the client has gone away.
    pub client_gone: bool,
}

/// A session that has not begun: its subscription is opening and nothing
/// waits.
pub open spec fn start(request: SubscriptionRequest, bound: nat) -> SessionModel {
    SessionModel {
        request,
        source: SubscriptionState::Opening,
        pending: Seq::empty(),
        queue: Seq::empty(),
        bound,
        client_gone: false,
    }
}

/// How the session has ended, if it has. A session whose source has closed or
/// failed goes on until its last frame is delivered.
pub open spec fn outcome(session: SessionModel) -> Option<Outcome> {
    if session.client_gone {
        Some(Outcome::ClientDisconnected)
    } else {
        match session.source {
            SubscriptionState::Opening => None,
            SubscriptionState::Streaming => None,
            SubscriptionState::Closed => if session.queue.len() == 0 {
                Some(Outcome::Completed)
            } else {
                None
            },
            SubscriptionState::Failed(cause) => if session.queue.len() == 0 {
                Some(Outcome::Failed(cause))
            } else {
                None
            },
            SubscriptionState::Cancelled => Some(Outcome::ClientDisconnected),
        }
    }
}

/// What the session asks of its driver.
pub open spec fn directive(session: SessionModel) -> ActionModel {
    match outcome(session) {
        Some(ended) => ActionModel::Finish(ended),
        None => if session.source is Opening {
            ActionModel::Open(session.request)
        } else {
            ActionModel::Transfer {
                read: session.source is Streaming && session.queue.len() <= session.bound,
                frame: if session.queue.len() > 0 {
                    Some(session.queue[0])
                } else {
                    None
                },
            }
        },
    }
}

/// The lines that the end of the stream makes of the bytes held back: one
/// line, unless there are none.
pub open spec fn flushed(pending: Seq<u8>) -> Seq<Seq<u8>> {
    if pending.len() > 0 {
        seq![pending]
    } else {
        seq![]
    }
}

/// The session after `event`. A session that has ended stays as it is, and so
/// does one that is told what cannot happen in its state.
pub open spec fn next(session: SessionModel, event: EventModel) -> SessionModel {
    if outcome(session) is Some {
        session
    } else {
        match event {
            EventModel::SourceOpened => SessionModel {
                source: next_state(session.source, SourceSignal::Established),
                ..session
            },
            EventModel::SourceUnavailable => SessionModel {
                source: next_state(session.source, SourceSignal::Unavailable),
                ..session
            },
            EventModel::Chunk(bytes) => if session.source is Streaming {
                SessionModel {
                    queue: session.queue + frames_of(complete_lines(session.pending + bytes)),
                    pending: remainder(session.pending + bytes),
                    ..session
                }
            } else {
                session
            },
            EventModel::SourceClosed => if session.source is Streaming {
                SessionModel {
                    source: SubscriptionState::Closed,
                    queue: session.queue + frames_of(flushed(session.pending)),
                    pending: Seq::empty(),
                    ..session
                }
            } else {
                session
            },
            EventModel::SourceFailed => if session.source is Streaming {
                SessionModel {
                    source: SubscriptionState::Failed(RelayError::SourceReadError),
                    pending: Seq::empty(),
                    ..session
                }
            } else {
                session
            },
            EventModel::FrameDelivered => if session.queue.len() > 0 {
                SessionModel { queue: session.queue.drop_first(), ..session }
            } else {
                session
            },
            EventModel::ClientGone => SessionModel {
                source: next_state(session.source, SourceSignal::Cancel),
                pending: Seq::empty(),
                queue: Seq::empty(),
                client_gone: true,
                ..session
            },
        }
    }
}

/// One relay session.
#[derive(Debug)]
pub struct RelaySession {
    subscription: Subscription,
    framer: LineFramer,
    queue: VecDeque<EventFrame>,
    bound: usize,
    client_gone: bool,
}

impl View for RelaySession {
    type V = SessionModel;

    closed spec fn view(&self) -> SessionModel {
        SessionModel {
            request: self.subscription@.request,
            source: self.subscription@.state,
            pending: self.framer@,
            queue: self.queue.deep_view(),
            bound: self.bound as nat,
            client_gone: self.client_gone,
        }
    }
}

impl RelaySession {
    /// A session for `request` that stops reading while more than `bound`
    /// frames wait.
    pub fn new(request: SubscriptionRequest, bound: usize) -> (session: RelaySession)
        ensures
            session@ == start(request, bound as nat),
    {
        let session = RelaySession {
            subscription: Subscription::open(
                request.workload,
                request.follow,
                request.backlog_lines,
            ),
            framer: LineFramer::new(),
            queue: VecDeque::new(),
            bound,
            client_gone: false,
        };
        assert(session.queue.deep_view() =~= Seq::<Seq<char>>::empty());
        session
    }

    /// Where the subscription of the session stands.
    pub fn source_state(&self) -> (state: SubscriptionState)
        ensures
            state == self@.source,
    {
        self.subscription.state()
    }

    /// What the session asks of the source.
    pub fn request(&self) -> (request: SubscriptionRequest)
        ensures
            request == self@.request,
    {
        self.subscription.request()
    }

    /// The number of frames that wait for the client.
    pub fn queued(&self) -> (n: usize)
        ensures
            n == self@.queue.len(),
    {
        self.queue.len()
    }

    /// The number of bytes of the line that is not yet complete.
    pub fn pending_len(&self) -> (n: usize)
        ensures
            n == self@.pending.len(),
    {
        self.framer.pending_len()
    }

    /// How the session has ended, if it has.
    pub fn outcome(&self) -> (ended: Option<Outcome>)
        ensures
            ended == outcome(self@),
    {
        if self.client_gone {
            Some(Outcome::ClientDisconnected)
        } else {
            match self.subscription.state() {
                SubscriptionState::Opening => None,
                SubscriptionState::Streaming => None,
                SubscriptionState::Closed => if self.queue.len() == 0 {
                    Some(Outcome::Completed)
                } else {
                    None
                },
                SubscriptionState::Failed(cause) => if self.queue.len() == 0 {
                    Some(Outcome::Failed(cause))
                } else {
                    None
                },
                SubscriptionState::Cancelled => Some(Outcome::ClientDisconnected),
            }
        }
    }

    /// Whether the session has ended.
    pub fn is_finished(&self) -> (ended: bool)
        ensures
            ended == (outcome(self@) is Some),
    {
        self.outcome().is_some()
    }

    /// What the driver is to do now.
    pub fn action(&self) -> (action: Action)
        ensures
            action@ == directive(self@),
    {
        match self.outcome() {
            Some(ended) => Action::Finish(ended),
            None => {
                let state = self.subscription.state();
                match state {
                    SubscriptionState::Opening => Action::Open(self.subscription.request()),
                    _ => {
                        let read = self.subscription.holds_connection() && self.queue.len()
                            <= self.bound;
                        let frame = if self.queue.len() > 0 {
                            Some(self.queue[0].clone())
                        } else {
                            None
                        };
                        Action::Transfer { read, frame }
                    },
                }
            },
        }
    }

    /// Puts the frames of `lines` behind those that wait.
    fn enqueue(&mut self, lines: &Vec<LogLine>)
        ensures
            final(self)@ == (SessionModel {
                queue: old(self)@.queue + frames_of(lines.deep_view()),
                ..old(self)@
            }),
    {
        let ghost waiting = self@.queue;
        let mut i: usize = 0;
        while i < lines.len()
            invariant
                i <= lines.len(),
                self@ == (SessionModel {
                    queue: waiting + frames_of(lines.deep_view().take(i as int)),
                    ..old(self)@
                }),
            decreases lines.len() - i,
        {
            let frame = encode(&lines[i]);
            let ghost before = self.queue.deep_view();
            self.queue.push_back(frame);
            assert(self.queue.deep_view() =~= before.push(frame_of(lines[i as int]@)));
            assert(waiting + frames_of(lines.deep_view().take(i + 1)) =~= (waiting + frames_of(
                lines.deep_view().take(i as int),
            )).push(frame_of(lines[i as int]@)));
            i += 1;
        }
        assert(lines.deep_view().take(i as int) =~= lines.deep_view());
    }

    /// Takes note of `event` and says what the driver is to do next.
    pub fn step(&mut self, event: SessionEvent) -> (action: Action)
        ensures
            final(self)@ == next(old(self)@, event@),
            action@ == directive(final(self)@),
    {
        if !self.is_finished() {
            match event {
                SessionEvent::SourceOpened => {
                    self.subscription.signal(SourceSignal::Established);
                },
                SessionEvent::SourceUnavailable => {
                    self.subscription.signal(SourceSignal::Unavailable);
                },
                SessionEvent::Chunk(bytes) => {
                    if self.subscription.holds_connection() {
                        let lines = self.framer.push(bytes.as_slice());
                        self.enqueue(&lines);
                    }
                },
                SessionEvent::SourceClosed => {
                    if self.subscription.holds_connection() {
                        let ghost waiting = self.queue.deep_view();
                        let ghost kept = self.framer@;
                        match self.framer.finish() {
                            Some(line) => {
                                let frame = encode(&line);
                                self.queue.push_back(frame);
                                assert(self.queue.deep_view() =~= waiting + frames_of(
                                    flushed(kept),
                                ));
                            },
                            None => {},
                        }
                        self.subscription.signal(SourceSignal::Ended);
                    }
                },
                SessionEvent::SourceFailed => {
                    if self.subscription.holds_connection() {
                        self.framer.clear();
                        self.subscription.signal(SourceSignal::ReadFailed);
                    }
                },
                SessionEvent::FrameDelivered => {
                    let ghost waiting = self.queue.deep_view();
                    let taken = self.queue.pop_front();
                    assert(taken is Some ==> self.queue.deep_view() =~= waiting.drop_first());
                },
                SessionEvent::ClientGone => {
                    self.subscription.cancel();
                    self.framer.clear();
                    self.queue.clear();
                    self.client_gone = true;
                    assert(self.queue.deep_view() =~= Seq::<Seq<char>>::empty());
                },
            }
        }
        self.action()
    }
}

/// The session that relays the logs of workload `id`: it follows the live
/// output after a backlog of one line, and stops reading while more than
/// `DEFAULT_QUEUE_BOUND` frames wait.
pub fn logs(id: u64) -> (session: RelaySession)
    ensures
        session@ == start(
            SubscriptionRequest {
                workload: id,
                follow: true,
                backlog_lines: DEFAULT_BACKLOG_LINES,
            },
            DEFAULT_QUEUE_BOUND as nat,
        ),
{
    RelaySession::new(
        SubscriptionRequest { workload: id, follow: true, backlog_lines: DEFAULT_BACKLOG_LINES },
        DEFAULT_QUEUE_BOUND,
    )
}

} // verus!
