//! What a relay session does over a whole run.
//!
//! A run is the sequence of events that a session is told, from its start.
//! The laws below hold for every run, whatever the driver reports and in
//! whatever order: they speak of the bytes that the session has taken from
//! the source and of the frames that the client has taken from the session.

use crate::encoder::frames_of;
use crate::encoder::lemma_frames_of_concat;
use crate::framer::all_lines;
use crate::framer::complete_lines;
use crate::framer::lemma_framing_continues;
use crate::framer::lemma_line_count;
use crate::framer::lemma_lines_hold_no_terminator;
use crate::framer::lemma_terminator_count_adds;
use crate::framer::lemma_unterminated;
use crate::framer::remainder;
use crate::framer::terminator_count;
use crate::session::directive;
use crate::session::flushed;
use crate::session::next;
use crate::session::outcome;
use crate::session::start;
use crate::session::ActionModel;
use crate::session::EventModel;
use crate::session::Outcome;
use crate::session::SessionModel;
use crate::subscription::holds_connection;
use crate::subscription::is_terminal;
use crate::subscription::progress;
use crate::subscription::RelayError;
use crate::subscription::SubscriptionRequest;
use crate::subscription::SubscriptionState;
use vstd::prelude::*;

verus! {

/// The session after it has been told all of `events`, one after the other.
pub open spec fn run(session: SessionModel, events: Seq<EventModel>) -> SessionModel
    decreases events.len(),
{
    if events.len() == 0 {
        session
    } else {
        next(run(session, events.drop_last()), events.last())
    }
}

/// The payloads of the frames that the client has taken during `events`, in
/// the order in which it took them.
pub open spec fn delivered(session: SessionModel, events: Seq<EventModel>) -> Seq<Seq<char>>
    decreases events.len(),
{
    if events.len() == 0 {
        seq![]
    } else {
        let before = run(session, events.drop_last());
        let earlier = delivered(session, events.drop_last());
        if events.last() is FrameDelivered && outcome(before) is None && before.queue.len() > 0 {
            earlier.push(before.queue[0])
        } else {
            earlier
        }
    }
}

/// The bytes that the session has taken from the source during `events`, in
/// the order in which they came.
pub open spec fn received(session: SessionModel, events: Seq<EventModel>) -> Seq<u8>
    decreases events.len(),
{
    if events.len() == 0 {
        seq![]
    } else {
        let before = run(session, events.drop_last());
        let earlier = received(session, events.drop_last());
        match events.last() {
            EventModel::Chunk(bytes) => if outcome(before) is None && before.source is Streaming {
                earlier + bytes
            } else {
                earlier
            },
            _ => earlier,
        }
    }
}

/// How what a session holds relates to what it has taken from the source and
/// what the client has taken from it.
///
/// While the client is there, the frames delivered and the frames that wait
/// are together the frames of the lines received, and the framer holds back
/// what follows the last of these lines. Once the client has gone, nothing
/// waits and nothing is held back.
pub open spec fn in_step(session: SessionModel, taken: Seq<Seq<char>>, bytes: Seq<u8>) -> bool {
    if session.client_gone {
        &&& session.queue.len() == 0
        &&& session.pending.len() == 0
        &&& is_terminal(session.source)
        &&& taken.is_prefix_of(frames_of(all_lines(bytes)))
    } else {
        match session.source {
            SubscriptionState::Opening => {
                &&& taken.len() == 0
                &&& bytes.len() == 0
                &&& session.queue.len() == 0
                &&& session.pending.len() == 0
            },
            SubscriptionState::Streaming => {
                &&& taken + session.queue == frames_of(complete_lines(bytes))
                &&& session.pending == remainder(bytes)
            },
            SubscriptionState::Closed => {
                &&& taken + session.queue == frames_of(all_lines(bytes))
                &&& session.pending.len() == 0
            },
            SubscriptionState::Failed(RelayError::SourceUnavailable) => {
                &&& taken.len() == 0
                &&& bytes.len() == 0
                &&& session.queue.len() == 0
                &&& session.pending.len() == 0
            },
            SubscriptionState::Failed(RelayError::SourceReadError) => {
                &&& taken + session.queue == frames_of(complete_lines(bytes))
                &&& session.pending.len() == 0
            },
            SubscriptionState::Cancelled => false,
        }
    }
}

proof fn lemma_all_lines_end_with_flush(bytes: Seq<u8>)
    ensures
        all_lines(bytes) == complete_lines(bytes) + flushed(remainder(bytes)),
        frames_of(all_lines(bytes)) == frames_of(complete_lines(bytes)) + frames_of(
            flushed(remainder(bytes)),
        ),
{
    lemma_frames_of_concat(complete_lines(bytes), flushed(remainder(bytes)));
}

proof fn lemma_in_step_is_kept(
    session: SessionModel,
    taken: Seq<Seq<char>>,
    bytes: Seq<u8>,
    event: EventModel,
)
    requires
        in_step(session, taken, bytes),
    ensures
        in_step(
            next(session, event),
            if event is FrameDelivered && outcome(session) is None && session.queue.len() > 0 {
                taken.push(session.queue[0])
            } else {
                taken
            },
            match event {
                EventModel::Chunk(more) => if outcome(session) is None && session.source
                    is Streaming {
                    bytes + more
                } else {
                    bytes
                },
                _ => bytes,
            },
        ),
{
    if outcome(session) is None {
        let after = next(session, event);
        lemma_all_lines_end_with_flush(bytes);
        match event {
            EventModel::SourceOpened => {
                if session.source is Opening {
                    assert(after.pending =~= remainder(bytes));
                }
            },
            EventModel::SourceUnavailable => {},
            EventModel::Chunk(more) => {
                if session.source is Streaming {
                    lemma_framing_continues(bytes, more);
                    lemma_frames_of_concat(
                        complete_lines(bytes),
                        complete_lines(remainder(bytes) + more),
                    );
                    assert(taken + after.queue =~= (taken + session.queue) + frames_of(
                        complete_lines(session.pending + more),
                    ));
                }
            },
            EventModel::SourceClosed => {
                if session.source is Streaming {
                    assert(taken + after.queue =~= (taken + session.queue) + frames_of(
                        flushed(session.pending),
                    ));
                }
            },
            EventModel::SourceFailed => {},
            EventModel::FrameDelivered => {
                if session.queue.len() > 0 {
                    assert(taken.push(session.queue[0]) + session.queue.drop_first() =~= taken
                        + session.queue);
                }
            },
            EventModel::ClientGone => {},
        }
    }
}

/// The relay keeps in step with its source through every run.
pub proof fn lemma_relay_stays_in_step(
    request: SubscriptionRequest,
    bound: nat,
    events: Seq<EventModel>,
)
    ensures
        in_step(
            run(start(request, bound), events),
            delivered(start(request, bound), events),
            received(start(request, bound), events),
        ),
    decreases events.len(),
{
    let begin = start(request, bound);
    if events.len() > 0 {
        let earlier = events.drop_last();
        lemma_relay_stays_in_step(request, bound, earlier);
        lemma_in_step_is_kept(
            run(begin, earlier),
            delivered(begin, earlier),
            received(begin, earlier),
            events.last(),
        );
    }
}

/// Lines reach the client in the order of the source, each one whole and none
/// twice: at every moment of every run, the frames that the client has taken
/// are the frames of the first lines of the stream received so far.
pub proof fn lemma_delivery_follows_the_source(
    request: SubscriptionRequest,
    bound: nat,
    events: Seq<EventModel>,
)
    ensures
        delivered(start(request, bound), events).is_prefix_of(
            frames_of(all_lines(received(start(request, bound), events))),
        ),
{
    lemma_relay_stays_in_step(request, bound, events);
    lemma_all_lines_end_with_flush(received(start(request, bound), events));
}

/// No line is dropped. A session that ends because its source closed has
/// delivered the frame of every line of the stream, the unterminated last one
/// included. A session that ends because reading failed has delivered the
/// frame of every complete line. A session whose source was unavailable has
/// received and delivered nothing.
pub proof fn lemma_ended_session_has_delivered_all(
    request: SubscriptionRequest,
    bound: nat,
    events: Seq<EventModel>,
)
    ensures
        ({
            let begin = start(request, bound);
            let taken = delivered(begin, events);
            let bytes = received(begin, events);
            match outcome(run(begin, events)) {
                Some(Outcome::Completed) => taken == frames_of(all_lines(bytes)),
                Some(Outcome::Failed(RelayError::SourceReadError)) => taken == frames_of(
                    complete_lines(bytes),
                ),
                Some(Outcome::Failed(RelayError::SourceUnavailable)) => taken.len() == 0
                    && bytes.len() == 0,
                _ => true,
            }
        }),
{
    lemma_relay_stays_in_step(request, bound, events);
}

/// When the client goes away the session ends at once: whatever still waited
/// is dropped, nothing is held back, the subscription has ended and holds no
/// connection, and no later event changes the session or adds to what the
/// client has taken.
pub proof fn lemma_client_gone_ends_the_session(
    request: SubscriptionRequest,
    bound: nat,
    events: Seq<EventModel>,
    later: Seq<EventModel>,
)
    requires
        outcome(run(start(request, bound), events)) is None,
    ensures
        ({
            let begin = start(request, bound);
            let gone = events.push(EventModel::ClientGone);
            let session = run(begin, gone);
            &&& outcome(session) == Some(Outcome::ClientDisconnected)
            &&& directive(session) == ActionModel::Finish(Outcome::ClientDisconnected)
            &&& session.queue.len() == 0
            &&& session.pending.len() == 0
            &&& is_terminal(session.source)
            &&& !holds_connection(session.source)
            &&& delivered(begin, gone) == delivered(begin, events)
            &&& run(begin, gone + later) == session
            &&& delivered(begin, gone + later) == delivered(begin, events)
        }),
{
    let begin = start(request, bound);
    let gone = events.push(EventModel::ClientGone);
    assert(gone.drop_last() =~= events);
    lemma_ended_session_stays(begin, gone, later);
}

/// A session that has ended stays as it ended: no later event changes it,
/// adds to what the client has taken, or takes bytes from the source.
pub proof fn lemma_ended_session_stays(
    begin: SessionModel,
    events: Seq<EventModel>,
    later: Seq<EventModel>,
)
    requires
        outcome(run(begin, events)) is Some,
    ensures
        run(begin, events + later) == run(begin, events),
        delivered(begin, events + later) == delivered(begin, events),
        received(begin, events + later) == received(begin, events),
    decreases later.len(),
{
    if later.len() > 0 {
        lemma_ended_session_stays(begin, events, later.drop_last());
        assert((events + later).drop_last() =~= events + later.drop_last());
    }
}

/// A source that cannot be reached ends the session before it has begun: the
/// opening fails with `SourceUnavailable`, no connection stands, nothing was
/// received or waits, and the driver is told to finish with that error.
pub proof fn lemma_unavailable_source_ends_the_session(request: SubscriptionRequest, bound: nat)
    ensures
        ({
            let session = next(start(request, bound), EventModel::SourceUnavailable);
            &&& session.source == SubscriptionState::Failed(RelayError::SourceUnavailable)
            &&& !holds_connection(session.source)
            &&& session.queue.len() == 0
            &&& session.pending.len() == 0
            &&& outcome(session) == Some(Outcome::Failed(RelayError::SourceUnavailable))
            &&& directive(session) == ActionModel::Finish(
                Outcome::Failed(RelayError::SourceUnavailable),
            )
        }),
{
}

/// Reading is asked for only while the subscription streams and no more
/// frames wait than the bound allows; a frame is offered whenever one waits;
/// and the source is opened only by a session that has not opened it yet.
pub proof fn lemma_directive_respects_the_bound(session: SessionModel)
    ensures
        match directive(session) {
            ActionModel::Open(request) => session.source is Opening && request == session.request,
            ActionModel::Transfer { read, frame } => {
                &&& read <==> session.source is Streaming && session.queue.len() <= session.bound
                &&& frame is Some <==> session.queue.len() > 0
                &&& frame is Some ==> frame->0 == session.queue[0]
                &&& read || frame is Some
            },
            ActionModel::Finish(ended) => outcome(session) == Some(ended),
        },
{
}

/// The action asks the driver to wait for the next chunk of the source.
pub open spec fn asks_to_read(action: ActionModel) -> bool {
    action matches ActionModel::Transfer { read, .. } && read
}

/// The driver has read as it was told: whenever it handed over a chunk, the
/// session had asked for reading.
pub open spec fn read_as_told(begin: SessionModel, events: Seq<EventModel>) -> bool
    decreases events.len(),
{
    events.len() > 0 ==> {
        &&& read_as_told(begin, events.drop_last())
        &&& events.last() is Chunk ==> asks_to_read(directive(run(begin, events.drop_last())))
    }
}

/// No chunk among `events` holds more than `most` terminators.
pub open spec fn chunks_end_at_most(events: Seq<EventModel>, most: nat) -> bool {
    forall|i: int|
        0 <= i < events.len() ==> (#[trigger] events[i] matches EventModel::Chunk(bytes)
            ==> terminator_count(bytes) <= most)
}

/// A slow client cannot make the session fill the memory. As long as the
/// driver reads only when it is told to, no more frames wait than the bound,
/// the lines of one chunk, and the last line that the end of the stream
/// flushes.
pub proof fn lemma_waiting_frames_are_bounded(
    request: SubscriptionRequest,
    bound: nat,
    events: Seq<EventModel>,
    most: nat,
)
    requires
        read_as_told(start(request, bound), events),
        chunks_end_at_most(events, most),
    ensures
        run(start(request, bound), events).queue.len() <= bound + most + 1,
        run(start(request, bound), events).source is Streaming ==> run(
            start(request, bound),
            events,
        ).queue.len() <= bound + most,
    decreases events.len(),
{
    let begin = start(request, bound);
    if events.len() > 0 {
        let earlier = events.drop_last();
        let before = run(begin, earlier);
        let after = run(begin, events);
        assert(chunks_end_at_most(earlier, most)) by {
            assert forall|i: int| 0 <= i < earlier.len() implies (#[trigger] earlier[i] matches
                EventModel::Chunk(bytes) ==> terminator_count(bytes) <= most) by {
                assert(earlier[i] == events[i]);
            }
        }
        lemma_waiting_frames_are_bounded(request, bound, earlier, most);
        lemma_one_subscription_per_run(begin, earlier);
        lemma_relay_stays_in_step(request, bound, earlier);
        if outcome(before) is None && before.source is Streaming {
            match events.last() {
                EventModel::Chunk(bytes) => {
                    let joined = before.pending + bytes;
                    assert(terminator_count(bytes) <= most) by {
                        assert(events[events.len() - 1] == events.last());
                    }
                    assert(complete_lines(joined).len() == terminator_count(bytes)) by {
                        lemma_lines_hold_no_terminator(received(begin, earlier));
                        lemma_unterminated(before.pending);
                        lemma_terminator_count_adds(before.pending, bytes);
                        lemma_line_count(joined);
                    }
                    assert(before.queue.len() <= bound);
                    assert(after.queue.len() == before.queue.len() + complete_lines(joined).len());
                },
                EventModel::SourceClosed => {
                    assert(after.queue.len() == before.queue.len() + flushed(before.pending).len());
                },
                _ => {},
            }
        }
    }
}

/// A session has one subscription for its whole life: the request never
/// changes, and the subscription only moves forward, so it is opened at most
/// once.
pub proof fn lemma_one_subscription(session: SessionModel, event: EventModel)
    ensures
        next(session, event).request == session.request,
        next(session, event).bound == session.bound,
        progress(session.source) <= progress(next(session, event).source),
        session.client_gone ==> next(session, event).client_gone,
{
}

/// Through a whole run the session keeps its request and its bound, its
/// subscription never moves back, and a client that has gone stays gone.
pub proof fn lemma_one_subscription_per_run(begin: SessionModel, events: Seq<EventModel>)
    ensures
        run(begin, events).request == begin.request,
        run(begin, events).bound == begin.bound,
        progress(begin.source) <= progress(run(begin, events).source),
        begin.client_gone ==> run(begin, events).client_gone,
    decreases events.len(),
{
    if events.len() > 0 {
        lemma_one_subscription_per_run(begin, events.drop_last());
        lemma_one_subscription(run(begin, events.drop_last()), events.last());
    }
}

/// `count` times the report that the client has taken a frame.
pub open spec fn deliveries(count: nat) -> Seq<EventModel> {
    Seq::new(count, |i: int| EventModel::FrameDelivered)
}

/// A client that takes frame after frame gets the waiting frames in their
/// order, and nothing else changes. Once the source has closed or failed, the
/// session ends when the last of them is taken.
pub proof fn lemma_deliveries_take_the_frames(session: SessionModel, count: nat)
    requires
        !session.client_gone,
        !(session.source is Cancelled),
        count <= session.queue.len(),
    ensures
        run(session, deliveries(count)) == (SessionModel {
            queue: session.queue.skip(count as int),
            ..session
        }),
        delivered(session, deliveries(count)) == session.queue.take(count as int),
        received(session, deliveries(count)) == Seq::<u8>::empty(),
        count == session.queue.len() && session.source is Closed ==> outcome(
            run(session, deliveries(count)),
        ) == Some(Outcome::Completed),
        count == session.queue.len() && session.source is Failed ==> outcome(
            run(session, deliveries(count)),
        ) == Some(Outcome::Failed(session.source->Failed_0)),
    decreases count,
{
    if count == 0 {
        assert(session.queue.skip(0) =~= session.queue);
        assert(session.queue.take(0) =~= Seq::<Seq<char>>::empty());
    } else {
        let fewer = (count - 1) as nat;
        lemma_deliveries_take_the_frames(session, fewer);
        assert(deliveries(count).drop_last() =~= deliveries(fewer));
        let before = run(session, deliveries(fewer));
        assert(before.queue.drop_first() =~= session.queue.skip(count as int));
        assert(session.queue.take(fewer as int).push(before.queue[0]) =~= session.queue.take(
            count as int,
        ));
    }
}

/// A source that is quiet keeps the session waiting: as long as the source
/// neither sends nor closes and the client stays, the session asks for
/// reading, offers no frame, and does not end.
pub proof fn lemma_quiet_source_keeps_waiting(request: SubscriptionRequest, bound: nat)
    ensures
        ({
            let session = next(start(request, bound), EventModel::SourceOpened);
            &&& session.source is Streaming
            &&& outcome(session) is None
            &&& directive(session) == (ActionModel::Transfer { read: true, frame: None })
            &&& next(session, EventModel::FrameDelivered) == session
            &&& next(session, EventModel::SourceOpened) == session
        }),
{
}

} // verus!
