//! The life of a subscription to the log output of one workload.
//!
//! A subscription starts out opening. Once the connection stands it streams,
//! and it ends in one of three ways: the source closes, reading fails, or the
//! owner cancels. It holds a connection while it streams and at no other
//! time, so whoever drives it lets go of the connection as soon as the state
//! says so.

use kube::api::LogParams;
use vstd::prelude::*;

verus! {

/// The log parameters of `kube`: a plain record whose fields are all public.
/// They are read as the crate declares them.
#[verifier::external_type_specification]
pub struct ExLogParams(kube::api::LogParams);

/// The point in time of `jiff`, which the log parameters can hold. Nothing
/// of what it holds can be read.
#[verifier::external_type_specification]
#[verifier::external_body]
pub struct ExTimestamp(k8s_openapi::jiff::Timestamp);

/// What `LogParams::default` returns, as the `Default` that is derived for
/// the type makes it: no field is set.
pub assume_specification[ <LogParams as core::default::Default>::default ]() -> (params: LogParams)
    ensures
        params.container is None,
        !params.follow,
        params.limit_bytes is None,
        !params.pretty,
        !params.previous,
        params.since_seconds is None,
        params.since_time is None,
        params.tail_lines is None,
        !params.timestamps,
;

/// Why a subscription failed.
#[derive(Clone, Copy, Debug, PartialEq, Eq, Structural)]
pub enum RelayError {
    /// The workload was not found, or no connection to it could be made.
    SourceUnavailable,
    /// Reading from the open connection failed.
    SourceReadError,
}

impl RelayError {
    /// The name of the error, as it is reported.
    pub fn name(&self) -> (name: &'static str)
        ensures
            *self == RelayError::SourceUnavailable ==> name@ == "SourceUnavailable"@,
            *self == RelayError::SourceReadError ==> name@ == "SourceReadError"@,
    {
        match self {
            RelayError::SourceUnavailable => "SourceUnavailable",
            RelayError::SourceReadError => "SourceReadError",
        }
    }
}

/// Where a subscription stands.
#[derive(Clone, Copy, Debug, PartialEq, Eq, Structural)]
pub enum SubscriptionState {
    /// The connection is being made.
    Opening,
    /// The connection stands and bytes may arrive.
    Streaming,
    /// The source has closed the stream.
    Closed,
    /// Opening or reading failed.
    Failed(RelayError),
    /// The owner has cancelled the subscription.
    Cancelled,
}

/// What can happen to a subscription.
#[derive(Clone, Copy, Debug, PartialEq, Eq, Structural)]
pub enum SourceSignal {
    /// The connection has been made.
    Established,
    /// The workload was not found, or the connection could not be made.
    Unavailable,
    /// The source has closed the stream.
    Ended,
    /// Reading from the source has failed.
    ReadFailed,
    /// The owner gives the subscription up.
    Cancel,
}

/// What is asked of the source: whose output, whether to keep streaming as
/// new output is produced, and how many of the most recent lines to deliver
/// first.
#[derive(Clone, Copy, Debug, PartialEq, Eq, Structural)]
pub struct SubscriptionRequest {
    pub workload: u64,
    pub follow: bool,
    pub backlog_lines: u32,
}

impl SubscriptionRequest {
    /// The request as log parameters for the cluster: follow as asked, with
    /// the backlog as the number of lines to take from the end, and nothing
    /// else set.
    pub fn log_params(&self) -> (params: LogParams)
        ensures
            params.follow == self.follow,
            params.tail_lines == Some(self.backlog_lines as i64),
            params.container is None,
            params.limit_bytes is None,
            !params.pretty,
            !params.previous,
            params.since_seconds is None,
            params.since_time is None,
            !params.timestamps,
    {
        LogParams {
            follow: self.follow,
            tail_lines: Some(self.backlog_lines as i64),
            ..LogParams::default()
        }
    }
}

/// A subscription in this state will never change again.
pub open spec fn is_terminal(state: SubscriptionState) -> bool {
    state is Closed || state is Failed || state is Cancelled
}

/// A subscription in this state holds a connection to the source.
pub open spec fn holds_connection(state: SubscriptionState) -> bool {
    state is Streaming
}

/// The state that follows `state` when `signal` arrives. A signal that has no
/// meaning in a state leaves it as it is.
pub open spec fn next_state(state: SubscriptionState, signal: SourceSignal) -> SubscriptionState {
    match (state, signal) {
        (SubscriptionState::Opening, SourceSignal::Established) => SubscriptionState::Streaming,
        (SubscriptionState::Opening, SourceSignal::Unavailable) => SubscriptionState::Failed(
            RelayError::SourceUnavailable,
        ),
        (SubscriptionState::Opening, SourceSignal::Cancel) => SubscriptionState::Cancelled,
        (SubscriptionState::Streaming, SourceSignal::Ended) => SubscriptionState::Closed,
        (SubscriptionState::Streaming, SourceSignal::ReadFailed) => SubscriptionState::Failed(
            RelayError::SourceReadError,
        ),
        (SubscriptionState::Streaming, SourceSignal::Cancel) => SubscriptionState::Cancelled,
        _ => state,
    }
}

/// How far a subscription has come: opening, streaming, ended.
pub open spec fn progress(state: SubscriptionState) -> nat {
    match state {
        SubscriptionState::Opening => 0,
        SubscriptionState::Streaming => 1,
        _ => 2,
    }
}

/// The state after all of `signals` have arrived, one after the other.
pub open spec fn state_after(state: SubscriptionState, signals: Seq<SourceSignal>)
    -> SubscriptionState
    decreases signals.len(),
{
    if signals.len() == 0 {
        state
    } else {
        next_state(state_after(state, signals.drop_last()), signals.last())
    }
}

/// What a subscription is, for contracts: its request and its state.
pub struct SubscriptionModel {
    pub request: SubscriptionRequest,
    pub state: SubscriptionState,
}

/// A subscription to the log output of one workload.
#[derive(Debug)]
pub struct Subscription {
    request: SubscriptionRequest,
    state: SubscriptionState,
}

impl View for Subscription {
    type V = SubscriptionModel;

    closed spec fn view(&self) -> SubscriptionModel {
        SubscriptionModel { request: self.request, state: self.state }
    }
}

impl Subscription {
    /// Starts a subscription to the output of `workload`. It is opening: no
    /// connection stands yet.
    pub fn open(workload: u64, follow: bool, backlog_lines: u32) -> (subscription: Subscription)
        ensures
            subscription@.request == (SubscriptionRequest { workload, follow, backlog_lines }),
            subscription@.state == SubscriptionState::Opening,
    {
        Subscription {
            request: SubscriptionRequest { workload, follow, backlog_lines },
            state: SubscriptionState::Opening,
        }
    }

    /// What is asked of the source.
    pub fn request(&self) -> (request: SubscriptionRequest)
        ensures
            request == self@.request,
    {
        self.request
    }

    /// Where the subscription stands.
    pub fn state(&self) -> (state: SubscriptionState)
        ensures
            state == self@.state,
    {
        self.state
    }

    /// Whether the subscription has ended.
    pub fn is_terminal(&self) -> (ended: bool)
        ensures
            ended == is_terminal(self@.state),
    {
        match self.state {
            SubscriptionState::Opening => false,
            SubscriptionState::Streaming => false,
            _ => true,
        }
    }

    /// Whether the subscription holds a connection to the source.
    pub fn holds_connection(&self) -> (held: bool)
        ensures
            held == holds_connection(self@.state),
    {
        match self.state {
            SubscriptionState::Streaming => true,
            _ => false,
        }
    }

    /// Why the subscription failed, if it did.
    pub fn error(&self) -> (error: Option<RelayError>)
        ensures
            error == match self@.state {
                SubscriptionState::Failed(cause) => Some(cause),
                _ => None,
            },
    {
        match self.state {
            SubscriptionState::Failed(cause) => Some(cause),
            _ => None,
        }
    }

    /// Takes note of `signal` and says whether the state has changed.
    pub fn signal(&mut self, signal: SourceSignal) -> (changed: bool)
        ensures
            final(self)@.request == old(self)@.request,
            final(self)@.state == next_state(old(self)@.state, signal),
            changed == (final(self)@.state != old(self)@.state),
    {
        let next = match (self.state, signal) {
            (SubscriptionState::Opening, SourceSignal::Established) => SubscriptionState::Streaming,
            (SubscriptionState::Opening, SourceSignal::Unavailable) => SubscriptionState::Failed(
                RelayError::SourceUnavailable,
            ),
            (SubscriptionState::Opening, SourceSignal::Cancel) => SubscriptionState::Cancelled,
            (SubscriptionState::Streaming, SourceSignal::Ended) => SubscriptionState::Closed,
            (SubscriptionState::Streaming, SourceSignal::ReadFailed) => SubscriptionState::Failed(
                RelayError::SourceReadError,
            ),
            (SubscriptionState::Streaming, SourceSignal::Cancel) => SubscriptionState::Cancelled,
            (state, _) => state,
        };
        let changed = !(next == self.state);
        self.state = next;
        changed
    }

    /// Gives the subscription up. Afterwards it holds no connection.
    pub fn cancel(&mut self)
        ensures
            final(self)@.request == old(self)@.request,
            final(self)@.state == next_state(old(self)@.state, SourceSignal::Cancel),
            is_terminal(final(self)@.state),
            !holds_connection(final(self)@.state),
    {
        self.signal(SourceSignal::Cancel);
    }
}

/// A subscription that has ended stays as it is, whatever arrives.
pub proof fn lemma_terminal_states_are_final(state: SubscriptionState, signal: SourceSignal)
    requires
        is_terminal(state),
    ensures
        next_state(state, signal) == state,
{
}

/// A subscription that has ended holds no connection, and a cancelled one has
/// ended: no way out of a subscription leaves a connection behind.
pub proof fn lemma_no_connection_is_left(state: SubscriptionState)
    ensures
        is_terminal(state) ==> !holds_connection(state),
        is_terminal(next_state(state, SourceSignal::Cancel)),
        !holds_connection(next_state(state, SourceSignal::Cancel)),
{
}

/// A source that cannot be reached makes the opening fail with
/// `SourceUnavailable`, and no connection stands afterwards.
pub proof fn lemma_unavailable_source_fails_opening()
    ensures
        next_state(SubscriptionState::Opening, SourceSignal::Unavailable)
            == SubscriptionState::Failed(RelayError::SourceUnavailable),
        !holds_connection(next_state(SubscriptionState::Opening, SourceSignal::Unavailable)),
{
}

/// A subscription only moves forward: from opening to streaming to an end,
/// possibly skipping streaming, and never back.
pub proof fn lemma_state_moves_forward(state: SubscriptionState, signal: SourceSignal)
    ensures
        progress(state) <= progress(next_state(state, signal)),
        next_state(state, signal) != state ==> progress(state) < progress(
            next_state(state, signal),
        ),
{
}

/// Whatever arrives in whatever order, a subscription changes its state at
/// most twice, connects at most once, and once ended stays as it ended.
pub proof fn lemma_life_of_a_subscription(
    state: SubscriptionState,
    signals: Seq<SourceSignal>,
    more: Seq<SourceSignal>,
)
    ensures
        progress(state) <= progress(state_after(state, signals)),
        state_after(state, signals + more) == state_after(state_after(state, signals), more),
        is_terminal(state_after(state, signals)) ==> state_after(state, signals + more)
            == state_after(state, signals),
    decreases more.len(),
{
    lemma_progress_along(state, signals);
    if more.len() > 0 {
        lemma_life_of_a_subscription(state, signals, more.drop_last());
        assert((signals + more).drop_last() =~= signals + more.drop_last());
    }
}

proof fn lemma_progress_along(state: SubscriptionState, signals: Seq<SourceSignal>)
    ensures
        progress(state) <= progress(state_after(state, signals)),
    decreases signals.len(),
{
    if signals.len() > 0 {
        lemma_progress_along(state, signals.drop_last());
    }
}

} // verus!
