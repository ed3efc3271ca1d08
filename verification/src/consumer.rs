//! The consumer of the event relay, as a machine of states and steps.
//!
//! The consumer subscribes to the relay's topics and then, message by message,
//! hands the message to the log sink and commits its position. The machine
//! decides what is done next; the caller does it and reports what happened.

use vstd::prelude::*;
use crate::event::{topic_of, EventType};

verus! {

/// Where a message stands in the message log.
#[derive(Clone, Copy, Debug, PartialEq, Eq, Structural)]
pub struct Position {
    pub topic: EventType,
    pub partition: i32,
    pub offset: i64,
}

/// A message as it came from the message log.
#[derive(Clone, Debug, PartialEq, Eq)]
pub struct Message {
    pub position: Position,
    pub key: Option<Vec<u8>>,
    pub timestamp: Option<i64>,
    pub payload: Option<Vec<u8>>,
}

/// What the caller reports to the machine.
#[derive(Clone, Debug, PartialEq, Eq)]
pub enum ConsumerEvent {
    /// The service has started.
    Started,
    /// The consumer was created and has subscribed to the topics.
    Subscribed,
    /// The consumer could not be created, or could not subscribe.
    SubscribeFailed(String),
    /// The log delivered a message.
    Received(Message),
    /// The log reported a failure in place of a message.
    ReceiveFailed(String),
    /// The log will deliver nothing more.
    StreamEnded,
    /// The sink has taken what it was handed.
    Logged,
    /// The position was handed over for commit.
    Committed,
    /// The position could not be handed over for commit.
    CommitFailed(String),
}

/// What the machine asks the caller to do.
#[derive(Debug, PartialEq, Eq)]
pub enum ConsumerAction {
    /// Nothing: the event was not one that the machine waited for.
    Nothing,
    /// Create the consumer and subscribe to the topics.
    Subscribe,
    /// Wait for the next message.
    Poll,
    /// Hand the message to the log sink: its key, partition, offset,
    /// timestamp and payload.
    Log(Message),
    /// Hand the failure to the log sink.
    LogError(String),
    /// Commit the position, without waiting for the log's answer.
    Commit(Position),
    /// End the consumer, with the failure to subscribe if that ended it.
    Stop(Result<(), String>),
}

/// The states of the consumer.
#[derive(Clone, Copy, Debug, PartialEq, Eq, Structural)]
pub enum ConsumerState {
    /// Not started yet.
    Created,
    /// Waiting to learn whether the subscription stands.
    Subscribing,
    /// Waiting for the next message.
    Polling,
    /// Waiting for the sink to take the message at this position.
    Logging(Position),
    /// Waiting for the sink to take a failure, of a receive or of a commit.
    Reporting,
    /// Waiting to learn whether this position was handed over for commit.
    Committing(Position),
    /// Ended.
    Stopped,
}

/// The next state and the action, for a state and an event.
///
/// A message is first handed to the sink; its position is committed when the
/// sink has taken it, and only then. A failure in place of a message, and a
/// failure to commit, is handed to the sink and the consumer goes on: the
/// message whose commit failed is delivered again by the log. Once it has
/// subscribed the consumer ends only where the log has nothing more to
/// deliver; before that, only where it cannot subscribe. An event that the
/// state does not wait for changes nothing.
pub open spec fn next(state: ConsumerState, event: ConsumerEvent) -> (ConsumerState, ConsumerAction) {
    match (state, event) {
        (ConsumerState::Created, ConsumerEvent::Started) => (
            ConsumerState::Subscribing,
            ConsumerAction::Subscribe,
        ),
        (ConsumerState::Subscribing, ConsumerEvent::Subscribed) => (
            ConsumerState::Polling,
            ConsumerAction::Poll,
        ),
        (ConsumerState::Subscribing, ConsumerEvent::SubscribeFailed(msg)) => (
            ConsumerState::Stopped,
            ConsumerAction::Stop(Err(msg)),
        ),
        (ConsumerState::Polling, ConsumerEvent::Received(message)) => (
            ConsumerState::Logging(message.position),
            ConsumerAction::Log(message),
        ),
        (ConsumerState::Polling, ConsumerEvent::ReceiveFailed(msg)) => (
            ConsumerState::Reporting,
            ConsumerAction::LogError(msg),
        ),
        (ConsumerState::Polling, ConsumerEvent::StreamEnded) => (
            ConsumerState::Stopped,
            ConsumerAction::Stop(Ok(())),
        ),
        (ConsumerState::Logging(position), ConsumerEvent::Logged) => (
            ConsumerState::Committing(position),
            ConsumerAction::Commit(position),
        ),
        (ConsumerState::Reporting, ConsumerEvent::Logged) => (
            ConsumerState::Polling,
            ConsumerAction::Poll,
        ),
        (ConsumerState::Committing(_), ConsumerEvent::Committed) => (
            ConsumerState::Polling,
            ConsumerAction::Poll,
        ),
        (ConsumerState::Committing(_), ConsumerEvent::CommitFailed(msg)) => (
            ConsumerState::Reporting,
            ConsumerAction::LogError(msg),
        ),
        _ => (state, ConsumerAction::Nothing),
    }
}

impl ConsumerState {
    /// One step of the consumer.
    pub fn step(self, event: ConsumerEvent) -> (r: (ConsumerState, ConsumerAction))
        ensures
            r == next(self, event),
    {
        match (self, event) {
            (ConsumerState::Created, ConsumerEvent::Started) => (
                ConsumerState::Subscribing,
                ConsumerAction::Subscribe,
            ),
            (ConsumerState::Subscribing, ConsumerEvent::Subscribed) => (
                ConsumerState::Polling,
                ConsumerAction::Poll,
            ),
            (ConsumerState::Subscribing, ConsumerEvent::SubscribeFailed(msg)) => (
                ConsumerState::Stopped,
                ConsumerAction::Stop(Err(msg)),
            ),
            (ConsumerState::Polling, ConsumerEvent::Received(message)) => (
                ConsumerState::Logging(message.position),
                ConsumerAction::Log(message),
            ),
            (ConsumerState::Polling, ConsumerEvent::ReceiveFailed(msg)) => (
                ConsumerState::Reporting,
                ConsumerAction::LogError(msg),
            ),
            (ConsumerState::Polling, ConsumerEvent::StreamEnded) => (
                ConsumerState::Stopped,
                ConsumerAction::Stop(Ok(())),
            ),
            (ConsumerState::Logging(position), ConsumerEvent::Logged) => (
                ConsumerState::Committing(position),
                ConsumerAction::Commit(position),
            ),
            (ConsumerState::Reporting, ConsumerEvent::Logged) => (
                ConsumerState::Polling,
                ConsumerAction::Poll,
            ),
            (ConsumerState::Committing(_), ConsumerEvent::Committed) => (
                ConsumerState::Polling,
                ConsumerAction::Poll,
            ),
            (ConsumerState::Committing(_), ConsumerEvent::CommitFailed(msg)) => (
                ConsumerState::Reporting,
                ConsumerAction::LogError(msg),
            ),
            (state, _) => (state, ConsumerAction::Nothing),
        }
    }
}

/// The topics that the consumer subscribes to.
pub fn events_topics() -> (topics: Vec<&'static str>)
    ensures
        topics@.map_values(|t: &'static str| t@) == seq![
            topic_of(EventType::Movie),
            topic_of(EventType::User),
            topic_of(EventType::Payment),
        ],
{
    let mut topics: Vec<&'static str> = Vec::new();
    topics.push(EventType::Movie.topic());
    topics.push(EventType::User.topic());
    topics.push(EventType::Payment.topic());
    assert(topics@.map_values(|t: &'static str| t@) =~= seq![
        topic_of(EventType::Movie),
        topic_of(EventType::User),
        topic_of(EventType::Payment),
    ]);
    topics
}

/// The state that the consumer is in after a run of events, from its start.
pub open spec fn state_after(events: Seq<ConsumerEvent>) -> ConsumerState
    decreases events.len(),
{
    if events.len() == 0 {
        ConsumerState::Created
    } else {
        next(state_after(events.drop_last()), events.last()).0
    }
}

/// The action that the machine asks for at the `i`-th event of a run.
pub open spec fn action_at(events: Seq<ConsumerEvent>, i: int) -> ConsumerAction
    recommends
        0 <= i < events.len(),
{
    next(state_after(events.take(i)), events[i]).1
}

/// Whether an action hands the message at `position` to the sink.
pub open spec fn logs(action: ConsumerAction, position: Position) -> bool {
    action matches ConsumerAction::Log(message) && message.position == position
}

/// A commit is asked for in one place only: in the state that waits for the
/// sink to take the message at that position, and in answer to the sink's
/// report that it did.
pub proof fn lemma_commit_answers_logged(
    state: ConsumerState,
    event: ConsumerEvent,
    position: Position,
)
    requires
        next(state, event).1 == ConsumerAction::Commit(position),
    ensures
        state == ConsumerState::Logging(position),
        event == ConsumerEvent::Logged,
{
}

/// Whether the run handed the message at `position` to the sink at step `j`
/// and has asked for nothing from then up to step `end`.
pub open spec fn handed_at(
    events: Seq<ConsumerEvent>,
    j: int,
    end: int,
    position: Position,
) -> bool {
    &&& 0 <= j < end
    &&& logs(action_at(events, j), position)
    &&& forall|k: int| j < k < end ==> #[trigger] action_at(events, k) == ConsumerAction::Nothing
}

/// While the machine waits for the sink to take a message, the last thing that
/// it asked for was to hand that message to the sink.
proof fn lemma_logging_was_handed(events: Seq<ConsumerEvent>, position: Position)
    requires
        state_after(events) == ConsumerState::Logging(position),
    ensures
        exists|j: int| handed_at(events, j, events.len() as int, position),
    decreases events.len(),
{
    if events.len() > 0 {
        let before = events.drop_last();
        let last = events.len() - 1;
        assert(events.take(last) =~= before);
        if state_after(before) == ConsumerState::Logging(position) {
            lemma_logging_was_handed(before, position);
            let j = choose|j: int| handed_at(before, j, before.len() as int, position);
            assert(before.take(last) =~= events.take(last));
            lemma_same_actions(before, events, last);
            assert(action_at(events, j) == action_at(before, j));
            assert forall|k: int| j < k < events.len() implies #[trigger] action_at(events, k)
                == ConsumerAction::Nothing by {
                if k < last {
                    assert(action_at(before, k) == ConsumerAction::Nothing);
                }
            }
            assert(handed_at(events, j, events.len() as int, position));
        } else {
            assert(handed_at(events, last, events.len() as int, position));
        }
    }
}

/// Two runs that begin with the same `n` events ask for the same things at
/// those events.
proof fn lemma_same_actions(a: Seq<ConsumerEvent>, b: Seq<ConsumerEvent>, n: int)
    requires
        0 <= n <= a.len(),
        n <= b.len(),
        a.take(n) == b.take(n),
    ensures
        forall|k: int| 0 <= k < n ==> #[trigger] action_at(a, k) == action_at(b, k),
{
    assert forall|k: int| 0 <= k < n implies #[trigger] action_at(a, k) == action_at(b, k) by {
        assert(a.take(k) =~= a.take(n).take(k));
        assert(b.take(k) =~= b.take(n).take(k));
        assert(a[k] == a.take(n)[k]);
        assert(b[k] == b.take(n)[k]);
    }
}

/// In every run of the consumer, from its start and whatever is reported to
/// it, the commit of a position is the answer to the sink's report that it has
/// taken a message, and the last thing that the machine asked for before was
/// to hand the message at that position to the sink. No position is committed
/// whose message the sink has not had.
pub proof fn lemma_commit_after_log(events: Seq<ConsumerEvent>, i: int, position: Position)
    requires
        0 <= i < events.len(),
        action_at(events, i) == ConsumerAction::Commit(position),
    ensures
        events[i] == ConsumerEvent::Logged,
        exists|j: int| handed_at(events, j, i, position),
{
    let before = events.take(i);
    lemma_commit_answers_logged(state_after(before), events[i], position);
    lemma_logging_was_handed(before, position);
    let j = choose|j: int| handed_at(before, j, before.len() as int, position);
    assert(before.take(i) =~= events.take(i));
    lemma_same_actions(before, events, i);
    assert(action_at(events, j) == action_at(before, j));
    assert forall|k: int| j < k < i implies #[trigger] action_at(events, k)
        == ConsumerAction::Nothing by {
        assert(action_at(before, k) == ConsumerAction::Nothing);
    }
    assert(handed_at(events, j, i, position));
}

/// A message never ends the consumer, and neither does a failure that the log
/// reports in place of one, nor a failure to commit: the consumer ends only
/// where it cannot subscribe, or where the log has nothing more to deliver.
pub proof fn lemma_only_two_ends(state: ConsumerState, event: ConsumerEvent)
    requires
        state != ConsumerState::Stopped,
        next(state, event).0 == ConsumerState::Stopped,
    ensures
        (state == ConsumerState::Subscribing && event is SubscribeFailed) || (state
            == ConsumerState::Polling && event is StreamEnded),
        event is StreamEnded ==> next(state, event).1 == ConsumerAction::Stop(Ok(())),
{
}

/// A consumer that could subscribe goes on for as long as the log delivers:
/// in a run in which no failure to subscribe and no end of the log is
/// reported, the consumer has not ended, whatever else was reported, failed
/// receives and failed commits among it.
pub proof fn lemma_goes_on(events: Seq<ConsumerEvent>)
    requires
        forall|i: int|
            0 <= i < events.len() ==> !(#[trigger] events[i] is SubscribeFailed) && !(events[i]
                is StreamEnded),
    ensures
        state_after(events) != ConsumerState::Stopped,
    decreases events.len(),
{
    if events.len() > 0 {
        let before = events.drop_last();
        assert forall|i: int| 0 <= i < before.len() implies !(#[trigger] before[i]
            is SubscribeFailed) && !(before[i] is StreamEnded) by {
            assert(before[i] == events[i]);
        }
        lemma_goes_on(before);
        assert(!(events.last() is SubscribeFailed) && !(events.last() is StreamEnded)) by {
            assert(events.last() == events[events.len() - 1]);
        }
    }
}

} // verus!
