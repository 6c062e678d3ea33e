use vstd::prelude::*;

use crate::model::{NormalizedLog, NormalizedLogView, ProcessedLog, ProcessedLogView};
use crate::process::{delay_ms, process_message, processed, simulated_delay_ms};
use crate::redact::redacted;

verus! {

/// How far a delivered message has come.
#[derive(Debug)]
pub enum MessageState {
    /// The message was delivered and nothing has been done with it.
    Received,
    /// The message was read as a log; its simulated work is still to be waited for.
    Decoded { log: NormalizedLog },
    /// The log was redacted and its record assembled, two stages that are passed in one step,
    /// as nothing happens outside between them; the store has not answered yet.
    Assembled,
    /// The record is in the store. Nothing follows.
    Persisted,
    /// The message could not be read as a log. Nothing follows.
    DecodeFailed,
    /// The store did not take the record. Nothing follows in this attempt.
    PersistenceFailed,
}

/// What happened outside to a message.
#[derive(Debug)]
pub enum MessageEvent {
    /// The message body was read as this log.
    Decoded { log: NormalizedLog },
    /// The message has no body, or its body is not a log.
    Undecodable,
    /// The time that was asked for has passed.
    DelayElapsed,
    /// The store took the record.
    Stored,
    /// The store refused the record or could not be reached.
    StoreFailed,
}

/// What is to be done outside for a message.
#[derive(Debug)]
pub enum Action {
    /// Wait for this many milliseconds, without holding up other messages.
    Sleep { millis: u64 },
    /// Write this record to the store, under its tenant and its identifier.
    Persist { record: ProcessedLog },
    /// Nothing more is to be done for this message in this attempt: go on with the next one.
    Finish,
}

/// The mathematical value of a [`MessageState`].
pub ghost enum MessageStateView {
    Received,
    Decoded { log: NormalizedLogView },
    Assembled,
    Persisted,
    DecodeFailed,
    PersistenceFailed,
}

/// The mathematical value of a [`MessageEvent`].
pub ghost enum MessageEventView {
    Decoded { log: NormalizedLogView },
    Undecodable,
    DelayElapsed,
    Stored,
    StoreFailed,
}

/// The mathematical value of an [`Action`].
pub ghost enum ActionView {
    Sleep { millis: int },
    Persist { record: ProcessedLogView },
    Finish,
}

impl View for MessageState {
    type V = MessageStateView;

    open spec fn view(&self) -> MessageStateView {
        match self {
            MessageState::Received => MessageStateView::Received,
            MessageState::Decoded { log } => MessageStateView::Decoded { log: log@ },
            MessageState::Assembled => MessageStateView::Assembled,
            MessageState::Persisted => MessageStateView::Persisted,
            MessageState::DecodeFailed => MessageStateView::DecodeFailed,
            MessageState::PersistenceFailed => MessageStateView::PersistenceFailed,
        }
    }
}

impl View for MessageEvent {
    type V = MessageEventView;

    open spec fn view(&self) -> MessageEventView {
        match self {
            MessageEvent::Decoded { log } => MessageEventView::Decoded { log: log@ },
            MessageEvent::Undecodable => MessageEventView::Undecodable,
            MessageEvent::DelayElapsed => MessageEventView::DelayElapsed,
            MessageEvent::Stored => MessageEventView::Stored,
            MessageEvent::StoreFailed => MessageEventView::StoreFailed,
        }
    }
}

impl View for Action {
    type V = ActionView;

    open spec fn view(&self) -> ActionView {
        match self {
            Action::Sleep { millis } => ActionView::Sleep { millis: *millis as int },
            Action::Persist { record } => ActionView::Persist { record: record@ },
            Action::Finish => ActionView::Finish,
        }
    }
}

impl MessageStateView {
    /// Whether nothing follows this state in this attempt.
    pub open spec fn is_terminal(self) -> bool {
        self is Persisted || self is DecodeFailed || self is PersistenceFailed
    }
}

/// The step that an event causes in a state, with the action that it asks for. An event that
/// the state does not wait for causes none, nor does a log whose delay no `u64` can hold.
/// `processed_at` is the time that the record is stamped with where one is assembled.
pub open spec fn step(
    state: MessageStateView,
    event: MessageEventView,
    processed_at: Seq<char>,
) -> Option<(MessageStateView, ActionView)> {
    match (state, event) {
        (MessageStateView::Received, MessageEventView::Decoded { log }) => {
            if delay_ms(log.text) <= u64::MAX {
                Some(
                    (
                        MessageStateView::Decoded { log },
                        ActionView::Sleep { millis: delay_ms(log.text) },
                    ),
                )
            } else {
                None
            }
        },
        (MessageStateView::Received, MessageEventView::Undecodable) => Some(
            (MessageStateView::DecodeFailed, ActionView::Finish),
        ),
        (MessageStateView::Decoded { log }, MessageEventView::DelayElapsed) => Some(
            (
                MessageStateView::Assembled,
                ActionView::Persist { record: processed(log, redacted(log.text), processed_at) },
            ),
        ),
        (MessageStateView::Assembled, MessageEventView::Stored) => Some(
            (MessageStateView::Persisted, ActionView::Finish),
        ),
        (MessageStateView::Assembled, MessageEventView::StoreFailed) => Some(
            (MessageStateView::PersistenceFailed, ActionView::Finish),
        ),
        _ => None,
    }
}

/// The mathematical value of the outcome of a step.
pub open spec fn outcome_view(outcome: Option<(MessageState, Action)>) -> Option<
    (MessageStateView, ActionView),
> {
    match outcome {
        Some((state, action)) => Some((state@, action@)),
        None => None,
    }
}

/// The time with which the record of a step's outcome is stamped, where the step assembled one.
pub open spec fn stamp(outcome: Option<(MessageState, Action)>) -> Seq<char> {
    match outcome {
        Some((_, Action::Persist { record })) => record.processed_at@,
        _ => Seq::empty(),
    }
}

/// Takes a message one step further: from its state and from what happened outside, to its next
/// state and what is to be done outside next. The time of processing is read when the record is
/// assembled.
pub fn advance(state: MessageState, event: MessageEvent) -> (outcome: Option<
    (MessageState, Action),
>)
    ensures
        outcome_view(outcome) == step(state@, event@, stamp(outcome)),
        state@.is_terminal() ==> outcome is None,
        outcome matches Some((next, action)) ==> (next@.is_terminal() <==> action is Finish),
{
    match (state, event) {
        (MessageState::Received, MessageEvent::Decoded { log }) => {
            match simulated_delay_ms(log.text.as_str()) {
                Some(millis) => Some((MessageState::Decoded { log }, Action::Sleep { millis })),
                None => None,
            }
        },
        (MessageState::Received, MessageEvent::Undecodable) => Some(
            (MessageState::DecodeFailed, Action::Finish),
        ),
        (MessageState::Decoded { log }, MessageEvent::DelayElapsed) => {
            let record = process_message(log);
            Some((MessageState::Assembled, Action::Persist { record }))
        },
        (MessageState::Assembled, MessageEvent::Stored) => Some(
            (MessageState::Persisted, Action::Finish),
        ),
        (MessageState::Assembled, MessageEvent::StoreFailed) => Some(
            (MessageState::PersistenceFailed, Action::Finish),
        ),
        _ => None,
    }
}

} // verus!
