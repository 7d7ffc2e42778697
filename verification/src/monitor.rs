//! The polling state machine: what to do after each fetch and each delivery
//! attempt.
//!
//! The caller owns the clock and the network. It performs the task of a
//! `Step` after waiting as long as the step says, and hands the outcome back
//! as an `Event`; the `Monitor` answers with the next step.

use crate::error::{FetchError, FetchErrorView};
use crate::extract::outcome_view;
use crate::notify::{notification_text, render_notification};
use crate::snapshot::{BinanceInfo, BinanceInfoView};
use vstd::prelude::*;

verus! {

/// Seconds to wait before every fetch.
pub const POLLING_INTERVAL_SECS: u64 = 10;

/// Seconds to wait before a delivery is tried again.
pub const DELIVERY_RETRY_SECS: u64 = 3;

/// The chat that receives the notifications.
pub const RECIPIENT: i64 = 558612972;

/// What the caller has to do next.
#[derive(Debug, PartialEq, Eq)]
pub enum Task {
    /// Fetch the page and report the outcome.
    Fetch,
    /// Send `text` to `recipient` and report whether it was accepted.
    Deliver { recipient: i64, text: String },
}

/// What went wrong in the attempt that an event reported.
#[derive(Debug, PartialEq, Eq)]
pub enum Failure {
    Fetch(FetchError),
    Delivery(String),
}

/// One instruction to the caller: report `failure` if there is one, wait
/// `wait_secs` seconds, then perform `task`.
#[derive(Debug, PartialEq, Eq)]
pub struct Step {
    pub failure: Option<Failure>,
    pub wait_secs: u64,
    pub task: Task,
}

/// The outcome of the task that the last step asked for.
#[derive(Debug)]
pub enum Event {
    /// The fetch ended with this outcome.
    Fetched(Result<BinanceInfo, FetchError>),
    /// The message was accepted.
    Delivered,
    /// The message was not accepted, for this reason.
    DeliveryFailed(String),
}

/// The state of the loop: the operation that was last reported, and the one
/// whose notification is still being delivered.
#[derive(Debug)]
pub struct Monitor {
    last_reported: Option<BinanceInfo>,
    pending: Option<BinanceInfo>,
}

pub ghost enum TaskView {
    Fetch,
    Deliver { recipient: i64, text: Seq<char> },
}

pub ghost enum FailureView {
    Fetch(FetchErrorView),
    Delivery(Seq<char>),
}

pub ghost struct StepView {
    pub failure: Option<FailureView>,
    pub wait_secs: u64,
    pub task: TaskView,
}

pub ghost enum EventView {
    Fetched(Result<BinanceInfoView, FetchErrorView>),
    Delivered,
    DeliveryFailed(Seq<char>),
}

pub ghost struct MonitorView {
    pub last_reported: Option<BinanceInfoView>,
    pub pending: Option<BinanceInfoView>,
}

impl View for Task {
    type V = TaskView;

    open spec fn view(&self) -> TaskView {
        match self {
            Task::Fetch => TaskView::Fetch,
            Task::Deliver { recipient, text } => TaskView::Deliver {
                recipient: *recipient,
                text: text@,
            },
        }
    }
}

impl View for Failure {
    type V = FailureView;

    open spec fn view(&self) -> FailureView {
        match self {
            Failure::Fetch(error) => FailureView::Fetch(error@),
            Failure::Delivery(cause) => FailureView::Delivery(cause@),
        }
    }
}

impl View for Step {
    type V = StepView;

    open spec fn view(&self) -> StepView {
        StepView {
            failure: match self.failure {
                Some(failure) => Some(failure@),
                None => None,
            },
            wait_secs: self.wait_secs,
            task: self.task@,
        }
    }
}

impl View for Event {
    type V = EventView;

    open spec fn view(&self) -> EventView {
        match self {
            Event::Fetched(outcome) => EventView::Fetched(outcome_view(*outcome)),
            Event::Delivered => EventView::Delivered,
            Event::DeliveryFailed(cause) => EventView::DeliveryFailed(cause@),
        }
    }
}

impl View for Monitor {
    type V = MonitorView;

    closed spec fn view(&self) -> MonitorView {
        MonitorView {
            last_reported: match self.last_reported {
                Some(info) => Some(info@),
                None => None,
            },
            pending: match self.pending {
                Some(info) => Some(info@),
                None => None,
            },
        }
    }
}

/// The state at process start: nothing reported, nothing to deliver.
pub open spec fn initial_state() -> MonitorView {
    MonitorView { last_reported: None, pending: None }
}

/// The step that asks for a fetch after the polling interval.
pub open spec fn poll(failure: Option<FailureView>) -> StepView {
    StepView { failure, wait_secs: POLLING_INTERVAL_SECS, task: TaskView::Fetch }
}

/// The step that asks for the delivery of the message about `info`.
pub open spec fn deliver(
    info: BinanceInfoView,
    wait_secs: u64,
    failure: Option<FailureView>,
) -> StepView {
    StepView {
        failure,
        wait_secs,
        task: TaskView::Deliver { recipient: RECIPIENT, text: notification_text(info) },
    }
}

/// The state after `event`, and the step that answers it.
///
/// While nothing is pending: a failed fetch is reported and the page is
/// polled again; the first operation ever seen becomes the baseline; an
/// operation equal to the last reported one changes nothing; a different one
/// becomes pending and its message is to be sent at once.
///
/// While an operation is pending: an accepted message makes it the last
/// reported one; a refused message is reported and sent again after the
/// retry delay.
///
/// An event that does not answer the task that is under way changes nothing,
/// and that task is asked for again.
pub open spec fn transition(state: MonitorView, event: EventView) -> (MonitorView, StepView) {
    match state.pending {
        None => match event {
            EventView::Fetched(Err(error)) => (state, poll(Some(FailureView::Fetch(error)))),
            EventView::Fetched(Ok(latest)) => if state.last_reported is None {
                (MonitorView { last_reported: Some(latest), pending: None }, poll(None))
            } else if state.last_reported == Some(latest) {
                (state, poll(None))
            } else {
                (
                    MonitorView { last_reported: state.last_reported, pending: Some(latest) },
                    deliver(latest, 0, None),
                )
            },
            _ => (state, poll(None)),
        },
        Some(pending) => match event {
            EventView::Delivered => (
                MonitorView { last_reported: Some(pending), pending: None },
                poll(None),
            ),
            EventView::DeliveryFailed(cause) => (
                state,
                deliver(pending, DELIVERY_RETRY_SECS, Some(FailureView::Delivery(cause))),
            ),
            EventView::Fetched(_) => (state, deliver(pending, DELIVERY_RETRY_SECS, None)),
        },
    }
}

/// The state after a run of events, taken in order.
pub open spec fn state_after(state: MonitorView, events: Seq<EventView>) -> MonitorView
    decreases events.len(),
{
    if events.len() == 0 {
        state
    } else {
        transition(state_after(state, events.drop_last()), events.last()).0
    }
}

/// The steps that answer a run of events, one for each event.
pub open spec fn steps_after(state: MonitorView, events: Seq<EventView>) -> Seq<StepView>
    decreases events.len(),
{
    if events.len() == 0 {
        Seq::empty()
    } else {
        steps_after(state, events.drop_last()).push(
            transition(state_after(state, events.drop_last()), events.last()).1,
        )
    }
}

/// How many of the steps ask for a delivery.
pub open spec fn deliveries_in(steps: Seq<StepView>) -> nat
    decreases steps.len(),
{
    if steps.len() == 0 {
        0
    } else if steps.last().task is Deliver {
        deliveries_in(steps.drop_last()) + 1
    } else {
        deliveries_in(steps.drop_last())
    }
}

/// A run of fetches that failed for the given reasons.
pub open spec fn failed_fetches(errors: Seq<FetchErrorView>) -> Seq<EventView> {
    Seq::new(errors.len(), |i: int| EventView::Fetched(Err(errors[i])))
}

/// A run of deliveries that were refused for the given reasons.
pub open spec fn failed_deliveries(causes: Seq<Seq<char>>) -> Seq<EventView> {
    Seq::new(causes.len(), |i: int| EventView::DeliveryFailed(causes[i]))
}

impl Step {
    /// The step that asks for a fetch after the polling interval.
    fn poll(failure: Option<Failure>) -> (step: Step)
        ensures
            step@ == self::poll(
                match failure {
                    Some(failure) => Some(failure@),
                    None => None,
                },
            ),
    {
        Step { failure, wait_secs: POLLING_INTERVAL_SECS, task: Task::Fetch }
    }

    /// The step that asks for the delivery of the message about `info`.
    fn deliver(info: &BinanceInfo, wait_secs: u64, failure: Option<Failure>) -> (step: Step)
        ensures
            step@ == self::deliver(
                info@,
                wait_secs,
                match failure {
                    Some(failure) => Some(failure@),
                    None => None,
                },
            ),
    {
        Step {
            failure,
            wait_secs,
            task: Task::Deliver { recipient: RECIPIENT, text: render_notification(info) },
        }
    }
}

impl Monitor {
    /// The monitor of a process that has just started.
    pub fn new() -> (monitor: Monitor)
        ensures
            monitor@ == initial_state(),
    {
        Monitor { last_reported: None, pending: None }
    }

    /// The first step of the loop: fetch after the polling interval.
    pub fn start(&self) -> (step: Step)
        ensures
            step@ == poll(None),
    {
        Step::poll(None)
    }

    /// The operation that was last reported, if any was.
    pub fn last_reported(&self) -> (last: Option<&BinanceInfo>)
        ensures
            match last {
                Some(info) => self@.last_reported == Some(info@),
                None => self@.last_reported is None,
            },
    {
        self.last_reported.as_ref()
    }

    /// The operation whose notification is being delivered, if there is one.
    pub fn pending(&self) -> (pending: Option<&BinanceInfo>)
        ensures
            match pending {
                Some(info) => self@.pending == Some(info@),
                None => self@.pending is None,
            },
    {
        self.pending.as_ref()
    }

    /// Takes the outcome of the task that was asked for last, moves to the
    /// next state and says what to do next.
    pub fn step(&mut self, event: Event) -> (step: Step)
        ensures
            (final(self)@, step@) == transition(old(self)@, event@),
    {
        match self.pending.take() {
            Some(pending) => match event {
                Event::Delivered => {
                    self.last_reported = Some(pending);
                    Step::poll(None)
                },
                Event::DeliveryFailed(cause) => {
                    let step = Step::deliver(
                        &pending,
                        DELIVERY_RETRY_SECS,
                        Some(Failure::Delivery(cause)),
                    );
                    self.pending = Some(pending);
                    step
                },
                Event::Fetched(_) => {
                    let step = Step::deliver(&pending, DELIVERY_RETRY_SECS, None);
                    self.pending = Some(pending);
                    step
                },
            },
            None => match event {
                Event::Fetched(Err(error)) => Step::poll(Some(Failure::Fetch(error))),
                Event::Fetched(Ok(latest)) => {
                    let changed = match &self.last_reported {
                        None => {
                            self.last_reported = Some(latest);
                            return Step::poll(None);
                        },
                        Some(last) => !(*last == latest),
                    };
                    if changed {
                        let step = Step::deliver(&latest, 0, None);
                        self.pending = Some(latest);
                        step
                    } else {
                        Step::poll(None)
                    }
                },
                _ => Step::poll(None),
            },
        }
    }
}

} // verus!
