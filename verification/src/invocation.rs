//! One invocation as a state machine. The caller performs each action the
//! machine hands out and reports its result as the next event; the machine
//! decides what follows.
//!
//! An invocation is `Received` once its trigger gave a request, and `Failed`
//! at once where it gave none. The probe's outcome is routed as soon as it
//! arrives: a server failure leads to `Notifying`, every other outcome to
//! `Done`. `Notifying` ends in `Done` whatever the notification's result.

use vstd::prelude::*;
use crate::notifier::{result_view, NotifyError, NotifyErrorView};
use crate::outcome::{OutcomeView, ProbeOutcome};
use crate::request::{
    read_trigger, usable_url, HealthCheckRequest, MalformedRequest, TriggerEvent,
    TriggerEventView,
};

verus! {

/// What became of the alert of an invocation that is done.
#[derive(Clone, Debug, PartialEq, Eq)]
pub enum Notification {
    /// The outcome called for no alert, and none was sent.
    NotNeeded,
    /// The alert was sent and delivered.
    Delivered,
    /// The alert was due and the notification failed.
    Failed { error: NotifyError },
}

/// The mathematical value of a [`Notification`].
pub ghost enum NotificationView {
    NotNeeded,
    Delivered,
    Failed { error: NotifyErrorView },
}

impl View for Notification {
    type V = NotificationView;

    open spec fn view(&self) -> NotificationView {
        match self {
            Notification::NotNeeded => NotificationView::NotNeeded,
            Notification::Delivered => NotificationView::Delivered,
            Notification::Failed { error } => NotificationView::Failed { error: error@ },
        }
    }
}

/// The state of an invocation.
#[derive(Clone, Debug, PartialEq, Eq)]
pub enum Invocation {
    /// The trigger gave a request; the probe is under way.
    Received { request: HealthCheckRequest },
    /// The probe found a server failure; the notification is under way.
    Notifying { outcome: ProbeOutcome },
    /// Nothing is left to do. The invocation succeeded, whatever became of
    /// the notification.
    Done { outcome: ProbeOutcome, notification: Notification },
    /// The trigger gave no request. Nothing was sent, and the invocation
    /// failed.
    Failed { error: MalformedRequest },
}

/// The mathematical value of an [`Invocation`].
pub ghost enum InvocationView {
    Received { url: Seq<char> },
    Notifying { outcome: OutcomeView },
    Done { outcome: OutcomeView, notification: NotificationView },
    Failed { error: MalformedRequest },
}

impl View for Invocation {
    type V = InvocationView;

    open spec fn view(&self) -> InvocationView {
        match self {
            Invocation::Received { request } => InvocationView::Received { url: request@ },
            Invocation::Notifying { outcome } => InvocationView::Notifying { outcome: outcome@ },
            Invocation::Done { outcome, notification } => InvocationView::Done {
                outcome: outcome@,
                notification: notification@,
            },
            Invocation::Failed { error } => InvocationView::Failed { error: *error },
        }
    }
}

impl InvocationView {
    /// What holds of every state an invocation can be in: a request has a
    /// usable URL, only a server failure is notified of, and an invocation is
    /// done without a notification exactly when its outcome called for none.
    pub open spec fn wf(self) -> bool {
        match self {
            InvocationView::Received { url } => usable_url(url),
            InvocationView::Notifying { outcome } => outcome.alertable(),
            InvocationView::Done { outcome, notification } => (notification is NotNeeded)
                == !outcome.alertable(),
            InvocationView::Failed { .. } => true,
        }
    }

    /// The states in which nothing is left to do.
    pub open spec fn terminal(self) -> bool {
        self is Done || self is Failed
    }

    /// The one event each state awaits: the probe's outcome while the probe
    /// is under way, the notification's result while that is. A state in
    /// which nothing is left to do awaits nothing.
    pub open spec fn awaits(self, event: EventView) -> bool {
        ||| self is Received && event is Probed
        ||| self is Notifying && event is Notified
    }
}

/// What the caller reports back to the machine.
#[derive(Debug, PartialEq, Eq)]
pub enum Event {
    /// The probe returned this outcome.
    Probed { outcome: ProbeOutcome },
    /// The notification returned this result.
    Notified { result: Result<(), NotifyError> },
}

/// The mathematical value of an [`Event`].
pub ghost enum EventView {
    Probed { outcome: OutcomeView },
    Notified { result: Result<(), NotifyErrorView> },
}

impl View for Event {
    type V = EventView;

    open spec fn view(&self) -> EventView {
        match self {
            Event::Probed { outcome } => EventView::Probed { outcome: outcome@ },
            Event::Notified { result } => EventView::Notified { result: result_view(*result) },
        }
    }
}

/// What the machine asks of the caller.
#[derive(Clone, Debug, PartialEq, Eq)]
pub enum Action {
    /// Probe this URL once, and report `Event::Probed`.
    Check { url: String },
    /// Notify with this text once, and report `Event::Notified`.
    Notify { text: String },
    /// Report success to the host; the invocation is over.
    Succeed,
    /// Report this failure to the host; the invocation is over.
    Fail { error: MalformedRequest },
}

/// The mathematical value of an [`Action`].
pub ghost enum ActionView {
    Check { url: Seq<char> },
    Notify { text: Seq<char> },
    Succeed,
    Fail { error: MalformedRequest },
}

impl View for Action {
    type V = ActionView;

    open spec fn view(&self) -> ActionView {
        match self {
            Action::Check { url } => ActionView::Check { url: url@ },
            Action::Notify { text } => ActionView::Notify { text: text@ },
            Action::Succeed => ActionView::Succeed,
            Action::Fail { error } => ActionView::Fail { error: *error },
        }
    }
}

/// How an invocation begins: with a probe of the trigger's URL, or, where the
/// trigger gives no request, with its failure and nothing else.
pub open spec fn begin(trigger: TriggerEventView) -> (InvocationView, ActionView) {
    match read_trigger(trigger) {
        Ok(url) => (InvocationView::Received { url }, ActionView::Check { url }),
        Err(error) => (InvocationView::Failed { error }, ActionView::Fail { error }),
    }
}

/// Where a probe's outcome leads: a server failure to a notification whose
/// text is the captured body, every other outcome to the end.
pub open spec fn route(outcome: OutcomeView) -> (InvocationView, ActionView) {
    match outcome {
        OutcomeView::ServerFailure { status, body } => (
            InvocationView::Notifying { outcome },
            ActionView::Notify { text: body },
        ),
        _ => (
            InvocationView::Done { outcome, notification: NotificationView::NotNeeded },
            ActionView::Succeed,
        ),
    }
}

/// What a notification's result is recorded as.
pub open spec fn recorded(result: Result<(), NotifyErrorView>) -> NotificationView {
    match result {
        Ok(()) => NotificationView::Delivered,
        Err(error) => NotificationView::Failed { error },
    }
}

/// The transition relation: the state and action that follow `event` in
/// `state`, and `None` where `state` does not await `event`.
pub open spec fn next(state: InvocationView, event: EventView) -> Option<
    (InvocationView, ActionView),
> {
    match (state, event) {
        (InvocationView::Received { .. }, EventView::Probed { outcome }) => Some(route(outcome)),
        (InvocationView::Notifying { outcome }, EventView::Notified { result }) => Some(
            (
                InvocationView::Done { outcome, notification: recorded(result) },
                ActionView::Succeed,
            ),
        ),
        _ => None,
    }
}

/// A transition, by the mathematical values of its state and action.
pub open spec fn transition_view(taken: Option<(Invocation, Action)>) -> Option<
    (InvocationView, ActionView),
> {
    match taken {
        Some((state, action)) => Some((state@, action@)),
        None => None,
    }
}

impl Invocation {
    /// Begins an invocation on `trigger`, and says what to do first.
    pub fn start(trigger: TriggerEvent) -> (begun: (Invocation, Action))
        ensures
            (begun.0@, begun.1@) == begin(trigger@),
            begun.0@.wf(),
    {
        match HealthCheckRequest::parse(trigger) {
            Ok(request) => {
                let url = request.url().to_owned();
                (Invocation::Received { request }, Action::Check { url })
            },
            Err(error) => (Invocation::Failed { error }, Action::Fail { error }),
        }
    }

    /// Takes the transition for `event`, and says what to do next. An event
    /// that this state does not await gives `None`.
    pub fn step(self, event: Event) -> (taken: Option<(Invocation, Action)>)
        ensures
            transition_view(taken) == next(self@, event@),
            taken is Some <==> self@.awaits(event@),
            taken matches Some(pair) ==> (pair.1@ is Notify <==> event@ is Probed
                && event@->outcome.alertable()),
            self@.wf() ==> (taken matches Some(pair) ==> pair.0@.wf()),
    {
        match (self, event) {
            (Invocation::Received { request }, Event::Probed { outcome }) => {
                match &outcome {
                    ProbeOutcome::ServerFailure { status, body } => {
                        let text = body.clone();
                        Some((Invocation::Notifying { outcome }, Action::Notify { text }))
                    },
                    _ => Some(
                        (
                            Invocation::Done { outcome, notification: Notification::NotNeeded },
                            Action::Succeed,
                        ),
                    ),
                }
            },
            (Invocation::Notifying { outcome }, Event::Notified { result }) => {
                let notification = match result {
                    Ok(()) => Notification::Delivered,
                    Err(error) => Notification::Failed { error },
                };
                Some((Invocation::Done { outcome, notification }, Action::Succeed))
            },
            _ => None,
        }
    }

    /// Tells whether nothing is left to do.
    pub fn is_terminal(&self) -> (over: bool)
        ensures
            over == self@.terminal(),
    {
        match self {
            Invocation::Done { .. } => true,
            Invocation::Failed { .. } => true,
            _ => false,
        }
    }
}

} // verus!
