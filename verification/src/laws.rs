//! What holds of every invocation, proved from the transition relation.
//!
//! A run is an invocation seen from outside: the trigger, the events that the
//! caller reported in order, and the actions that it was handed. The laws
//! below speak of runs, so they hold of whatever the network did.

use vstd::prelude::*;
use crate::invocation::{
    begin, next, recorded, ActionView, EventView, InvocationView, NotificationView,
};
use crate::notifier::{prepared, ConfigView};
use crate::outcome::{is_server_error, OutcomeView};
use crate::prober::{captured, outcome_of};
use crate::reply::ReplyView;
use crate::request::{read_trigger, MalformedRequest, TriggerEventView};

verus! {

/// The state that `events`, reported in order, lead to from `state`, with the
/// actions handed out on the way; `None` where some event was not awaited.
pub open spec fn run(state: InvocationView, events: Seq<EventView>) -> Option<
    (InvocationView, Seq<ActionView>),
>
    decreases events.len(),
{
    if events.len() == 0 {
        Some((state, Seq::empty()))
    } else {
        match next(state, events[0]) {
            None => None,
            Some((after, action)) => match run(after, events.drop_first()) {
                None => None,
                Some((last, actions)) => Some((last, seq![action] + actions)),
            },
        }
    }
}

/// A whole invocation: the state it is in after `events`, and every action it
/// handed out, the first one included.
pub open spec fn invocation(trigger: TriggerEventView, events: Seq<EventView>) -> Option<
    (InvocationView, Seq<ActionView>),
> {
    match run(begin(trigger).0, events) {
        None => None,
        Some((last, actions)) => Some((last, seq![begin(trigger).1] + actions)),
    }
}

/// The texts of the notifications among `actions`, in order.
pub open spec fn notify_texts(actions: Seq<ActionView>) -> Seq<Seq<char>>
    decreases actions.len(),
{
    if actions.len() == 0 {
        Seq::empty()
    } else {
        match actions[0] {
            ActionView::Notify { text } => seq![text] + notify_texts(actions.drop_first()),
            _ => notify_texts(actions.drop_first()),
        }
    }
}

/// The URLs of the probes among `actions`, in order.
pub open spec fn check_urls(actions: Seq<ActionView>) -> Seq<Seq<char>>
    decreases actions.len(),
{
    if actions.len() == 0 {
        Seq::empty()
    } else {
        match actions[0] {
            ActionView::Check { url } => seq![url] + check_urls(actions.drop_first()),
            _ => check_urls(actions.drop_first()),
        }
    }
}

/// The five shapes an invocation can have, finished or not: it failed on its
/// trigger; its probe is under way; it probed and was done; it probed, found a
/// server failure and is notifying; or it has notified as well and is done.
pub open spec fn shape(
    trigger: TriggerEventView,
    events: Seq<EventView>,
    last: InvocationView,
    actions: Seq<ActionView>,
) -> bool {
    match read_trigger(trigger) {
        Err(error) => {
            &&& events.len() == 0
            &&& last == InvocationView::Failed { error }
            &&& actions == seq![ActionView::Fail { error }]
        },
        Ok(url) => if events.len() == 0 {
            &&& last == InvocationView::Received { url }
            &&& actions == seq![ActionView::Check { url }]
        } else {
            &&& events[0] matches EventView::Probed { outcome }
            &&& match outcome {
                OutcomeView::ServerFailure { status, body } => if events.len() == 1 {
                    &&& last == InvocationView::Notifying { outcome }
                    &&& actions == seq![
                        ActionView::Check { url },
                        ActionView::Notify { text: body },
                    ]
                } else {
                    &&& events.len() == 2
                    &&& events[1] matches EventView::Notified { result }
                    &&& last == InvocationView::Done { outcome, notification: recorded(result) }
                    &&& actions == seq![
                        ActionView::Check { url },
                        ActionView::Notify { text: body },
                        ActionView::Succeed,
                    ]
                },
                _ => {
                    &&& events.len() == 1
                    &&& last == InvocationView::Done {
                        outcome,
                        notification: NotificationView::NotNeeded,
                    }
                    &&& actions == seq![ActionView::Check { url }, ActionView::Succeed]
                },
            }
        },
    }
}

proof fn lemma_terminal_awaits_nothing(state: InvocationView, events: Seq<EventView>)
    requires
        state.terminal(),
        run(state, events) is Some,
    ensures
        events.len() == 0,
        run(state, events) == Some((state, Seq::<ActionView>::empty())),
{
}

proof fn lemma_run_while_notifying(outcome: OutcomeView, events: Seq<EventView>)
    requires
        run(InvocationView::Notifying { outcome }, events) is Some,
        events.len() > 0,
    ensures
        events.len() == 1,
        events[0] matches EventView::Notified { result } && run(
            InvocationView::Notifying { outcome },
            events,
        ) == Some(
            (
                InvocationView::Done { outcome, notification: recorded(result) },
                seq![ActionView::Succeed],
            ),
        ),
{
    let state = InvocationView::Notifying { outcome };
    let after = next(state, events[0])->Some_0.0;
    lemma_terminal_awaits_nothing(after, events.drop_first());
    assert(seq![ActionView::Succeed] + Seq::<ActionView>::empty() =~= seq![ActionView::Succeed]);
}

proof fn lemma_notify_texts_cons(action: ActionView, rest: Seq<ActionView>)
    ensures
        notify_texts(seq![action] + rest) == match action {
            ActionView::Notify { text } => seq![text] + notify_texts(rest),
            _ => notify_texts(rest),
        },
{
    assert((seq![action] + rest).drop_first() =~= rest);
}

proof fn lemma_check_urls_cons(action: ActionView, rest: Seq<ActionView>)
    ensures
        check_urls(seq![action] + rest) == match action {
            ActionView::Check { url } => seq![url] + check_urls(rest),
            _ => check_urls(rest),
        },
{
    assert((seq![action] + rest).drop_first() =~= rest);
}

/// The notifications and probes among up to three actions, one action at a
/// time from the front.
proof fn lemma_texts_of_short_traces(a: ActionView, b: ActionView, c: ActionView)
    ensures
        notify_texts(seq![a]) == notify_texts(seq![a] + Seq::<ActionView>::empty()),
        notify_texts(seq![a, b]) == notify_texts(seq![a] + seq![b]),
        notify_texts(seq![a, b, c]) == notify_texts(seq![a] + seq![b, c]),
        check_urls(seq![a]) == check_urls(seq![a] + Seq::<ActionView>::empty()),
        check_urls(seq![a, b]) == check_urls(seq![a] + seq![b]),
        check_urls(seq![a, b, c]) == check_urls(seq![a] + seq![b, c]),
{
    assert(seq![a] =~= seq![a] + Seq::<ActionView>::empty());
    assert(seq![a, b] =~= seq![a] + seq![b]);
    assert(seq![a, b, c] =~= seq![a] + seq![b, c]);
}

/// Every invocation, finished or not, has one of the five shapes.
pub proof fn law_invocation_has_a_shape(trigger: TriggerEventView, events: Seq<EventView>)
    requires
        invocation(trigger, events) is Some,
    ensures
        invocation(trigger, events) matches Some(end) && shape(trigger, events, end.0, end.1),
{
    let (state, first) = begin(trigger);
    match read_trigger(trigger) {
        Err(error) => {
            lemma_terminal_awaits_nothing(state, events);
            assert(seq![first] + Seq::<ActionView>::empty() =~= seq![first]);
        },
        Ok(url) => {
            if events.len() == 0 {
                assert(seq![first] + Seq::<ActionView>::empty() =~= seq![first]);
            } else {
                let (after, action) = next(state, events[0])->Some_0;
                let outcome = events[0]->Probed_outcome;
                let rest = events.drop_first();
                match outcome {
                    OutcomeView::ServerFailure { status, body } => {
                        if rest.len() == 0 {
                            assert(seq![first] + (seq![action] + Seq::<ActionView>::empty())
                                =~= seq![first, action]);
                        } else {
                            lemma_run_while_notifying(outcome, rest);
                            assert(events[1] == rest[0]);
                            assert(seq![first] + (seq![action] + seq![ActionView::Succeed])
                                =~= seq![first, action, ActionView::Succeed]);
                        }
                    },
                    _ => {
                        lemma_terminal_awaits_nothing(after, rest);
                        assert(seq![first] + (seq![action] + Seq::<ActionView>::empty())
                            =~= seq![first, action]);
                    },
                }
            }
        },
    }
}

/// In every invocation the notifier is called at most once, and in a finished
/// one exactly once when the outcome is a server failure and never otherwise.
/// The text it is called with is the body that the outcome captured.
pub proof fn law_notified_once_iff_server_failure(
    trigger: TriggerEventView,
    events: Seq<EventView>,
)
    requires
        invocation(trigger, events) is Some,
    ensures
        invocation(trigger, events) matches Some(end) && {
            &&& notify_texts(end.1).len() <= 1
            &&& end.0 matches InvocationView::Done { outcome, notification } ==> {
                &&& outcome matches OutcomeView::ServerFailure { status, body } ==> notify_texts(
                    end.1,
                ) == seq![body]
                &&& !(outcome is ServerFailure) ==> notify_texts(end.1).len() == 0
                &&& (notify_texts(end.1).len() == 1) == outcome.alertable()
            }
            &&& end.0 is Failed ==> notify_texts(end.1).len() == 0
        },
{
    law_invocation_has_a_shape(trigger, events);
    let (last, actions) = invocation(trigger, events)->Some_0;
    lemma_notify_texts_of_shape(trigger, events, last, actions);
}

proof fn lemma_notify_texts_of_shape(
    trigger: TriggerEventView,
    events: Seq<EventView>,
    last: InvocationView,
    actions: Seq<ActionView>,
)
    requires
        shape(trigger, events, last, actions),
    ensures
        notify_texts(actions) == match last {
            InvocationView::Notifying { outcome } => seq![outcome->body],
            InvocationView::Done { outcome, .. } => if outcome is ServerFailure {
                seq![outcome->body]
            } else {
                Seq::empty()
            },
            _ => Seq::empty(),
        },
{
    let none = Seq::<ActionView>::empty();
    let (a, b, c) = (actions[0], actions[1], actions[2]);
    lemma_texts_of_short_traces(a, b, c);
    lemma_texts_of_short_traces(b, c, c);
    lemma_texts_of_short_traces(c, c, c);
    lemma_notify_texts_cons(a, none);
    lemma_notify_texts_cons(a, seq![b]);
    lemma_notify_texts_cons(a, seq![b, c]);
    lemma_notify_texts_cons(b, none);
    lemma_notify_texts_cons(b, seq![c]);
    lemma_notify_texts_cons(c, none);
    if actions.len() == 1 {
        assert(actions =~= seq![a]);
    } else if actions.len() == 2 {
        assert(actions =~= seq![a, b]);
    } else {
        assert(actions =~= seq![a, b, c]);
    }
    if let ActionView::Notify { text } = b {
        assert(seq![text] + Seq::<Seq<char>>::empty() =~= seq![text]);
    }
}

proof fn lemma_check_urls_of_shape(
    trigger: TriggerEventView,
    events: Seq<EventView>,
    last: InvocationView,
    actions: Seq<ActionView>,
)
    requires
        shape(trigger, events, last, actions),
    ensures
        check_urls(actions) == match read_trigger(trigger) {
            Ok(url) => seq![url],
            Err(_) => Seq::empty(),
        },
{
    let none = Seq::<ActionView>::empty();
    let (a, b, c) = (actions[0], actions[1], actions[2]);
    lemma_texts_of_short_traces(a, b, c);
    lemma_texts_of_short_traces(b, c, c);
    lemma_texts_of_short_traces(c, c, c);
    lemma_check_urls_cons(a, none);
    lemma_check_urls_cons(a, seq![b]);
    lemma_check_urls_cons(a, seq![b, c]);
    lemma_check_urls_cons(b, none);
    lemma_check_urls_cons(b, seq![c]);
    lemma_check_urls_cons(c, none);
    if actions.len() == 1 {
        assert(actions =~= seq![a]);
    } else if actions.len() == 2 {
        assert(actions =~= seq![a, b]);
    } else {
        assert(actions =~= seq![a, b, c]);
    }
    if let Ok(url) = read_trigger(trigger) {
        assert(seq![url] + Seq::<Seq<char>>::empty() =~= seq![url]);
    }
}

/// A request is probed exactly once, from the first moment of its invocation
/// on, and a trigger that gives no request is never probed.
pub proof fn law_probed_once_per_request(trigger: TriggerEventView, events: Seq<EventView>)
    requires
        invocation(trigger, events) is Some,
    ensures
        invocation(trigger, events) matches Some(end) && check_urls(end.1) == match read_trigger(
            trigger,
        ) {
            Ok(url) => seq![url],
            Err(_) => Seq::empty(),
        },
{
    law_invocation_has_a_shape(trigger, events);
    let (last, actions) = invocation(trigger, events)->Some_0;
    lemma_check_urls_of_shape(trigger, events, last, actions);
}

/// A trigger that lacks its `detail` or its `url` gives no request: it begins
/// in failure, with the failure as its one action.
pub proof fn law_missing_url_is_malformed(trigger: TriggerEventView)
    requires
        trigger.detail matches Some(detail) ==> detail.url is None,
    ensures
        read_trigger(trigger) == Err::<Seq<char>, MalformedRequest>(
            if trigger.detail is None {
                MalformedRequest::MissingDetail
            } else {
                MalformedRequest::MissingUrl
            },
        ),
        begin(trigger).0 is Failed,
        begin(trigger).1 is Fail,
{
}

/// A trigger without a usable URL fails its invocation before anything is
/// sent: the one action is the failure, no event is awaited after it, and
/// neither a probe nor a notification is ever asked for.
pub proof fn law_malformed_trigger_sends_nothing(
    trigger: TriggerEventView,
    events: Seq<EventView>,
)
    requires
        read_trigger(trigger) is Err,
        invocation(trigger, events) is Some,
    ensures
        events.len() == 0,
        invocation(trigger, events) matches Some(end) && {
            &&& end.0 == InvocationView::Failed { error: read_trigger(trigger)->Err_0 }
            &&& end.1 == seq![ActionView::Fail { error: read_trigger(trigger)->Err_0 }]
            &&& check_urls(end.1).len() == 0
            &&& notify_texts(end.1).len() == 0
        },
{
    law_invocation_has_a_shape(trigger, events);
    law_probed_once_per_request(trigger, events);
    law_notified_once_iff_server_failure(trigger, events);
}

/// A probe that gets no response is a transport failure, and the invocation
/// it belongs to ends in success with no notification.
pub proof fn law_unanswered_probe_ends_in_success(trigger: TriggerEventView, cause: Seq<char>)
    requires
        read_trigger(trigger) is Ok,
    ensures
        outcome_of(ReplyView::NoResponse { cause }) == (OutcomeView::TransportFailure { cause }),
        invocation(
            trigger,
            seq![EventView::Probed { outcome: outcome_of(ReplyView::NoResponse { cause }) }],
        ) == Some(
            (
                InvocationView::Done {
                    outcome: OutcomeView::TransportFailure { cause },
                    notification: NotificationView::NotNeeded,
                },
                seq![ActionView::Check { url: read_trigger(trigger)->Ok_0 }, ActionView::Succeed],
            ),
        ),
{
    let outcome = OutcomeView::TransportFailure { cause };
    let events = seq![EventView::Probed { outcome }];
    assert(events.drop_first() =~= Seq::<EventView>::empty());
    reveal_with_fuel(run, 2);
    assert(invocation(trigger, events) is Some);
    law_invocation_has_a_shape(trigger, events);
}

/// The text that the notifier is called with for a server failure is the
/// response's body, whole and unchanged, and the empty text where the body
/// could not be read. Under a complete configuration the post carries that
/// same text in its `text` field.
pub proof fn law_alert_text_is_the_body(
    url: Seq<char>,
    status: u16,
    body: Option<Seq<char>>,
    config: ConfigView,
)
    requires
        is_server_error(status),
    ensures
        body matches Some(text) ==> captured(body) == text,
        body is None ==> captured(body).len() == 0,
        next(
            InvocationView::Received { url },
            EventView::Probed { outcome: outcome_of(ReplyView::Response { status, body }) },
        ) == Some(
            (
                InvocationView::Notifying {
                    outcome: OutcomeView::ServerFailure { status, body: captured(body) },
                },
                ActionView::Notify { text: captured(body) },
            ),
        ),
        config.token is Some && config.channel is Some ==> (prepared(config, captured(body))
            matches Ok(post) && post.fields.len() == 3 && post.fields[2] == (
            "text"@,
            captured(body),
        )),
{
}

/// Every state that an invocation reaches is well formed.
pub proof fn law_states_are_well_formed(trigger: TriggerEventView, events: Seq<EventView>)
    requires
        invocation(trigger, events) is Some,
    ensures
        invocation(trigger, events) matches Some(end) && end.0.wf(),
{
    law_invocation_has_a_shape(trigger, events);
}

/// A finished invocation reports success exactly when its trigger gave a
/// request, whatever the probe found and whatever became of the notification;
/// otherwise it reports the trigger's fault.
pub proof fn law_success_unless_malformed(trigger: TriggerEventView, events: Seq<EventView>)
    requires
        invocation(trigger, events) matches Some(end) && end.0.terminal(),
    ensures
        invocation(trigger, events) matches Some(end) && end.1.last() == match read_trigger(
            trigger,
        ) {
            Ok(_) => ActionView::Succeed,
            Err(error) => ActionView::Fail { error },
        },
{
    law_invocation_has_a_shape(trigger, events);
}

} // verus!
