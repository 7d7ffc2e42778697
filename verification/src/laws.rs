//! What holds of every run of the polling loop.

use crate::error::{FetchErrorView, Missing};
use crate::extract::{operation_in_row, operation_in_selection, CellLayout, RowTexts};
use crate::monitor::{
    deliver, deliveries_in, failed_deliveries, failed_fetches, initial_state, poll, state_after,
    steps_after, transition, EventView, FailureView, MonitorView, StepView, TaskView,
    DELIVERY_RETRY_SECS,
};
use crate::notify::{
    amount_offset, balance_offset, lemma_notification_keeps_texts, notification_text,
};
use crate::snapshot::BinanceInfoView;
use vstd::prelude::*;

verus! {

/// A run of events can be taken in two parts: the second part starts from
/// the state that the first part left.
pub proof fn lemma_run_in_two_parts(
    state: MonitorView,
    first: Seq<EventView>,
    second: Seq<EventView>,
)
    ensures
        state_after(state, first + second) == state_after(state_after(state, first), second),
        steps_after(state, first + second) == steps_after(state, first) + steps_after(
            state_after(state, first),
            second,
        ),
    decreases second.len(),
{
    if second.len() == 0 {
        assert(first + second =~= first);
        assert(steps_after(state, first) + Seq::<StepView>::empty() =~= steps_after(state, first));
    } else {
        assert((first + second).drop_last() =~= first + second.drop_last());
        assert((first + second).last() == second.last());
        lemma_run_in_two_parts(state, first, second.drop_last());
        let middle = state_after(state, first);
        let answer = transition(state_after(middle, second.drop_last()), second.last()).1;
        assert((steps_after(state, first) + steps_after(middle, second.drop_last())).push(answer)
            =~= steps_after(state, first) + steps_after(middle, second.drop_last()).push(answer));
    }
}

/// The steps that answer a single event.
pub proof fn lemma_run_of_one(state: MonitorView, event: EventView)
    ensures
        state_after(state, seq![event]) == transition(state, event).0,
        steps_after(state, seq![event]) == seq![transition(state, event).1],
{
    let none = Seq::<EventView>::empty();
    assert(seq![event].drop_last() =~= none);
    assert(seq![event].last() == event);
    assert(state_after(state, none) == state);
    assert(steps_after(state, none) =~= Seq::<StepView>::empty());
    assert(state_after(state, seq![event]) == transition(
        state_after(state, seq![event].drop_last()),
        seq![event].last(),
    ).0);
    assert(steps_after(state, seq![event]) =~= seq![transition(state, event).1]);
}

/// Counting deliveries over two runs of steps adds up.
pub proof fn lemma_deliveries_add_up(first: Seq<StepView>, second: Seq<StepView>)
    ensures
        deliveries_in(first + second) == deliveries_in(first) + deliveries_in(second),
    decreases second.len(),
{
    if second.len() == 0 {
        assert(first + second =~= first);
    } else {
        assert((first + second).drop_last() =~= first + second.drop_last());
        lemma_deliveries_add_up(first, second.drop_last());
    }
}

/// Two fetches in a row that show the same operation: once the first is
/// dealt with, be it as the baseline, as nothing new or by a delivered
/// notification, the second asks for no delivery and leaves the state as it
/// was.
pub proof fn lemma_same_operation_again_changes_nothing(
    state: MonitorView,
    latest: BinanceInfoView,
)
    requires
        state.pending is None,
    ensures
        ({
            let seen = EventView::Fetched(Ok(latest));
            let first = transition(state, seen).0;
            let settled = if first.pending is Some {
                transition(first, EventView::Delivered).0
            } else {
                first
            };
            &&& settled == MonitorView { last_reported: Some(latest), pending: None }
            &&& transition(settled, seen) == (settled, poll(None))
            &&& transition(settled, seen).1.task == TaskView::Fetch
        }),
{
}

/// The first operation that is fetched after the start is never announced,
/// whatever it holds and however many fetches failed before it: every step
/// up to and including the one that answers it asks for a fetch, and the
/// operation becomes the last reported one.
pub proof fn lemma_first_operation_is_baseline(
    errors: Seq<FetchErrorView>,
    first: BinanceInfoView,
)
    ensures
        ({
            let events = failed_fetches(errors).push(EventView::Fetched(Ok(first)));
            let steps = steps_after(initial_state(), events);
            &&& steps.len() == errors.len() + 1
            &&& forall|i: int|
                0 <= i < steps.len() ==> (#[trigger] steps[i]).task == TaskView::Fetch
            &&& deliveries_in(steps) == 0
            &&& state_after(initial_state(), events) == MonitorView {
                last_reported: Some(first),
                pending: None,
            }
        }),
{
    let failures = failed_fetches(errors);
    let events = failures.push(EventView::Fetched(Ok(first)));
    lemma_failed_fetches_change_nothing(initial_state(), errors);
    assert(events.drop_last() =~= failures);
    assert(events.last() == EventView::Fetched(Ok(first)));
    let steps = steps_after(initial_state(), events);
    assert(steps =~= steps_after(initial_state(), failures).push(poll(None)));
    assert(steps.drop_last() =~= steps_after(initial_state(), failures));
    assert(steps.last() == poll(None));
    assert forall|i: int| 0 <= i < steps.len() implies (#[trigger] steps[i]).task
        == TaskView::Fetch by {
        if i < errors.len() {
            assert(steps[i] == steps_after(initial_state(), failures)[i]);
        }
    }
}

/// Fetches that fail while nothing is pending leave the state as it is. Each
/// is answered by a step that reports the failure and asks for another fetch
/// after the polling interval.
pub proof fn lemma_failed_fetches_change_nothing(state: MonitorView, errors: Seq<FetchErrorView>)
    requires
        state.pending is None,
    ensures
        state_after(state, failed_fetches(errors)) == state,
        steps_after(state, failed_fetches(errors)) == Seq::new(
            errors.len(),
            |i: int| poll(Some(FailureView::Fetch(errors[i]))),
        ),
        deliveries_in(steps_after(state, failed_fetches(errors))) == 0,
    decreases errors.len(),
{
    let events = failed_fetches(errors);
    let answers = Seq::new(errors.len(), |i: int| poll(Some(FailureView::Fetch(errors[i]))));
    if errors.len() == 0 {
        assert(steps_after(state, events) =~= answers);
    } else {
        lemma_failed_fetches_change_nothing(state, errors.drop_last());
        assert(events.drop_last() =~= failed_fetches(errors.drop_last()));
        assert(events.last() == EventView::Fetched(Err(errors.last())));
        assert(steps_after(state, events) =~= answers);
        assert(steps_after(state, events).drop_last() =~= steps_after(state, events.drop_last()));
    }
}

/// A page without a transaction row is a failed fetch like any other: the
/// extraction names the missing row, the loop reports it and polls again
/// after the polling interval, and the last reported operation stays.
pub proof fn lemma_missing_row_is_polled_again(state: MonitorView, layout: CellLayout)
    requires
        state.pending is None,
    ensures
        ({
            let outcome = operation_in_selection(Some(Seq::<RowTexts>::empty()), layout);
            let missing = FetchErrorView::Structure(Missing::Row);
            &&& outcome == Err::<BinanceInfoView, FetchErrorView>(missing)
            &&& transition(state, EventView::Fetched(outcome)) == (
                state,
                poll(Some(FailureView::Fetch(missing))),
            )
        }),
{
}

/// Deliveries that are refused while an operation is pending leave the
/// state as it is. Each is answered by a step that reports the refusal and
/// asks for the same message again after the retry delay.
pub proof fn lemma_refused_deliveries_change_nothing(state: MonitorView, causes: Seq<Seq<char>>)
    requires
        state.pending is Some,
    ensures
        state_after(state, failed_deliveries(causes)) == state,
        steps_after(state, failed_deliveries(causes)) == Seq::new(
            causes.len(),
            |i: int|
                deliver(
                    state.pending->0,
                    DELIVERY_RETRY_SECS,
                    Some(FailureView::Delivery(causes[i])),
                ),
        ),
        deliveries_in(steps_after(state, failed_deliveries(causes))) == causes.len(),
    decreases causes.len(),
{
    let events = failed_deliveries(causes);
    let answers = Seq::new(
        causes.len(),
        |i: int|
            deliver(state.pending->0, DELIVERY_RETRY_SECS, Some(FailureView::Delivery(causes[i]))),
    );
    if causes.len() == 0 {
        assert(steps_after(state, events) =~= answers);
    } else {
        lemma_refused_deliveries_change_nothing(state, causes.drop_last());
        assert(events.drop_last() =~= failed_deliveries(causes.drop_last()));
        assert(events.last() == EventView::DeliveryFailed(causes.last()));
        assert(steps_after(state, events) =~= answers);
        assert(steps_after(state, events).drop_last() =~= steps_after(state, events.drop_last()));
    }
}

/// A new operation whose delivery is refused `causes.len()` times before it
/// is accepted: the message is asked for once at once and once more after
/// each refusal, always the same text and from the second time on after the
/// retry delay; the last reported operation stays what it was until the
/// message is accepted, and is the new operation from then on.
pub proof fn lemma_delivery_is_retried_until_accepted(
    state: MonitorView,
    fresh: BinanceInfoView,
    causes: Seq<Seq<char>>,
)
    requires
        state.pending is None,
        state.last_reported is Some,
        state.last_reported != Some(fresh),
    ensures
        ({
            let seen = seq![EventView::Fetched(Ok(fresh))];
            let events = seen + failed_deliveries(causes) + seq![EventView::Delivered];
            let steps = steps_after(state, events);
            let delivering = MonitorView {
                last_reported: state.last_reported,
                pending: Some(fresh),
            };
            &&& steps == seq![deliver(fresh, 0, None)] + Seq::new(
                causes.len(),
                |i: int|
                    deliver(fresh, DELIVERY_RETRY_SECS, Some(FailureView::Delivery(causes[i]))),
            ) + seq![poll(None)]
            &&& deliveries_in(steps) == causes.len() + 1
            &&& forall|k: int|
                0 <= k <= causes.len() ==> #[trigger] state_after(
                    state,
                    seen + failed_deliveries(causes.take(k)),
                ) == delivering
            &&& state_after(state, events) == MonitorView {
                last_reported: Some(fresh),
                pending: None,
            }
        }),
{
    let seen = seq![EventView::Fetched(Ok(fresh))];
    let refused = failed_deliveries(causes);
    let accepted = seq![EventView::Delivered];
    let delivering = MonitorView { last_reported: state.last_reported, pending: Some(fresh) };
    lemma_run_of_one(state, EventView::Fetched(Ok(fresh)));
    lemma_refused_deliveries_change_nothing(delivering, causes);
    lemma_run_of_one(delivering, EventView::Delivered);
    lemma_run_in_two_parts(state, seen, refused);
    lemma_run_in_two_parts(state, seen + refused, accepted);
    let steps = steps_after(state, seen + refused + accepted);
    lemma_deliveries_add_up(steps_after(state, seen), steps_after(delivering, refused));
    lemma_deliveries_add_up(steps_after(state, seen + refused), steps_after(delivering, accepted));
    assert(deliveries_in(seq![deliver(fresh, 0, None)]) == 1) by {
        reveal_with_fuel(deliveries_in, 2);
        assert(seq![deliver(fresh, 0, None)].drop_last() =~= Seq::<StepView>::empty());
    }
    assert(deliveries_in(seq![poll(None)]) == 0) by {
        reveal_with_fuel(deliveries_in, 2);
        assert(seq![poll(None)].drop_last() =~= Seq::<StepView>::empty());
    }
    assert forall|k: int| 0 <= k <= causes.len() implies #[trigger] state_after(
        state,
        seen + failed_deliveries(causes.take(k)),
    ) == delivering by {
        lemma_refused_deliveries_change_nothing(delivering, causes.take(k));
        lemma_run_in_two_parts(state, seen, failed_deliveries(causes.take(k)));
    }
}

/// What the row shows as transfer amount and as balance reaches the
/// notification unchanged: the operation holds the first text of each of the
/// two cells as it is, and so it does for the date; and the message holds
/// amount and balance character for character.
pub proof fn lemma_amount_and_balance_are_kept_verbatim(cells: RowTexts, layout: CellLayout)
    requires
        operation_in_row(cells, layout) is Ok,
    ensures
        ({
            let info = operation_in_row(cells, layout)->Ok_0;
            let text = notification_text(info);
            &&& cells[layout.transfer_amount as int][0] == info.transfer_amount
            &&& cells[layout.balance as int][0] == info.balance
            &&& cells[layout.block_creation_date as int][0] == info.block_creation_date
            &&& text.subrange(amount_offset(info), amount_offset(info) + info.transfer_amount.len())
                == info.transfer_amount
            &&& text.subrange(balance_offset(info), balance_offset(info) + info.balance.len())
                == info.balance
        }),
{
    lemma_notification_keeps_texts(operation_in_row(cells, layout)->Ok_0);
}

} // verus!
