//! What holds of every transfer and of every drain, proved of the model that
//! the executable code is proved against.

use vstd::prelude::*;
use crate::domain::{AccountOperation, AccountView, TransferErrorKind};
use crate::model::{
    advance, completes, drain, events_of, fails_on_destination, fails_on_source, keyed,
    leg_applied, settle, total_balance, within_range, Drained, TransferRequest, TransferStateView,
};

verus! {

/// Two steps end every transfer, and they end it in exactly one of three
/// ways: completed, failed on the source leg, failed on the destination leg.
pub proof fn lemma_settle_ends(ledger: Map<u64, AccountView>, request: TransferRequest)
    ensures
        settle(ledger, request).state.is_terminal(),
        settle(ledger, request).state is Completed <==> completes(ledger, request),
        advance(ledger, request, TransferStateView::Pending).state is Failed <==> fails_on_source(
            ledger,
            request,
        ),
        advance(ledger, request, TransferStateView::Pending).state is SourceDebited
            && settle(ledger, request).state is Failed <==> fails_on_destination(ledger, request),
{
}

/// The record of a completed transfer is tied to the change that the
/// transfer made: the balance after plus the amount is the balance that the
/// source had before, the balance after less the amount is the balance that
/// the destination had when its leg began, and the ledger holds the
/// destination's balance after. The amount is positive.
pub proof fn lemma_completed_record(ledger: Map<u64, AccountView>, request: TransferRequest)
    requires
        settle(ledger, request).state is Completed,
    ensures
        ({
            let record = settle(ledger, request).state->record;
            let debited = advance(ledger, request, TransferStateView::Pending).ledger;
            let after = settle(ledger, request).ledger;
            &&& record.amount == request.amount
            &&& record.amount > 0
            &&& record.source_account_id == request.source_account_id
            &&& record.destination_account_id == request.destination_account_id
            &&& record.source_balance_after + record.amount
                == ledger[request.source_account_id].balance
            &&& record.source_balance_after == ledger[request.source_account_id].balance
                - record.amount
            &&& record.source_balance_after == debited[request.source_account_id].balance
            &&& record.destination_balance_after - record.amount
                == debited[request.destination_account_id].balance
            &&& record.destination_balance_after == after[request.destination_account_id].balance
            &&& request.source_account_id != request.destination_account_id ==> {
                &&& record.destination_balance_after - record.amount
                    == ledger[request.destination_account_id].balance
                &&& record.source_balance_after == after[request.source_account_id].balance
            }
        }),
{
}

/// Where the balances of the ledger fit the machine's range, so do both
/// balances before that the record of a completed transfer implies.
pub proof fn lemma_completed_record_representable(
    ledger: Map<u64, AccountView>,
    request: TransferRequest,
)
    requires
        within_range(ledger),
        settle(ledger, request).state is Completed,
    ensures
        settle(ledger, request).state->record.representable(),
{
}

/// A transfer never opens or closes an account, renumbers one, or leaves a
/// lock other than it found it; and balances that fit the machine's range
/// still do afterwards.
pub proof fn lemma_settle_preserves_accounts(ledger: Map<u64, AccountView>, request: TransferRequest)
    ensures
        settle(ledger, request).ledger.dom() == ledger.dom(),
        forall|id: u64| #[trigger]
            ledger.contains_key(id) ==> {
                &&& settle(ledger, request).ledger[id].id == ledger[id].id
                &&& settle(ledger, request).ledger[id].locked == ledger[id].locked
            },
        forall|id: u64| #[trigger]
            ledger.contains_key(id) && id != request.source_account_id && id
                != request.destination_account_id ==> settle(ledger, request).ledger[id]
                == ledger[id],
        keyed(ledger) ==> keyed(settle(ledger, request).ledger),
        within_range(ledger) ==> within_range(settle(ledger, request).ledger),
{
    let debited = advance(ledger, request, TransferStateView::Pending);
    assert(debited.ledger.dom() =~= ledger.dom());
    assert(settle(ledger, request).ledger.dom() =~= ledger.dom());
}

/// A transfer that fails on its source leg changes nothing. An unknown source
/// is such a failure, whatever else is wrong with the request.
pub proof fn lemma_source_failure_changes_nothing(
    ledger: Map<u64, AccountView>,
    request: TransferRequest,
)
    requires
        fails_on_source(ledger, request),
    ensures
        settle(ledger, request).ledger == ledger,
        settle(ledger, request).state is Failed,
        settle(ledger, request).state->error.account_id == request.source_account_id,
        !ledger.contains_key(request.source_account_id) ==> settle(
            ledger,
            request,
        ).state->error.kind == TransferErrorKind::AccountNotFound,
{
}

/// A transfer that fails on its destination leg leaves the source debited
/// and nothing else changed: the failure is partial, and nothing is rolled
/// back. An unknown destination is such a failure wherever the source leg
/// can be applied.
pub proof fn lemma_destination_failure_keeps_debit(
    ledger: Map<u64, AccountView>,
    request: TransferRequest,
)
    requires
        fails_on_destination(ledger, request),
    ensures
        settle(ledger, request).ledger == leg_applied(
            ledger,
            AccountOperation::Withdrawal,
            request.source_account_id,
            request.amount,
        ),
        settle(ledger, request).ledger[request.source_account_id].balance
            == ledger[request.source_account_id].balance - request.amount,
        settle(ledger, request).state is Failed,
        settle(ledger, request).state->error.account_id == request.destination_account_id,
        !ledger.contains_key(request.destination_account_id) ==> settle(
            ledger,
            request,
        ).state->error.kind == TransferErrorKind::AccountNotFound,
{
    let debited = advance(ledger, request, TransferStateView::Pending);
    assert(debited.ledger.dom() =~= ledger.dom());
}

/// A transfer of an amount that is not positive fails and changes nothing.
pub proof fn lemma_amount_not_positive_changes_nothing(
    ledger: Map<u64, AccountView>,
    request: TransferRequest,
)
    requires
        request.amount <= 0,
    ensures
        settle(ledger, request).ledger == ledger,
        settle(ledger, request).state is Failed,
        ledger.contains_key(request.source_account_id) ==> settle(
            ledger,
            request,
        ).state->error.kind == TransferErrorKind::InvalidAmount,
{
}

/// A completed transfer from an account to itself leaves the ledger as it
/// was: the two legs cancel.
pub proof fn lemma_self_transfer_restores(ledger: Map<u64, AccountView>, request: TransferRequest)
    requires
        request.source_account_id == request.destination_account_id,
        settle(ledger, request).state is Completed,
    ensures
        settle(ledger, request).ledger == ledger,
{
    assert(settle(ledger, request).ledger =~= ledger);
}

/// The total of a ledger is the balance of any one account plus the total of
/// the others.
pub proof fn lemma_total_balance_split(ledger: Map<u64, AccountView>, account_id: u64)
    requires
        ledger.dom().finite(),
        ledger.contains_key(account_id),
    ensures
        total_balance(ledger) == ledger[account_id].balance + total_balance(
            ledger.remove(account_id),
        ),
    decreases ledger.dom().len(),
{
    let chosen = ledger.dom().choose();
    if chosen != account_id {
        let without_chosen = ledger.remove(chosen);
        let without_account = ledger.remove(account_id);
        lemma_total_balance_split(without_chosen, account_id);
        lemma_total_balance_split(without_account, chosen);
        assert(without_chosen.remove(account_id) =~= without_account.remove(chosen));
    }
}

/// Replacing one account moves the total by the difference of the balances.
pub proof fn lemma_total_balance_insert(
    ledger: Map<u64, AccountView>,
    account_id: u64,
    account: AccountView,
)
    requires
        ledger.dom().finite(),
        ledger.contains_key(account_id),
    ensures
        total_balance(ledger.insert(account_id, account)) == total_balance(ledger)
            - ledger[account_id].balance + account.balance,
{
    lemma_total_balance_split(ledger, account_id);
    lemma_total_balance_split(ledger.insert(account_id, account), account_id);
    assert(ledger.insert(account_id, account).remove(account_id) =~= ledger.remove(account_id));
}

/// A completed transfer conserves the sum of all balances.
pub proof fn lemma_completed_transfer_conserves_total(
    ledger: Map<u64, AccountView>,
    request: TransferRequest,
)
    requires
        ledger.dom().finite(),
        settle(ledger, request).state is Completed,
    ensures
        total_balance(settle(ledger, request).ledger) == total_balance(ledger),
{
    let source = request.source_account_id;
    let destination = request.destination_account_id;
    let debited = advance(ledger, request, TransferStateView::Pending).ledger;
    lemma_total_balance_insert(ledger, source, debited[source]);
    assert(debited.dom() =~= ledger.dom());
    lemma_total_balance_insert(debited, destination, settle(ledger, request).ledger[destination]);
}

/// A transfer that fails on its destination leg takes its amount out of the
/// sum of all balances: the sum is conserved by completed transfers only.
pub proof fn lemma_destination_failure_loses_amount(
    ledger: Map<u64, AccountView>,
    request: TransferRequest,
)
    requires
        ledger.dom().finite(),
        fails_on_destination(ledger, request),
    ensures
        total_balance(settle(ledger, request).ledger) == total_balance(ledger) - request.amount,
{
    let source = request.source_account_id;
    let debited = advance(ledger, request, TransferStateView::Pending).ledger;
    lemma_total_balance_insert(ledger, source, debited[source]);
}

/// Draining one queue and then another is draining the two joined: the
/// second starts on the ledger that the first leaves, and its events follow
/// those of the first.
pub proof fn lemma_drain_concat(
    ledger: Map<u64, AccountView>,
    first: Seq<TransferRequest>,
    second: Seq<TransferRequest>,
)
    ensures
        drain(ledger, first + second) == (Drained {
            ledger: drain(drain(ledger, first).ledger, second).ledger,
            events: drain(ledger, first).events + drain(drain(ledger, first).ledger, second).events,
        }),
    decreases first.len(),
{
    if first.len() == 0 {
        assert(first + second =~= second);
        assert(drain(ledger, first).events + drain(ledger, second).events =~= drain(
            ledger,
            second,
        ).events);
    } else {
        let head = settle(ledger, first.first());
        let joined = first + second;
        assert(joined.first() == first.first());
        assert(joined.drop_first() =~= first.drop_first() + second);
        lemma_drain_concat(head.ledger, first.drop_first(), second);
        let rest = drain(head.ledger, first.drop_first());
        let tail = drain(rest.ledger, second);
        assert(events_of(first.first(), head.state) + (rest.events + tail.events) =~= (events_of(
            first.first(),
            head.state,
        ) + rest.events) + tail.events);
    }
}

/// Draining a queue of one request is settling that request.
pub proof fn lemma_drain_one(ledger: Map<u64, AccountView>, request: TransferRequest)
    ensures
        drain(ledger, seq![request]) == (Drained {
            ledger: settle(ledger, request).ledger,
            events: events_of(request, settle(ledger, request).state),
        }),
{
    let queue = seq![request];
    assert(queue.first() == request);
    assert(queue.drop_first() =~= Seq::<TransferRequest>::empty());
    let head = settle(ledger, request);
    assert(drain(head.ledger, queue.drop_first()).events =~= Seq::empty());
    assert(drain(head.ledger, queue.drop_first()).ledger == head.ledger);
    assert(events_of(request, head.state) + Seq::empty() =~= events_of(request, head.state));
}

/// Two requests queued in the order `first`, `second` are applied in that
/// order: `second` is settled on the ledger that `first` leaves, also where
/// both touch the same account, and the events of `first` come before those
/// of `second`.
pub proof fn lemma_drain_in_order(
    ledger: Map<u64, AccountView>,
    first: TransferRequest,
    second: TransferRequest,
)
    ensures
        drain(ledger, seq![first, second]) == (Drained {
            ledger: settle(settle(ledger, first).ledger, second).ledger,
            events: events_of(first, settle(ledger, first).state) + events_of(
                second,
                settle(settle(ledger, first).ledger, second).state,
            ),
        }),
{
    assert(seq![first, second] =~= seq![first] + seq![second]);
    lemma_drain_concat(ledger, seq![first], seq![second]);
    lemma_drain_one(ledger, first);
    lemma_drain_one(settle(ledger, first).ledger, second);
}

/// Queueing a request behind a queue and draining is draining the queue and
/// then settling the request.
pub proof fn lemma_drain_push(
    ledger: Map<u64, AccountView>,
    queue: Seq<TransferRequest>,
    request: TransferRequest,
)
    ensures
        drain(ledger, queue.push(request)) == (Drained {
            ledger: settle(drain(ledger, queue).ledger, request).ledger,
            events: drain(ledger, queue).events + events_of(
                request,
                settle(drain(ledger, queue).ledger, request).state,
            ),
        }),
{
    assert(queue.push(request) =~= queue + seq![request]);
    lemma_drain_concat(ledger, queue, seq![request]);
    lemma_drain_one(drain(ledger, queue).ledger, request);
}

/// A drain never opens or closes an account, renumbers one, or leaves a lock
/// other than it found it.
pub proof fn lemma_drain_preserves_accounts(
    ledger: Map<u64, AccountView>,
    queue: Seq<TransferRequest>,
)
    ensures
        drain(ledger, queue).ledger.dom() == ledger.dom(),
        forall|id: u64| #[trigger]
            ledger.contains_key(id) ==> {
                &&& drain(ledger, queue).ledger[id].id == ledger[id].id
                &&& drain(ledger, queue).ledger[id].locked == ledger[id].locked
            },
        keyed(ledger) ==> keyed(drain(ledger, queue).ledger),
        within_range(ledger) ==> within_range(drain(ledger, queue).ledger),
    decreases queue.len(),
{
    if queue.len() > 0 {
        let head = settle(ledger, queue.first());
        lemma_settle_preserves_accounts(ledger, queue.first());
        lemma_drain_preserves_accounts(head.ledger, queue.drop_first());
    }
}

} // verus!
