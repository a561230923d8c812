//! What holds of the kernel as a whole, stated over its model and proved
//! from it.

use vstd::prelude::*;
use crate::action::{ActionView, DiagnosticView, Registers};
use crate::handle::{lookup, released};
use crate::session::{
    is_resolver, lemma_no_resolver, lemma_resolver_is_unique, Continuation, DeliveryView,
    ItemKind, ModuleView, RequestOutcomeView, SessionView,
};
use crate::trap::{
    acknowledgements, background_identifier, booted, dispatch, file_scheme, handling,
    idle_actions, scheme_modules, session_request, started, CASCADE_BASE, END_OF_INTERRUPT,
    IRQ_BASE, IRQ_END, PRIMARY_COMMAND, SECONDARY_COMMAND, SESSION_REQUEST, SYSTEM_CALL,
};
use crate::url::{is_scheme_end, lemma_scheme_end_is_unique, path_of, scheme_of};

verus! {

/// Whether `action` stands at position `at` of `actions` and nowhere else.
pub open spec fn occurs_once_at(actions: Seq<ActionView>, action: ActionView, at: int) -> bool {
    &&& 0 <= at < actions.len()
    &&& forall|i: int| 0 <= i < actions.len() ==> ((#[trigger] actions[i]) == action <==> i == at)
}

/// The acknowledgement to the primary interrupt controller.
pub open spec fn primary_acknowledgement() -> ActionView {
    ActionView::Out { port: PRIMARY_COMMAND, value: END_OF_INTERRUPT }
}

/// The acknowledgement to the secondary interrupt controller.
pub open spec fn secondary_acknowledgement() -> ActionView {
    ActionView::Out { port: SECONDARY_COMMAND, value: END_OF_INTERRUPT }
}

/// Every hardware interrupt is acknowledged to the primary controller exactly
/// once, after all handling. An interrupt that arrives through the cascade
/// is acknowledged to the secondary controller exactly once as well, right
/// before that; any other is not acknowledged to it at all.
pub proof fn lemma_acknowledged_once<C>(before: SessionView<C>, vector: u32, registers: Registers)
    requires
        IRQ_BASE <= vector < IRQ_END,
    ensures
        ({
            let actions = dispatch(before, vector, registers).actions;
            &&& actions == handling(before, vector, registers).actions + acknowledgements(vector)
            &&& occurs_once_at(actions, primary_acknowledgement(), actions.len() - 1)
            &&& vector >= CASCADE_BASE ==> occurs_once_at(
                actions,
                secondary_acknowledgement(),
                actions.len() - 2,
            )
            &&& vector < CASCADE_BASE ==> !actions.contains(secondary_acknowledgement())
        }),
{
    let handled = handling(before, vector, registers).actions;
    let actions = dispatch(before, vector, registers).actions;
    assert forall|i: int| 0 <= i < handled.len() implies !(#[trigger] handled[i] is Out) by {}
    assert forall|i: int| 0 <= i < actions.len() && i < handled.len() implies actions[i]
        == handled[i] by {}
}

/// A session request that names a continuation on offer and a published
/// identifier, made while an item has the focus and with a module registered
/// that owns the identifier's scheme, starts exactly one fetch: by the first
/// such module, with the identifier's path. The continuation waits under the
/// ticket of that fetch, together with the index of the focused item, and is
/// no longer on offer.
pub proof fn lemma_request_fetches_once<C>(
    before: SessionView<C>,
    registers: Registers,
    identifier: Seq<u8>,
    callback: C,
    module: int,
)
    requires
        registers.eax == SESSION_REQUEST,
        lookup(before.identifiers, registers.ebx as int) == Some(identifier),
        lookup(before.continuations, registers.ecx as int) == Some(callback),
        before.focused(),
        is_resolver(before.modules, identifier, module),
    ensures
        ({
            let outcome = dispatch(before, SYSTEM_CALL, registers);
            let ticket = before.pending.len() as int;
            &&& outcome.actions == seq![
                ActionView::Report(DiagnosticView::SessionRequest(identifier)),
                ActionView::Fetch {
                    module: module as usize,
                    ticket: ticket as usize,
                    path: path_of(identifier),
                },
            ]
            &&& outcome.discarded.is_none()
            &&& outcome.session.pending == before.pending.push(
                Some(Continuation::Forward { item: before.current_item as usize, callback }),
            )
            &&& lookup(outcome.session.continuations, registers.ecx as int).is_none()
        }),
{
    lemma_resolver_is_unique(before.modules, identifier, module);
    let outcome = dispatch(before, SYSTEM_CALL, registers);
    assert(outcome.actions =~= seq![
        ActionView::Report(DiagnosticView::SessionRequest(identifier)),
        ActionView::Fetch {
            module: module as usize,
            ticket: before.pending.len() as usize,
            path: path_of(identifier),
        },
    ]);
}

/// A session request whose identifier has a scheme that no registered module
/// owns starts no fetch and leaves no request in flight: the continuation is
/// handed back unused, so no response can ever reach it.
pub proof fn lemma_unresolved_request_fetches_nothing<C>(
    before: SessionView<C>,
    registers: Registers,
    identifier: Seq<u8>,
    callback: C,
)
    requires
        registers.eax == SESSION_REQUEST,
        lookup(before.identifiers, registers.ebx as int) == Some(identifier),
        lookup(before.continuations, registers.ecx as int) == Some(callback),
        before.focused(),
        forall|j: int|
            0 <= j < before.modules.len() ==> !(#[trigger] before.modules[j]).resolves(identifier),
    ensures
        ({
            let outcome = dispatch(before, SYSTEM_CALL, registers);
            &&& outcome.actions == seq![
                ActionView::Report(DiagnosticView::SessionRequest(identifier)),
            ]
            &&& outcome.discarded == Some(callback)
            &&& outcome.session.pending == before.pending
            &&& lookup(outcome.session.continuations, registers.ecx as int).is_none()
        }),
{
    lemma_no_resolver(before.modules, identifier);
    let outcome = dispatch(before, SYSTEM_CALL, registers);
    assert(outcome.actions =~= seq![
        ActionView::Report(DiagnosticView::SessionRequest(identifier)),
    ]);
}

/// Without a focused item a request asks nothing of any module and leaves
/// the session as it is; the continuation comes back unused.
pub proof fn lemma_unfocused_request_does_nothing<C>(
    before: SessionView<C>,
    identifier: Seq<u8>,
    continuation: Continuation<C>,
)
    requires
        !before.focused(),
    ensures
        before.request(identifier, continuation) == (
            before,
            RequestOutcomeView::Unfocused(continuation),
        ),
{
}

/// A system call made without a focused item starts no fetch and leaves no
/// request in flight, whatever it names.
pub proof fn lemma_unfocused_call_fetches_nothing<C>(before: SessionView<C>, registers: Registers)
    requires
        registers.eax == SESSION_REQUEST,
        !before.focused(),
    ensures
        ({
            let outcome = dispatch(before, SYSTEM_CALL, registers);
            &&& forall|i: int|
                0 <= i < outcome.actions.len() ==> !(#[trigger] outcome.actions[i] is Fetch)
            &&& outcome.session.pending == before.pending
        }),
{
}

/// A continuation crosses the trap boundary once. Whatever a first session
/// request did, a second one that names the same continuation finds it gone:
/// it is reported as stale, starts nothing and changes nothing.
pub proof fn lemma_continuation_is_reconstituted_once<C>(
    before: SessionView<C>,
    first: Registers,
    second: Registers,
)
    requires
        first.ecx == second.ecx,
    ensures
        ({
            let between = session_request(before, first).session;
            let outcome = session_request(between, second);
            &&& outcome.actions == seq![
                ActionView::Report(DiagnosticView::StaleContinuation(second.ecx)),
            ]
            &&& outcome.discarded.is_none()
            &&& outcome.session == between
        }),
{
    let between = session_request(before, first).session;
    assert(between.continuations == released(before.continuations, first.ecx as int));
    assert(released(before.continuations, first.ecx as int) =~= before.continuations ||
        lookup(before.continuations, first.ecx as int).is_some());
}

/// A response is delivered once. Whatever a first response under a ticket
/// led to, a second one under the same ticket finds no request in flight: it
/// is reported as unknown, reaches no callback and changes nothing.
pub proof fn lemma_response_is_delivered_once<C>(
    before: SessionView<C>,
    ticket: int,
    first: Seq<u8>,
    second: Seq<u8>,
)
    ensures
        ({
            let between = before.complete(ticket, first).0;
            between.complete(ticket, second) == (between, DeliveryView::<C>::Unknown)
        }),
{
}

/// A callback is invoked only through the delivery of a response to a request
/// that is in flight for a focused executor, and that delivery takes the
/// request out of flight.
pub proof fn lemma_invocation_needs_pending_request<C>(
    before: SessionView<C>,
    ticket: int,
    payload: Seq<u8>,
)
    requires
        before.complete(ticket, payload).1 is Invoke,
    ensures
        ({
            let (after, delivery) = before.complete(ticket, payload);
            &&& lookup(before.pending, ticket) == Some(
                Continuation::Forward { item: delivery->item, callback: delivery->callback },
            )
            &&& before.current_item == delivery->item
            &&& before.supports(delivery->item as int, ItemKind::Executor)
            &&& delivery->payload == payload
            &&& lookup(after.pending, ticket).is_none()
        }),
{
}

/// A response for an item that is no executor reaches no callback: the
/// callback comes back unused and the request is out of flight.
pub proof fn lemma_unsupported_item_is_not_invoked<C>(
    before: SessionView<C>,
    ticket: int,
    payload: Seq<u8>,
    item: usize,
    callback: C,
)
    requires
        lookup(before.pending, ticket) == Some(Continuation::Forward { item, callback }),
        before.current_item == item,
        !before.supports(item as int, ItemKind::Executor),
    ensures
        before.complete(ticket, payload).1 == DeliveryView::Unsupported(callback),
        lookup(before.complete(ticket, payload).0.pending, ticket).is_none(),
{
}

/// Each turn of the idle loop polls every module once, in the order of
/// registration, and then repaints, unmasks interrupts, waits and masks them
/// again, in this order and each once: nothing stands between the unmasking
/// and the wait, nor between the wait and the masking.
pub proof fn lemma_idle_order<C>(session: SessionView<C>)
    ensures
        ({
            let actions = idle_actions(session);
            let polls = session.modules.len() as int;
            &&& actions.len() == polls + 4
            &&& forall|i: int|
                0 <= i < polls ==> #[trigger] actions[i] == (ActionView::Poll {
                    module: i as usize,
                })
            &&& occurs_once_at(actions, ActionView::Redraw, polls)
            &&& occurs_once_at(actions, ActionView::EnableInterrupts, polls + 1)
            &&& occurs_once_at(actions, ActionView::Halt, polls + 2)
            &&& occurs_once_at(actions, ActionView::DisableInterrupts, polls + 3)
        }),
{
}

/// The bytes of `///background.bmp`, the path of the background image.
pub open spec fn background_path() -> Seq<u8> {
    seq![
        0x2Fu8, 0x2Fu8, 0x2Fu8, 0x62u8, 0x61u8, 0x63u8, 0x6Bu8, 0x67u8, 0x72u8, 0x6Fu8, 0x75u8,
        0x6Eu8, 0x64u8, 0x2Eu8, 0x62u8, 0x6Du8, 0x70u8,
    ]
}

/// The identifier of the background image has the scheme `file` and the path
/// `///background.bmp`.
pub proof fn lemma_background_identifier()
    ensures
        scheme_of(background_identifier()) == Some(file_scheme()),
        path_of(background_identifier()) == background_path(),
{
    let identifier = background_identifier();
    assert(identifier.len() == 22);
    assert(is_scheme_end(identifier, 4));
    lemma_scheme_end_is_unique(identifier, 4);
    assert(identifier.take(4) =~= file_scheme());
    assert(identifier.skip(5) =~= background_path());
}

/// A boot that finds no module on the bus ends with seven modules and with
/// one fetch started: the third module, the handler of `file`, is asked for
/// `///background.bmp`. When its response arrives, the background is replaced
/// by the response if that is not empty and stays as it is otherwise.
pub proof fn lemma_boot_requests_background<C>(payload: Seq<u8>)
    ensures
        ({
            let outcome = started(booted::<C>(), Seq::empty());
            let (after, delivery) = outcome.session.complete(0, payload);
            &&& outcome.session.modules == booted::<C>().modules + scheme_modules()
            &&& outcome.actions == seq![
                ActionView::Fetch { module: 2, ticket: 0, path: background_path() },
            ]
            &&& delivery == DeliveryView::<C>::Background { replaced: payload.len() > 0 }
            &&& after.background == if payload.len() > 0 {
                payload
            } else {
                outcome.session.background
            }
            &&& lookup(after.pending, 0).is_none()
        }),
{
    lemma_background_identifier();
    let modules = booted::<C>().modules + Seq::<ModuleView>::empty() + scheme_modules();
    assert(modules =~= booted::<C>().modules + scheme_modules());
    assert(modules.len() == 7);
    assert(modules[0].scheme.is_none());
    assert(modules[1].scheme.is_none());
    assert(modules[2].scheme == Some(file_scheme()));
    assert(is_resolver(modules, background_identifier(), 2));
    lemma_resolver_is_unique(modules, background_identifier(), 2);
    let outcome = started(booted::<C>(), Seq::empty());
    assert(outcome.actions =~= seq![
        ActionView::Fetch { module: 2, ticket: 0, path: background_path() },
    ]);
}

} // verus!
