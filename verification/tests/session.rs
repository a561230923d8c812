use kernel::action::{Action, Diagnostic};
use kernel::session::{Continuation, Delivery, ItemKind, Module, RequestOutcome, Session};

fn focused_session() -> Session<u32> {
    let mut session = Session::new();
    session.add_item(ItemKind::FileManager);
    session.add_item(ItemKind::Executor);
    session.focus(1);
    session.register(Module::driver(0x1002));
    session.register(Module::scheme(b"file".to_vec()));
    session.register(Module::scheme(b"http".to_vec()));
    session
}

#[test]
fn a_new_session_is_empty_and_unfocused() {
    let session: Session<u32> = Session::new();
    assert_eq!(session.item_count(), 0);
    assert_eq!(session.module_count(), 0);
    assert_eq!(session.current_item(), -1);
    assert!(session.background().is_empty());
    assert_eq!(session.requests_started(), 0);
}

#[test]
fn items_and_modules_are_numbered_in_order() {
    let mut session: Session<u32> = Session::new();
    assert_eq!(session.add_item(ItemKind::FileManager), 0);
    assert_eq!(session.add_item(ItemKind::Editor), 1);
    assert_eq!(session.register(Module::driver(2)), 0);
    assert_eq!(session.register(Module::scheme(b"pci".to_vec())), 1);
    session.register_all(vec![Module::driver(4), Module::driver(8)]);
    assert_eq!(session.item_count(), 2);
    assert_eq!(session.module_count(), 4);
    assert_eq!(session.on_irq(3), vec![Action::Irq { module: 3, line: 3 }]);
}

#[test]
fn a_module_claims_the_lines_of_its_mask() {
    let ps2 = Module::driver(0x1002);
    assert!(ps2.claims_irq(1));
    assert!(ps2.claims_irq(12));
    assert!(!ps2.claims_irq(0));
    assert!(!ps2.claims_irq(4));
    assert!(!ps2.claims_irq(16));
    assert!(!ps2.claims_irq(255));
    assert!(Module::driver(0x8000).claims_irq(15));
    assert!(!Module::scheme(b"file".to_vec()).claims_irq(1));
}

#[test]
fn a_module_resolves_its_own_scheme_only() {
    let file = Module::scheme(b"file".to_vec());
    assert!(file.resolves(b"file:///a"));
    assert!(!file.resolves(b"files:///a"));
    assert!(!file.resolves(b"file"));
    assert!(!Module::driver(1).resolves(b"file:///a"));
    assert!(!Module::driver(1).resolves(b":a"));
}

#[test]
fn on_irq_runs_every_claimant_in_order() {
    let mut session: Session<u32> = Session::new();
    session.register(Module::driver(0x0010));
    session.register(Module::driver(0x1002));
    session.register(Module::scheme(b"file".to_vec()));
    session.register(Module::driver(0x0012));
    assert_eq!(
        session.on_irq(4),
        vec![Action::Irq { module: 0, line: 4 }, Action::Irq { module: 3, line: 4 }]
    );
    assert_eq!(
        session.on_irq(1),
        vec![Action::Irq { module: 1, line: 1 }, Action::Irq { module: 3, line: 1 }]
    );
    assert_eq!(session.on_irq(12), vec![Action::Irq { module: 1, line: 12 }]);
    assert_eq!(session.on_irq(5), vec![]);
    assert_eq!(session.on_irq(200), vec![]);
}

#[test]
fn on_poll_polls_every_module_once() {
    let session = focused_session();
    assert_eq!(
        session.on_poll(),
        vec![Action::Poll { module: 0 }, Action::Poll { module: 1 }, Action::Poll { module: 2 }]
    );
    let empty: Session<u32> = Session::new();
    assert_eq!(empty.on_poll(), vec![]);
}

#[test]
fn redraw_asks_for_one_repaint() {
    assert_eq!(focused_session().redraw(), vec![Action::Redraw]);
}

#[test]
fn resolve_takes_the_first_owner() {
    let mut session = focused_session();
    session.register(Module::scheme(b"file".to_vec()));
    assert_eq!(session.resolve(b"file:///a"), Some(1));
    assert_eq!(session.resolve(b"http://a"), Some(2));
    assert_eq!(session.resolve(b"pci:"), None);
    assert_eq!(session.resolve(b"file"), None);
}

#[test]
fn a_request_starts_a_fetch_of_the_path() {
    let mut session = focused_session();
    let outcome = session.request(b"http://example/", Continuation::Forward { item: 1, callback: 7 });
    assert_eq!(
        outcome,
        RequestOutcome::Started { module: 2, ticket: 0, path: b"//example/".to_vec() }
    );
    assert!(session.in_flight(0));
    let outcome = session.request(b"file:///a", Continuation::Background);
    assert_eq!(outcome, RequestOutcome::Started { module: 1, ticket: 1, path: b"///a".to_vec() });
    assert_eq!(session.requests_started(), 2);
}

#[test]
fn a_request_without_focus_is_not_attempted() {
    for index in [-1isize, -7, 2, 100] {
        let mut session = focused_session();
        session.focus(index);
        let outcome = session.request(b"file:///a", Continuation::Forward { item: 1, callback: 7 });
        assert_eq!(
            outcome,
            RequestOutcome::Unfocused(Continuation::Forward { item: 1, callback: 7 })
        );
        assert_eq!(session.requests_started(), 0);
        assert!(!session.in_flight(0));
    }
}

#[test]
fn a_request_for_an_unowned_scheme_is_dropped() {
    let mut session = focused_session();
    let outcome = session.request(b"pci:", Continuation::Forward { item: 1, callback: 7 });
    assert_eq!(outcome, RequestOutcome::Unresolved(Continuation::Forward { item: 1, callback: 7 }));
    let outcome = session.request(b"no scheme", Continuation::Background);
    assert_eq!(outcome, RequestOutcome::Unresolved(Continuation::Background));
    assert_eq!(session.requests_started(), 0);
}

#[test]
fn a_response_reaches_the_focused_executor_once() {
    let mut session = focused_session();
    session.request(b"file:///a", Continuation::Forward { item: 1, callback: 7 });
    let delivery = session.complete(0, vec![1, 2, 3]);
    assert_eq!(delivery, Delivery::Invoke { item: 1, callback: 7, payload: vec![1, 2, 3] });
    assert_eq!(delivery.diagnostic(), None);
    assert!(!session.in_flight(0));
    assert_eq!(session.complete(0, vec![1, 2, 3]), Delivery::Unknown);
    assert_eq!(session.complete(0, vec![]), Delivery::Unknown);
}

#[test]
fn a_response_under_an_unknown_ticket_is_reported() {
    let mut session = focused_session();
    assert_eq!(session.complete(0, vec![1]), Delivery::Unknown);
    assert_eq!(session.complete(usize::MAX, vec![1]), Delivery::Unknown);
    assert_eq!(Delivery::<u32>::Unknown.diagnostic(), None);
}

#[test]
fn a_response_for_an_item_that_lost_the_focus_is_dropped() {
    let mut session = focused_session();
    let executor = session.add_item(ItemKind::Executor);
    session.request(b"file:///a", Continuation::Forward { item: 1, callback: 7 });
    session.focus(executor as isize);
    assert_eq!(session.complete(0, vec![1]), Delivery::LostFocus(7));
    session.focus(1);
    session.request(b"file:///a", Continuation::Forward { item: 1, callback: 8 });
    session.focus(-1);
    assert_eq!(session.complete(1, vec![1]), Delivery::LostFocus(8));
    assert_eq!(session.complete(1, vec![1]), Delivery::Unknown);
}

#[test]
fn a_response_for_an_item_that_is_no_executor_is_dropped() {
    for kind in [ItemKind::FileManager, ItemKind::Editor, ItemKind::Viewer] {
        let mut session: Session<u32> = Session::new();
        session.add_item(kind);
        session.focus(0);
        session.register(Module::scheme(b"file".to_vec()));
        session.request(b"file:///a", Continuation::Forward { item: 0, callback: 7 });
        let delivery = session.complete(0, vec![1]);
        assert_eq!(delivery, Delivery::Unsupported(7));
        assert_eq!(delivery.diagnostic(), Some(Diagnostic::DowncastFailed));
        assert_eq!(session.complete(0, vec![1]), Delivery::Unknown);
    }
}

#[test]
fn a_background_response_replaces_the_background_unless_empty() {
    let mut session = focused_session();
    session.request(b"file:///background.bmp", Continuation::Background);
    session.request(b"file:///background.bmp", Continuation::Background);
    session.request(b"file:///background.bmp", Continuation::Background);
    assert_eq!(session.complete(0, vec![4, 2]), Delivery::Background { replaced: true });
    assert_eq!(session.background(), &vec![4, 2]);
    assert_eq!(session.complete(1, vec![]), Delivery::Background { replaced: false });
    assert_eq!(session.background(), &vec![4, 2]);
    session.focus(-1);
    assert_eq!(session.complete(2, vec![9]), Delivery::Background { replaced: true });
    assert_eq!(session.background(), &vec![9]);
}

#[test]
fn a_capability_query_never_faults() {
    let kinds = [ItemKind::FileManager, ItemKind::Executor, ItemKind::Editor, ItemKind::Viewer];
    let mut session: Session<u32> = Session::new();
    for kind in kinds {
        session.add_item(kind);
    }
    for (index, held) in kinds.iter().enumerate() {
        for asked in kinds {
            let expected = if *held == asked { Some(index) } else { None };
            assert_eq!(session.capability(index, asked), expected);
        }
    }
    for asked in kinds {
        assert_eq!(session.capability(4, asked), None);
        assert_eq!(session.capability(usize::MAX, asked), None);
    }
}

#[test]
fn published_identifiers_stay_in_place() {
    let mut session: Session<u32> = Session::new();
    assert_eq!(session.publish(b"file:///a".to_vec()), Ok(0));
    assert_eq!(session.publish(b"http://b".to_vec()), Ok(1));
    assert_eq!(session.identifier(0), Some(&b"file:///a".to_vec()));
    assert_eq!(session.identifier(0), Some(&b"file:///a".to_vec()));
    assert_eq!(session.identifier(1), Some(&b"http://b".to_vec()));
    assert_eq!(session.identifier(2), None);
}

#[test]
fn an_offered_continuation_is_reconstituted_once() {
    let mut session: Session<String> = Session::new();
    assert_eq!(session.offer(String::from("first")), Ok(0));
    assert_eq!(session.offer(String::from("second")), Ok(1));
    assert_eq!(session.reconstitute(1), Some(String::from("second")));
    assert_eq!(session.reconstitute(1), None);
    assert_eq!(session.reconstitute(2), None);
    assert_eq!(session.reconstitute(0), Some(String::from("first")));
    assert_eq!(session.reconstitute(0), None);
    assert_eq!(session.offer(String::from("third")), Ok(2));
}
