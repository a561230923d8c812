//! The session: the root object of the running system.
//!
//! It owns the registry of modules (drivers and scheme handlers), the items
//! that the user works with, the display background, and the book-keeping for
//! requests in flight. Nothing here touches hardware or calls into a module:
//! each operation changes the session and tells the caller which outside work
//! is due, so that every decision can be checked in isolation.

use vstd::prelude::*;
use crate::action::{views, Action, ActionView, Diagnostic, DiagnosticView};
use crate::handle::{lookup, released, HandleTable};
use crate::url::{has_scheme, path, path_of, scheme_of};

verus! {

/// The concrete kinds of item that a session can hold. The kind is the tag by
/// which an item's capabilities are queried at run time.
#[derive(Clone, Copy, PartialEq, Eq, Structural, Debug)]
pub enum ItemKind {
    FileManager,
    Executor,
    Editor,
    Viewer,
}

/// What a registered module declares of itself: the interrupt lines it
/// handles, one bit per line, and the scheme it resolves, if any.
#[derive(Debug, PartialEq, Eq)]
pub struct Module {
    pub irqs: u16,
    pub scheme: Option<Vec<u8>>,
}

/// A module as specifications see it.
pub struct ModuleView {
    pub irqs: u16,
    pub scheme: Option<Seq<u8>>,
}

/// The bytes of an optional byte string.
pub open spec fn bytes_of(bytes: Option<Vec<u8>>) -> Option<Seq<u8>> {
    match bytes {
        Some(b) => Some(b@),
        None => None,
    }
}

impl View for Module {
    type V = ModuleView;

    open spec fn view(&self) -> ModuleView {
        ModuleView { irqs: self.irqs, scheme: bytes_of(self.scheme) }
    }
}

/// Whether a module with the line mask `irqs` handles interrupt line `line`.
pub open spec fn claims(irqs: u16, line: u8) -> bool {
    line < 16 && (irqs >> (line as u16)) & 1 == 1
}

impl ModuleView {
    /// Whether the module handles interrupt line `line`.
    pub open spec fn claims_irq(self, line: u8) -> bool {
        claims(self.irqs, line)
    }

    /// Whether the module owns the scheme of `identifier`.
    pub open spec fn resolves(self, identifier: Seq<u8>) -> bool {
        self.scheme.is_some() && scheme_of(identifier) == self.scheme
    }
}

impl Module {
    /// A module that handles the interrupt lines in `irqs` and resolves no scheme.
    pub fn driver(irqs: u16) -> (module: Module)
        ensures
            module@ == (ModuleView { irqs, scheme: None }),
    {
        Module { irqs, scheme: None }
    }

    /// A module that resolves the scheme `name` and handles no interrupt.
    pub fn scheme(name: Vec<u8>) -> (module: Module)
        ensures
            module@ == (ModuleView { irqs: 0, scheme: Some(name@) }),
    {
        Module { irqs: 0, scheme: Some(name) }
    }

    /// Whether this module handles interrupt line `line`.
    pub fn claims_irq(&self, line: u8) -> (claimed: bool)
        ensures
            claimed == self@.claims_irq(line),
    {
        line < 16 && (self.irqs >> (line as u16)) & 1 == 1
    }

    /// Whether this module owns the scheme of `identifier`.
    pub fn resolves(&self, identifier: &[u8]) -> (owned: bool)
        ensures
            owned == self@.resolves(identifier@),
    {
        match &self.scheme {
            Some(name) => has_scheme(identifier, name.as_slice()),
            None => false,
        }
    }
}

/// What is to happen when the response to a request arrives.
#[derive(Debug, PartialEq, Eq)]
pub enum Continuation<C> {
    /// The kernel's own request for the display background: a response that
    /// is not empty becomes the new background.
    Background,
    /// A request made on behalf of the item with index `item`: the response
    /// goes to that item, which passes it on to `callback`.
    Forward { item: usize, callback: C },
}

/// How a request ended.
#[derive(Debug, PartialEq, Eq)]
pub enum RequestOutcome<C> {
    /// No item has the focus. Nothing was asked of any module; the
    /// continuation comes back unused.
    Unfocused(Continuation<C>),
    /// No module owns the identifier's scheme. Nothing was asked of any
    /// module; the continuation comes back unused.
    Unresolved(Continuation<C>),
    /// The module with index `module` owns the scheme and is to start
    /// fetching `path`. The continuation waits in the session under `ticket`.
    Started { module: usize, ticket: usize, path: Vec<u8> },
}

/// The outcome of a request as specifications see it.
pub enum RequestOutcomeView<C> {
    Unfocused(Continuation<C>),
    Unresolved(Continuation<C>),
    Started { module: usize, ticket: usize, path: Seq<u8> },
}

impl<C> View for RequestOutcome<C> {
    type V = RequestOutcomeView<C>;

    open spec fn view(&self) -> RequestOutcomeView<C> {
        match *self {
            RequestOutcome::Unfocused(continuation) => RequestOutcomeView::Unfocused(continuation),
            RequestOutcome::Unresolved(continuation) => RequestOutcomeView::Unresolved(
                continuation,
            ),
            RequestOutcome::Started { module, ticket, path } => RequestOutcomeView::Started {
                module,
                ticket,
                path: path@,
            },
        }
    }
}

/// What became of a response.
#[derive(Debug, PartialEq, Eq)]
pub enum Delivery<C> {
    /// No request is in flight under the ticket: it was never issued, or its
    /// response has been delivered already.
    Unknown,
    /// The response answered the kernel's request for the background;
    /// `replaced` tells whether it became the new background.
    Background { replaced: bool },
    /// The item with index `item` is to receive `payload` together with
    /// `callback`, which it calls once.
    Invoke { item: usize, callback: C, payload: Vec<u8> },
    /// The item that asked no longer has the focus; the callback comes back
    /// unused.
    LostFocus(C),
    /// The item that asked is no executor; the callback comes back unused.
    Unsupported(C),
}

/// The root object of the running system.
pub struct Session<C> {
    items: Vec<ItemKind>,
    modules: Vec<Module>,
    current_item: isize,
    background: Vec<u8>,
    identifiers: HandleTable<Vec<u8>>,
    continuations: HandleTable<C>,
    pending: HandleTable<Continuation<C>>,
}

/// A session as specifications see it.
pub struct SessionView<C> {
    /// The items, by index.
    pub items: Seq<ItemKind>,
    /// The modules, in the order of their registration.
    pub modules: Seq<ModuleView>,
    /// The index of the item that has the focus; any value that is no index
    /// of `items` means that none has.
    pub current_item: int,
    /// The bytes of the display's background image.
    pub background: Seq<u8>,
    /// The identifiers published for system calls, by handle.
    pub identifiers: Seq<Option<Seq<u8>>>,
    /// The continuations on offer to system calls, by handle.
    pub continuations: Seq<Option<C>>,
    /// The continuations of the requests in flight, by ticket.
    pub pending: Seq<Option<Continuation<C>>>,
}

/// Whether `module` is the first of `modules` that owns the scheme of `identifier`.
pub open spec fn is_resolver(modules: Seq<ModuleView>, identifier: Seq<u8>, module: int) -> bool {
    &&& 0 <= module < modules.len()
    &&& modules[module].resolves(identifier)
    &&& forall|j: int| 0 <= j < module ==> !(#[trigger] modules[j]).resolves(identifier)
}

/// The first of `modules` that owns the scheme of `identifier`, if any does.
pub open spec fn resolver(modules: Seq<ModuleView>, identifier: Seq<u8>) -> Option<int> {
    if exists|module: int| is_resolver(modules, identifier, module) {
        Some(choose|module: int| is_resolver(modules, identifier, module))
    } else {
        None
    }
}

/// At most one module is the first to own a scheme, so `resolver` names it.
pub proof fn lemma_resolver_is_unique(modules: Seq<ModuleView>, identifier: Seq<u8>, module: int)
    requires
        is_resolver(modules, identifier, module),
    ensures
        resolver(modules, identifier) == Some(module),
{
    let chosen = choose|m: int| is_resolver(modules, identifier, m);
    assert(is_resolver(modules, identifier, chosen));
    if chosen < module {
        assert(!modules[chosen].resolves(identifier));
    } else if module < chosen {
        assert(!modules[module].resolves(identifier));
    }
}

/// Where no module owns the scheme, there is no resolver.
pub proof fn lemma_no_resolver(modules: Seq<ModuleView>, identifier: Seq<u8>)
    requires
        forall|j: int| 0 <= j < modules.len() ==> !(#[trigger] modules[j]).resolves(identifier),
    ensures
        resolver(modules, identifier).is_none(),
{
    if exists|m: int| is_resolver(modules, identifier, m) {
        let m = choose|m: int| is_resolver(modules, identifier, m);
        assert(!modules[m].resolves(identifier));
    }
}

/// The indices below `count`, in ascending order.
pub open spec fn indices(count: nat) -> Seq<usize> {
    Seq::new(count, |i: int| i as usize)
}

/// The indices below `count` of the modules that handle interrupt line `line`,
/// in ascending order.
pub open spec fn claimants_below(modules: Seq<ModuleView>, line: u8, count: nat) -> Seq<usize> {
    indices(count).filter(|module: usize| modules[module as int].claims_irq(line))
}

/// The indices of the modules that handle interrupt line `line`, in the order
/// of their registration.
pub open spec fn claimants(modules: Seq<ModuleView>, line: u8) -> Seq<usize> {
    claimants_below(modules, line, modules.len())
}

/// The claimants below `count + 1` are those below `count`, followed by
/// `count` itself where that module claims the line.
pub proof fn lemma_claimants_step(modules: Seq<ModuleView>, line: u8, count: nat)
    requires
        count <= usize::MAX,
    ensures
        claimants_below(modules, line, count + 1) == if modules[count as int].claims_irq(line) {
            claimants_below(modules, line, count).push(count as usize)
        } else {
            claimants_below(modules, line, count)
        },
        claimants_below(modules, line, 0) == Seq::<usize>::empty(),
{
    reveal(Seq::filter);
    assert(indices(count + 1).drop_last() =~= indices(count));
    assert(indices(count + 1).last() == count as usize);
}

/// The action that runs the interrupt handler for `line` of a given module.
pub open spec fn irq_action(line: u8) -> spec_fn(usize) -> ActionView {
    |module: usize| ActionView::Irq { module, line }
}

impl<C> SessionView<C> {
    /// Whether an item has the focus.
    pub open spec fn focused(self) -> bool {
        0 <= self.current_item < self.items.len()
    }

    /// Whether `item` is the index of an item of kind `kind`.
    pub open spec fn supports(self, item: int, kind: ItemKind) -> bool {
        0 <= item < self.items.len() && self.items[item] == kind
    }

    /// The interrupt handlers to run for line `line`: one for each module that
    /// claims the line, in the order of registration.
    pub open spec fn irq_actions(self, line: u8) -> Seq<ActionView> {
        claimants(self.modules, line).map_values(irq_action(line))
    }

    /// One poll for each module, in the order of registration.
    pub open spec fn poll_actions(self) -> Seq<ActionView> {
        Seq::new(self.modules.len(), |i: int| ActionView::Poll { module: i as usize })
    }

    /// The session after a request, and how the request ended.
    pub open spec fn request(self, identifier: Seq<u8>, continuation: Continuation<C>) -> (
        SessionView<C>,
        RequestOutcomeView<C>,
    ) {
        if !self.focused() {
            (self, RequestOutcomeView::Unfocused(continuation))
        } else {
            match resolver(self.modules, identifier) {
                None => (self, RequestOutcomeView::Unresolved(continuation)),
                Some(module) => (
                    SessionView { pending: self.pending.push(Some(continuation)), ..self },
                    RequestOutcomeView::Started {
                        module: module as usize,
                        ticket: self.pending.len() as usize,
                        path: path_of(identifier),
                    },
                ),
            }
        }
    }

    /// The session after the response `payload` has arrived under `ticket`,
    /// and what became of the response.
    pub open spec fn complete(self, ticket: int, payload: Seq<u8>) -> (
        SessionView<C>,
        DeliveryView<C>,
    ) {
        let after = SessionView { pending: released(self.pending, ticket), ..self };
        match lookup(self.pending, ticket) {
            None => (self, DeliveryView::Unknown),
            Some(Continuation::Background) => if payload.len() > 0 {
                (
                    SessionView { background: payload, ..after },
                    DeliveryView::Background { replaced: true },
                )
            } else {
                (after, DeliveryView::Background { replaced: false })
            },
            Some(Continuation::Forward { item, callback }) => if self.current_item != item {
                (after, DeliveryView::LostFocus(callback))
            } else if !self.supports(item as int, ItemKind::Executor) {
                (after, DeliveryView::Unsupported(callback))
            } else {
                (after, DeliveryView::Invoke { item, callback, payload })
            },
        }
    }
}

/// A delivery as specifications see it.
pub enum DeliveryView<C> {
    Unknown,
    Background { replaced: bool },
    Invoke { item: usize, callback: C, payload: Seq<u8> },
    LostFocus(C),
    Unsupported(C),
}

impl<C> View for Delivery<C> {
    type V = DeliveryView<C>;

    open spec fn view(&self) -> DeliveryView<C> {
        match *self {
            Delivery::Unknown => DeliveryView::Unknown,
            Delivery::Background { replaced } => DeliveryView::Background { replaced },
            Delivery::Invoke { item, callback, payload } => DeliveryView::Invoke {
                item,
                callback,
                payload: payload@,
            },
            Delivery::LostFocus(callback) => DeliveryView::LostFocus(callback),
            Delivery::Unsupported(callback) => DeliveryView::Unsupported(callback),
        }
    }
}

impl<C> Delivery<C> {
    /// The line that this delivery puts on the debug channel: a failed
    /// downcast where the item cannot take the response, and none otherwise.
    pub fn diagnostic(&self) -> (line: Option<Diagnostic>)
        ensures
            match line {
                Some(diagnostic) => self@ is Unsupported && diagnostic@
                    == DiagnosticView::DowncastFailed,
                None => !(self@ is Unsupported),
            },
    {
        match self {
            Delivery::Unsupported(_) => Some(Diagnostic::DowncastFailed),
            _ => None,
        }
    }
}

impl<C> View for Session<C> {
    type V = SessionView<C>;

    closed spec fn view(&self) -> SessionView<C> {
        SessionView {
            items: self.items@,
            modules: self.modules@.map_values(|module: Module| module@),
            current_item: self.current_item as int,
            background: self.background@,
            identifiers: self.identifiers@.map_values(|bytes: Option<Vec<u8>>| bytes_of(bytes)),
            continuations: self.continuations@,
            pending: self.pending@,
        }
    }
}

impl<C> Session<C> {
    /// A session without items or modules, with nothing focused, an empty
    /// background and no request in flight.
    pub fn new() -> (session: Session<C>)
        ensures
            session@ == (SessionView::<C> {
                items: Seq::empty(),
                modules: Seq::empty(),
                current_item: -1,
                background: Seq::empty(),
                identifiers: Seq::empty(),
                continuations: Seq::empty(),
                pending: Seq::empty(),
            }),
    {
        let session = Session {
            items: Vec::new(),
            modules: Vec::new(),
            current_item: -1,
            background: Vec::new(),
            identifiers: HandleTable::new(),
            continuations: HandleTable::new(),
            pending: HandleTable::new(),
        };
        assert(session@.modules =~= Seq::empty());
        assert(session@.identifiers =~= Seq::empty());
        session
    }

    /// The number of items.
    pub fn item_count(&self) -> (count: usize)
        ensures
            count == self@.items.len(),
    {
        self.items.len()
    }

    /// The kind of the item with index `index`, if there is such an item.
    pub fn item(&self, index: usize) -> (kind: Option<ItemKind>)
        ensures
            kind == if index < self@.items.len() {
                Some(self@.items[index as int])
            } else {
                None
            },
    {
        if index < self.items.len() {
            Some(self.items[index])
        } else {
            None
        }
    }

    /// The module with index `index`, if there is such a module.
    pub fn module(&self, index: usize) -> (module: Option<&Module>)
        ensures
            match module {
                Some(found) => index < self@.modules.len() && found@ == self@.modules[index as int],
                None => index >= self@.modules.len(),
            },
    {
        if index < self.modules.len() {
            Some(&self.modules[index])
        } else {
            None
        }
    }

    /// The number of registered modules.
    pub fn module_count(&self) -> (count: usize)
        ensures
            count == self@.modules.len(),
    {
        self.modules.len()
    }

    /// The index of the item that has the focus; any value that is no index
    /// of an item means that none has.
    pub fn current_item(&self) -> (index: isize)
        ensures
            index == self@.current_item,
    {
        self.current_item
    }

    /// The bytes of the display's background image.
    pub fn background(&self) -> (bytes: &Vec<u8>)
        ensures
            bytes@ == self@.background,
    {
        &self.background
    }

    /// The number of requests started so far, which is also the next ticket.
    pub fn requests_started(&self) -> (count: usize)
        ensures
            count == self@.pending.len(),
    {
        self.pending.issued()
    }

    /// Whether a request is in flight under `ticket`.
    pub fn in_flight(&self, ticket: usize) -> (waiting: bool)
        ensures
            waiting == lookup(self@.pending, ticket as int).is_some(),
    {
        self.pending.get(ticket).is_some()
    }

    /// Adds an item of kind `kind` behind the items already there and returns
    /// its index. The focus stays where it is.
    pub fn add_item(&mut self, kind: ItemKind) -> (index: usize)
        ensures
            index == old(self)@.items.len(),
            final(self)@ == (SessionView { items: old(self)@.items.push(kind), ..old(self)@ }),
    {
        let index = self.items.len();
        self.items.push(kind);
        index
    }

    /// Gives the focus to the item with index `index`. Any value that is no
    /// index of an item takes the focus away from all of them.
    pub fn focus(&mut self, index: isize)
        ensures
            final(self)@ == (SessionView { current_item: index as int, ..old(self)@ }),
    {
        self.current_item = index;
    }

    /// Registers `module` behind the modules already there and returns its index.
    pub fn register(&mut self, module: Module) -> (index: usize)
        ensures
            index == old(self)@.modules.len(),
            final(self)@ == (SessionView {
                modules: old(self)@.modules.push(module@),
                ..old(self)@
            }),
    {
        let index = self.modules.len();
        self.modules.push(module);
        assert(final(self)@.modules =~= old(self)@.modules.push(module@));
        index
    }

    /// Registers the modules of `modules`, in their order, behind the modules
    /// already there.
    pub fn register_all(&mut self, modules: Vec<Module>)
        ensures
            final(self)@ == (SessionView {
                modules: old(self)@.modules + modules@.map_values(|module: Module| module@),
                ..old(self)@
            }),
    {
        let ghost added = modules@.map_values(|module: Module| module@);
        let mut modules = modules;
        self.modules.append(&mut modules);
        assert(final(self)@.modules =~= old(self)@.modules + added);
    }

    /// Asks whether the item with index `item` is of kind `kind`. The answer
    /// is the item's index where it is, and `None` where it is of another
    /// kind or where there is no such item.
    pub fn capability(&self, item: usize, kind: ItemKind) -> (handle: Option<usize>)
        ensures
            handle == if self@.supports(item as int, kind) {
                Some(item)
            } else {
                None
            },
    {
        if item < self.items.len() && self.items[item] == kind {
            Some(item)
        } else {
            None
        }
    }

    /// Handles interrupt line `line`: the handler of every module that claims
    /// the line is to run, in the order of registration. The session itself
    /// does not change.
    pub fn on_irq(&self, line: u8) -> (actions: Vec<Action>)
        ensures
            views(actions@) == self@.irq_actions(line),
    {
        let mut actions: Vec<Action> = Vec::new();
        let count = self.modules.len();
        let ghost modules = self@.modules;
        let ghost to_action = irq_action(line);
        let mut i: usize = 0;
        proof {
            lemma_claimants_step(modules, line, 0);
            assert(views(actions@) =~= claimants_below(modules, line, 0).map_values(to_action));
        }
        while i < count
            invariant
                i <= count,
                count == self.modules@.len(),
                modules == self@.modules,
                to_action == irq_action(line),
                views(actions@) == claimants_below(modules, line, i as nat).map_values(to_action),
            decreases count - i,
        {
            proof {
                lemma_claimants_step(modules, line, i as nat);
                assert(modules[i as int] == self.modules@[i as int]@);
            }
            if self.modules[i].claims_irq(line) {
                let ghost before = actions@;
                actions.push(Action::Irq { module: i, line });
                proof {
                    crate::action::lemma_views_push(before, Action::Irq { module: i, line });
                    assert(claimants_below(modules, line, i as nat).push(i).map_values(to_action)
                        =~= claimants_below(modules, line, i as nat).map_values(to_action).push(
                        to_action(i),
                    ));
                }
            }
            i += 1;
        }
        actions
    }

    /// Polls the modules: each of them, in the order of registration, is to
    /// advance the fetches that it is serving. The session itself does not
    /// change.
    pub fn on_poll(&self) -> (actions: Vec<Action>)
        ensures
            views(actions@) == self@.poll_actions(),
    {
        let mut actions: Vec<Action> = Vec::new();
        let count = self.modules.len();
        let mut i: usize = 0;
        while i < count
            invariant
                i <= count,
                count == self@.modules.len(),
                views(actions@) == Seq::new(i as nat, |k: int| ActionView::Poll { module: k as usize }),
            decreases count - i,
        {
            let ghost before = actions@;
            actions.push(Action::Poll { module: i });
            proof {
                crate::action::lemma_views_push(before, Action::Poll { module: i });
                assert(views(actions@) =~= Seq::new(
                    (i + 1) as nat,
                    |k: int| ActionView::Poll { module: k as usize },
                ));
            }
            i += 1;
        }
        actions
    }

    /// Asks for the display to be repainted. The session itself does not change.
    pub fn redraw(&self) -> (actions: Vec<Action>)
        ensures
            views(actions@) == seq![ActionView::Redraw],
    {
        let mut actions: Vec<Action> = Vec::new();
        actions.push(Action::Redraw);
        assert(views(actions@) =~= seq![ActionView::Redraw]);
        actions
    }

    /// Finds the module that serves `identifier`: the first, in the order of
    /// registration, that owns its scheme.
    pub fn resolve(&self, identifier: &[u8]) -> (module: Option<usize>)
        ensures
            match module {
                Some(m) => resolver(self@.modules, identifier@) == Some(m as int),
                None => resolver(self@.modules, identifier@).is_none(),
            },
    {
        let count = self.modules.len();
        let mut i: usize = 0;
        while i < count
            invariant
                i <= count,
                count == self.modules@.len(),
                forall|j: int| 0 <= j < i ==> !(#[trigger] self@.modules[j]).resolves(identifier@),
            decreases count - i,
        {
            assert(self@.modules[i as int] == self.modules@[i as int]@);
            if self.modules[i].resolves(identifier) {
                proof {
                    lemma_resolver_is_unique(self@.modules, identifier@, i as int);
                }
                return Some(i);
            }
            i += 1;
        }
        proof {
            lemma_no_resolver(self@.modules, identifier@);
        }
        None
    }

    /// Requests the resource that `identifier` names, with `continuation` to
    /// receive the response.
    ///
    /// Without a focused item nothing is attempted. Otherwise the first module
    /// that owns the identifier's scheme is to start the fetch, and the
    /// continuation waits under a fresh ticket until `complete` is called with
    /// it. Where no module owns the scheme nothing happens at all. The session
    /// never calls or frees a continuation: one that is not used comes back
    /// in the outcome, for the caller to keep or to let go.
    pub fn request(&mut self, identifier: &[u8], continuation: Continuation<C>) -> (outcome:
        RequestOutcome<C>)
        ensures
            (final(self)@, outcome@) == old(self)@.request(identifier@, continuation),
    {
        if self.current_item < 0 || self.current_item as usize >= self.items.len() {
            return RequestOutcome::Unfocused(continuation);
        }
        match self.resolve(identifier) {
            None => RequestOutcome::Unresolved(continuation),
            Some(module) => {
                let ticket = self.pending.insert(continuation);
                RequestOutcome::Started { module, ticket, path: path(identifier) }
            },
        }
    }

    /// Delivers the response `payload` to the request in flight under `ticket`.
    ///
    /// The ticket is used up: a second response under it finds nothing and is
    /// reported as `Unknown`. A response to the kernel's own request replaces
    /// the display background unless it is empty. A response to an item's
    /// request goes to that item if it still has the focus and is an
    /// executor; otherwise the callback comes back unused.
    pub fn complete(&mut self, ticket: usize, payload: Vec<u8>) -> (delivery: Delivery<C>)
        ensures
            (final(self)@, delivery@) == old(self)@.complete(ticket as int, payload@),
    {
        match self.pending.take(ticket) {
            None => {
                assert(released(old(self)@.pending, ticket as int) =~= old(self)@.pending);
                Delivery::Unknown
            },
            Some(Continuation::Background) => {
                if payload.len() > 0 {
                    self.background = payload;
                    Delivery::Background { replaced: true }
                } else {
                    Delivery::Background { replaced: false }
                }
            },
            Some(Continuation::Forward { item, callback }) => {
                if self.current_item < 0 || self.current_item as usize != item {
                    Delivery::LostFocus(callback)
                } else if self.capability(item, ItemKind::Executor).is_none() {
                    Delivery::Unsupported(callback)
                } else {
                    Delivery::Invoke { item, callback, payload }
                }
            },
        }
    }

    /// Publishes `identifier` for a later system call and returns the handle
    /// under which the call names it. A handle must fit a 32-bit register:
    /// once 2^32 identifiers have been published, the identifier comes back
    /// and the session stays as it is.
    pub fn publish(&mut self, identifier: Vec<u8>) -> (handle: Result<u32, Vec<u8>>)
        ensures
            match handle {
                Ok(h) => {
                    &&& h == old(self)@.identifiers.len()
                    &&& final(self)@ == (SessionView {
                        identifiers: old(self)@.identifiers.push(Some(identifier@)),
                        ..old(self)@
                    })
                },
                Err(back) => {
                    &&& old(self)@.identifiers.len() > u32::MAX
                    &&& back == identifier
                    &&& final(self)@ == old(self)@
                },
            },
    {
        let count = self.identifiers.issued();
        if count > 0xFFFF_FFFF {
            return Err(identifier);
        }
        let ghost bytes = identifier@;
        self.identifiers.insert(identifier);
        assert(final(self)@.identifiers =~= old(self)@.identifiers.push(Some(bytes)));
        Ok(count as u32)
    }

    /// Puts `continuation` on offer to a later system call and returns the
    /// handle under which the call names it. The caller gives the
    /// continuation up: it leaves the session again only through
    /// `reconstitute`, once. A handle must fit a 32-bit register: once 2^32
    /// continuations have been offered, the continuation comes back and the
    /// session stays as it is.
    pub fn offer(&mut self, continuation: C) -> (handle: Result<u32, C>)
        ensures
            match handle {
                Ok(h) => {
                    &&& h == old(self)@.continuations.len()
                    &&& final(self)@ == (SessionView {
                        continuations: old(self)@.continuations.push(Some(continuation)),
                        ..old(self)@
                    })
                },
                Err(back) => {
                    &&& old(self)@.continuations.len() > u32::MAX
                    &&& back == continuation
                    &&& final(self)@ == old(self)@
                },
            },
    {
        let count = self.continuations.issued();
        if count > 0xFFFF_FFFF {
            return Err(continuation);
        }
        self.continuations.insert(continuation);
        Ok(count as u32)
    }

    /// The identifier published under `handle`, if there is one.
    pub fn identifier(&self, handle: u32) -> (identifier: Option<&Vec<u8>>)
        ensures
            match identifier {
                Some(bytes) => lookup(self@.identifiers, handle as int) == Some(bytes@),
                None => lookup(self@.identifiers, handle as int).is_none(),
            },
    {
        self.identifiers.get(handle as usize)
    }

    /// Takes the continuation on offer under `handle` out of the session. The
    /// handle is used up by this: a second attempt, like one with a handle
    /// that was never issued, yields `None` and changes nothing.
    pub fn reconstitute(&mut self, handle: u32) -> (continuation: Option<C>)
        ensures
            continuation == lookup(old(self)@.continuations, handle as int),
            final(self)@ == (SessionView {
                continuations: released(old(self)@.continuations, handle as int),
                ..old(self)@
            }),
    {
        self.continuations.take(handle as usize)
    }
}

} // verus!
