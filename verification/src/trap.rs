//! The trap dispatcher: the single entry point for CPU exceptions, hardware
//! interrupts and system calls, together with the boot sequence, the idle
//! loop and the kernel's reaction to an internal fault.

use vstd::prelude::*;
use crate::common::bytes::copy;
use crate::action::{views, Action, ActionView, Device, Diagnostic, DiagnosticView, Registers};
use crate::handle::{lookup, released};
use crate::session::{
    Continuation, ItemKind, Module, ModuleView, RequestOutcome, RequestOutcomeView, Session,
    SessionView,
};

verus! {

/// The vector of the first hardware interrupt line.
pub const IRQ_BASE: u32 = 0x20;

/// The vector behind that of the last hardware interrupt line.
pub const IRQ_END: u32 = 0x30;

/// The vector of the first line of the secondary, cascaded controller.
pub const CASCADE_BASE: u32 = 0x28;

/// The vector of a system call.
pub const SYSTEM_CALL: u32 = 0x80;

/// The vector that boots the kernel.
pub const BOOT: u32 = 0xFF;

/// The number of the system call that requests a resource for the session.
pub const SESSION_REQUEST: u32 = 0x1;

/// The command port of the primary interrupt controller.
pub const PRIMARY_COMMAND: u16 = 0x20;

/// The command port of the secondary interrupt controller.
pub const SECONDARY_COMMAND: u16 = 0xA0;

/// The command that acknowledges an interrupt.
pub const END_OF_INTERRUPT: u8 = 0x20;

/// The name under which the CPU exception with vector `vector` is reported,
/// for the exceptions that have one.
pub open spec fn fault_text(vector: u32) -> Option<Seq<char>> {
    if vector == 0x0 {
        Some("Divide by zero exception\n"@)
    } else if vector == 0x1 {
        Some("Debug exception\n"@)
    } else if vector == 0x2 {
        Some("Non-maskable interrupt\n"@)
    } else if vector == 0x3 {
        Some("Breakpoint exception\n"@)
    } else if vector == 0x4 {
        Some("Overflow exception\n"@)
    } else if vector == 0x5 {
        Some("Bound range exceeded exception\n"@)
    } else if vector == 0x6 {
        Some("Invalid opcode exception\n"@)
    } else if vector == 0x7 {
        Some("Device not available exception\n"@)
    } else if vector == 0x8 {
        Some("Double fault\n"@)
    } else if vector == 0xA {
        Some("Invalid TSS exception\n"@)
    } else if vector == 0xB {
        Some("Segment not present exception\n"@)
    } else if vector == 0xC {
        Some("Stack-segment fault\n"@)
    } else if vector == 0xD {
        Some("General protection fault\n"@)
    } else if vector == 0xE {
        Some("Page fault\n"@)
    } else if vector == 0x10 {
        Some("x87 floating-point exception\n"@)
    } else if vector == 0x11 {
        Some("Alignment check exception\n"@)
    } else if vector == 0x12 {
        Some("Machine check exception\n"@)
    } else if vector == 0x13 {
        Some("SIMD floating-point exception\n"@)
    } else if vector == 0x14 {
        Some("Virtualization exception\n"@)
    } else if vector == 0x1E {
        Some("Security exception\n"@)
    } else {
        None
    }
}

/// The interrupt line whose handlers run for `vector`: the vector less the
/// base, for the lines that a device is wired to.
pub open spec fn forwarded_line(vector: u32) -> Option<u8> {
    if vector == 0x21 || vector == 0x23 || vector == 0x24 || vector == 0x29 || vector == 0x2A
        || vector == 0x2B || vector == 0x2C || vector == 0x2E || vector == 0x2F {
        Some((vector - IRQ_BASE) as u8)
    } else {
        None
    }
}

/// The port writes that acknowledge `vector` to the interrupt controllers:
/// none outside the hardware range; inside it one to the primary controller,
/// preceded by one to the secondary controller for the lines that arrive
/// through the cascade.
pub open spec fn acknowledgements(vector: u32) -> Seq<ActionView> {
    if IRQ_BASE <= vector < IRQ_END {
        if vector >= CASCADE_BASE {
            seq![
                ActionView::Out { port: SECONDARY_COMMAND, value: END_OF_INTERRUPT },
                ActionView::Out { port: PRIMARY_COMMAND, value: END_OF_INTERRUPT },
            ]
        } else {
            seq![ActionView::Out { port: PRIMARY_COMMAND, value: END_OF_INTERRUPT }]
        }
    } else {
        Seq::empty()
    }
}

/// The name under which the CPU exception with vector `vector` is reported,
/// or `None` for a vector that has no name.
pub fn fault_name(vector: u32) -> (name: Option<&'static str>)
    ensures
        match name {
            Some(text) => fault_text(vector) == Some(text@),
            None => fault_text(vector).is_none(),
        },
{
    match vector {
        0x0 => Some("Divide by zero exception\n"),
        0x1 => Some("Debug exception\n"),
        0x2 => Some("Non-maskable interrupt\n"),
        0x3 => Some("Breakpoint exception\n"),
        0x4 => Some("Overflow exception\n"),
        0x5 => Some("Bound range exceeded exception\n"),
        0x6 => Some("Invalid opcode exception\n"),
        0x7 => Some("Device not available exception\n"),
        0x8 => Some("Double fault\n"),
        0xA => Some("Invalid TSS exception\n"),
        0xB => Some("Segment not present exception\n"),
        0xC => Some("Stack-segment fault\n"),
        0xD => Some("General protection fault\n"),
        0xE => Some("Page fault\n"),
        0x10 => Some("x87 floating-point exception\n"),
        0x11 => Some("Alignment check exception\n"),
        0x12 => Some("Machine check exception\n"),
        0x13 => Some("SIMD floating-point exception\n"),
        0x14 => Some("Virtualization exception\n"),
        0x1E => Some("Security exception\n"),
        _ => None,
    }
}

/// The interrupt line whose handlers run for `vector`, if it has one.
pub fn irq_line(vector: u32) -> (line: Option<u8>)
    ensures
        line == forwarded_line(vector),
{
    match vector {
        0x21 | 0x23 | 0x24 | 0x29 | 0x2A | 0x2B | 0x2C | 0x2E | 0x2F => Some(
            (vector - IRQ_BASE) as u8,
        ),
        _ => None,
    }
}

/// Appends to `actions` the port writes that acknowledge `vector` to the
/// interrupt controllers.
pub fn acknowledge(actions: &mut Vec<Action>, vector: u32)
    ensures
        views(final(actions)@) == views(old(actions)@) + acknowledgements(vector),
{
    if vector >= IRQ_BASE && vector < IRQ_END {
        if vector >= CASCADE_BASE {
            actions.push(Action::Out { port: SECONDARY_COMMAND, value: END_OF_INTERRUPT });
        }
        actions.push(Action::Out { port: PRIMARY_COMMAND, value: END_OF_INTERRUPT });
    }
    assert(views(final(actions)@) =~= views(old(actions)@) + acknowledgements(vector));
}

/// The interrupt lines of the PS/2 controller: keyboard and mouse.
pub const PS2_LINES: u16 = 0x1002;

/// The interrupt line of the first serial port.
pub const SERIAL_LINES: u16 = 0x0010;

/// The bytes of `file`.
pub open spec fn file_scheme() -> Seq<u8> {
    seq![0x66u8, 0x69u8, 0x6Cu8, 0x65u8]
}

/// The bytes of `http`.
pub open spec fn http_scheme() -> Seq<u8> {
    seq![0x68u8, 0x74u8, 0x74u8, 0x70u8]
}

/// The bytes of `memory`.
pub open spec fn memory_scheme() -> Seq<u8> {
    seq![0x6Du8, 0x65u8, 0x6Du8, 0x6Fu8, 0x72u8, 0x79u8]
}

/// The bytes of `pci`.
pub open spec fn pci_scheme() -> Seq<u8> {
    seq![0x70u8, 0x63u8, 0x69u8]
}

/// The bytes of `random`.
pub open spec fn random_scheme() -> Seq<u8> {
    seq![0x72u8, 0x61u8, 0x6Eu8, 0x64u8, 0x6Fu8, 0x6Du8]
}

/// The bytes of `file:///background.bmp`, the identifier of the image that
/// the kernel asks for at boot.
pub open spec fn background_identifier() -> Seq<u8> {
    file_scheme() + seq![
        0x3Au8, 0x2Fu8, 0x2Fu8, 0x2Fu8, 0x62u8, 0x61u8, 0x63u8, 0x6Bu8, 0x67u8, 0x72u8, 0x6Fu8,
        0x75u8, 0x6Eu8, 0x64u8, 0x2Eu8, 0x62u8, 0x6Du8, 0x70u8,
    ]
}

/// A module that resolves `scheme` and handles no interrupt.
pub open spec fn scheme_module(scheme: Seq<u8>) -> ModuleView {
    ModuleView { irqs: 0, scheme: Some(scheme) }
}

/// The scheme handlers that every boot registers, in this order.
pub open spec fn scheme_modules() -> Seq<ModuleView> {
    seq![
        scheme_module(file_scheme()),
        scheme_module(http_scheme()),
        scheme_module(memory_scheme()),
        scheme_module(pci_scheme()),
        scheme_module(random_scheme()),
    ]
}

/// What a trap leaves behind: the session after it, the outside work that is
/// due, and the continuation that was given up without being used, if any.
pub struct Outcome<C> {
    pub session: SessionView<C>,
    pub actions: Seq<ActionView>,
    pub discarded: Option<C>,
}

/// The fetch that a request asks for, if it was started.
pub open spec fn fetch_actions<C>(outcome: RequestOutcomeView<C>) -> Seq<ActionView> {
    match outcome {
        RequestOutcomeView::Started { module, ticket, path } => seq![
            ActionView::Fetch { module, ticket, path },
        ],
        _ => Seq::empty(),
    }
}

/// The callback of a continuation that a request gave back, if it holds one.
pub open spec fn unused_callback<C>(outcome: RequestOutcomeView<C>) -> Option<C> {
    match outcome {
        RequestOutcomeView::Unfocused(Continuation::Forward { callback, .. }) => Some(callback),
        RequestOutcomeView::Unresolved(Continuation::Forward { callback, .. }) => Some(callback),
        _ => None,
    }
}

/// The session right after the first half of the boot sequence: the file
/// manager is item 0 and has the focus, and the PS/2 controller and the
/// serial port are registered, in this order.
pub open spec fn booted<C>() -> SessionView<C> {
    SessionView {
        items: seq![ItemKind::FileManager],
        modules: seq![
            ModuleView { irqs: PS2_LINES, scheme: None },
            ModuleView { irqs: SERIAL_LINES, scheme: None },
        ],
        current_item: 0,
        background: Seq::empty(),
        identifiers: Seq::empty(),
        continuations: Seq::empty(),
        pending: Seq::empty(),
    }
}

/// The outside work of the first half of the boot sequence.
pub open spec fn boot_actions() -> Seq<ActionView> {
    seq![
        ActionView::BringUp(Device::Serial),
        ActionView::Report(DiagnosticView::WordSize(usize::BITS)),
        ActionView::BringUp(Device::Pages),
        ActionView::BringUp(Device::Clusters),
        ActionView::BringUp(Device::Keyboard),
        ActionView::BringUp(Device::Mouse),
        ActionView::Probe,
    ]
}

/// The second half of the boot sequence: the modules found on the bus are
/// registered, then the scheme handlers, and the background image is
/// requested.
pub open spec fn started<C>(before: SessionView<C>, discovered: Seq<ModuleView>) -> Outcome<C> {
    let registered = SessionView {
        modules: before.modules + discovered + scheme_modules(),
        ..before
    };
    let (after, outcome) = registered.request(background_identifier(), Continuation::Background);
    Outcome { session: after, actions: fetch_actions(outcome), discarded: None }
}

/// One turn of the idle loop: every module is polled, the display is
/// repainted, and the core sleeps with interrupts enabled until the next
/// interrupt has been handled.
pub open spec fn idle_actions<C>(session: SessionView<C>) -> Seq<ActionView> {
    session.poll_actions() + seq![
        ActionView::Redraw,
        ActionView::EnableInterrupts,
        ActionView::Halt,
        ActionView::DisableInterrupts,
    ]
}

/// The system call that requests a resource for the session: `ebx` names the
/// identifier and `ecx` the continuation.
///
/// The continuation is taken over first; its handle is used up whatever
/// follows. The request is then made on behalf of the item that has the
/// focus, and the continuation waits for the response together with that
/// item's index. Where it cannot be made, the continuation is given up.
pub open spec fn session_request<C>(before: SessionView<C>, registers: Registers) -> Outcome<C> {
    let taken = SessionView {
        continuations: released(before.continuations, registers.ecx as int),
        ..before
    };
    match lookup(before.continuations, registers.ecx as int) {
        None => Outcome {
            session: before,
            actions: seq![ActionView::Report(DiagnosticView::StaleContinuation(registers.ecx))],
            discarded: None,
        },
        Some(callback) => match lookup(before.identifiers, registers.ebx as int) {
            None => Outcome {
                session: taken,
                actions: seq![
                    ActionView::Report(DiagnosticView::UnknownIdentifier(registers.ebx)),
                ],
                discarded: Some(callback),
            },
            Some(identifier) => {
                let report = ActionView::Report(DiagnosticView::SessionRequest(identifier));
                if before.current_item < 0 {
                    Outcome { session: taken, actions: seq![report], discarded: Some(callback) }
                } else if before.current_item >= before.items.len() {
                    Outcome {
                        session: taken,
                        actions: seq![report, ActionView::Report(DiagnosticView::NoCurrentItem)],
                        discarded: Some(callback),
                    }
                } else {
                    let (after, outcome) = taken.request(
                        identifier,
                        Continuation::Forward { item: before.current_item as usize, callback },
                    );
                    Outcome {
                        session: after,
                        actions: seq![report] + fetch_actions(outcome),
                        discarded: unused_callback(outcome),
                    }
                }
            },
        },
    }
}

/// What the handler of `vector` does, before the interrupt is acknowledged.
pub open spec fn handling<C>(before: SessionView<C>, vector: u32, registers: Registers) -> Outcome<
    C,
> {
    let unchanged = |actions: Seq<ActionView>|
        Outcome { session: before, actions, discarded: None };
    if vector == BOOT {
        Outcome { session: booted(), actions: boot_actions(), discarded: None }
    } else if vector == SYSTEM_CALL {
        if registers.eax == SESSION_REQUEST {
            session_request(before, registers)
        } else {
            unchanged(seq![ActionView::Report(DiagnosticView::SystemCall(registers))])
        }
    } else if fault_text(vector).is_some() {
        unchanged(seq![ActionView::Report(DiagnosticView::Fault(vector))])
    } else if vector == IRQ_BASE {
        unchanged(Seq::empty())
    } else if forwarded_line(vector).is_some() {
        unchanged(before.irq_actions(forwarded_line(vector).unwrap()))
    } else {
        unchanged(seq![ActionView::Report(DiagnosticView::Interrupt(vector))])
    }
}

/// What a trap with vector `vector` does: the handling, then the
/// acknowledgement to the interrupt controllers.
pub open spec fn dispatch<C>(before: SessionView<C>, vector: u32, registers: Registers) -> Outcome<
    C,
> {
    let handled = handling(before, vector, registers);
    Outcome { actions: handled.actions + acknowledgements(vector), ..handled }
}

/// What a trap asks of the machine: the outside work that is due, in order,
/// and the continuation that was given up without being used, if any. The
/// kernel neither calls nor frees such a continuation; whoever receives it
/// decides whether to keep it alive or to let it go.
#[derive(Debug, PartialEq, Eq)]
pub struct Handled<C> {
    pub actions: Vec<Action>,
    pub discarded: Option<C>,
}

fn fetch<C>(outcome: RequestOutcome<C>, actions: &mut Vec<Action>) -> (unused: Option<C>)
    ensures
        views(final(actions)@) == views(old(actions)@) + fetch_actions(outcome@),
        unused == unused_callback(outcome@),
{
    let unused = match outcome {
        RequestOutcome::Started { module, ticket, path } => {
            actions.push(Action::Fetch { module, ticket, path });
            None
        },
        RequestOutcome::Unfocused(Continuation::Forward { item: _, callback }) => Some(callback),
        RequestOutcome::Unresolved(Continuation::Forward { item: _, callback }) => Some(callback),
        _ => None,
    };
    assert(views(final(actions)@) =~= views(old(actions)@) + fetch_actions(outcome@));
    unused
}

fn system_call<C>(session: &mut Session<C>, registers: Registers) -> (handled: Handled<C>)
    ensures
        final(session)@ == session_request(old(session)@, registers).session,
        views(handled.actions@) == session_request(old(session)@, registers).actions,
        handled.discarded == session_request(old(session)@, registers).discarded,
{
    let mut actions: Vec<Action> = Vec::new();
    let callback = match session.reconstitute(registers.ecx) {
        None => {
            actions.push(Action::Report(Diagnostic::StaleContinuation(registers.ecx)));
            assert(released(old(session)@.continuations, registers.ecx as int) =~= old(
                session,
            )@.continuations);
            assert(views(actions@) =~= session_request(old(session)@, registers).actions);
            return Handled { actions, discarded: None };
        },
        Some(callback) => callback,
    };
    let identifier = match session.identifier(registers.ebx) {
        None => {
            actions.push(Action::Report(Diagnostic::UnknownIdentifier(registers.ebx)));
            assert(views(actions@) =~= session_request(old(session)@, registers).actions);
            return Handled { actions, discarded: Some(callback) };
        },
        Some(bytes) => copy(bytes.as_slice()),
    };
    actions.push(Action::Report(Diagnostic::SessionRequest(copy(identifier.as_slice()))));
    let ghost report = ActionView::Report(DiagnosticView::SessionRequest(identifier@));
    assert(views(actions@) =~= seq![report]);
    let current = session.current_item();
    if current < 0 {
        return Handled { actions, discarded: Some(callback) };
    }
    if current as usize >= session.item_count() {
        actions.push(Action::Report(Diagnostic::NoCurrentItem));
        assert(views(actions@) =~= seq![
            report,
            ActionView::Report(DiagnosticView::NoCurrentItem),
        ]);
        return Handled { actions, discarded: Some(callback) };
    }
    let outcome = session.request(
        identifier.as_slice(),
        Continuation::Forward { item: current as usize, callback },
    );
    let discarded = fetch(outcome, &mut actions);
    Handled { actions, discarded }
}

/// Handles the trap with vector `interrupt`, taken with the registers
/// `registers`, and says which outside work is due.
///
/// A named CPU exception is reported. A hardware interrupt runs the handlers
/// of the modules that claim its line and is then acknowledged: to the
/// primary controller always, and before that to the secondary controller
/// for the lines behind the cascade. A system call is decoded from the
/// registers. The boot vector starts the boot sequence afresh. Every other
/// vector is reported with its number.
pub fn kernel<C>(session: &mut Session<C>, interrupt: u32, registers: Registers) -> (handled:
    Handled<C>)
    ensures
        final(session)@ == dispatch(old(session)@, interrupt, registers).session,
        views(handled.actions@) == dispatch(old(session)@, interrupt, registers).actions,
        handled.discarded == dispatch(old(session)@, interrupt, registers).discarded,
{
    let mut handled = if interrupt == BOOT {
        Handled { actions: init(session), discarded: None }
    } else if interrupt == SYSTEM_CALL {
        if registers.eax == SESSION_REQUEST {
            system_call(session, registers)
        } else {
            let mut actions: Vec<Action> = Vec::new();
            actions.push(Action::Report(Diagnostic::SystemCall(registers)));
            assert(views(actions@) =~= seq![
                ActionView::Report(DiagnosticView::SystemCall(registers)),
            ]);
            Handled { actions, discarded: None }
        }
    } else if fault_name(interrupt).is_some() {
        let mut actions: Vec<Action> = Vec::new();
        actions.push(Action::Report(Diagnostic::Fault(interrupt)));
        assert(views(actions@) =~= seq![ActionView::Report(DiagnosticView::Fault(interrupt))]);
        Handled { actions, discarded: None }
    } else if interrupt == IRQ_BASE {
        let actions: Vec<Action> = Vec::new();
        assert(views(actions@) =~= Seq::empty());
        Handled { actions, discarded: None }
    } else {
        match irq_line(interrupt) {
            Some(line) => Handled { actions: session.on_irq(line), discarded: None },
            None => {
                let mut actions: Vec<Action> = Vec::new();
                actions.push(Action::Report(Diagnostic::Interrupt(interrupt)));
                assert(views(actions@) =~= seq![
                    ActionView::Report(DiagnosticView::Interrupt(interrupt)),
                ]);
                Handled { actions, discarded: None }
            },
        }
    };
    acknowledge(&mut handled.actions, interrupt);
    handled
}

/// The first half of the boot sequence. Whatever the session held is given
/// up: it starts afresh with the file manager as item 0, which gets the
/// focus, and with the PS/2 controller and the serial port as its first
/// modules. The actions bring the machine up and end with the probe of the
/// bus, whose findings go to `start`.
pub fn init<C>(session: &mut Session<C>) -> (actions: Vec<Action>)
    ensures
        final(session)@ == booted::<C>(),
        views(actions@) == boot_actions(),
{
    *session = Session::new();
    session.add_item(ItemKind::FileManager);
    session.focus(0);
    session.register(Module::driver(PS2_LINES));
    session.register(Module::driver(SERIAL_LINES));
    assert(session@.items =~= booted::<C>().items);
    assert(session@.modules =~= booted::<C>().modules);
    let mut actions: Vec<Action> = Vec::new();
    actions.push(Action::BringUp(Device::Serial));
    actions.push(Action::Report(Diagnostic::WordSize(usize::BITS)));
    actions.push(Action::BringUp(Device::Pages));
    actions.push(Action::BringUp(Device::Clusters));
    actions.push(Action::BringUp(Device::Keyboard));
    actions.push(Action::BringUp(Device::Mouse));
    actions.push(Action::Probe);
    assert(views(actions@) =~= boot_actions());
    actions
}

fn file_name() -> (name: Vec<u8>)
    ensures
        name@ == file_scheme(),
{
    vec![0x66u8, 0x69u8, 0x6Cu8, 0x65u8]
}

fn http_name() -> (name: Vec<u8>)
    ensures
        name@ == http_scheme(),
{
    vec![0x68u8, 0x74u8, 0x74u8, 0x70u8]
}

fn memory_name() -> (name: Vec<u8>)
    ensures
        name@ == memory_scheme(),
{
    vec![0x6Du8, 0x65u8, 0x6Du8, 0x6Fu8, 0x72u8, 0x79u8]
}

fn pci_name() -> (name: Vec<u8>)
    ensures
        name@ == pci_scheme(),
{
    vec![0x70u8, 0x63u8, 0x69u8]
}

fn random_name() -> (name: Vec<u8>)
    ensures
        name@ == random_scheme(),
{
    vec![0x72u8, 0x61u8, 0x6Eu8, 0x64u8, 0x6Fu8, 0x6Du8]
}

fn background_name() -> (name: Vec<u8>)
    ensures
        name@ == background_identifier(),
{
    let name = vec![
        0x66u8, 0x69u8, 0x6Cu8, 0x65u8, 0x3Au8, 0x2Fu8, 0x2Fu8, 0x2Fu8, 0x62u8, 0x61u8, 0x63u8,
        0x6Bu8, 0x67u8, 0x72u8, 0x6Fu8, 0x75u8, 0x6Eu8, 0x64u8, 0x2Eu8, 0x62u8, 0x6Du8, 0x70u8,
    ];
    assert(name@ =~= background_identifier());
    name
}

/// The second half of the boot sequence, after the bus has been probed. The
/// modules in `discovered` are registered in their order, then the handlers
/// of the schemes `file`, `http`, `memory`, `pci` and `random`, and the
/// kernel requests the background image `file:///background.bmp` for itself.
pub fn start<C>(session: &mut Session<C>, discovered: Vec<Module>) -> (actions: Vec<Action>)
    ensures
        final(session)@ == started(
            old(session)@,
            discovered@.map_values(|module: Module| module@),
        ).session,
        views(actions@) == started(
            old(session)@,
            discovered@.map_values(|module: Module| module@),
        ).actions,
{
    let ghost found = discovered@.map_values(|module: Module| module@);
    let ghost before = old(session)@;
    session.register_all(discovered);
    session.register(Module::scheme(file_name()));
    session.register(Module::scheme(http_name()));
    session.register(Module::scheme(memory_name()));
    session.register(Module::scheme(pci_name()));
    session.register(Module::scheme(random_name()));
    assert(session@.modules =~= before.modules + found + scheme_modules());
    let identifier = background_name();
    let outcome = session.request(identifier.as_slice(), Continuation::Background);
    let mut actions: Vec<Action> = Vec::new();
    assert(views(actions@) =~= Seq::empty());
    fetch(outcome, &mut actions);
    actions
}

/// One turn of the idle loop, the only place where interrupts are enabled:
/// one poll of the modules, one repaint, then interrupts are unmasked, the
/// core waits for the next interrupt, and interrupts are masked again.
pub fn idle<C>(session: &Session<C>) -> (actions: Vec<Action>)
    ensures
        views(actions@) == idle_actions(session@),
{
    let mut actions = session.on_poll();
    let ghost polls = actions@;
    actions.push(Action::Redraw);
    actions.push(Action::EnableInterrupts);
    actions.push(Action::Halt);
    actions.push(Action::DisableInterrupts);
    assert(views(actions@) =~= views(polls) + seq![
        ActionView::Redraw,
        ActionView::EnableInterrupts,
        ActionView::Halt,
        ActionView::DisableInterrupts,
    ]);
    actions
}

/// The outside work after an internal fault raised at `line` of `file`.
pub open spec fn panic_actions(file: Seq<char>, line: u32) -> Seq<ActionView> {
    seq![
        ActionView::Report(DiagnosticView::Panic { file, line }),
        ActionView::DisableInterrupts,
        ActionView::Halt,
        ActionView::Hang,
    ]
}

/// The kernel's reaction to an internal fault raised at `line` of `file`: the
/// place is reported, interrupts are masked for good, and the core is halted
/// and never resumes.
pub fn panic_fmt(file: &str, line: u32) -> (actions: Vec<Action>)
    ensures
        views(actions@) == panic_actions(file@, line),
{
    let mut actions: Vec<Action> = Vec::new();
    actions.push(Action::Report(Diagnostic::Panic { file: file.to_owned(), line }));
    actions.push(Action::DisableInterrupts);
    actions.push(Action::Halt);
    actions.push(Action::Hang);
    assert(views(actions@) =~= panic_actions(file@, line));
    actions
}

} // verus!
