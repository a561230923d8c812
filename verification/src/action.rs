//! What the kernel asks of the machine around it.
//!
//! The core decides; it never touches a port, a driver or the debug channel
//! itself. Each entry point returns the outside work that is due as a list of
//! actions, to be carried out in order.

use vstd::prelude::*;

verus! {

/// The four general-purpose registers as they stood when a trap was taken.
#[derive(Clone, Copy, PartialEq, Eq, Structural, Debug)]
pub struct Registers {
    pub eax: u32,
    pub ebx: u32,
    pub ecx: u32,
    pub edx: u32,
}

/// The parts of the machine that are brought up once, at boot.
#[derive(Clone, Copy, PartialEq, Eq, Structural, Debug)]
pub enum Device {
    Serial,
    Pages,
    Clusters,
    Keyboard,
    Mouse,
}

/// A line for the debug channel.
#[derive(Debug, PartialEq, Eq)]
pub enum Diagnostic {
    /// The width of a machine word in bits, reported once at boot.
    WordSize(u32),
    /// A CPU exception that has a name; `fault_name` gives the text.
    Fault(u32),
    /// A trap that nothing handles, with its vector.
    Interrupt(u32),
    /// A system call with an unknown number, with all four registers.
    SystemCall(Registers),
    /// A session request, with the identifier asked for.
    SessionRequest(Vec<u8>),
    /// The session's current item is set but names no item.
    NoCurrentItem,
    /// A response came back for an item that cannot take it.
    DowncastFailed,
    /// A session request named a continuation that is not, or no longer, on offer.
    StaleContinuation(u32),
    /// A session request named an identifier that was never published.
    UnknownIdentifier(u32),
    /// An internal fault, with the source location it was raised at.
    Panic { file: String, line: u32 },
}

/// A diagnostic as specifications see it.
pub enum DiagnosticView {
    WordSize(u32),
    Fault(u32),
    Interrupt(u32),
    SystemCall(Registers),
    SessionRequest(Seq<u8>),
    NoCurrentItem,
    DowncastFailed,
    StaleContinuation(u32),
    UnknownIdentifier(u32),
    Panic { file: Seq<char>, line: u32 },
}

impl View for Diagnostic {
    type V = DiagnosticView;

    open spec fn view(&self) -> DiagnosticView {
        match *self {
            Diagnostic::WordSize(bits) => DiagnosticView::WordSize(bits),
            Diagnostic::Fault(vector) => DiagnosticView::Fault(vector),
            Diagnostic::Interrupt(vector) => DiagnosticView::Interrupt(vector),
            Diagnostic::SystemCall(registers) => DiagnosticView::SystemCall(registers),
            Diagnostic::SessionRequest(identifier) => DiagnosticView::SessionRequest(identifier@),
            Diagnostic::NoCurrentItem => DiagnosticView::NoCurrentItem,
            Diagnostic::DowncastFailed => DiagnosticView::DowncastFailed,
            Diagnostic::StaleContinuation(handle) => DiagnosticView::StaleContinuation(handle),
            Diagnostic::UnknownIdentifier(handle) => DiagnosticView::UnknownIdentifier(handle),
            Diagnostic::Panic { file, line } => DiagnosticView::Panic { file: file@, line },
        }
    }
}

/// One piece of outside work.
#[derive(Debug, PartialEq, Eq)]
pub enum Action {
    /// Write a line to the debug channel.
    Report(Diagnostic),
    /// Bring up a part of the machine.
    BringUp(Device),
    /// Enumerate the devices on the bus and hand what was found to `start`.
    Probe,
    /// Run the interrupt handler of the module with this index.
    Irq { module: usize, line: u8 },
    /// Let the module with this index advance the fetches it is serving.
    Poll { module: usize },
    /// Have the module with this index start fetching `path`; its response
    /// comes back under `ticket`.
    Fetch { module: usize, ticket: usize, path: Vec<u8> },
    /// Repaint the display.
    Redraw,
    /// Unmask interrupts.
    EnableInterrupts,
    /// Suspend the core until the next interrupt.
    Halt,
    /// Mask interrupts.
    DisableInterrupts,
    /// Write `value` to the I/O port `port`.
    Out { port: u16, value: u8 },
    /// Spin forever.
    Hang,
}

/// An action as specifications see it.
pub enum ActionView {
    Report(DiagnosticView),
    BringUp(Device),
    Probe,
    Irq { module: usize, line: u8 },
    Poll { module: usize },
    Fetch { module: usize, ticket: usize, path: Seq<u8> },
    Redraw,
    EnableInterrupts,
    Halt,
    DisableInterrupts,
    Out { port: u16, value: u8 },
    Hang,
}

impl View for Action {
    type V = ActionView;

    open spec fn view(&self) -> ActionView {
        match *self {
            Action::Report(diagnostic) => ActionView::Report(diagnostic@),
            Action::BringUp(device) => ActionView::BringUp(device),
            Action::Probe => ActionView::Probe,
            Action::Irq { module, line } => ActionView::Irq { module, line },
            Action::Poll { module } => ActionView::Poll { module },
            Action::Fetch { module, ticket, path } => ActionView::Fetch {
                module,
                ticket,
                path: path@,
            },
            Action::Redraw => ActionView::Redraw,
            Action::EnableInterrupts => ActionView::EnableInterrupts,
            Action::Halt => ActionView::Halt,
            Action::DisableInterrupts => ActionView::DisableInterrupts,
            Action::Out { port, value } => ActionView::Out { port, value },
            Action::Hang => ActionView::Hang,
        }
    }
}

/// A list of actions as specifications see it.
pub open spec fn views(actions: Seq<Action>) -> Seq<ActionView> {
    actions.map_values(|action: Action| action@)
}

/// Appending an action appends its view.
pub proof fn lemma_views_push(actions: Seq<Action>, action: Action)
    ensures
        views(actions.push(action)) == views(actions).push(action@),
{
    assert(views(actions.push(action)) =~= views(actions).push(action@));
}

} // verus!
