//! The wording of the lines that the kernel puts on the debug channel.
//!
//! The channel takes text, numbers and raw bytes; how a number looks on the
//! wire is the channel's own business. A diagnostic is rendered as the
//! fragments to write, in order.

use vstd::prelude::*;
use crate::action::{Diagnostic, DiagnosticView};
use crate::common::bytes::copy;
use crate::trap::{fault_name, fault_text};

verus! {

/// One write to the debug channel.
#[derive(Debug, PartialEq, Eq)]
pub enum Fragment {
    /// A piece of text.
    Text(String),
    /// A number, to be written in hexadecimal.
    Hex(u32),
    /// A number, to be written in decimal.
    Decimal(u32),
    /// Bytes, to be written as they are.
    Bytes(Vec<u8>),
    /// The end of the line.
    Line,
}

/// A fragment as specifications see it.
pub enum FragmentView {
    Text(Seq<char>),
    Hex(u32),
    Decimal(u32),
    Bytes(Seq<u8>),
    Line,
}

impl View for Fragment {
    type V = FragmentView;

    open spec fn view(&self) -> FragmentView {
        match *self {
            Fragment::Text(text) => FragmentView::Text(text@),
            Fragment::Hex(number) => FragmentView::Hex(number),
            Fragment::Decimal(number) => FragmentView::Decimal(number),
            Fragment::Bytes(bytes) => FragmentView::Bytes(bytes@),
            Fragment::Line => FragmentView::Line,
        }
    }
}

/// A list of fragments as specifications see it.
pub open spec fn fragment_views(fragments: Seq<Fragment>) -> Seq<FragmentView> {
    fragments.map_values(|fragment: Fragment| fragment@)
}

/// The line `label`, the number in hexadecimal, end of line.
pub open spec fn numbered(label: Seq<char>, number: u32) -> Seq<FragmentView> {
    seq![FragmentView::Text(label), FragmentView::Hex(number), FragmentView::Line]
}

/// The fragments that make up the line for `diagnostic`.
pub open spec fn rendered(diagnostic: DiagnosticView) -> Seq<FragmentView> {
    match diagnostic {
        DiagnosticView::WordSize(bits) => seq![
            FragmentView::Decimal(bits),
            FragmentView::Text(" bits"@),
            FragmentView::Line,
        ],
        DiagnosticView::Fault(vector) => match fault_text(vector) {
            Some(name) => seq![FragmentView::Text(name)],
            None => numbered("I: "@, vector),
        },
        DiagnosticView::Interrupt(vector) => numbered("I: "@, vector),
        DiagnosticView::SystemCall(registers) => seq![
            FragmentView::Text("System Call"@),
            FragmentView::Text(" EAX:"@),
            FragmentView::Hex(registers.eax),
            FragmentView::Text(" EBX:"@),
            FragmentView::Hex(registers.ebx),
            FragmentView::Text(" ECX:"@),
            FragmentView::Hex(registers.ecx),
            FragmentView::Text(" EDX:"@),
            FragmentView::Hex(registers.edx),
            FragmentView::Line,
        ],
        DiagnosticView::SessionRequest(identifier) => seq![
            FragmentView::Text("Session Request: "@),
            FragmentView::Bytes(identifier),
            FragmentView::Line,
        ],
        DiagnosticView::NoCurrentItem => seq![
            FragmentView::Text("Failed to find current item\n"@),
        ],
        DiagnosticView::DowncastFailed => seq![FragmentView::Text("Failed to downcast\n"@)],
        DiagnosticView::StaleContinuation(handle) => numbered(
            "Failed to find continuation: "@,
            handle,
        ),
        DiagnosticView::UnknownIdentifier(handle) => numbered(
            "Failed to find identifier: "@,
            handle,
        ),
        DiagnosticView::Panic { file, line } => seq![
            FragmentView::Text("PANIC: "@),
            FragmentView::Text(file),
            FragmentView::Text(": "@),
            FragmentView::Hex(line),
            FragmentView::Line,
        ],
    }
}

fn text(words: &str) -> (fragment: Fragment)
    ensures
        fragment@ == FragmentView::Text(words@),
{
    Fragment::Text(words.to_owned())
}

fn number_line(label: &str, number: u32) -> (fragments: Vec<Fragment>)
    ensures
        fragment_views(fragments@) == numbered(label@, number),
{
    let fragments = vec![text(label), Fragment::Hex(number), Fragment::Line];
    assert(fragment_views(fragments@) =~= numbered(label@, number));
    fragments
}

/// Renders `diagnostic` as the fragments to write to the debug channel.
pub fn render(diagnostic: &Diagnostic) -> (fragments: Vec<Fragment>)
    ensures
        fragment_views(fragments@) == rendered(diagnostic@),
{
    let fragments = match diagnostic {
        Diagnostic::WordSize(bits) => vec![Fragment::Decimal(*bits), text(" bits"), Fragment::Line],
        Diagnostic::Fault(vector) => match fault_name(*vector) {
            Some(name) => vec![text(name)],
            None => number_line("I: ", *vector),
        },
        Diagnostic::Interrupt(vector) => number_line("I: ", *vector),
        Diagnostic::SystemCall(registers) => vec![
            text("System Call"),
            text(" EAX:"),
            Fragment::Hex(registers.eax),
            text(" EBX:"),
            Fragment::Hex(registers.ebx),
            text(" ECX:"),
            Fragment::Hex(registers.ecx),
            text(" EDX:"),
            Fragment::Hex(registers.edx),
            Fragment::Line,
        ],
        Diagnostic::SessionRequest(identifier) => vec![
            text("Session Request: "),
            Fragment::Bytes(copy(identifier.as_slice())),
            Fragment::Line,
        ],
        Diagnostic::NoCurrentItem => vec![text("Failed to find current item\n")],
        Diagnostic::DowncastFailed => vec![text("Failed to downcast\n")],
        Diagnostic::StaleContinuation(handle) => number_line(
            "Failed to find continuation: ",
            *handle,
        ),
        Diagnostic::UnknownIdentifier(handle) => number_line(
            "Failed to find identifier: ",
            *handle,
        ),
        Diagnostic::Panic { file, line } => vec![
            text("PANIC: "),
            text(file.as_str()),
            text(": "),
            Fragment::Hex(*line),
            Fragment::Line,
        ],
    };
    assert(fragment_views(fragments@) =~= rendered(diagnostic@));
    fragments
}

} // verus!
