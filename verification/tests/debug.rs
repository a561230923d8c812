use kernel::action::{Diagnostic, Registers};
use kernel::common::bytes::copy;
use kernel::debug::{render, Fragment};

fn text(words: &str) -> Fragment {
    Fragment::Text(String::from(words))
}

#[test]
fn copy_keeps_the_bytes() {
    assert_eq!(copy(b"file:///a"), b"file:///a".to_vec());
    assert_eq!(copy(b""), Vec::<u8>::new());
}

#[test]
fn the_word_size_is_written_in_decimal() {
    assert_eq!(
        render(&Diagnostic::WordSize(32)),
        vec![Fragment::Decimal(32), text(" bits"), Fragment::Line]
    );
}

#[test]
fn a_named_fault_is_written_by_its_name() {
    assert_eq!(render(&Diagnostic::Fault(0xE)), vec![text("Page fault\n")]);
    assert_eq!(render(&Diagnostic::Fault(0x0)), vec![text("Divide by zero exception\n")]);
    assert_eq!(render(&Diagnostic::Fault(0x8)), vec![text("Double fault\n")]);
}

#[test]
fn a_vector_without_name_is_written_by_its_number() {
    let expected = vec![text("I: "), Fragment::Hex(0x22), Fragment::Line];
    assert_eq!(render(&Diagnostic::Interrupt(0x22)), expected);
    let expected = vec![text("I: "), Fragment::Hex(0x9), Fragment::Line];
    assert_eq!(render(&Diagnostic::Fault(0x9)), expected);
}

#[test]
fn an_unknown_system_call_is_written_with_all_registers() {
    let registers = Registers { eax: 2, ebx: 0xB, ecx: 0xC, edx: 0xD };
    assert_eq!(
        render(&Diagnostic::SystemCall(registers)),
        vec![
            text("System Call"),
            text(" EAX:"),
            Fragment::Hex(2),
            text(" EBX:"),
            Fragment::Hex(0xB),
            text(" ECX:"),
            Fragment::Hex(0xC),
            text(" EDX:"),
            Fragment::Hex(0xD),
            Fragment::Line,
        ]
    );
}

#[test]
fn a_session_request_is_written_with_its_identifier() {
    assert_eq!(
        render(&Diagnostic::SessionRequest(b"file:///a".to_vec())),
        vec![text("Session Request: "), Fragment::Bytes(b"file:///a".to_vec()), Fragment::Line]
    );
}

#[test]
fn failures_are_written_in_words() {
    assert_eq!(render(&Diagnostic::NoCurrentItem), vec![text("Failed to find current item\n")]);
    assert_eq!(render(&Diagnostic::DowncastFailed), vec![text("Failed to downcast\n")]);
    assert_eq!(
        render(&Diagnostic::StaleContinuation(7)),
        vec![text("Failed to find continuation: "), Fragment::Hex(7), Fragment::Line]
    );
    assert_eq!(
        render(&Diagnostic::UnknownIdentifier(9)),
        vec![text("Failed to find identifier: "), Fragment::Hex(9), Fragment::Line]
    );
}

#[test]
fn a_panic_is_written_with_its_place() {
    assert_eq!(
        render(&Diagnostic::Panic { file: String::from("src/kernel.rs"), line: 0x2A }),
        vec![
            text("PANIC: "),
            text("src/kernel.rs"),
            text(": "),
            Fragment::Hex(0x2A),
            Fragment::Line,
        ]
    );
}
