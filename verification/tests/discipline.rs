use pty_discipline::attributes::{Attributes, Modes};
use pty_discipline::discipline::matches_char;
use pty_discipline::event::{Action, ControlEvent};
use pty_discipline::session::Pty;
use redox_termios::{
    ECHO, ECHOE, ECHONL, ICANON, ICRNL, IEXTEN, IGNCR, INLCR, ISIG, IXON, VDISCARD, VEOF, VEOL,
    VEOL2, VERASE, VINTR, VKILL, VLNEXT, VMIN, VQUIT, VREPRINT, VSTART, VSTOP, VSUSP, VWERASE,
};

fn session(iflag: u32, lflag: u32, chars: &[(usize, u8)]) -> Pty {
    let mut cc = [0u8; 32];
    for &(slot, ch) in chars {
        cc[slot] = ch;
    }
    let mut pty = Pty::new(1);
    pty.set_attr(Attributes { iflag, oflag: 0, cflag: 0, lflag, cc });
    pty
}

fn drain_all(pty: &mut Pty) -> Vec<Vec<u8>> {
    let mut out = Vec::new();
    while let Some(entry) = pty.drain() {
        out.push(entry);
    }
    out
}

fn echoes(bytes: &[u8]) -> Vec<ControlEvent> {
    bytes.iter().map(|&b| ControlEvent::Echo(b)).collect()
}

#[test]
fn canonical_line_ends_at_carriage_return() {
    let mut pty = session(ICRNL, ICANON | ECHO, &[]);
    let events = pty.consume(b"hello\r");
    assert_eq!(pty.pending(), 1);
    assert_eq!(pty.drain(), Some(b"hello\n".to_vec()));
    assert!(pty.cooked().is_empty());
    assert_eq!(events, echoes(b"hello\n"));
    assert_eq!(pty.drain(), None);
}

#[test]
fn fresh_session_cooks_a_line() {
    let mut pty = Pty::new(0);
    let events = pty.consume(b"hello\r");
    assert_eq!(drain_all(&mut pty), vec![b"hello\n".to_vec()]);
    assert!(pty.cooked().is_empty());
    assert_eq!(events, echoes(b"hello\n"));
}

#[test]
fn erase_removes_the_last_byte() {
    let mut pty = session(0, ICANON, &[(VERASE, 0x7f)]);
    pty.consume(b"hel");
    assert_eq!(pty.cooked(), b"hel");
    let events = pty.consume(b"\x7f");
    assert_eq!(pty.cooked(), b"he");
    assert_eq!(pty.pending(), 0);
    assert!(events.is_empty());
    pty.consume(b"y");
    assert_eq!(pty.pending(), 0);
    pty.consume(b"\n");
    assert_eq!(drain_all(&mut pty), vec![b"hey\n".to_vec()]);
    assert!(pty.cooked().is_empty());
}

#[test]
fn erase_on_an_empty_line_is_consumed() {
    let mut pty = session(0, ICANON | ECHOE, &[(VERASE, 0x7f)]);
    let events = pty.consume(b"\x7f\x7f");
    assert!(pty.cooked().is_empty());
    assert_eq!(pty.pending(), 0);
    assert!(events.is_empty());
    let events = pty.consume(b"a\x7f\x7f");
    assert!(pty.cooked().is_empty());
    assert_eq!(events, vec![ControlEvent::EchoErase]);
}

#[test]
fn erase_echo_needs_echoe() {
    let mut pty = session(0, ICANON | ECHO, &[(VERASE, 0x08)]);
    let events = pty.consume(b"ab\x08");
    assert_eq!(pty.cooked(), b"a");
    assert_eq!(events, echoes(b"ab"));
    let mut pty = session(0, ICANON | ECHO | ECHOE, &[(VERASE, 0x08)]);
    let events = pty.consume(b"ab\x08");
    assert_eq!(pty.cooked(), b"a");
    assert_eq!(
        events,
        vec![ControlEvent::Echo(b'a'), ControlEvent::Echo(b'b'), ControlEvent::EchoErase]
    );
}

#[test]
fn raw_mode_waits_for_the_threshold() {
    let mut pty = session(0, 0, &[(VMIN, 3)]);
    pty.consume(b"ab");
    assert_eq!(pty.pending(), 0);
    assert_eq!(pty.cooked(), b"ab");
    pty.consume(b"c");
    assert_eq!(pty.pending(), 1);
    assert_eq!(pty.drain(), Some(b"abc".to_vec()));
    assert!(pty.cooked().is_empty());
}

#[test]
fn raw_mode_releases_the_whole_input_as_one_chunk() {
    let mut pty = session(0, 0, &[(VMIN, 3)]);
    pty.consume(b"abcdefg\n\rxyz");
    assert_eq!(drain_all(&mut pty), vec![b"abcdefg\n\rxyz".to_vec()]);
    assert!(pty.cooked().is_empty());
}

#[test]
fn raw_mode_with_zero_threshold_releases_an_empty_chunk() {
    let mut pty = session(0, 0, &[]);
    pty.consume(b"");
    assert_eq!(drain_all(&mut pty), vec![Vec::<u8>::new()]);
    pty.consume(b"a");
    assert_eq!(drain_all(&mut pty), vec![b"a".to_vec()]);
}

#[test]
fn canonical_mode_does_not_release_on_empty_input() {
    let mut pty = session(0, ICANON, &[]);
    let events = pty.consume(b"");
    assert_eq!(pty.pending(), 0);
    assert!(events.is_empty());
    pty.consume(b"abc");
    assert_eq!(pty.pending(), 0);
    assert_eq!(pty.cooked(), b"abc");
}

#[test]
fn ignored_carriage_return_leaves_no_trace() {
    let mut pty = session(IGNCR, ICANON | ECHO, &[]);
    let events = pty.consume(b"\r");
    assert_eq!(pty.pending(), 0);
    assert!(pty.cooked().is_empty());
    assert!(events.is_empty());
    let events = pty.consume(b"a\rb");
    assert_eq!(pty.cooked(), b"ab");
    assert_eq!(events, echoes(b"ab"));
}

#[test]
fn ignored_carriage_return_in_raw_mode() {
    let mut pty = session(IGNCR | ICRNL, 0, &[(VMIN, 1)]);
    pty.consume(b"\r");
    assert_eq!(pty.pending(), 0);
    assert!(pty.cooked().is_empty());
    pty.consume(b"x\ry");
    assert_eq!(drain_all(&mut pty), vec![b"xy".to_vec()]);
}

#[test]
fn line_feed_becomes_carriage_return_under_inlcr() {
    let mut pty = session(INLCR, ICANON, &[]);
    pty.consume(b"ab\n");
    assert_eq!(pty.pending(), 0);
    assert_eq!(pty.cooked(), b"ab\r");
}

#[test]
fn translated_line_feed_is_not_translated_back() {
    let mut pty = session(INLCR | ICRNL, ICANON, &[]);
    pty.consume(b"a\n");
    assert_eq!(pty.pending(), 0);
    assert_eq!(pty.cooked(), b"a\r");
    pty.consume(b"b\r");
    assert_eq!(drain_all(&mut pty), vec![b"a\rb\n".to_vec()]);
}

#[test]
fn carriage_return_stays_without_icrnl() {
    let mut pty = session(0, ICANON, &[]);
    pty.consume(b"a\r");
    assert_eq!(pty.pending(), 0);
    assert_eq!(pty.cooked(), b"a\r");
}

#[test]
fn several_lines_come_out_in_order() {
    let mut pty = session(ICRNL, ICANON, &[]);
    pty.consume(b"one\rtwo\nthr");
    pty.consume(b"ee\r\rtail");
    assert_eq!(
        drain_all(&mut pty),
        vec![b"one\n".to_vec(), b"two\n".to_vec(), b"three\n".to_vec(), b"\n".to_vec()]
    );
    assert_eq!(pty.cooked(), b"tail");
}

#[test]
fn end_of_file_releases_the_line_without_its_byte() {
    let mut pty = session(0, ICANON | ECHO, &[(VEOF, 0x04)]);
    let events = pty.consume(b"ab\x04");
    assert_eq!(drain_all(&mut pty), vec![b"ab".to_vec()]);
    assert!(pty.cooked().is_empty());
    assert_eq!(events, echoes(b"ab"));
    pty.consume(b"\x04");
    assert_eq!(drain_all(&mut pty), vec![Vec::<u8>::new()]);
}

#[test]
fn extra_end_of_line_characters_end_a_line() {
    let mut pty = session(0, ICANON | ECHO, &[(VEOL, b';'), (VEOL2, b'|')]);
    let events = pty.consume(b"a;b|c");
    assert_eq!(drain_all(&mut pty), vec![b"a;".to_vec(), b"b|".to_vec()]);
    assert_eq!(pty.cooked(), b"c");
    assert_eq!(events, echoes(b"a;b|c"));
}

#[test]
fn line_feed_echo_with_echonl_alone() {
    let mut pty = session(0, ICANON | ECHONL, &[(VEOL, b';')]);
    let events = pty.consume(b"a\nb;");
    assert_eq!(drain_all(&mut pty), vec![b"a\n".to_vec(), b"b;".to_vec()]);
    assert_eq!(events, vec![ControlEvent::Echo(b'\n')]);
}

#[test]
fn editing_characters_need_iexten() {
    let chars = [(VWERASE, 0x17), (VKILL, 0x15), (VREPRINT, 0x12)];
    let mut pty = session(0, ICANON | IEXTEN, &chars);
    let events = pty.consume(b"ab\x17\x15\x12");
    assert_eq!(pty.cooked(), b"ab");
    assert_eq!(
        events,
        vec![ControlEvent::WordErase, ControlEvent::KillLine, ControlEvent::Reprint]
    );
    let mut pty = session(0, ICANON, &chars);
    let events = pty.consume(b"ab\x17\x15\x12");
    assert_eq!(pty.cooked(), b"ab\x17\x15\x12");
    assert!(events.is_empty());
}

#[test]
fn editing_characters_are_literal_in_raw_mode() {
    let chars = [
        (VEOF, 0x04),
        (VEOL, b';'),
        (VERASE, 0x7f),
        (VWERASE, 0x17),
        (VKILL, 0x15),
        (VREPRINT, 0x12),
        (VMIN, 200),
    ];
    let mut pty = session(0, IEXTEN, &chars);
    let events = pty.consume(b"a\x04;\x7f\x17\x15\x12\n");
    assert_eq!(pty.cooked(), b"a\x04;\x7f\x17\x15\x12\n");
    assert_eq!(pty.pending(), 0);
    assert!(events.is_empty());
}

#[test]
fn signal_characters_need_isig() {
    let chars = [(VINTR, 0x03), (VQUIT, 0x1c), (VSUSP, 0x1a), (VMIN, 100)];
    let mut pty = session(0, ISIG, &chars);
    let events = pty.consume(b"a\x03b\x1c\x1a");
    assert_eq!(pty.cooked(), b"ab");
    assert_eq!(
        events,
        vec![ControlEvent::Interrupt, ControlEvent::Quit, ControlEvent::Suspend]
    );
    let mut pty = session(0, 0, &chars);
    let events = pty.consume(b"a\x03b\x1c\x1a");
    assert_eq!(pty.cooked(), b"a\x03b\x1c\x1a");
    assert!(events.is_empty());
}

#[test]
fn flow_control_needs_ixon_among_the_input_flags() {
    let chars = [(VSTART, 0x11), (VSTOP, 0x13), (VMIN, 100)];
    let mut pty = session(IXON, 0, &chars);
    let events = pty.consume(b"\x13a\x11");
    assert_eq!(pty.cooked(), b"a");
    assert_eq!(events, vec![ControlEvent::Stop, ControlEvent::Start]);
    let mut pty = session(0, IXON, &chars);
    let events = pty.consume(b"\x13a\x11");
    assert_eq!(pty.cooked(), b"\x13a\x11");
    assert!(events.is_empty());
}

#[test]
fn literal_next_and_discard_need_iexten() {
    let chars = [(VLNEXT, 0x16), (VDISCARD, 0x0f), (VMIN, 100)];
    let mut pty = session(0, IEXTEN, &chars);
    let events = pty.consume(b"\x16a\x0f");
    assert_eq!(pty.cooked(), b"a");
    assert_eq!(events, vec![ControlEvent::LiteralNext, ControlEvent::Discard]);
    let mut pty = session(0, 0, &chars);
    let events = pty.consume(b"\x16a\x0f");
    assert_eq!(pty.cooked(), b"\x16a\x0f");
    assert!(events.is_empty());
}

#[test]
fn zero_byte_is_a_byte_like_any_other() {
    let mut pty = session(0, ICANON | ECHO | ISIG | IEXTEN, &[]);
    let events = pty.consume(b"a\0b\n");
    assert_eq!(drain_all(&mut pty), vec![b"a\0b\n".to_vec()]);
    assert_eq!(events, echoes(b"a\0b\n"));
    let mut pty = session(0, 0, &[(VMIN, 2)]);
    pty.consume(b"\0\0");
    assert_eq!(drain_all(&mut pty), vec![b"\0\0".to_vec()]);
}

#[test]
fn unassigned_character_matches_nothing() {
    assert!(!matches_char(0, 0));
    assert!(!matches_char(0, 7));
    assert!(matches_char(7, 7));
    assert!(!matches_char(7, 8));
    assert!(!matches_char(7, 0));
}

#[test]
fn earlier_stage_wins() {
    let chars = [(VEOF, b'x'), (VEOL, b'x'), (VERASE, b'y'), (VINTR, b'y'), (VQUIT, b'z'), (VSTART, b'z')];
    let pty = session(IXON, ICANON | ISIG | IEXTEN, &chars);
    let m = pty.attr().decode();
    assert_eq!(m.classify(b'x'), Action::EndOfFile);
    assert_eq!(m.classify(b'y'), Action::Erase);
    assert_eq!(m.classify(b'z'), Action::Report(ControlEvent::Quit));
    let pty = session(IXON, ISIG | IEXTEN, &chars);
    let m = pty.attr().decode();
    assert_eq!(m.classify(b'x'), Action::Append(b'x'));
    assert_eq!(m.classify(b'y'), Action::Report(ControlEvent::Interrupt));
    let pty = session(IXON, IEXTEN, &chars);
    let m = pty.attr().decode();
    assert_eq!(m.classify(b'z'), Action::Report(ControlEvent::Start));
}

#[test]
fn line_feed_wins_over_a_character_assigned_to_it() {
    let pty = session(0, ICANON | ISIG, &[(VEOF, b'\n'), (VINTR, b'\n')]);
    let m = pty.attr().decode();
    assert_eq!(m.classify(b'\n'), Action::Terminate(b'\n'));
}

#[test]
fn translation_comes_before_matching() {
    let pty = session(ICRNL, ISIG, &[(VINTR, b'\n'), (VQUIT, b'\r')]);
    let m = pty.attr().decode();
    assert_eq!(m.translated(b'\r'), Some(b'\n'));
    assert_eq!(m.classify(b'\r'), Action::Report(ControlEvent::Interrupt));
    let pty = session(IGNCR, ISIG, &[(VQUIT, b'\r')]);
    let m = pty.attr().decode();
    assert_eq!(m.translated(b'\r'), None);
    assert_eq!(m.classify(b'\r'), Action::Ignore);
    let pty = session(INLCR, ISIG, &[(VQUIT, b'\r')]);
    let m = pty.attr().decode();
    assert_eq!(m.translated(b'\n'), Some(b'\r'));
    assert_eq!(m.classify(b'\n'), Action::Report(ControlEvent::Quit));
    assert_eq!(m.translated(b'q'), Some(b'q'));
}

#[test]
fn emitted_events_follow_the_echo_flags() {
    let quiet: Modes = session(0, ICANON, &[]).attr().decode();
    let echo: Modes = session(0, ICANON | ECHO, &[]).attr().decode();
    let echonl: Modes = session(0, ICANON | ECHONL, &[]).attr().decode();
    let echoe: Modes = session(0, ICANON | ECHOE, &[]).attr().decode();
    assert_eq!(quiet.emitted(Action::Append(b'a'), 0), None);
    assert_eq!(echo.emitted(Action::Append(b'a'), 0), Some(ControlEvent::Echo(b'a')));
    assert_eq!(echonl.emitted(Action::Append(b'a'), 0), None);
    assert_eq!(quiet.emitted(Action::Terminate(b'\n'), 3), None);
    assert_eq!(echo.emitted(Action::Terminate(b'\n'), 3), Some(ControlEvent::Echo(b'\n')));
    assert_eq!(echonl.emitted(Action::Terminate(b'\n'), 3), Some(ControlEvent::Echo(b'\n')));
    assert_eq!(echonl.emitted(Action::Terminate(b';'), 3), None);
    assert_eq!(echo.emitted(Action::Terminate(b';'), 3), Some(ControlEvent::Echo(b';')));
    assert_eq!(echoe.emitted(Action::Erase, 0), None);
    assert_eq!(echoe.emitted(Action::Erase, 1), Some(ControlEvent::EchoErase));
    assert_eq!(echo.emitted(Action::Erase, 1), None);
    assert_eq!(echo.emitted(Action::EndOfFile, 1), None);
    assert_eq!(echo.emitted(Action::Ignore, 1), None);
    assert_eq!(
        quiet.emitted(Action::Report(ControlEvent::Suspend), 0),
        Some(ControlEvent::Suspend)
    );
}

#[test]
fn every_byte_is_accounted_for() {
    let chars = [(VEOF, 0x04), (VERASE, 0x7f), (VINTR, 0x03), (VSTOP, 0x13), (VLNEXT, 0x16)];
    let mut pty = session(IGNCR | IXON, ICANON | ISIG | IEXTEN, &chars);
    pty.consume(b"keep");
    let held_before = pty.cooked().len();
    let input = b"ab\r\x7fc\n\x7f\x03d\x13e\x04\x16fg\r";
    pty.consume(input);
    let dropped = 2;
    let taken = 6;
    let erased = 1;
    let cooked = pty.cooked().len();
    let entries = drain_all(&mut pty);
    assert_eq!(entries, vec![b"keepac\n".to_vec(), b"de".to_vec()]);
    let queued: usize = entries.iter().map(|e| e.len()).sum();
    assert_eq!(cooked, 2);
    assert_eq!(queued + cooked + dropped + taken + erased, held_before + input.len());
}

#[test]
fn input_in_pieces_equals_input_at_once_in_canonical_mode() {
    let input = b"one\rtw\x7fo\rthree";
    let mut whole = Pty::new(0);
    let events_whole = whole.consume(input);
    let mut pieces = Pty::new(0);
    let mut events_pieces = Vec::new();
    for b in input.iter() {
        events_pieces.extend(pieces.consume(&[*b]));
    }
    assert_eq!(whole.cooked(), pieces.cooked());
    assert_eq!(drain_all(&mut whole), drain_all(&mut pieces));
    assert_eq!(events_whole, events_pieces);
}
