use pty_discipline::attributes::{Attributes, Modes, WindowSize};
use pty_discipline::session::Pty;

fn blank() -> Attributes {
    Attributes { iflag: 0, oflag: 0, cflag: 0, lflag: 0, cc: [0; 32] }
}

fn no_modes() -> Modes {
    blank().decode()
}

#[test]
fn blank_attributes_decode_to_nothing() {
    let m = no_modes();
    assert!(!m.inlcr && !m.igncr && !m.icrnl && !m.ixon);
    assert!(!m.isig && !m.icanon && !m.echo && !m.echoe && !m.echonl && !m.iexten);
    assert_eq!(m.eof, 0);
    assert_eq!(m.vmin, 0);
}

#[test]
fn each_input_flag_decodes_alone() {
    let mut a = blank();
    a.iflag = redox_termios::INLCR;
    assert_eq!(a.decode(), Modes { inlcr: true, ..no_modes() });
    a.iflag = redox_termios::IGNCR;
    assert_eq!(a.decode(), Modes { igncr: true, ..no_modes() });
    a.iflag = redox_termios::ICRNL;
    assert_eq!(a.decode(), Modes { icrnl: true, ..no_modes() });
    a.iflag = redox_termios::IXON;
    assert_eq!(a.decode(), Modes { ixon: true, ..no_modes() });
}

#[test]
fn each_local_flag_decodes_alone() {
    let mut a = blank();
    a.lflag = redox_termios::ISIG;
    assert_eq!(a.decode(), Modes { isig: true, ..no_modes() });
    a.lflag = redox_termios::ICANON;
    assert_eq!(a.decode(), Modes { icanon: true, ..no_modes() });
    a.lflag = redox_termios::ECHO;
    assert_eq!(a.decode(), Modes { echo: true, ..no_modes() });
    a.lflag = redox_termios::ECHOE;
    assert_eq!(a.decode(), Modes { echoe: true, ..no_modes() });
    a.lflag = redox_termios::ECHONL;
    assert_eq!(a.decode(), Modes { echonl: true, ..no_modes() });
    a.lflag = redox_termios::IEXTEN;
    assert_eq!(a.decode(), Modes { iexten: true, ..no_modes() });
}

#[test]
fn flag_masks_have_their_numbers() {
    let mut a = blank();
    a.iflag = 0o100;
    assert!(a.decode().inlcr);
    a.iflag = 0o200;
    assert!(a.decode().igncr);
    a.iflag = 0o400;
    assert!(a.decode().icrnl);
    a.iflag = 0o1000;
    assert!(a.decode().ixon);
    a.iflag = 0;
    a.lflag = 0x80;
    assert!(a.decode().isig);
    a.lflag = 0x100;
    assert!(a.decode().icanon);
    a.lflag = 0x8;
    assert!(a.decode().echo);
    a.lflag = 0x2;
    assert!(a.decode().echoe);
    a.lflag = 0x10;
    assert!(a.decode().echonl);
    a.lflag = 0x400;
    assert!(a.decode().iexten);
}

#[test]
fn flags_in_the_wrong_word_do_not_count() {
    let mut a = blank();
    a.lflag = redox_termios::IXON | redox_termios::ICRNL;
    let m = a.decode();
    assert!(!m.ixon && !m.icrnl);
    a = blank();
    a.iflag = redox_termios::ECHO | redox_termios::ECHOE;
    let m = a.decode();
    assert!(!m.echo && !m.echoe);
    a = blank();
    a.oflag = 0xffff_ffff;
    a.cflag = 0xffff_ffff;
    assert_eq!(a.decode(), no_modes());
}

#[test]
fn each_role_reads_its_own_slot() {
    let mut a = blank();
    for i in 0..32 {
        a.cc[i] = 100 + i as u8;
    }
    let m = a.decode();
    assert_eq!(m.eof, 100 + redox_termios::VEOF as u8);
    assert_eq!(m.eol, 100 + redox_termios::VEOL as u8);
    assert_eq!(m.eol2, 100 + redox_termios::VEOL2 as u8);
    assert_eq!(m.erase, 100 + redox_termios::VERASE as u8);
    assert_eq!(m.werase, 100 + redox_termios::VWERASE as u8);
    assert_eq!(m.kill, 100 + redox_termios::VKILL as u8);
    assert_eq!(m.reprint, 100 + redox_termios::VREPRINT as u8);
    assert_eq!(m.intr, 100 + redox_termios::VINTR as u8);
    assert_eq!(m.quit, 100 + redox_termios::VQUIT as u8);
    assert_eq!(m.susp, 100 + redox_termios::VSUSP as u8);
    assert_eq!(m.start, 100 + redox_termios::VSTART as u8);
    assert_eq!(m.stop, 100 + redox_termios::VSTOP as u8);
    assert_eq!(m.lnext, 100 + redox_termios::VLNEXT as u8);
    assert_eq!(m.discard, 100 + redox_termios::VDISCARD as u8);
    assert_eq!(m.vmin, 100 + redox_termios::VMIN as u8);
}

#[test]
fn slots_have_their_numbers() {
    let mut a = blank();
    for i in 0..32 {
        a.cc[i] = i as u8;
    }
    let m = a.decode();
    assert_eq!(
        [m.eof, m.eol, m.eol2, m.erase, m.werase, m.kill, m.reprint],
        [0, 1, 2, 3, 4, 5, 6]
    );
    assert_eq!([m.intr, m.quit, m.susp], [8, 9, 10]);
    assert_eq!([m.start, m.stop, m.lnext, m.discard, m.vmin], [12, 13, 14, 15, 16]);
}

#[test]
fn default_attributes_are_those_of_the_termios_crate() {
    let a = Attributes::default();
    let t = redox_termios::Termios::default();
    assert_eq!(a.iflag, t.c_iflag);
    assert_eq!(a.oflag, t.c_oflag);
    assert_eq!(a.cflag, t.c_cflag);
    assert_eq!(a.lflag, t.c_lflag);
    assert_eq!(a.cc, t.c_cc);
}

#[test]
fn default_attributes_have_their_numbers() {
    let a = Attributes::default();
    assert_eq!(a.iflag, 0o1400);
    assert_eq!(a.oflag, 0o3);
    assert_eq!(a.cflag, 0o45417);
    assert_eq!(a.lflag, 0x58e);
    let mut cc = [0u8; 32];
    cc[0] = 0o004;
    cc[3] = 0o177;
    cc[4] = 0o027;
    cc[5] = 0o025;
    cc[6] = 0o022;
    cc[8] = 0o003;
    cc[9] = 0o034;
    cc[10] = 0o032;
    cc[12] = 0o021;
    cc[13] = 0o023;
    cc[14] = 0o026;
    cc[15] = 0o017;
    cc[16] = 1;
    assert_eq!(a.cc, cc);
}

#[test]
fn default_attributes_decode_to_the_default_modes() {
    let m = Attributes::default().decode();
    let expected = Modes {
        inlcr: false,
        igncr: false,
        icrnl: true,
        ixon: true,
        isig: true,
        icanon: true,
        echo: true,
        echoe: true,
        echonl: false,
        iexten: true,
        eof: 0x04,
        eol: 0,
        eol2: 0,
        erase: 0x7f,
        werase: 0x17,
        kill: 0x15,
        reprint: 0x12,
        intr: 0x03,
        quit: 0x1c,
        susp: 0x1a,
        start: 0x11,
        stop: 0x13,
        lnext: 0x16,
        discard: 0x0f,
        vmin: 1,
    };
    assert_eq!(m, expected);
}

#[test]
fn default_window_size_is_zero() {
    let w = WindowSize::default();
    let r = redox_termios::Winsize::default();
    assert_eq!(w.rows, r.ws_row);
    assert_eq!(w.cols, r.ws_col);
    assert_eq!(w, WindowSize { rows: 0, cols: 0, xpixel: 0, ypixel: 0 });
}

#[test]
fn fresh_session_has_defaults_and_nothing_buffered() {
    let mut pty = Pty::new(42);
    assert_eq!(pty.id(), 42);
    assert_eq!(pty.attr(), Attributes::default());
    assert_eq!(pty.winsize(), WindowSize::default());
    assert!(pty.cooked().is_empty());
    assert_eq!(pty.pending(), 0);
    assert_eq!(pty.drain(), None);
}
