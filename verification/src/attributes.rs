//! Terminal attributes, the window size, and the modes that the line
//! discipline reads out of the attributes.

use vstd::prelude::*;
use crate::termios;

verus! {

/// The mode configuration of a terminal: four flag words and the
/// control-character table. The layout is that of `redox_termios::Termios`,
/// field for field (see [`crate::termios`]).
///
/// Any combination of flags and characters is accepted. A table slot that
/// holds zero assigns no character to its role.
#[derive(Clone, Copy, Debug, PartialEq, Eq)]
pub struct Attributes {
    /// Input-mode flags.
    pub iflag: u32,
    /// Output-mode flags. Stored, never acted upon.
    pub oflag: u32,
    /// Control-mode flags. Stored, never acted upon.
    pub cflag: u32,
    /// Local-mode flags.
    pub lflag: u32,
    /// The control-character table, indexed by role.
    pub cc: [u8; 32],
}

/// The geometry of a terminal.
#[derive(Clone, Copy, Debug, PartialEq, Eq)]
pub struct WindowSize {
    /// Rows, in characters.
    pub rows: u16,
    /// Columns, in characters.
    pub cols: u16,
    /// Width, in pixels.
    pub xpixel: u16,
    /// Height, in pixels.
    pub ypixel: u16,
}

/// What the line discipline reads out of [`Attributes`]: the flags it acts
/// upon, the character of each role, and the non-canonical threshold.
///
/// A character of zero stands for "no character assigned" and matches no
/// input byte.
#[derive(Clone, Copy, Debug, PartialEq, Eq)]
pub struct Modes {
    /// Rewrite a line feed to a carriage return.
    pub inlcr: bool,
    /// Drop every carriage return.
    pub igncr: bool,
    /// Rewrite a carriage return to a line feed.
    pub icrnl: bool,
    /// Honour START and STOP.
    pub ixon: bool,
    /// Honour INTR, QUIT and SUSP.
    pub isig: bool,
    /// Canonical mode.
    pub icanon: bool,
    /// Ask for an echo of input bytes.
    pub echo: bool,
    /// Ask for an echo of an erasure.
    pub echoe: bool,
    /// Ask for an echo of a line feed even without `echo`.
    pub echonl: bool,
    /// Honour the extended characters.
    pub iexten: bool,
    /// End of file.
    pub eof: u8,
    /// First extra end of line.
    pub eol: u8,
    /// Second extra end of line.
    pub eol2: u8,
    /// Erase the last byte.
    pub erase: u8,
    /// Erase the last word.
    pub werase: u8,
    /// Kill the line.
    pub kill: u8,
    /// Reprint the line.
    pub reprint: u8,
    /// Interrupt.
    pub intr: u8,
    /// Quit.
    pub quit: u8,
    /// Suspend.
    pub susp: u8,
    /// Resume output.
    pub start: u8,
    /// Pause output.
    pub stop: u8,
    /// Take the next byte literally.
    pub lnext: u8,
    /// Discard pending output.
    pub discard: u8,
    /// Least number of buffered bytes that non-canonical mode releases.
    pub vmin: u8,
}

impl Attributes {
    /// Whether these are the attributes of a fresh terminal, as
    /// `redox_termios` defines them.
    pub open spec fn is_default(self) -> bool {
        &&& self.iflag == termios::default_iflag()
        &&& self.oflag == termios::default_oflag()
        &&& self.cflag == termios::default_cflag()
        &&& self.lflag == termios::default_lflag()
        &&& forall|slot: int|
            0 <= slot < termios::table_len() ==> #[trigger] self.cc[slot] == termios::default_char(
                slot,
            )
    }

    /// The modes that these attributes encode.
    pub open spec fn modes(self) -> Modes {
        Modes {
            inlcr: termios::has_bit(self.iflag, termios::bit_inlcr()),
            igncr: termios::has_bit(self.iflag, termios::bit_igncr()),
            icrnl: termios::has_bit(self.iflag, termios::bit_icrnl()),
            ixon: termios::has_bit(self.iflag, termios::bit_ixon()),
            isig: termios::has_bit(self.lflag, termios::bit_isig()),
            icanon: termios::has_bit(self.lflag, termios::bit_icanon()),
            echo: termios::has_bit(self.lflag, termios::bit_echo()),
            echoe: termios::has_bit(self.lflag, termios::bit_echoe()),
            echonl: termios::has_bit(self.lflag, termios::bit_echonl()),
            iexten: termios::has_bit(self.lflag, termios::bit_iexten()),
            eof: self.cc[termios::slot_eof()],
            eol: self.cc[termios::slot_eol()],
            eol2: self.cc[termios::slot_eol2()],
            erase: self.cc[termios::slot_erase()],
            werase: self.cc[termios::slot_werase()],
            kill: self.cc[termios::slot_kill()],
            reprint: self.cc[termios::slot_reprint()],
            intr: self.cc[termios::slot_intr()],
            quit: self.cc[termios::slot_quit()],
            susp: self.cc[termios::slot_susp()],
            start: self.cc[termios::slot_start()],
            stop: self.cc[termios::slot_stop()],
            lnext: self.cc[termios::slot_lnext()],
            discard: self.cc[termios::slot_discard()],
            vmin: self.cc[termios::slot_min()],
        }
    }

    /// Decodes the flags and characters that the line discipline acts upon.
    pub fn decode(&self) -> (modes: Modes)
        ensures
            modes == self.modes(),
    {
        let inlcr = termios::inlcr();
        let igncr = termios::igncr();
        let icrnl = termios::icrnl();
        let ixon = termios::ixon();
        let isig = termios::isig();
        let icanon = termios::icanon();
        let echo = termios::echo();
        let echoe = termios::echoe();
        let echonl = termios::echonl();
        let iexten = termios::iexten();
        Modes {
            inlcr: self.iflag & inlcr == inlcr,
            igncr: self.iflag & igncr == igncr,
            icrnl: self.iflag & icrnl == icrnl,
            ixon: self.iflag & ixon == ixon,
            isig: self.lflag & isig == isig,
            icanon: self.lflag & icanon == icanon,
            echo: self.lflag & echo == echo,
            echoe: self.lflag & echoe == echoe,
            echonl: self.lflag & echonl == echonl,
            iexten: self.lflag & iexten == iexten,
            eof: self.cc[termios::veof()],
            eol: self.cc[termios::veol()],
            eol2: self.cc[termios::veol2()],
            erase: self.cc[termios::verase()],
            werase: self.cc[termios::vwerase()],
            kill: self.cc[termios::vkill()],
            reprint: self.cc[termios::vreprint()],
            intr: self.cc[termios::vintr()],
            quit: self.cc[termios::vquit()],
            susp: self.cc[termios::vsusp()],
            start: self.cc[termios::vstart()],
            stop: self.cc[termios::vstop()],
            lnext: self.cc[termios::vlnext()],
            discard: self.cc[termios::vdiscard()],
            vmin: self.cc[termios::vmin()],
        }
    }
}

/// The modes of a fresh terminal: canonical, echoing, with signals, flow
/// control and the extended characters honoured, and a carriage return read
/// as a line feed.
pub open spec fn default_modes() -> Modes {
    Modes {
        inlcr: false,
        igncr: false,
        icrnl: true,
        ixon: true,
        isig: true,
        icanon: true,
        echo: true,
        echoe: true,
        echonl: false,
        iexten: true,
        eof: 0x04,
        eol: 0,
        eol2: 0,
        erase: 0x7f,
        werase: 0x17,
        kill: 0x15,
        reprint: 0x12,
        intr: 0x03,
        quit: 0x1c,
        susp: 0x1a,
        start: 0x11,
        stop: 0x13,
        lnext: 0x16,
        discard: 0x0f,
        vmin: 1,
    }
}

/// The attributes of a fresh terminal decode to [`default_modes`].
pub proof fn fresh_attributes_decode(attr: Attributes)
    requires
        attr.is_default(),
    ensures
        attr.modes() == default_modes(),
{
    assert(0o1400u32 & 0o100 != 0o100) by (bit_vector);
    assert(0o1400u32 & 0o200 != 0o200) by (bit_vector);
    assert(0o1400u32 & 0o400 == 0o400) by (bit_vector);
    assert(0o1400u32 & 0o1000 == 0o1000) by (bit_vector);
    assert(0x58eu32 & 0x80 == 0x80) by (bit_vector);
    assert(0x58eu32 & 0x100 == 0x100) by (bit_vector);
    assert(0x58eu32 & 0x8 == 0x8) by (bit_vector);
    assert(0x58eu32 & 0x2 == 0x2) by (bit_vector);
    assert(0x58eu32 & 0x10 != 0x10) by (bit_vector);
    assert(0x58eu32 & 0x400 == 0x400) by (bit_vector);
}

impl Default for Attributes {
    /// The attributes of a fresh terminal, taken from `redox_termios`.
    fn default() -> (attr: Attributes)
        ensures
            attr.is_default(),
    {
        let (iflag, oflag, cflag, lflag, cc) = termios::termios_default();
        Attributes { iflag, oflag, cflag, lflag, cc }
    }
}

impl WindowSize {
    /// Whether every dimension is zero: the size of a fresh terminal.
    pub open spec fn is_default(self) -> bool {
        self.rows == 0 && self.cols == 0 && self.xpixel == 0 && self.ypixel == 0
    }
}

impl Default for WindowSize {
    /// The size of a fresh terminal: rows and columns as `redox_termios`
    /// gives them, and no pixel dimensions.
    fn default() -> (size: WindowSize)
        ensures
            size.is_default(),
    {
        let (rows, cols) = termios::winsize_default();
        WindowSize { rows, cols, xpixel: 0, ypixel: 0 }
    }
}

} // verus!
