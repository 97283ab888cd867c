//! The layout of terminal attributes, and the readers that fetch it from the
//! `redox_termios` crate.
//!
//! Contracts speak of the layout through the spec functions of this module:
//! `bit_*` for a flag's mask, `slot_*` for a role's place in the
//! control-character table. Executable code does not copy those numbers. It
//! reads each constant from `redox_termios` through a reader of this module,
//! so that a session decodes attributes exactly as other users of that crate
//! encode them.
//!
//! Each reader, and the two functions that fetch the crate's defaults, is
//! trusted: its contract states what the crate's source shows, and no proof
//! stands behind it. Nothing else in the library is trusted.

use vstd::prelude::*;

verus! {

/// Number of slots in the control-character table.
pub open spec fn table_len() -> int {
    32
}

/// Whether every bit of the mask `bit` is set in `flags`.
pub open spec fn has_bit(flags: u32, bit: u32) -> bool {
    flags & bit == bit
}

/// Input flag: rewrite a line feed to a carriage return.
pub open spec fn bit_inlcr() -> u32 {
    0o100
}

/// Input flag: drop every carriage return.
pub open spec fn bit_igncr() -> u32 {
    0o200
}

/// Input flag: rewrite a carriage return to a line feed.
pub open spec fn bit_icrnl() -> u32 {
    0o400
}

/// Input flag: honour the START and STOP characters.
pub open spec fn bit_ixon() -> u32 {
    0o1000
}

/// Local flag: honour the INTR, QUIT and SUSP characters.
pub open spec fn bit_isig() -> u32 {
    0x80
}

/// Local flag: canonical (line-buffered) mode.
pub open spec fn bit_icanon() -> u32 {
    0x100
}

/// Local flag: ask for an echo of input bytes.
pub open spec fn bit_echo() -> u32 {
    0x8
}

/// Local flag: ask for an echo of an erasure.
pub open spec fn bit_echoe() -> u32 {
    0x2
}

/// Local flag: ask for an echo of a line feed even without `ECHO`.
pub open spec fn bit_echonl() -> u32 {
    0x10
}

/// Local flag: honour the extended characters.
pub open spec fn bit_iexten() -> u32 {
    0x400
}

/// Slot of the end-of-file character.
pub open spec fn slot_eof() -> int {
    0
}

/// Slot of the first extra end-of-line character.
pub open spec fn slot_eol() -> int {
    1
}

/// Slot of the second extra end-of-line character.
pub open spec fn slot_eol2() -> int {
    2
}

/// Slot of the erase character.
pub open spec fn slot_erase() -> int {
    3
}

/// Slot of the word-erase character.
pub open spec fn slot_werase() -> int {
    4
}

/// Slot of the kill-line character.
pub open spec fn slot_kill() -> int {
    5
}

/// Slot of the reprint character.
pub open spec fn slot_reprint() -> int {
    6
}

/// Slot of the interrupt character.
pub open spec fn slot_intr() -> int {
    8
}

/// Slot of the quit character.
pub open spec fn slot_quit() -> int {
    9
}

/// Slot of the suspend character.
pub open spec fn slot_susp() -> int {
    10
}

/// Slot of the START (resume output) character.
pub open spec fn slot_start() -> int {
    12
}

/// Slot of the STOP (pause output) character.
pub open spec fn slot_stop() -> int {
    13
}

/// Slot of the literal-next character.
pub open spec fn slot_lnext() -> int {
    14
}

/// Slot of the discard character.
pub open spec fn slot_discard() -> int {
    15
}

/// Slot of the non-canonical threshold.
pub open spec fn slot_min() -> int {
    16
}

/// The input flags of a fresh terminal: `ICRNL | IXON`.
pub open spec fn default_iflag() -> u32 {
    0o1400
}

/// The output flags of a fresh terminal: `OPOST | ONLCR`.
pub open spec fn default_oflag() -> u32 {
    0o3
}

/// The control flags of a fresh terminal: `B38400 | CS8 | CREAD | HUPCL`.
pub open spec fn default_cflag() -> u32 {
    0o45417
}

/// The local flags of a fresh terminal:
/// `ISIG | ICANON | ECHO | ECHOE | ECHOK | IEXTEN`.
pub open spec fn default_lflag() -> u32 {
    0x58e
}

/// The control-character table of a fresh terminal, slot by slot. A slot
/// that holds zero has no character assigned.
pub open spec fn default_char(slot: int) -> u8 {
    if slot == slot_eof() {
        0o004
    } else if slot == slot_erase() {
        0o177
    } else if slot == slot_werase() {
        0o027
    } else if slot == slot_kill() {
        0o025
    } else if slot == slot_reprint() {
        0o022
    } else if slot == slot_intr() {
        0o003
    } else if slot == slot_quit() {
        0o034
    } else if slot == slot_susp() {
        0o032
    } else if slot == slot_start() {
        0o021
    } else if slot == slot_stop() {
        0o023
    } else if slot == slot_lnext() {
        0o026
    } else if slot == slot_discard() {
        0o017
    } else if slot == slot_min() {
        1
    } else {
        0
    }
}

/// Reads `redox_termios::INLCR`. Trusted: claims that the constant is
/// `0o100`, the value of [`bit_inlcr`].
#[verifier::external_body]
pub(crate) fn inlcr() -> (bit: u32)
    ensures
        bit == bit_inlcr(),
{
    redox_termios::INLCR
}

/// Reads `redox_termios::IGNCR`. Trusted: claims that the constant is
/// `0o200`, the value of [`bit_igncr`].
#[verifier::external_body]
pub(crate) fn igncr() -> (bit: u32)
    ensures
        bit == bit_igncr(),
{
    redox_termios::IGNCR
}

/// Reads `redox_termios::ICRNL`. Trusted: claims that the constant is
/// `0o400`, the value of [`bit_icrnl`].
#[verifier::external_body]
pub(crate) fn icrnl() -> (bit: u32)
    ensures
        bit == bit_icrnl(),
{
    redox_termios::ICRNL
}

/// Reads `redox_termios::IXON`. Trusted: claims that the constant is
/// `0o1000`, the value of [`bit_ixon`].
#[verifier::external_body]
pub(crate) fn ixon() -> (bit: u32)
    ensures
        bit == bit_ixon(),
{
    redox_termios::IXON
}

/// Reads `redox_termios::ISIG`. Trusted: claims that the constant is
/// `0x80`, the value of [`bit_isig`].
#[verifier::external_body]
pub(crate) fn isig() -> (bit: u32)
    ensures
        bit == bit_isig(),
{
    redox_termios::ISIG
}

/// Reads `redox_termios::ICANON`. Trusted: claims that the constant is
/// `0x100`, the value of [`bit_icanon`].
#[verifier::external_body]
pub(crate) fn icanon() -> (bit: u32)
    ensures
        bit == bit_icanon(),
{
    redox_termios::ICANON
}

/// Reads `redox_termios::ECHO`. Trusted: claims that the constant is
/// `0x8`, the value of [`bit_echo`].
#[verifier::external_body]
pub(crate) fn echo() -> (bit: u32)
    ensures
        bit == bit_echo(),
{
    redox_termios::ECHO
}

/// Reads `redox_termios::ECHOE`. Trusted: claims that the constant is
/// `0x2`, the value of [`bit_echoe`].
#[verifier::external_body]
pub(crate) fn echoe() -> (bit: u32)
    ensures
        bit == bit_echoe(),
{
    redox_termios::ECHOE
}

/// Reads `redox_termios::ECHONL`. Trusted: claims that the constant is
/// `0x10`, the value of [`bit_echonl`].
#[verifier::external_body]
pub(crate) fn echonl() -> (bit: u32)
    ensures
        bit == bit_echonl(),
{
    redox_termios::ECHONL
}

/// Reads `redox_termios::IEXTEN`. Trusted: claims that the constant is
/// `0x400`, the value of [`bit_iexten`].
#[verifier::external_body]
pub(crate) fn iexten() -> (bit: u32)
    ensures
        bit == bit_iexten(),
{
    redox_termios::IEXTEN
}

/// Reads `redox_termios::VEOF`. Trusted: claims that the constant is
/// `0`, the value of [`slot_eof`].
#[verifier::external_body]
pub(crate) fn veof() -> (slot: usize)
    ensures
        slot == slot_eof(),
{
    redox_termios::VEOF
}

/// Reads `redox_termios::VEOL`. Trusted: claims that the constant is
/// `1`, the value of [`slot_eol`].
#[verifier::external_body]
pub(crate) fn veol() -> (slot: usize)
    ensures
        slot == slot_eol(),
{
    redox_termios::VEOL
}

/// Reads `redox_termios::VEOL2`. Trusted: claims that the constant is
/// `2`, the value of [`slot_eol2`].
#[verifier::external_body]
pub(crate) fn veol2() -> (slot: usize)
    ensures
        slot == slot_eol2(),
{
    redox_termios::VEOL2
}

/// Reads `redox_termios::VERASE`. Trusted: claims that the constant is
/// `3`, the value of [`slot_erase`].
#[verifier::external_body]
pub(crate) fn verase() -> (slot: usize)
    ensures
        slot == slot_erase(),
{
    redox_termios::VERASE
}

/// Reads `redox_termios::VWERASE`. Trusted: claims that the constant is
/// `4`, the value of [`slot_werase`].
#[verifier::external_body]
pub(crate) fn vwerase() -> (slot: usize)
    ensures
        slot == slot_werase(),
{
    redox_termios::VWERASE
}

/// Reads `redox_termios::VKILL`. Trusted: claims that the constant is
/// `5`, the value of [`slot_kill`].
#[verifier::external_body]
pub(crate) fn vkill() -> (slot: usize)
    ensures
        slot == slot_kill(),
{
    redox_termios::VKILL
}

/// Reads `redox_termios::VREPRINT`. Trusted: claims that the constant is
/// `6`, the value of [`slot_reprint`].
#[verifier::external_body]
pub(crate) fn vreprint() -> (slot: usize)
    ensures
        slot == slot_reprint(),
{
    redox_termios::VREPRINT
}

/// Reads `redox_termios::VINTR`. Trusted: claims that the constant is
/// `8`, the value of [`slot_intr`].
#[verifier::external_body]
pub(crate) fn vintr() -> (slot: usize)
    ensures
        slot == slot_intr(),
{
    redox_termios::VINTR
}

/// Reads `redox_termios::VQUIT`. Trusted: claims that the constant is
/// `9`, the value of [`slot_quit`].
#[verifier::external_body]
pub(crate) fn vquit() -> (slot: usize)
    ensures
        slot == slot_quit(),
{
    redox_termios::VQUIT
}

/// Reads `redox_termios::VSUSP`. Trusted: claims that the constant is
/// `10`, the value of [`slot_susp`].
#[verifier::external_body]
pub(crate) fn vsusp() -> (slot: usize)
    ensures
        slot == slot_susp(),
{
    redox_termios::VSUSP
}

/// Reads `redox_termios::VSTART`. Trusted: claims that the constant is
/// `12`, the value of [`slot_start`].
#[verifier::external_body]
pub(crate) fn vstart() -> (slot: usize)
    ensures
        slot == slot_start(),
{
    redox_termios::VSTART
}

/// Reads `redox_termios::VSTOP`. Trusted: claims that the constant is
/// `13`, the value of [`slot_stop`].
#[verifier::external_body]
pub(crate) fn vstop() -> (slot: usize)
    ensures
        slot == slot_stop(),
{
    redox_termios::VSTOP
}

/// Reads `redox_termios::VLNEXT`. Trusted: claims that the constant is
/// `14`, the value of [`slot_lnext`].
#[verifier::external_body]
pub(crate) fn vlnext() -> (slot: usize)
    ensures
        slot == slot_lnext(),
{
    redox_termios::VLNEXT
}

/// Reads `redox_termios::VDISCARD`. Trusted: claims that the constant is
/// `15`, the value of [`slot_discard`].
#[verifier::external_body]
pub(crate) fn vdiscard() -> (slot: usize)
    ensures
        slot == slot_discard(),
{
    redox_termios::VDISCARD
}

/// Reads `redox_termios::VMIN`. Trusted: claims that the constant is
/// `16`, the value of [`slot_min`].
#[verifier::external_body]
pub(crate) fn vmin() -> (slot: usize)
    ensures
        slot == slot_min(),
{
    redox_termios::VMIN
}

/// Calls `redox_termios::Termios::default()` and hands back its five fields:
/// input, output, control and local flags, then the control-character table.
/// Trusted: claims that the flags are those that the crate's `Default` impl
/// builds (see [`default_iflag`] and its neighbours), and that the table is
/// zero but for the slots that the impl fills (see [`default_char`]).
#[verifier::external_body]
pub(crate) fn termios_default() -> (fields: (u32, u32, u32, u32, [u8; 32]))
    ensures
        fields.0 == default_iflag(),
        fields.1 == default_oflag(),
        fields.2 == default_cflag(),
        fields.3 == default_lflag(),
        forall|slot: int|
            0 <= slot < table_len() ==> #[trigger] fields.4[slot] == default_char(slot),
{
    let t = redox_termios::Termios::default();
    (t.c_iflag, t.c_oflag, t.c_cflag, t.c_lflag, t.c_cc)
}

/// Calls `redox_termios::Winsize::default()` and hands back its rows and
/// columns. Trusted: claims that both are zero, as the derived `Default` of
/// two `u16` fields makes them.
#[verifier::external_body]
pub(crate) fn winsize_default() -> (size: (u16, u16))
    ensures
        size.0 == 0,
        size.1 == 0,
{
    let w = redox_termios::Winsize::default();
    (w.ws_row, w.ws_col)
}

} // verus!
