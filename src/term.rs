//! The ANSI control sequences that the selector writes, as termion spells them.
use vstd::prelude::*;

use crate::color::{ansi_index, color_index, Color};

verus! {

/// The decimal digit for `d < 10`.
pub open spec fn digit(d: nat) -> char {
    seq!['0', '1', '2', '3', '4', '5', '6', '7', '8', '9'][d as int]
}

/// The decimal spelling of `n`, without leading zeros.
pub open spec fn decimal(n: nat) -> Seq<char>
    decreases n,
{
    if n < 10 {
        seq![digit(n)]
    } else {
        decimal(n / 10).push(digit(n % 10))
    }
}

/// The sequence that sets the foreground to palette entry `n`.
pub open spec fn fg_palette_seq(n: nat) -> Seq<char> {
    "\x1b[38;5;"@ + decimal(n) + "m"@
}

/// The sequence that sets the foreground to a colour.
pub open spec fn fg_seq(c: Color) -> Seq<char> {
    fg_palette_seq(ansi_index(c) as nat)
}

/// The sequence that resets the foreground to the terminal's default.
pub open spec fn reset_seq() -> Seq<char> {
    "\x1b[39m"@
}

/// The sequence that moves the caret up by `n` lines.
pub open spec fn up_seq(n: nat) -> Seq<char> {
    "\x1b["@ + decimal(n) + "A"@
}

/// Relies on termion's `color::AnsiValue::fg_string`: CSI `38;5;`, the palette
/// index in decimal, then `m`.
#[verifier::external_body]
fn palette_fg(n: u8) -> (r: String)
    ensures
        r@ == fg_palette_seq(n as nat),
{
    termion::color::AnsiValue(n).fg_string()
}

/// Relies on termion's `color::Reset::fg_str`: CSI `39m`.
#[verifier::external_body]
fn reset_fg() -> (r: &'static str)
    ensures
        r@ == reset_seq(),
{
    termion::color::Reset.fg_str()
}

/// Relies on termion's `From<cursor::Up> for String`: CSI, the count in
/// decimal, then `A`.
#[verifier::external_body]
fn caret_up(n: u16) -> (r: String)
    ensures
        r@ == up_seq(n as nat),
{
    String::from(termion::cursor::Up(n))
}

/// The sequence that sets the foreground to `c`.
pub fn foreground(c: Color) -> (r: String)
    ensures
        r@ == fg_seq(c),
{
    palette_fg(color_index(c))
}

/// The sequence that resets the foreground colour.
pub fn reset_foreground() -> (r: String)
    ensures
        r@ == reset_seq(),
{
    String::from_str(reset_fg())
}

/// The sequence that moves the caret up one line.
pub fn up_one_line() -> (r: String)
    ensures
        r@ == up_seq(1),
{
    caret_up(1)
}

} // verus!
