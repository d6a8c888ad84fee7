//! ANSI styling: exact models of the escape sequences that the
//! `owo_colors` crate emits, and trusted wrappers around its styling
//! calls.
use owo_colors::OwoColorize;
use vstd::prelude::*;

use crate::strutil::dec_str;

verus! {

/// The control sequence that sets a truecolor foreground.
pub open spec fn csi_fg(r: u8, g: u8, b: u8) -> Seq<char> {
    seq!['\u{1b}', '[', '3', '8', ';', '2', ';'] + dec_str(r as nat) + seq![';'] + dec_str(
        g as nat,
    ) + seq![';'] + dec_str(b as nat) + seq!['m']
}

/// The control sequence that sets a truecolor background.
pub open spec fn csi_bg(r: u8, g: u8, b: u8) -> Seq<char> {
    seq!['\u{1b}', '[', '4', '8', ';', '2', ';'] + dec_str(r as nat) + seq![';'] + dec_str(
        g as nat,
    ) + seq![';'] + dec_str(b as nat) + seq!['m']
}

/// The control sequence that restores the default foreground.
pub open spec fn sgr_fg_default() -> Seq<char> {
    seq!['\u{1b}', '[', '3', '9', 'm']
}

/// The control sequence that restores the default background.
pub open spec fn sgr_bg_default() -> Seq<char> {
    seq!['\u{1b}', '[', '4', '9', 'm']
}

/// The control sequence that resets all styling.
pub open spec fn sgr_reset() -> Seq<char> {
    seq!['\u{1b}', '[', '0', 'm']
}

/// The control sequence that turns on bold.
pub open spec fn csi_bold() -> Seq<char> {
    seq!['\u{1b}', '[', '1', 'm']
}

/// The control sequence that turns on dim.
pub open spec fn csi_dim() -> Seq<char> {
    seq!['\u{1b}', '[', '2', 'm']
}

/// The control sequence that turns on italics.
pub open spec fn csi_italic() -> Seq<char> {
    seq!['\u{1b}', '[', '3', 'm']
}

/// `s` under a truecolor foreground.
pub open spec fn fg_styled(s: Seq<char>, r: u8, g: u8, b: u8) -> Seq<char> {
    csi_fg(r, g, b) + s + sgr_fg_default()
}

/// `s` over a truecolor background.
pub open spec fn bg_styled(s: Seq<char>, r: u8, g: u8, b: u8) -> Seq<char> {
    csi_bg(r, g, b) + s + sgr_bg_default()
}

/// `s` in bold.
pub open spec fn bold_styled(s: Seq<char>) -> Seq<char> {
    csi_bold() + s + sgr_reset()
}

/// `s` dimmed.
pub open spec fn dim_styled(s: Seq<char>) -> Seq<char> {
    csi_dim() + s + sgr_reset()
}

/// `s` in italics.
pub open spec fn italic_styled(s: Seq<char>) -> Seq<char> {
    csi_italic() + s + sgr_reset()
}

/// Relies on `owo_colors::OwoColorize::truecolor` and the `Display` of
/// `FgDynColorDisplay<Rgb, _>`: it writes `ESC[38;2;<r>;<g>;<b>m`, the
/// text, then `ESC[39m`, with each colour channel in decimal.
#[verifier::external_body]
pub(crate) fn style_fg(s: &str, r: u8, g: u8, b: u8) -> (t: String)
    ensures
        t@ == fg_styled(s@, r, g, b),
{
    format!("{}", s.truecolor(r, g, b))
}

/// Relies on `owo_colors::OwoColorize::on_truecolor` and the `Display`
/// of `BgDynColorDisplay<Rgb, _>`: it writes `ESC[48;2;<r>;<g>;<b>m`,
/// the text, then `ESC[49m`, with each colour channel in decimal.
#[verifier::external_body]
pub(crate) fn style_bg(s: &str, r: u8, g: u8, b: u8) -> (t: String)
    ensures
        t@ == bg_styled(s@, r, g, b),
{
    format!("{}", s.on_truecolor(r, g, b))
}

/// Relies on `owo_colors::OwoColorize::bold` and the `Display` of
/// `BoldDisplay`: it writes `ESC[1m`, the text, then `ESC[0m`.
#[verifier::external_body]
pub(crate) fn style_bold(s: &str) -> (t: String)
    ensures
        t@ == bold_styled(s@),
{
    format!("{}", s.bold())
}

/// Relies on `owo_colors::OwoColorize::dimmed` and the `Display` of
/// `DimDisplay`: it writes `ESC[2m`, the text, then `ESC[0m`.
#[verifier::external_body]
pub(crate) fn style_dimmed(s: &str) -> (t: String)
    ensures
        t@ == dim_styled(s@),
{
    format!("{}", s.dimmed())
}

/// Relies on `owo_colors::OwoColorize::italic` and the `Display` of
/// `ItalicDisplay`: it writes `ESC[3m`, the text, then `ESC[0m`.
#[verifier::external_body]
pub(crate) fn style_italic(s: &str) -> (t: String)
    ensures
        t@ == italic_styled(s@),
{
    format!("{}", s.italic())
}

} // verus!
