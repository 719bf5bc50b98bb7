//! Terminal colours, painted by `ansi_term`.

use vstd::prelude::*;

verus! {

/// `text` between the escape sequence that selects the style with the given
/// numeric codes and the one that resets all styles.
pub open spec fn ansi_styled(codes: Seq<char>, text: Seq<char>) -> Seq<char> {
    seq!['\x1B', '['] + codes + seq!['m'] + text + seq!['\x1B', '[', '0', 'm']
}

/// The codes of a dimmed, underlined, green text.
pub open spec fn green_dimmed_underlined_codes() -> Seq<char> {
    seq!['2', ';', '4', ';', '3', '2']
}

/// The codes of a dimmed, underlined, red text.
pub open spec fn red_dimmed_underlined_codes() -> Seq<char> {
    seq!['2', ';', '4', ';', '3', '1']
}

/// The codes of a green text.
pub open spec fn green_codes() -> Seq<char> {
    seq!['3', '2']
}

/// `Colour::Green.dimmed().underline().paint(text)`, displayed. The style
/// writes `ESC [`, the codes of its attributes (dimmed `2`, underline `4`) and
/// of its foreground colour (green `32`) joined by `;`, then `m`; the text
/// follows, then the reset sequence `ESC [0m`.
#[verifier::external_body]
pub(crate) fn paint_green_dimmed_underlined(text: &str) -> (s: String)
    ensures
        s@ == ansi_styled(green_dimmed_underlined_codes(), text@),
{
    format!("{}", ansi_term::Colour::Green.dimmed().underline().paint(text))
}

/// `Colour::Red.dimmed().underline().paint(text)`, displayed: as for green,
/// with the red foreground code `31`.
#[verifier::external_body]
pub(crate) fn paint_red_dimmed_underlined(text: &str) -> (s: String)
    ensures
        s@ == ansi_styled(red_dimmed_underlined_codes(), text@),
{
    format!("{}", ansi_term::Colour::Red.dimmed().underline().paint(text))
}

/// `Colour::Green.paint(text)`, displayed: the green foreground code `32`
/// alone.
#[verifier::external_body]
pub(crate) fn paint_green(text: &str) -> (s: String)
    ensures
        s@ == ansi_styled(green_codes(), text@),
{
    format!("{}", ansi_term::Colour::Green.paint(text))
}

/// The prompt shown before a line is read: the prompt in green, then `": "`.
pub fn prompt_text(prompt: &str) -> (s: String)
    ensures
        s@ == ansi_styled(green_codes(), prompt@) + ": "@,
{
    let s = paint_green(prompt);
    s.concat(": ")
}

} // verus!
