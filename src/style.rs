//! Terminal colours for the messages that the tool prints.
use vstd::prelude::*;

verus! {

/// The foreground colours that the tool's messages use.
#[derive(Clone, Copy, Debug, PartialEq, Eq, Structural)]
pub enum Hue {
    Red,
    Green,
    Yellow,
    Purple,
    Cyan,
}

/// The SGR parameter that selects the hue as foreground colour.
pub open spec fn hue_code(h: Hue) -> Seq<char> {
    match h {
        Hue::Red => "31"@,
        Hue::Green => "32"@,
        Hue::Yellow => "33"@,
        Hue::Purple => "35"@,
        Hue::Cyan => "36"@,
    }
}

/// Text wrapped in the escape sequence that sets the hue and the one that resets
/// all styles.
pub open spec fn painted(h: Hue, s: Seq<char>) -> Seq<char> {
    "\x1b["@ + hue_code(h) + "m"@ + s + "\x1b[0m"@
}

/// Relies on `ansi_term::Colour::paint` and its `Display`: a plain foreground
/// colour writes `ESC [ <code> m`, then the text, then `ESC [0m`.
#[verifier::external_body]
pub(crate) fn paint(h: Hue, s: &str) -> (r: String)
    ensures
        r@ == painted(h, s@),
{
    let colour = match h {
        Hue::Red => ansi_term::Colour::Red,
        Hue::Green => ansi_term::Colour::Green,
        Hue::Yellow => ansi_term::Colour::Yellow,
        Hue::Purple => ansi_term::Colour::Purple,
        Hue::Cyan => ansi_term::Colour::Cyan,
    };
    colour.paint(s).to_string()
}

} // verus!
