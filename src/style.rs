//! Terminal escape sequences that style text, as termion writes them.
use vstd::prelude::*;

verus! {

/// ESC [ 38;5;2 m: green foreground.
pub open spec fn green_code() -> Seq<char> {
    seq!['\x1b', '[', '3', '8', ';', '5', ';', '2', 'm']
}

/// ESC [ m: all attributes back to normal.
pub open spec fn reset_code() -> Seq<char> {
    seq!['\x1b', '[', 'm']
}

/// ESC [ 2 m: faint text.
pub open spec fn faint_code() -> Seq<char> {
    seq!['\x1b', '[', '2', 'm']
}

/// Relies on `termion::color::Green::fg_str`, which returns the fixed sequence that selects
/// a green foreground.
#[verifier::external_body]
pub(crate) fn green_fg() -> (r: String)
    ensures
        r@ == green_code(),
{
    termion::color::Green.fg_str().to_string()
}

/// Relies on the `Display` of `termion::style::Reset`, which writes the fixed sequence that
/// resets all text attributes.
#[verifier::external_body]
pub(crate) fn reset() -> (r: String)
    ensures
        r@ == reset_code(),
{
    format!("{}", termion::style::Reset)
}

/// Relies on the `Display` of `termion::style::Faint`, which writes the fixed sequence that
/// selects faint text.
#[verifier::external_body]
pub(crate) fn faint() -> (r: String)
    ensures
        r@ == faint_code(),
{
    format!("{}", termion::style::Faint)
}

} // verus!
