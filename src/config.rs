//! Layout settings.
use vstd::prelude::*;

verus! {

/// Widths used when laying out the screen.
#[derive(Clone, Copy, Debug, PartialEq, Eq, Structural)]
pub struct General {
    /// Blanks between a line number and the line's text.
    pub line_number_padding_right: usize,
    pub line_number_padding_left: usize,
    /// Width of the file tree panel, beside the document.
    pub file_tree_width: usize,
}

impl General {
    pub fn new() -> (g: Self)
        ensures
            g.line_number_padding_left == 2,
            g.line_number_padding_right == 3,
            g.file_tree_width == 18,
    {
        Self { line_number_padding_left: 2, line_number_padding_right: 3, file_tree_width: 18 }
    }
}

/// The editor's settings.
#[derive(Clone, Copy, Debug, PartialEq, Eq, Structural)]
pub struct Config {
    pub general: General,
}

impl Config {
    pub fn new() -> (c: Self)
        ensures
            c.general.line_number_padding_left == 2,
            c.general.line_number_padding_right == 3,
            c.general.file_tree_width == 18,
    {
        Config { general: General::new() }
    }
}

} // verus!
