//! Selecting the table rendering style from its configured name.

use vstd::prelude::*;

verus! {

/// The table styles the presentation layer can render with.
#[derive(Debug, Clone, Copy, PartialEq, Eq, Structural)]
pub enum TableStyle {
    Markdown,
    Empty,
    Blank,
    Ascii,
    AsciiRounded,
    Modern,
    Sharp,
    Rounded,
    Extended,
    Dots,
}

/// The style a configured name denotes; any unknown name falls back to
/// rounded corners.
pub open spec fn style_of_name_spec(name: Seq<char>) -> TableStyle {
    if name == "markdown"@ {
        TableStyle::Markdown
    } else if name == "empty"@ {
        TableStyle::Empty
    } else if name == "blank"@ {
        TableStyle::Blank
    } else if name == "ascii"@ {
        TableStyle::Ascii
    } else if name == "ascii_rounded"@ {
        TableStyle::AsciiRounded
    } else if name == "modern"@ {
        TableStyle::Modern
    } else if name == "sharp"@ {
        TableStyle::Sharp
    } else if name == "rounded"@ {
        TableStyle::Rounded
    } else if name == "extended"@ {
        TableStyle::Extended
    } else if name == "dots"@ {
        TableStyle::Dots
    } else {
        TableStyle::Rounded
    }
}

/// Select the table style a configured name denotes.
pub fn style_of_name(name: &String) -> (s: TableStyle)
    ensures
        s == style_of_name_spec(name@),
{
    if *name == "markdown".to_owned() {
        TableStyle::Markdown
    } else if *name == "empty".to_owned() {
        TableStyle::Empty
    } else if *name == "blank".to_owned() {
        TableStyle::Blank
    } else if *name == "ascii".to_owned() {
        TableStyle::Ascii
    } else if *name == "ascii_rounded".to_owned() {
        TableStyle::AsciiRounded
    } else if *name == "modern".to_owned() {
        TableStyle::Modern
    } else if *name == "sharp".to_owned() {
        TableStyle::Sharp
    } else if *name == "rounded".to_owned() {
        TableStyle::Rounded
    } else if *name == "extended".to_owned() {
        TableStyle::Extended
    } else if *name == "dots".to_owned() {
        TableStyle::Dots
    } else {
        TableStyle::Rounded
    }
}

} // verus!
