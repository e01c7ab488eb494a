//! Enumerated property values of paragraphs.
use vstd::prelude::*;

verus! {

/// Horizontal alignment of a paragraph.
#[derive(Debug, Clone, Copy, PartialEq, Eq, Structural)]
pub enum AlignmentType {
    Left,
    Center,
    Right,
    Justified,
}

/// The value that the schema uses for an alignment.
pub open spec fn alignment_name(a: AlignmentType) -> Seq<char> {
    match a {
        AlignmentType::Left => "left"@,
        AlignmentType::Center => "center"@,
        AlignmentType::Right => "right"@,
        AlignmentType::Justified => "both"@,
    }
}

impl AlignmentType {
    /// The value that the schema uses for this alignment.
    pub fn as_str(&self) -> (r: &'static str)
        ensures
            r@ == alignment_name(*self),
    {
        match self {
            AlignmentType::Left => "left",
            AlignmentType::Center => "center",
            AlignmentType::Right => "right",
            AlignmentType::Justified => "both",
        }
    }
}

/// The special indentation of a paragraph's first line.
#[derive(Debug, Clone, Copy, PartialEq, Eq, Structural)]
pub enum SpecialIndentType {
    FirstLine(usize),
    Hanging(usize),
}

} // verus!
