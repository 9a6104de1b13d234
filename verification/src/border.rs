//! Border styles for slider frames: solid, segmented (dashed), and
//! sides-only variants, with their character sets.

use vstd::prelude::*;

use crate::text::push_char;

verus! {

/// Horizontal placement of a title on a border.
#[derive(Debug, Clone, Copy, PartialEq, Eq, Structural, Default)]
pub enum TitleAlignment {
    /// Left-aligned title.
    Left,
    /// Center-aligned title.
    #[default]
    Center,
    /// Right-aligned title.
    Right,
}

/// Vertical placement of a title on a border.
#[derive(Debug, Clone, Copy, PartialEq, Eq, Structural, Default)]
pub enum TitlePosition {
    /// Title on the top border.
    #[default]
    Top,
    /// Title on the bottom border.
    Bottom,
}

/// The available border styles, solid and segmented.
#[derive(Debug, Clone, Copy, PartialEq, Eq, Structural, Default)]
pub enum BorderStyle {
    /// Plain borders with straight lines.
    #[default]
    Plain,
    /// Rounded borders with smooth corners.
    Rounded,
    /// Double-line borders.
    Double,
    /// Thick borders with bold lines.
    Thick,
    /// Plain borders with gaps.
    PlainSegmented,
    /// Rounded borders with gaps.
    RoundedSegmented,
    /// Double-line borders with gaps.
    DoubleSegmented,
    /// Thick borders with gaps.
    ThickSegmented,
    /// Plain borders on the left and right sides only.
    PlainSidesOnly,
    /// Rounded borders on the left and right sides only.
    RoundedSidesOnly,
    /// Double-line borders on the left and right sides only.
    DoubleSidesOnly,
    /// Thick borders on the left and right sides only.
    ThickSidesOnly,
}

/// The characters used to draw a border.
#[derive(Debug, Clone, Copy, PartialEq, Eq, Structural)]
pub struct BorderSet {
    /// Top-left corner character.
    pub top_left: char,
    /// Top-right corner character.
    pub top_right: char,
    /// Bottom-left corner character.
    pub bottom_left: char,
    /// Bottom-right corner character.
    pub bottom_right: char,
    /// Vertical line character.
    pub vertical: char,
    /// Horizontal line character.
    pub horizontal: char,
    /// Whether this style draws its lines with gaps.
    pub segmented: bool,
    /// Whether this style draws only the left and right sides.
    pub sides_only: bool,
}

impl BorderStyle {
    /// Whether this style draws its lines with gaps.
    pub open spec fn spec_is_segmented(self) -> bool {
        match self {
            BorderStyle::PlainSegmented
            | BorderStyle::RoundedSegmented
            | BorderStyle::DoubleSegmented
            | BorderStyle::ThickSegmented => true,
            _ => false,
        }
    }

    /// Whether this style draws only the left and right sides.
    pub open spec fn spec_is_sides_only(self) -> bool {
        match self {
            BorderStyle::PlainSidesOnly
            | BorderStyle::RoundedSidesOnly
            | BorderStyle::DoubleSidesOnly
            | BorderStyle::ThickSidesOnly => true,
            _ => false,
        }
    }

    /// The character set of each style: plain, rounded, double and thick
    /// line drawing, with the segmented and sides-only flags taken from
    /// the variant.
    pub open spec fn spec_border_set(self) -> BorderSet {
        match self {
            BorderStyle::Plain | BorderStyle::PlainSegmented | BorderStyle::PlainSidesOnly => (
            BorderSet {
                top_left: '┌',
                top_right: '┐',
                bottom_left: '└',
                bottom_right: '┘',
                vertical: '│',
                horizontal: '─',
                segmented: self.spec_is_segmented(),
                sides_only: self.spec_is_sides_only(),
            }),
            BorderStyle::Rounded | BorderStyle::RoundedSegmented | BorderStyle::RoundedSidesOnly
                => (BorderSet {
                top_left: '╭',
                top_right: '╮',
                bottom_left: '╰',
                bottom_right: '╯',
                vertical: '│',
                horizontal: '─',
                segmented: self.spec_is_segmented(),
                sides_only: self.spec_is_sides_only(),
            }),
            BorderStyle::Double | BorderStyle::DoubleSegmented | BorderStyle::DoubleSidesOnly => (
            BorderSet {
                top_left: '╔',
                top_right: '╗',
                bottom_left: '╚',
                bottom_right: '╝',
                vertical: '║',
                horizontal: '═',
                segmented: self.spec_is_segmented(),
                sides_only: self.spec_is_sides_only(),
            }),
            BorderStyle::Thick | BorderStyle::ThickSegmented | BorderStyle::ThickSidesOnly => (
            BorderSet {
                top_left: '┏',
                top_right: '┓',
                bottom_left: '┗',
                bottom_right: '┛',
                vertical: '┃',
                horizontal: '━',
                segmented: self.spec_is_segmented(),
                sides_only: self.spec_is_sides_only(),
            }),
        }
    }

    /// The border character set for this style.
    pub fn border_set(self) -> (r: BorderSet)
        ensures
            r == self.spec_border_set(),
    {
        match self {
            BorderStyle::Plain | BorderStyle::PlainSegmented | BorderStyle::PlainSidesOnly => {
                BorderSet {
                    top_left: '┌',
                    top_right: '┐',
                    bottom_left: '└',
                    bottom_right: '┘',
                    vertical: '│',
                    horizontal: '─',
                    segmented: self.is_segmented(),
                    sides_only: self.is_sides_only(),
                }
            },
            BorderStyle::Rounded | BorderStyle::RoundedSegmented
            | BorderStyle::RoundedSidesOnly => {
                BorderSet {
                    top_left: '╭',
                    top_right: '╮',
                    bottom_left: '╰',
                    bottom_right: '╯',
                    vertical: '│',
                    horizontal: '─',
                    segmented: self.is_segmented(),
                    sides_only: self.is_sides_only(),
                }
            },
            BorderStyle::Double | BorderStyle::DoubleSegmented | BorderStyle::DoubleSidesOnly => {
                BorderSet {
                    top_left: '╔',
                    top_right: '╗',
                    bottom_left: '╚',
                    bottom_right: '╝',
                    vertical: '║',
                    horizontal: '═',
                    segmented: self.is_segmented(),
                    sides_only: self.is_sides_only(),
                }
            },
            BorderStyle::Thick | BorderStyle::ThickSegmented | BorderStyle::ThickSidesOnly => {
                BorderSet {
                    top_left: '┏',
                    top_right: '┓',
                    bottom_left: '┗',
                    bottom_right: '┛',
                    vertical: '┃',
                    horizontal: '━',
                    segmented: self.is_segmented(),
                    sides_only: self.is_sides_only(),
                }
            },
        }
    }

    /// The display name of this border style.
    pub fn name(self) -> (r: &'static str)
        ensures
            match self {
                BorderStyle::Plain => r@ == "Plain"@,
                BorderStyle::Rounded => r@ == "Rounded"@,
                BorderStyle::Double => r@ == "Double"@,
                BorderStyle::Thick => r@ == "Thick"@,
                BorderStyle::PlainSegmented => r@ == "Plain (Segmented)"@,
                BorderStyle::RoundedSegmented => r@ == "Rounded (Segmented)"@,
                BorderStyle::DoubleSegmented => r@ == "Double (Segmented)"@,
                BorderStyle::ThickSegmented => r@ == "Thick (Segmented)"@,
                BorderStyle::PlainSidesOnly => r@ == "Plain (Sides Only)"@,
                BorderStyle::RoundedSidesOnly => r@ == "Rounded (Sides Only)"@,
                BorderStyle::DoubleSidesOnly => r@ == "Double (Sides Only)"@,
                BorderStyle::ThickSidesOnly => r@ == "Thick (Sides Only)"@,
            },
    {
        match self {
            BorderStyle::Plain => "Plain",
            BorderStyle::Rounded => "Rounded",
            BorderStyle::Double => "Double",
            BorderStyle::Thick => "Thick",
            BorderStyle::PlainSegmented => "Plain (Segmented)",
            BorderStyle::RoundedSegmented => "Rounded (Segmented)",
            BorderStyle::DoubleSegmented => "Double (Segmented)",
            BorderStyle::ThickSegmented => "Thick (Segmented)",
            BorderStyle::PlainSidesOnly => "Plain (Sides Only)",
            BorderStyle::RoundedSidesOnly => "Rounded (Sides Only)",
            BorderStyle::DoubleSidesOnly => "Double (Sides Only)",
            BorderStyle::ThickSidesOnly => "Thick (Sides Only)",
        }
    }

    /// A short description of this border style.
    pub fn description(self) -> (r: &'static str)
        ensures
            match self {
                BorderStyle::Plain => r@ == "Basic straight lines"@,
                BorderStyle::Rounded => r@ == "Smooth rounded corners"@,
                BorderStyle::Double => r@ == "Elegant double lines"@,
                BorderStyle::Thick => r@ == "Bold thick borders"@,
                BorderStyle::PlainSegmented => r@ == "Dashed lines with gaps"@,
                BorderStyle::RoundedSegmented => r@ == "Rounded with gaps"@,
                BorderStyle::DoubleSegmented => r@ == "Double lines with gaps"@,
                BorderStyle::ThickSegmented => r@ == "Thick with gaps"@,
                BorderStyle::PlainSidesOnly => r@ == "Left and right borders only"@,
                BorderStyle::RoundedSidesOnly => r@ == "Rounded sides only"@,
                BorderStyle::DoubleSidesOnly => r@ == "Double sides only"@,
                BorderStyle::ThickSidesOnly => r@ == "Thick sides only"@,
            },
    {
        match self {
            BorderStyle::Plain => "Basic straight lines",
            BorderStyle::Rounded => "Smooth rounded corners",
            BorderStyle::Double => "Elegant double lines",
            BorderStyle::Thick => "Bold thick borders",
            BorderStyle::PlainSegmented => "Dashed lines with gaps",
            BorderStyle::RoundedSegmented => "Rounded with gaps",
            BorderStyle::DoubleSegmented => "Double lines with gaps",
            BorderStyle::ThickSegmented => "Thick with gaps",
            BorderStyle::PlainSidesOnly => "Left and right borders only",
            BorderStyle::RoundedSidesOnly => "Rounded sides only",
            BorderStyle::DoubleSidesOnly => "Double sides only",
            BorderStyle::ThickSidesOnly => "Thick sides only",
        }
    }

    /// True when this border style draws its lines with gaps.
    pub fn is_segmented(self) -> (r: bool)
        ensures
            r == self.spec_is_segmented(),
    {
        match self {
            BorderStyle::PlainSegmented
            | BorderStyle::RoundedSegmented
            | BorderStyle::DoubleSegmented
            | BorderStyle::ThickSegmented => true,
            _ => false,
        }
    }

    /// True when this border style draws only the left and right sides.
    pub fn is_sides_only(self) -> (r: bool)
        ensures
            r == self.spec_is_sides_only(),
    {
        match self {
            BorderStyle::PlainSidesOnly
            | BorderStyle::RoundedSidesOnly
            | BorderStyle::DoubleSidesOnly
            | BorderStyle::ThickSidesOnly => true,
            _ => false,
        }
    }

    /// Every border style, grouped by line shape.
    pub fn all() -> (r: Vec<BorderStyle>)
        ensures
            r@ == seq![
                BorderStyle::Plain,
                BorderStyle::PlainSegmented,
                BorderStyle::PlainSidesOnly,
                BorderStyle::Rounded,
                BorderStyle::RoundedSegmented,
                BorderStyle::RoundedSidesOnly,
                BorderStyle::Double,
                BorderStyle::DoubleSegmented,
                BorderStyle::DoubleSidesOnly,
                BorderStyle::Thick,
                BorderStyle::ThickSegmented,
                BorderStyle::ThickSidesOnly,
            ],
    {
        let r = vec![
            BorderStyle::Plain,
            BorderStyle::PlainSegmented,
            BorderStyle::PlainSidesOnly,
            BorderStyle::Rounded,
            BorderStyle::RoundedSegmented,
            BorderStyle::RoundedSidesOnly,
            BorderStyle::Double,
            BorderStyle::DoubleSegmented,
            BorderStyle::DoubleSidesOnly,
            BorderStyle::Thick,
            BorderStyle::ThickSegmented,
            BorderStyle::ThickSidesOnly,
        ];
        assert(r@ =~= seq![
            BorderStyle::Plain,
            BorderStyle::PlainSegmented,
            BorderStyle::PlainSidesOnly,
            BorderStyle::Rounded,
            BorderStyle::RoundedSegmented,
            BorderStyle::RoundedSidesOnly,
            BorderStyle::Double,
            BorderStyle::DoubleSegmented,
            BorderStyle::DoubleSidesOnly,
            BorderStyle::Thick,
            BorderStyle::ThickSegmented,
            BorderStyle::ThickSidesOnly,
        ]);
        r
    }
}

/// The character at offset `i` of a segmented line drawn with `ch`: two
/// line characters, then a gap, repeating.
pub open spec fn spec_segmented_char(i: int, ch: char) -> char {
    if i % 3 == 2 {
        ' '
    } else {
        ch
    }
}

/// A dashed line of the given length: the pattern is two `ch` characters
/// on, one space off.
pub fn create_segmented_line(length: usize, ch: char) -> (r: String)
    ensures
        r@ == Seq::new(length as nat, |i: int| spec_segmented_char(i, ch)),
{
    let mut s = String::new();
    let mut i: usize = 0;
    while i < length
        invariant
            i <= length,
            s@ == Seq::new(i as nat, |j: int| spec_segmented_char(j, ch)),
        decreases length - i,
    {
        if i % 3 == 2 {
            push_char(&mut s, ' ');
        } else {
            push_char(&mut s, ch);
        }
        i = i + 1;
        assert(s@ =~= Seq::new(i as nat, |j: int| spec_segmented_char(j, ch)));
    }
    assert(s@ =~= Seq::new(length as nat, |j: int| spec_segmented_char(j, ch)));
    s
}

} // verus!
