//! Visual styling of a slider: colours and a set of named presets.
//!
//! A [`SliderStyle`] bundles the three glyphs and three colours of a bar.
//! Colours are the crate's own closed enumeration; the host maps them onto
//! its terminal backend's palette.

use vstd::prelude::*;

verus! {

/// A terminal colour, as the common sixteen-colour palette plus RGB and
/// indexed values.
#[derive(Debug, Clone, Copy, PartialEq, Eq, Structural, Hash, Default)]
pub enum Color {
    /// The terminal's default foreground colour.
    #[default]
    Reset,
    /// Black.
    Black,
    /// Red.
    Red,
    /// Green.
    Green,
    /// Yellow.
    Yellow,
    /// Blue.
    Blue,
    /// Magenta.
    Magenta,
    /// Cyan.
    Cyan,
    /// Gray.
    Gray,
    /// Dark gray.
    DarkGray,
    /// Light red.
    LightRed,
    /// Light green.
    LightGreen,
    /// Light yellow.
    LightYellow,
    /// Light blue.
    LightBlue,
    /// Light magenta.
    LightMagenta,
    /// Light cyan.
    LightCyan,
    /// White.
    White,
    /// A 24-bit colour from red, green and blue components.
    Rgb(u8, u8, u8),
    /// A colour from the terminal's 256-colour table.
    Indexed(u8),
}

/// Style configuration for a slider: its glyphs, their colours, and
/// whether the bar is drawn as discrete segments.
#[derive(Debug, Clone, Copy, PartialEq, Eq)]
pub struct SliderStyle {
    /// Display name of the style.
    pub name: &'static str,
    /// Symbol for the filled portion.
    pub filled_symbol: &'static str,
    /// Symbol for the empty portion.
    pub empty_symbol: &'static str,
    /// Symbol for the handle.
    pub handle_symbol: &'static str,
    /// Colour of the filled portion.
    pub filled_color: Color,
    /// Colour of the empty portion.
    pub empty_color: Color,
    /// Colour of the handle.
    pub handle_color: Color,
    /// Whether the bar is drawn as discrete segments with gaps.
    pub segmented: bool,
}

impl SliderStyle {
    /// Default style - clean and professional.
    pub fn default_style() -> (r: SliderStyle)
        ensures
            r.name@ == "Default"@,
            r.filled_symbol@ == "━"@,
            r.empty_symbol@ == "─"@,
            r.handle_symbol@ == "●"@,
            r.filled_color == Color::Cyan,
            r.empty_color == Color::DarkGray,
            r.handle_color == Color::White,
            r.segmented == false,
    {
        SliderStyle {
            name: "Default",
            filled_symbol: "━",
            empty_symbol: "─",
            handle_symbol: "●",
            filled_color: Color::Cyan,
            empty_color: Color::DarkGray,
            handle_color: Color::White,
            segmented: false,
        }
    }

    /// Block style - bold and solid.
    pub fn blocks() -> (r: SliderStyle)
        ensures
            r.name@ == "Blocks"@,
            r.filled_symbol@ == "█"@,
            r.empty_symbol@ == "░"@,
            r.handle_symbol@ == "▓"@,
            r.filled_color == Color::Green,
            r.empty_color == Color::DarkGray,
            r.handle_color == Color::White,
            r.segmented == false,
    {
        SliderStyle {
            name: "Blocks",
            filled_symbol: "█",
            empty_symbol: "░",
            handle_symbol: "▓",
            filled_color: Color::Green,
            empty_color: Color::DarkGray,
            handle_color: Color::White,
            segmented: false,
        }
    }

    /// Dotted style - braille patterns.
    pub fn dots() -> (r: SliderStyle)
        ensures
            r.name@ == "Dots"@,
            r.filled_symbol@ == "⣿"@,
            r.empty_symbol@ == "⣀"@,
            r.handle_symbol@ == "⬤"@,
            r.filled_color == Color::Yellow,
            r.empty_color == Color::DarkGray,
            r.handle_color == Color::White,
            r.segmented == false,
    {
        SliderStyle {
            name: "Dots",
            filled_symbol: "⣿",
            empty_symbol: "⣀",
            handle_symbol: "⬤",
            filled_color: Color::Yellow,
            empty_color: Color::DarkGray,
            handle_color: Color::White,
            segmented: false,
        }
    }

    /// Arrow style - geometric shapes.
    pub fn arrows() -> (r: SliderStyle)
        ensures
            r.name@ == "Arrows"@,
            r.filled_symbol@ == "▬"@,
            r.empty_symbol@ == "▭"@,
            r.handle_symbol@ == "◆"@,
            r.filled_color == Color::Magenta,
            r.empty_color == Color::DarkGray,
            r.handle_color == Color::White,
            r.segmented == false,
    {
        SliderStyle {
            name: "Arrows",
            filled_symbol: "▬",
            empty_symbol: "▭",
            handle_symbol: "◆",
            filled_color: Color::Magenta,
            empty_color: Color::DarkGray,
            handle_color: Color::White,
            segmented: false,
        }
    }

    /// Minimal style - clean and subtle.
    pub fn minimal() -> (r: SliderStyle)
        ensures
            r.name@ == "Minimal"@,
            r.filled_symbol@ == "─"@,
            r.empty_symbol@ == " "@,
            r.handle_symbol@ == "│"@,
            r.filled_color == Color::Blue,
            r.empty_color == Color::DarkGray,
            r.handle_color == Color::Cyan,
            r.segmented == false,
    {
        SliderStyle {
            name: "Minimal",
            filled_symbol: "─",
            empty_symbol: " ",
            handle_symbol: "│",
            filled_color: Color::Blue,
            empty_color: Color::DarkGray,
            handle_color: Color::Cyan,
            segmented: false,
        }
    }

    /// Double line style - formal appearance.
    pub fn double_line() -> (r: SliderStyle)
        ensures
            r.name@ == "Double Line"@,
            r.filled_symbol@ == "═"@,
            r.empty_symbol@ == "─"@,
            r.handle_symbol@ == "◉"@,
            r.filled_color == Color::Red,
            r.empty_color == Color::DarkGray,
            r.handle_color == Color::White,
            r.segmented == false,
    {
        SliderStyle {
            name: "Double Line",
            filled_symbol: "═",
            empty_symbol: "─",
            handle_symbol: "◉",
            filled_color: Color::Red,
            empty_color: Color::DarkGray,
            handle_color: Color::White,
            segmented: false,
        }
    }

    /// Wave style - fluid appearance.
    pub fn wave() -> (r: SliderStyle)
        ensures
            r.name@ == "Wave"@,
            r.filled_symbol@ == "≈"@,
            r.empty_symbol@ == "˜"@,
            r.handle_symbol@ == "◈"@,
            r.filled_color == Color::Cyan,
            r.empty_color == Color::DarkGray,
            r.handle_color == Color::White,
            r.segmented == false,
    {
        SliderStyle {
            name: "Wave",
            filled_symbol: "≈",
            empty_symbol: "˜",
            handle_symbol: "◈",
            filled_color: Color::Cyan,
            empty_color: Color::DarkGray,
            handle_color: Color::White,
            segmented: false,
        }
    }

    /// Progress style - progress bar look.
    pub fn progress() -> (r: SliderStyle)
        ensures
            r.name@ == "Progress"@,
            r.filled_symbol@ == "▰"@,
            r.empty_symbol@ == "▱"@,
            r.handle_symbol@ == "▶"@,
            r.filled_color == Color::Green,
            r.empty_color == Color::DarkGray,
            r.handle_color == Color::Yellow,
            r.segmented == false,
    {
        SliderStyle {
            name: "Progress",
            filled_symbol: "▰",
            empty_symbol: "▱",
            handle_symbol: "▶",
            filled_color: Color::Green,
            empty_color: Color::DarkGray,
            handle_color: Color::Yellow,
            segmented: false,
        }
    }

    /// Thick style - bold appearance.
    pub fn thick() -> (r: SliderStyle)
        ensures
            r.name@ == "Thick"@,
            r.filled_symbol@ == "▬"@,
            r.empty_symbol@ == "▬"@,
            r.handle_symbol@ == "■"@,
            r.filled_color == Color::Magenta,
            r.empty_color == Color::Rgb(60, 60, 60),
            r.handle_color == Color::White,
            r.segmented == false,
    {
        SliderStyle {
            name: "Thick",
            filled_symbol: "▬",
            empty_symbol: "▬",
            handle_symbol: "■",
            filled_color: Color::Magenta,
            empty_color: Color::Rgb(60, 60, 60),
            handle_color: Color::White,
            segmented: false,
        }
    }

    /// Gradient style - shaded effect.
    pub fn gradient() -> (r: SliderStyle)
        ensures
            r.name@ == "Gradient"@,
            r.filled_symbol@ == "▓"@,
            r.empty_symbol@ == "░"@,
            r.handle_symbol@ == "●"@,
            r.filled_color == Color::Blue,
            r.empty_color == Color::DarkGray,
            r.handle_color == Color::Cyan,
            r.segmented == false,
    {
        SliderStyle {
            name: "Gradient",
            filled_symbol: "▓",
            empty_symbol: "░",
            handle_symbol: "●",
            filled_color: Color::Blue,
            empty_color: Color::DarkGray,
            handle_color: Color::Cyan,
            segmented: false,
        }
    }

    /// Rounded style - soft appearance.
    pub fn rounded() -> (r: SliderStyle)
        ensures
            r.name@ == "Rounded"@,
            r.filled_symbol@ == "─"@,
            r.empty_symbol@ == "╌"@,
            r.handle_symbol@ == "◯"@,
            r.filled_color == Color::Yellow,
            r.empty_color == Color::DarkGray,
            r.handle_color == Color::White,
            r.segmented == false,
    {
        SliderStyle {
            name: "Rounded",
            filled_symbol: "─",
            empty_symbol: "╌",
            handle_symbol: "◯",
            filled_color: Color::Yellow,
            empty_color: Color::DarkGray,
            handle_color: Color::White,
            segmented: false,
        }
    }

    /// Retro style - old-school ASCII.
    pub fn retro() -> (r: SliderStyle)
        ensures
            r.name@ == "Retro"@,
            r.filled_symbol@ == "#"@,
            r.empty_symbol@ == "."@,
            r.handle_symbol@ == "@"@,
            r.filled_color == Color::Green,
            r.empty_color == Color::DarkGray,
            r.handle_color == Color::White,
            r.segmented == false,
    {
        SliderStyle {
            name: "Retro",
            filled_symbol: "#",
            empty_symbol: ".",
            handle_symbol: "@",
            filled_color: Color::Green,
            empty_color: Color::DarkGray,
            handle_color: Color::White,
            segmented: false,
        }
    }

    /// Segmented style - discrete segments with spaces.
    pub fn segmented() -> (r: SliderStyle)
        ensures
            r.name@ == "Segmented"@,
            r.filled_symbol@ == "─"@,
            r.empty_symbol@ == "─"@,
            r.handle_symbol@ == "●"@,
            r.filled_color == Color::Red,
            r.empty_color == Color::DarkGray,
            r.handle_color == Color::White,
            r.segmented == true,
    {
        SliderStyle {
            name: "Segmented",
            filled_symbol: "─",
            empty_symbol: "─",
            handle_symbol: "●",
            filled_color: Color::Red,
            empty_color: Color::DarkGray,
            handle_color: Color::White,
            segmented: true,
        }
    }

    /// Segmented blocks style.
    pub fn segmented_blocks() -> (r: SliderStyle)
        ensures
            r.name@ == "Segmented Blocks"@,
            r.filled_symbol@ == "█"@,
            r.empty_symbol@ == "░"@,
            r.handle_symbol@ == "■"@,
            r.filled_color == Color::Green,
            r.empty_color == Color::DarkGray,
            r.handle_color == Color::White,
            r.segmented == true,
    {
        SliderStyle {
            name: "Segmented Blocks",
            filled_symbol: "█",
            empty_symbol: "░",
            handle_symbol: "■",
            filled_color: Color::Green,
            empty_color: Color::DarkGray,
            handle_color: Color::White,
            segmented: true,
        }
    }

    /// Segmented dots style.
    pub fn segmented_dots() -> (r: SliderStyle)
        ensures
            r.name@ == "Segmented Dots"@,
            r.filled_symbol@ == "●"@,
            r.empty_symbol@ == "○"@,
            r.handle_symbol@ == "◆"@,
            r.filled_color == Color::Cyan,
            r.empty_color == Color::DarkGray,
            r.handle_color == Color::Yellow,
            r.segmented == true,
    {
        SliderStyle {
            name: "Segmented Dots",
            filled_symbol: "●",
            empty_symbol: "○",
            handle_symbol: "◆",
            filled_color: Color::Cyan,
            empty_color: Color::DarkGray,
            handle_color: Color::Yellow,
            segmented: true,
        }
    }

    /// Segmented bars style.
    pub fn segmented_bars() -> (r: SliderStyle)
        ensures
            r.name@ == "Segmented Bars"@,
            r.filled_symbol@ == "│"@,
            r.empty_symbol@ == "┆"@,
            r.handle_symbol@ == "▶"@,
            r.filled_color == Color::Magenta,
            r.empty_color == Color::DarkGray,
            r.handle_color == Color::White,
            r.segmented == true,
    {
        SliderStyle {
            name: "Segmented Bars",
            filled_symbol: "│",
            empty_symbol: "┆",
            handle_symbol: "▶",
            filled_color: Color::Magenta,
            empty_color: Color::DarkGray,
            handle_color: Color::White,
            segmented: true,
        }
    }

    /// Segmented squares style.
    pub fn segmented_squares() -> (r: SliderStyle)
        ensures
            r.name@ == "Segmented Squares"@,
            r.filled_symbol@ == "■"@,
            r.empty_symbol@ == "□"@,
            r.handle_symbol@ == "◉"@,
            r.filled_color == Color::Blue,
            r.empty_color == Color::DarkGray,
            r.handle_color == Color::Cyan,
            r.segmented == true,
    {
        SliderStyle {
            name: "Segmented Squares",
            filled_symbol: "■",
            empty_symbol: "□",
            handle_symbol: "◉",
            filled_color: Color::Blue,
            empty_color: Color::DarkGray,
            handle_color: Color::Cyan,
            segmented: true,
        }
    }

    /// Segmented diamonds style.
    pub fn segmented_diamonds() -> (r: SliderStyle)
        ensures
            r.name@ == "Segmented Diamonds"@,
            r.filled_symbol@ == "◆"@,
            r.empty_symbol@ == "◇"@,
            r.handle_symbol@ == "⬢"@,
            r.filled_color == Color::Yellow,
            r.empty_color == Color::DarkGray,
            r.handle_color == Color::White,
            r.segmented == true,
    {
        SliderStyle {
            name: "Segmented Diamonds",
            filled_symbol: "◆",
            empty_symbol: "◇",
            handle_symbol: "⬢",
            filled_color: Color::Yellow,
            empty_color: Color::DarkGray,
            handle_color: Color::White,
            segmented: true,
        }
    }

    /// Segmented stars style.
    pub fn segmented_stars() -> (r: SliderStyle)
        ensures
            r.name@ == "Segmented Stars"@,
            r.filled_symbol@ == "★"@,
            r.empty_symbol@ == "☆"@,
            r.handle_symbol@ == "✨"@,
            r.filled_color == Color::Yellow,
            r.empty_color == Color::DarkGray,
            r.handle_color == Color::Cyan,
            r.segmented == true,
    {
        SliderStyle {
            name: "Segmented Stars",
            filled_symbol: "★",
            empty_symbol: "☆",
            handle_symbol: "✨",
            filled_color: Color::Yellow,
            empty_color: Color::DarkGray,
            handle_color: Color::Cyan,
            segmented: true,
        }
    }

    /// Segmented arrows style.
    pub fn segmented_arrows() -> (r: SliderStyle)
        ensures
            r.name@ == "Segmented Arrows"@,
            r.filled_symbol@ == "▶"@,
            r.empty_symbol@ == "▷"@,
            r.handle_symbol@ == "▶"@,
            r.filled_color == Color::Red,
            r.empty_color == Color::DarkGray,
            r.handle_color == Color::White,
            r.segmented == true,
    {
        SliderStyle {
            name: "Segmented Arrows",
            filled_symbol: "▶",
            empty_symbol: "▷",
            handle_symbol: "▶",
            filled_color: Color::Red,
            empty_color: Color::DarkGray,
            handle_color: Color::White,
            segmented: true,
        }
    }

    /// Segmented thick style.
    pub fn segmented_thick() -> (r: SliderStyle)
        ensures
            r.name@ == "Segmented Thick"@,
            r.filled_symbol@ == "━"@,
            r.empty_symbol@ == "╌"@,
            r.handle_symbol@ == "◯"@,
            r.filled_color == Color::Cyan,
            r.empty_color == Color::DarkGray,
            r.handle_color == Color::White,
            r.segmented == true,
    {
        SliderStyle {
            name: "Segmented Thick",
            filled_symbol: "━",
            empty_symbol: "╌",
            handle_symbol: "◯",
            filled_color: Color::Cyan,
            empty_color: Color::DarkGray,
            handle_color: Color::White,
            segmented: true,
        }
    }

    /// Download progress bar style.
    pub fn progress_download() -> (r: SliderStyle)
        ensures
            r.name@ == "Download"@,
            r.filled_symbol@ == "█"@,
            r.empty_symbol@ == "░"@,
            r.handle_symbol@ == "●"@,
            r.filled_color == Color::Green,
            r.empty_color == Color::DarkGray,
            r.handle_color == Color::White,
            r.segmented == false,
    {
        SliderStyle {
            name: "Download",
            filled_symbol: "█",
            empty_symbol: "░",
            handle_symbol: "●",
            filled_color: Color::Green,
            empty_color: Color::DarkGray,
            handle_color: Color::White,
            segmented: false,
        }
    }

    /// Upload progress bar style.
    pub fn progress_upload() -> (r: SliderStyle)
        ensures
            r.name@ == "Upload"@,
            r.filled_symbol@ == "▰"@,
            r.empty_symbol@ == "▱"@,
            r.handle_symbol@ == "●"@,
            r.filled_color == Color::Blue,
            r.empty_color == Color::DarkGray,
            r.handle_color == Color::White,
            r.segmented == false,
    {
        SliderStyle {
            name: "Upload",
            filled_symbol: "▰",
            empty_symbol: "▱",
            handle_symbol: "●",
            filled_color: Color::Blue,
            empty_color: Color::DarkGray,
            handle_color: Color::White,
            segmented: false,
        }
    }

    /// Health bar style (gaming UI).
    pub fn progress_health() -> (r: SliderStyle)
        ensures
            r.name@ == "Health"@,
            r.filled_symbol@ == "▓"@,
            r.empty_symbol@ == "░"@,
            r.handle_symbol@ == "●"@,
            r.filled_color == Color::Red,
            r.empty_color == Color::Rgb(40, 40, 40),
            r.handle_color == Color::White,
            r.segmented == false,
    {
        SliderStyle {
            name: "Health",
            filled_symbol: "▓",
            empty_symbol: "░",
            handle_symbol: "●",
            filled_color: Color::Red,
            empty_color: Color::Rgb(40, 40, 40),
            handle_color: Color::White,
            segmented: false,
        }
    }

    /// Mana bar style (gaming UI).
    pub fn progress_mana() -> (r: SliderStyle)
        ensures
            r.name@ == "Mana"@,
            r.filled_symbol@ == "▓"@,
            r.empty_symbol@ == "░"@,
            r.handle_symbol@ == "●"@,
            r.filled_color == Color::Cyan,
            r.empty_color == Color::Rgb(40, 40, 40),
            r.handle_color == Color::White,
            r.segmented == false,
    {
        SliderStyle {
            name: "Mana",
            filled_symbol: "▓",
            empty_symbol: "░",
            handle_symbol: "●",
            filled_color: Color::Cyan,
            empty_color: Color::Rgb(40, 40, 40),
            handle_color: Color::White,
            segmented: false,
        }
    }

    /// Experience bar style (gaming UI).
    pub fn progress_experience() -> (r: SliderStyle)
        ensures
            r.name@ == "Experience"@,
            r.filled_symbol@ == "━"@,
            r.empty_symbol@ == "─"@,
            r.handle_symbol@ == "●"@,
            r.filled_color == Color::Yellow,
            r.empty_color == Color::DarkGray,
            r.handle_color == Color::White,
            r.segmented == false,
    {
        SliderStyle {
            name: "Experience",
            filled_symbol: "━",
            empty_symbol: "─",
            handle_symbol: "●",
            filled_color: Color::Yellow,
            empty_color: Color::DarkGray,
            handle_color: Color::White,
            segmented: false,
        }
    }

    /// Loading bar style.
    pub fn progress_loading() -> (r: SliderStyle)
        ensures
            r.name@ == "Loading"@,
            r.filled_symbol@ == "═"@,
            r.empty_symbol@ == "─"@,
            r.handle_symbol@ == "●"@,
            r.filled_color == Color::Magenta,
            r.empty_color == Color::DarkGray,
            r.handle_color == Color::White,
            r.segmented == false,
    {
        SliderStyle {
            name: "Loading",
            filled_symbol: "═",
            empty_symbol: "─",
            handle_symbol: "●",
            filled_color: Color::Magenta,
            empty_color: Color::DarkGray,
            handle_color: Color::White,
            segmented: false,
        }
    }

    /// Installation progress bar style.
    pub fn progress_installation() -> (r: SliderStyle)
        ensures
            r.name@ == "Installation"@,
            r.filled_symbol@ == "▬"@,
            r.empty_symbol@ == "▭"@,
            r.handle_symbol@ == "●"@,
            r.filled_color == Color::LightGreen,
            r.empty_color == Color::DarkGray,
            r.handle_color == Color::White,
            r.segmented == false,
    {
        SliderStyle {
            name: "Installation",
            filled_symbol: "▬",
            empty_symbol: "▭",
            handle_symbol: "●",
            filled_color: Color::LightGreen,
            empty_color: Color::DarkGray,
            handle_color: Color::White,
            segmented: false,
        }
    }

    /// Battery level bar style.
    pub fn progress_battery() -> (r: SliderStyle)
        ensures
            r.name@ == "Battery"@,
            r.filled_symbol@ == "■"@,
            r.empty_symbol@ == "□"@,
            r.handle_symbol@ == "●"@,
            r.filled_color == Color::LightYellow,
            r.empty_color == Color::DarkGray,
            r.handle_color == Color::White,
            r.segmented == false,
    {
        SliderStyle {
            name: "Battery",
            filled_symbol: "■",
            empty_symbol: "□",
            handle_symbol: "●",
            filled_color: Color::LightYellow,
            empty_color: Color::DarkGray,
            handle_color: Color::White,
            segmented: false,
        }
    }

    /// Vertical slider style - clean vertical lines.
    pub fn vertical() -> (r: SliderStyle)
        ensures
            r.name@ == "Vertical"@,
            r.filled_symbol@ == "│"@,
            r.empty_symbol@ == "│"@,
            r.handle_symbol@ == "━"@,
            r.filled_color == Color::Cyan,
            r.empty_color == Color::DarkGray,
            r.handle_color == Color::White,
            r.segmented == false,
    {
        SliderStyle {
            name: "Vertical",
            filled_symbol: "│",
            empty_symbol: "│",
            handle_symbol: "━",
            filled_color: Color::Cyan,
            empty_color: Color::DarkGray,
            handle_color: Color::White,
            segmented: false,
        }
    }

    /// Vertical slider style - bold blocks.
    pub fn vertical_blocks() -> (r: SliderStyle)
        ensures
            r.name@ == "Vertical Blocks"@,
            r.filled_symbol@ == "█"@,
            r.empty_symbol@ == "│"@,
            r.handle_symbol@ == "━"@,
            r.filled_color == Color::Green,
            r.empty_color == Color::DarkGray,
            r.handle_color == Color::White,
            r.segmented == false,
    {
        SliderStyle {
            name: "Vertical Blocks",
            filled_symbol: "█",
            empty_symbol: "│",
            handle_symbol: "━",
            filled_color: Color::Green,
            empty_color: Color::DarkGray,
            handle_color: Color::White,
            segmented: false,
        }
    }

    /// Vertical slider style - shaded gradient.
    pub fn vertical_gradient() -> (r: SliderStyle)
        ensures
            r.name@ == "Vertical Gradient"@,
            r.filled_symbol@ == "▓"@,
            r.empty_symbol@ == "░"@,
            r.handle_symbol@ == "━"@,
            r.filled_color == Color::Magenta,
            r.empty_color == Color::DarkGray,
            r.handle_color == Color::White,
            r.segmented == false,
    {
        SliderStyle {
            name: "Vertical Gradient",
            filled_symbol: "▓",
            empty_symbol: "░",
            handle_symbol: "━",
            filled_color: Color::Magenta,
            empty_color: Color::DarkGray,
            handle_color: Color::White,
            segmented: false,
        }
    }

    /// Vertical slider style - dots.
    pub fn vertical_dots() -> (r: SliderStyle)
        ensures
            r.name@ == "Vertical Dots"@,
            r.filled_symbol@ == "●"@,
            r.empty_symbol@ == "○"@,
            r.handle_symbol@ == "━"@,
            r.filled_color == Color::Yellow,
            r.empty_color == Color::DarkGray,
            r.handle_color == Color::White,
            r.segmented == false,
    {
        SliderStyle {
            name: "Vertical Dots",
            filled_symbol: "●",
            empty_symbol: "○",
            handle_symbol: "━",
            filled_color: Color::Yellow,
            empty_color: Color::DarkGray,
            handle_color: Color::White,
            segmented: false,
        }
    }

    /// Vertical slider style - squares.
    pub fn vertical_squares() -> (r: SliderStyle)
        ensures
            r.name@ == "Vertical Squares"@,
            r.filled_symbol@ == "■"@,
            r.empty_symbol@ == "□"@,
            r.handle_symbol@ == "━"@,
            r.filled_color == Color::Blue,
            r.empty_color == Color::DarkGray,
            r.handle_color == Color::White,
            r.segmented == false,
    {
        SliderStyle {
            name: "Vertical Squares",
            filled_symbol: "■",
            empty_symbol: "□",
            handle_symbol: "━",
            filled_color: Color::Blue,
            empty_color: Color::DarkGray,
            handle_color: Color::White,
            segmented: false,
        }
    }

    /// Vertical slider style - equalizer bars.
    pub fn vertical_equalizer() -> (r: SliderStyle)
        ensures
            r.name@ == "Equalizer"@,
            r.filled_symbol@ == "│"@,
            r.empty_symbol@ == "│"@,
            r.handle_symbol@ == "━"@,
            r.filled_color == Color::LightGreen,
            r.empty_color == Color::DarkGray,
            r.handle_color == Color::White,
            r.segmented == false,
    {
        SliderStyle {
            name: "Equalizer",
            filled_symbol: "│",
            empty_symbol: "│",
            handle_symbol: "━",
            filled_color: Color::LightGreen,
            empty_color: Color::DarkGray,
            handle_color: Color::White,
            segmented: false,
        }
    }

    /// Horizontal slider style - clean horizontal lines.
    pub fn horizontal() -> (r: SliderStyle)
        ensures
            r.name@ == "Horizontal"@,
            r.filled_symbol@ == "─"@,
            r.empty_symbol@ == "─"@,
            r.handle_symbol@ == "│"@,
            r.filled_color == Color::Cyan,
            r.empty_color == Color::DarkGray,
            r.handle_color == Color::White,
            r.segmented == false,
    {
        SliderStyle {
            name: "Horizontal",
            filled_symbol: "─",
            empty_symbol: "─",
            handle_symbol: "│",
            filled_color: Color::Cyan,
            empty_color: Color::DarkGray,
            handle_color: Color::White,
            segmented: false,
        }
    }

    /// Horizontal slider style - thick lines.
    pub fn horizontal_thick() -> (r: SliderStyle)
        ensures
            r.name@ == "Horizontal Thick"@,
            r.filled_symbol@ == "━"@,
            r.empty_symbol@ == "─"@,
            r.handle_symbol@ == "●"@,
            r.filled_color == Color::Cyan,
            r.empty_color == Color::DarkGray,
            r.handle_color == Color::White,
            r.segmented == false,
    {
        SliderStyle {
            name: "Horizontal Thick",
            filled_symbol: "━",
            empty_symbol: "─",
            handle_symbol: "●",
            filled_color: Color::Cyan,
            empty_color: Color::DarkGray,
            handle_color: Color::White,
            segmented: false,
        }
    }

    /// Horizontal slider style - bold blocks.
    pub fn horizontal_blocks() -> (r: SliderStyle)
        ensures
            r.name@ == "Horizontal Blocks"@,
            r.filled_symbol@ == "█"@,
            r.empty_symbol@ == "░"@,
            r.handle_symbol@ == "●"@,
            r.filled_color == Color::Green,
            r.empty_color == Color::DarkGray,
            r.handle_color == Color::White,
            r.segmented == false,
    {
        SliderStyle {
            name: "Horizontal Blocks",
            filled_symbol: "█",
            empty_symbol: "░",
            handle_symbol: "●",
            filled_color: Color::Green,
            empty_color: Color::DarkGray,
            handle_color: Color::White,
            segmented: false,
        }
    }

    /// Horizontal slider style - shaded gradient.
    pub fn horizontal_gradient() -> (r: SliderStyle)
        ensures
            r.name@ == "Horizontal Gradient"@,
            r.filled_symbol@ == "▓"@,
            r.empty_symbol@ == "░"@,
            r.handle_symbol@ == "●"@,
            r.filled_color == Color::Magenta,
            r.empty_color == Color::DarkGray,
            r.handle_color == Color::White,
            r.segmented == false,
    {
        SliderStyle {
            name: "Horizontal Gradient",
            filled_symbol: "▓",
            empty_symbol: "░",
            handle_symbol: "●",
            filled_color: Color::Magenta,
            empty_color: Color::DarkGray,
            handle_color: Color::White,
            segmented: false,
        }
    }

    /// Horizontal slider style - dots.
    pub fn horizontal_dots() -> (r: SliderStyle)
        ensures
            r.name@ == "Horizontal Dots"@,
            r.filled_symbol@ == "●"@,
            r.empty_symbol@ == "○"@,
            r.handle_symbol@ == "●"@,
            r.filled_color == Color::Yellow,
            r.empty_color == Color::DarkGray,
            r.handle_color == Color::White,
            r.segmented == false,
    {
        SliderStyle {
            name: "Horizontal Dots",
            filled_symbol: "●",
            empty_symbol: "○",
            handle_symbol: "●",
            filled_color: Color::Yellow,
            empty_color: Color::DarkGray,
            handle_color: Color::White,
            segmented: false,
        }
    }

    /// Horizontal slider style - squares.
    pub fn horizontal_squares() -> (r: SliderStyle)
        ensures
            r.name@ == "Horizontal Squares"@,
            r.filled_symbol@ == "■"@,
            r.empty_symbol@ == "□"@,
            r.handle_symbol@ == "●"@,
            r.filled_color == Color::Blue,
            r.empty_color == Color::DarkGray,
            r.handle_color == Color::White,
            r.segmented == false,
    {
        SliderStyle {
            name: "Horizontal Squares",
            filled_symbol: "■",
            empty_symbol: "□",
            handle_symbol: "●",
            filled_color: Color::Blue,
            empty_color: Color::DarkGray,
            handle_color: Color::White,
            segmented: false,
        }
    }

    /// Horizontal slider style - double lines.
    pub fn horizontal_double() -> (r: SliderStyle)
        ensures
            r.name@ == "Horizontal Double"@,
            r.filled_symbol@ == "═"@,
            r.empty_symbol@ == "─"@,
            r.handle_symbol@ == "◉"@,
            r.filled_color == Color::LightCyan,
            r.empty_color == Color::DarkGray,
            r.handle_color == Color::White,
            r.segmented == false,
    {
        SliderStyle {
            name: "Horizontal Double",
            filled_symbol: "═",
            empty_symbol: "─",
            handle_symbol: "◉",
            filled_color: Color::LightCyan,
            empty_color: Color::DarkGray,
            handle_color: Color::White,
            segmented: false,
        }
    }

    /// A custom style starting from the default glyphs and colours, under
    /// the given name.
    pub fn custom(name: &'static str) -> (r: SliderStyle)
        ensures
            r.name@ == name@,
            r.filled_symbol@ == "━"@,
            r.empty_symbol@ == "─"@,
            r.handle_symbol@ == "●"@,
            r.filled_color == Color::Cyan,
            r.empty_color == Color::DarkGray,
            r.handle_color == Color::White,
            r.segmented == false,
    {
        SliderStyle {
            name,
            filled_symbol: "━",
            empty_symbol: "─",
            handle_symbol: "●",
            filled_color: Color::Cyan,
            empty_color: Color::DarkGray,
            handle_color: Color::White,
            segmented: false,
        }
    }

    /// Replaces the filled symbol.
    pub fn filled_symbol(self, symbol: &'static str) -> (r: SliderStyle)
        ensures
            r == (SliderStyle { filled_symbol: symbol, ..self }),
    {
        SliderStyle { filled_symbol: symbol, ..self }
    }

    /// Replaces the empty symbol.
    pub fn empty_symbol(self, symbol: &'static str) -> (r: SliderStyle)
        ensures
            r == (SliderStyle { empty_symbol: symbol, ..self }),
    {
        SliderStyle { empty_symbol: symbol, ..self }
    }

    /// Replaces the handle symbol.
    pub fn handle_symbol(self, symbol: &'static str) -> (r: SliderStyle)
        ensures
            r == (SliderStyle { handle_symbol: symbol, ..self }),
    {
        SliderStyle { handle_symbol: symbol, ..self }
    }

    /// Replaces the colour of the filled portion.
    pub fn filled_color(self, color: Color) -> (r: SliderStyle)
        ensures
            r == (SliderStyle { filled_color: color, ..self }),
    {
        SliderStyle { filled_color: color, ..self }
    }

    /// Replaces the colour of the empty portion.
    pub fn empty_color(self, color: Color) -> (r: SliderStyle)
        ensures
            r == (SliderStyle { empty_color: color, ..self }),
    {
        SliderStyle { empty_color: color, ..self }
    }

    /// Replaces the colour of the handle.
    pub fn handle_color(self, color: Color) -> (r: SliderStyle)
        ensures
            r == (SliderStyle { handle_color: color, ..self }),
    {
        SliderStyle { handle_color: color, ..self }
    }

    /// Turns segmented rendering on or off.
    pub fn with_segments(self, enabled: bool) -> (r: SliderStyle)
        ensures
            r == (SliderStyle { segmented: enabled, ..self }),
    {
        SliderStyle { segmented: enabled, ..self }
    }
}

impl Default for SliderStyle {
    /// The default style.
    fn default() -> (r: SliderStyle)
        ensures
            r.name@ == "Default"@,
            r.filled_symbol@ == "━"@,
            r.empty_symbol@ == "─"@,
            r.handle_symbol@ == "●"@,
            r.filled_color == Color::Cyan,
            r.empty_color == Color::DarkGray,
            r.handle_color == Color::White,
            r.segmented == false,
    {
        SliderStyle::default_style()
    }
}

} // verus!
