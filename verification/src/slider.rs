//! The slider widget: resolved configuration plus the render computation.
//!
//! A [`Slider`] is a bag of presentation parameters around a clamped
//! value.  [`Slider::render`] turns it into the list of cell writes for a
//! target region; the host framework copies those writes into its
//! buffer.

use vstd::prelude::*;

use crate::orientation::SliderOrientation;
use crate::position::{
    ValueAlignment, VerticalLabelPosition, VerticalValueAlignment, VerticalValuePosition,
};
use crate::render::{
    cells_of, filled_count, hbar_writes, horizontal_writes, spec_filled_count, vbar_writes,
    vertical_writes, BarGlyphs, CellModel, CellWrite, HandleGlyph, Region,
};
use crate::state::{spec_clamp, Ratio, SliderState};
use crate::style::Color;
use crate::text::spec_int_string;
use crate::width::{display_width, str_width};

verus! {

/// A slider widget: a clamped value with resolved presentation
/// parameters.
#[derive(Debug, Clone)]
pub struct Slider {
    /// Orientation of the bar.
    pub orientation: SliderOrientation,
    /// Current value.
    pub value: i64,
    /// Minimum value.
    pub min: i64,
    /// Maximum value.
    pub max: i64,
    /// Optional label text.
    pub label: Option<String>,
    /// Whether the numeric value is displayed.
    pub show_value: bool,
    /// Alignment of the value display in horizontal mode.
    pub value_alignment: ValueAlignment,
    /// Glyph of the filled portion.
    pub filled_symbol: String,
    /// Glyph of the empty portion.
    pub empty_symbol: String,
    /// Glyph of the handle.
    pub handle_symbol: String,
    /// Colour of the filled portion.
    pub filled_color: Color,
    /// Colour of the empty portion.
    pub empty_color: Color,
    /// Colour of the handle.
    pub handle_color: Color,
    /// Whether the handle is drawn.
    pub show_handle: bool,
    /// Label position in vertical mode.
    pub vertical_label_position: VerticalLabelPosition,
    /// Value position in vertical mode.
    pub vertical_value_position: VerticalValuePosition,
    /// Value alignment in vertical mode.
    pub vertical_value_alignment: VerticalValueAlignment,
}

impl Slider {
    /// The slider's invariant: ordered bounds and a value inside them.
    pub open spec fn wf(self) -> bool {
        &&& self.min <= self.max
        &&& self.min <= self.value <= self.max
    }

    /// True when all presentation fields hold their default values.
    pub open spec fn spec_default_presentation(self) -> bool {
        &&& self.orientation == SliderOrientation::Horizontal
        &&& self.label is None
        &&& !self.show_value
        &&& self.value_alignment == ValueAlignment::Right
        &&& self.filled_symbol@ == "━"@
        &&& self.empty_symbol@ == "─"@
        &&& self.handle_symbol@ == "●"@
        &&& self.filled_color == Color::Cyan
        &&& self.empty_color == Color::DarkGray
        &&& self.handle_color == Color::White
        &&& self.show_handle
        &&& self.vertical_label_position == VerticalLabelPosition::Top
        &&& self.vertical_value_position == VerticalValuePosition::Bottom
        &&& self.vertical_value_alignment == VerticalValueAlignment::Center
    }

    /// Creates a slider with default presentation.  The value is clamped
    /// into `[min, max]`.
    pub fn new(value: i64, min: i64, max: i64) -> (r: Slider)
        requires
            min <= max,
        ensures
            r.wf(),
            r.min == min,
            r.max == max,
            r.value == spec_clamp(value as int, min as int, max as int),
            r.spec_default_presentation(),
    {
        Slider {
            orientation: SliderOrientation::Horizontal,
            value: if value < min {
                min
            } else if value > max {
                max
            } else {
                value
            },
            min,
            max,
            label: None,
            show_value: false,
            value_alignment: ValueAlignment::Right,
            filled_symbol: literal_string("━"),
            empty_symbol: literal_string("─"),
            handle_symbol: literal_string("●"),
            filled_color: Color::Cyan,
            empty_color: Color::DarkGray,
            handle_color: Color::White,
            show_handle: true,
            vertical_label_position: VerticalLabelPosition::Top,
            vertical_value_position: VerticalValuePosition::Bottom,
            vertical_value_alignment: VerticalValueAlignment::Center,
        }
    }

    /// A slider carrying a state's value and bounds, with default
    /// presentation.
    pub fn from_state(state: &SliderState) -> (r: Slider)
        requires
            state.wf(),
        ensures
            r.wf(),
            r.value == state.spec_value(),
            r.min == state.spec_min(),
            r.max == state.spec_max(),
            r.spec_default_presentation(),
    {
        proof {
            state.lemma_wf_bounds();
        }
        Slider::new(state.value(), state.min(), state.max())
    }

    /// Replaces the orientation.
    pub fn orientation(self, orientation: SliderOrientation) -> (r: Slider)
        ensures
            r == (Slider { orientation, ..self }),
    {
        Slider { orientation, ..self }
    }

    /// Replaces the value, clamped into `[min, max]`.
    pub fn value(self, value: i64) -> (r: Slider)
        requires
            self.min <= self.max,
        ensures
            r == (Slider {
                value: spec_clamp(value as int, self.min as int, self.max as int) as i64,
                ..self
            }),
            r.min <= r.value <= r.max,
    {
        let v = if value < self.min {
            self.min
        } else if value > self.max {
            self.max
        } else {
            value
        };
        Slider { value: v, ..self }
    }

    /// Replaces the minimum bound and re-clamps the value.  The new
    /// minimum must not pass the maximum.
    pub fn min(self, min: i64) -> (r: Slider)
        requires
            min <= self.max,
        ensures
            r == (Slider {
                min,
                value: spec_clamp(self.value as int, min as int, self.max as int) as i64,
                ..self
            }),
            r.min <= r.value <= r.max,
    {
        let v = if self.value < min {
            min
        } else if self.value > self.max {
            self.max
        } else {
            self.value
        };
        Slider { min, value: v, ..self }
    }

    /// Replaces the maximum bound and re-clamps the value.  The new
    /// maximum must not pass the minimum.
    pub fn max(self, max: i64) -> (r: Slider)
        requires
            max >= self.min,
        ensures
            r == (Slider {
                max,
                value: spec_clamp(self.value as int, self.min as int, max as int) as i64,
                ..self
            }),
            r.min <= r.value <= r.max,
    {
        let v = if self.value < self.min {
            self.min
        } else if self.value > max {
            max
        } else {
            self.value
        };
        Slider { max, value: v, ..self }
    }

    /// Sets the label text.
    pub fn label(self, label: &str) -> (r: Slider)
        ensures
            r.label is Some,
            r.label.unwrap()@ == label@,
            r == (Slider { label: r.label, ..self }),
    {
        Slider { label: Some(label.to_owned()), ..self }
    }

    /// Sets whether the numeric value is displayed.
    pub fn show_value(self, show: bool) -> (r: Slider)
        ensures
            r == (Slider { show_value: show, ..self }),
    {
        Slider { show_value: show, ..self }
    }

    /// Sets the alignment of the value display in horizontal mode.
    pub fn value_alignment(self, alignment: ValueAlignment) -> (r: Slider)
        ensures
            r == (Slider { value_alignment: alignment, ..self }),
    {
        Slider { value_alignment: alignment, ..self }
    }

    /// Sets the glyph of the filled portion.
    pub fn filled_symbol(self, symbol: &str) -> (r: Slider)
        ensures
            r.filled_symbol@ == symbol@,
            r == (Slider { filled_symbol: r.filled_symbol, ..self }),
    {
        Slider { filled_symbol: symbol.to_owned(), ..self }
    }

    /// Sets the glyph of the empty portion.
    pub fn empty_symbol(self, symbol: &str) -> (r: Slider)
        ensures
            r.empty_symbol@ == symbol@,
            r == (Slider { empty_symbol: r.empty_symbol, ..self }),
    {
        Slider { empty_symbol: symbol.to_owned(), ..self }
    }

    /// Sets the glyph of the handle.
    pub fn handle_symbol(self, symbol: &str) -> (r: Slider)
        ensures
            r.handle_symbol@ == symbol@,
            r == (Slider { handle_symbol: r.handle_symbol, ..self }),
    {
        Slider { handle_symbol: symbol.to_owned(), ..self }
    }

    /// Sets the colour of the filled portion.
    pub fn filled_color(self, color: Color) -> (r: Slider)
        ensures
            r == (Slider { filled_color: color, ..self }),
    {
        Slider { filled_color: color, ..self }
    }

    /// Sets the colour of the empty portion.
    pub fn empty_color(self, color: Color) -> (r: Slider)
        ensures
            r == (Slider { empty_color: color, ..self }),
    {
        Slider { empty_color: color, ..self }
    }

    /// Sets the colour of the handle.
    pub fn handle_color(self, color: Color) -> (r: Slider)
        ensures
            r == (Slider { handle_color: color, ..self }),
    {
        Slider { handle_color: color, ..self }
    }

    /// Sets whether the handle is drawn.
    pub fn show_handle(self, show: bool) -> (r: Slider)
        ensures
            r == (Slider { show_handle: show, ..self }),
    {
        Slider { show_handle: show, ..self }
    }

    /// Sets whether the thumb indicator is drawn; an alias for
    /// [`Slider::show_handle`].
    pub fn show_thumb(self, show: bool) -> (r: Slider)
        ensures
            r == (Slider { show_handle: show, ..self }),
    {
        self.show_handle(show)
    }

    /// Sets the label position for vertical mode.
    pub fn vertical_label_position(self, position: VerticalLabelPosition) -> (r: Slider)
        ensures
            r == (Slider { vertical_label_position: position, ..self }),
    {
        Slider { vertical_label_position: position, ..self }
    }

    /// Sets the value position for vertical mode.
    pub fn vertical_value_position(self, position: VerticalValuePosition) -> (r: Slider)
        ensures
            r == (Slider { vertical_value_position: position, ..self }),
    {
        Slider { vertical_value_position: position, ..self }
    }

    /// Sets the value alignment for vertical mode.
    pub fn vertical_value_alignment(self, alignment: VerticalValueAlignment) -> (r: Slider)
        ensures
            r == (Slider { vertical_value_alignment: alignment, ..self }),
    {
        Slider { vertical_value_alignment: alignment, ..self }
    }

    /// The value's position inside the range as an exact fraction, zero
    /// when the range is degenerate (`min == max`).
    pub fn percentage(&self) -> (r: Ratio)
        requires
            self.wf(),
        ensures
            r.wf(),
            self.min == self.max ==> r.num == 0 && r.den == 1,
            self.min < self.max ==> r.num == self.value - self.min && r.den == self.max
                - self.min,
    {
        if self.min == self.max {
            Ratio { num: 0, den: 1 }
        } else {
            let num_w: i128 = self.value as i128 - self.min as i128;
            let den_w: i128 = self.max as i128 - self.min as i128;
            Ratio { num: num_w as u64, den: den_w as u64 }
        }
    }
}

impl Default for Slider {
    /// The default slider: value 0 in `[0, 100]`, default presentation.
    fn default() -> (r: Slider)
        ensures
            r.wf(),
            r.value == 0,
            r.min == 0,
            r.max == 100,
            r.spec_default_presentation(),
    {
        Slider::new(0, 0, 100)
    }
}


/// `a - b`, floored at zero.
pub open spec fn sat_sub(a: int, b: int) -> int {
    if a >= b {
        a - b
    } else {
        0
    }
}

/// A length truncated to 16 bits, the way positions and widths are
/// carried in buffer coordinates.
pub open spec fn trunc16(n: int) -> int {
    n % 0x10000
}

/// The width in columns under which a label is laid out: its display
/// width, truncated to 16 bits.
pub open spec fn spec_label_width(s: Seq<char>) -> int {
    trunc16(str_width(s) as int)
}

/// Whether the cell `(x, y)` lies inside the buffer's region.
pub open spec fn spec_within(buf: Region, x: int, y: int) -> bool {
    &&& buf.x <= x < buf.x + buf.width
    &&& buf.y <= y < buf.y + buf.height
}

impl Slider {
    /// The value and range of the slider as an exact fraction, zero when
    /// the range is degenerate.
    pub open spec fn spec_percentage(self) -> (int, int) {
        if self.min == self.max {
            (0, 1)
        } else {
            (self.value - self.min, self.max - self.min)
        }
    }

    /// How many of `length` columns (or rows) the bar fills.
    pub open spec fn spec_filled(self, length: int) -> int {
        spec_filled_count(length, self.spec_percentage().0, self.spec_percentage().1)
    }

    /// The text of the value display: the value with one decimal place
    /// in horizontal mode, as a whole number in vertical mode.
    pub open spec fn spec_value_text(self, horizontal: bool) -> Seq<char> {
        if horizontal {
            spec_int_string(self.value as int) + seq!['.', '0']
        } else {
            spec_int_string(self.value as int)
        }
    }

    /// The label's anchor and width in horizontal mode: the region's left
    /// edge.
    pub open spec fn spec_label_info(self, area: Region) -> Option<(int, int)> {
        match self.label {
            Some(l) => Some((area.x as int, spec_label_width(l@))),
            None => None,
        }
    }

    /// The value text's column when only the alignment places it.
    pub open spec fn spec_aligned_value_pos(self, area: Region, vw: int) -> int {
        match self.value_alignment {
            ValueAlignment::Left => area.x as int,
            ValueAlignment::Center => area.x + sat_sub(area.width as int, vw) / 2,
            ValueAlignment::Right => area.x + sat_sub(area.width as int, vw),
        }
    }

    /// The value display's position, width and text, when it is shown: a
    /// left-aligned value beside a label leaves a two-column gap after
    /// the label; positions past the coordinate space stop at its edge.
    pub open spec fn spec_value_info(self, area: Region, horizontal: bool) -> Option<
        (int, int, Seq<char>),
    > {
        if !self.show_value {
            None
        } else {
            let text = self.spec_value_text(horizontal);
            let vw = trunc16(text.len() as int);
            let x = if horizontal {
                if self.value_alignment == ValueAlignment::Left && self.label is Some {
                    let lw = spec_label_width(match self.label {
                        Some(l) => l@,
                        None => Seq::empty(),
                    });
                    if area.x + lw + 2 > 0xFFFF {
                        0xFFFF
                    } else {
                        area.x + lw + 2
                    }
                } else {
                    self.spec_aligned_value_pos(area, vw)
                }
            } else {
                if area.x + 2 > 0xFFFF {
                    0xFFFF
                } else {
                    area.x + 2
                }
            };
            Some((x, vw, text))
        }
    }

    /// Whether the label's and the value's column spans intersect.
    pub open spec fn spec_has_overlap(lx: int, lw: int, vx: int, vw: int) -> bool {
        !(lx + lw <= vx || vx + vw <= lx)
    }

    /// Overlap resolution: with centre or right alignment the value moves
    /// to the right edge; with left alignment it sits two columns after
    /// the label when that still fits, else at the right edge.
    pub open spec fn spec_adjusted(self, area: Region, lx: int, lw: int, vw: int) -> (int, int) {
        match self.value_alignment {
            ValueAlignment::Center | ValueAlignment::Right => (
                lx,
                area.x + sat_sub(area.width as int, vw),
            ),
            ValueAlignment::Left => {
                if lx + lw + 2 + vw <= area.x + area.width {
                    (lx, lx + lw + 2)
                } else {
                    (lx, area.x + sat_sub(area.width as int, vw))
                }
            },
        }
    }

    /// The final columns of the label and the value in horizontal mode,
    /// after overlap resolution.
    pub open spec fn spec_resolved_positions(self, area: Region, horizontal: bool) -> (int, int) {
        let li = self.spec_label_info(area);
        let vi = self.spec_value_info(area, horizontal);
        match (li, vi) {
            (Some((lx, lw)), Some((vx, vw, text))) => {
                if horizontal && Slider::spec_has_overlap(lx, lw, vx, vw) {
                    self.spec_adjusted(area, lx, lw, vw)
                } else {
                    (lx, vx)
                }
            },
            (Some((lx, lw)), None) => (lx, area.x as int),
            (None, Some((vx, vw, text))) => (area.x as int, vx),
            (None, None) => (area.x as int, area.x as int),
        }
    }

    /// The label's cell write, if a label is set and its position lies
    /// inside the buffer: one row above the bar in horizontal mode, the
    /// bar's top row in vertical mode.
    pub open spec fn spec_label_cell(
        self,
        buf: Region,
        area: Region,
        horizontal: bool,
        lx: int,
    ) -> Seq<CellModel> {
        match self.label {
            None => Seq::empty(),
            Some(l) => {
                let ly = if horizontal {
                    sat_sub(area.y as int, 1)
                } else {
                    area.y as int
                };
                if spec_within(buf, lx, ly) {
                    seq![
                        CellModel {
                            x: lx,
                            y: ly,
                            span: spec_label_width(l@),
                            text: l@,
                            color: None,
                        },
                    ]
                } else {
                    Seq::empty()
                }
            },
        }
    }

    /// The value's cell write, if the value is shown and its position
    /// lies inside the buffer: one row above the bar in horizontal mode,
    /// one row below it in vertical mode.
    pub open spec fn spec_value_cell(
        self,
        buf: Region,
        area: Region,
        horizontal: bool,
        vx: int,
    ) -> Seq<CellModel> {
        match self.spec_value_info(area, horizontal) {
            None => Seq::empty(),
            Some((_x, vw, text)) => {
                let vy = if horizontal {
                    sat_sub(area.y as int, 1)
                } else {
                    area.y + area.height
                };
                if spec_within(buf, vx, vy) {
                    seq![CellModel { x: vx, y: vy, span: vw, text: text, color: None }]
                } else {
                    Seq::empty()
                }
            },
        }
    }

    /// The label and value writes of a horizontal slider.
    pub open spec fn spec_hlabel_cells(self, area: Region, buf: Region) -> Seq<CellModel> {
        let pos = self.spec_resolved_positions(area, true);
        self.spec_label_cell(buf, area, true, pos.0) + self.spec_value_cell(
            buf,
            area,
            true,
            pos.1,
        )
    }

    /// The label and value writes of a vertical slider: the label centred
    /// above or below the bar, the value at its chosen row and alignment;
    /// either write is dropped when its position falls outside the
    /// buffer.
    pub open spec fn spec_vlabel_cells(self, area: Region, buf: Region) -> Seq<CellModel> {
        let label_part = match self.label {
            None => Seq::<CellModel>::empty(),
            Some(l) => {
                let lw = spec_label_width(l@);
                let ly = match self.vertical_label_position {
                    VerticalLabelPosition::Top => sat_sub(area.y as int, 1),
                    VerticalLabelPosition::Bottom => area.y + area.height,
                };
                let lx = area.x + sat_sub(area.width as int, lw) / 2;
                if spec_within(buf, lx, ly) {
                    seq![CellModel { x: lx, y: ly, span: lw, text: l@, color: None }]
                } else {
                    Seq::empty()
                }
            },
        };
        let value_part = if self.show_value {
            let text = self.spec_value_text(false);
            let vw = trunc16(text.len() as int);
            let vy = match self.vertical_value_position {
                VerticalValuePosition::Top => sat_sub(area.y as int, 1),
                VerticalValuePosition::Middle => area.y + area.height as int / 2,
                VerticalValuePosition::Bottom => area.y + area.height,
            };
            let vx = match self.vertical_value_alignment {
                VerticalValueAlignment::Left => area.x as int,
                VerticalValueAlignment::Center => area.x + sat_sub(area.width as int, vw) / 2,
                VerticalValueAlignment::Right => area.x + sat_sub(area.width as int, vw),
            };
            if spec_within(buf, vx, vy) {
                seq![CellModel { x: vx, y: vy, span: vw, text: text, color: None }]
            } else {
                Seq::empty()
            }
        } else {
            Seq::empty()
        };
        label_part + value_part
    }

    /// The bar glyphs of this slider.
    pub open spec fn spec_bar_glyphs(self) -> BarGlyphs {
        BarGlyphs {
            filled: self.filled_symbol@,
            filled_color: self.filled_color,
            empty: self.empty_symbol@,
            empty_color: self.empty_color,
        }
    }

    /// The handle glyph of this slider.
    pub open spec fn spec_handle_glyph(self) -> HandleGlyph {
        HandleGlyph {
            text: self.handle_symbol@,
            color: self.handle_color,
            show: self.show_handle,
        }
    }

    /// Every write of one render call: nothing for an empty region; else
    /// the label and value writes followed by the bar's writes, with the
    /// fill count taken from the value's position in its range.
    pub open spec fn spec_render_cells(self, area: Region, buf: Region) -> Seq<CellModel> {
        if area.width == 0 || area.height == 0 {
            Seq::empty()
        } else if self.orientation == SliderOrientation::Horizontal {
            self.spec_hlabel_cells(area, buf) + hbar_writes(
                self.spec_bar_glyphs(),
                self.spec_handle_glyph(),
                area.x as int,
                area.y as int,
                area.width as int,
                self.spec_filled(area.width as int),
            )
        } else {
            self.spec_vlabel_cells(area, buf) + vbar_writes(
                self.spec_bar_glyphs(),
                self.spec_handle_glyph(),
                area.x as int + area.width as int / 2,
                area.y as int,
                area.height as int,
                self.spec_filled(area.height as int),
            )
        }
    }
}


impl Slider {
    /// The value display's text.
    fn value_text(&self, horizontal: bool) -> (r: String)
        ensures
            r@ == self.spec_value_text(horizontal),
    {
        let mut s = crate::text::i64_string(self.value);
        if horizontal {
            crate::text::push_char(&mut s, '.');
            crate::text::push_char(&mut s, '0');
            assert(s@ =~= self.spec_value_text(true));
        }
        s
    }

    /// The label's anchor and width, when a label is set.
    fn calculate_label_info(&self, area: Region) -> (r: Option<(u16, u16)>)
        ensures
            match r {
                Some((lx, lw)) => self.spec_label_info(area) == Some((lx as int, lw as int)),
                None => self.spec_label_info(area) is None,
            },
    {
        match &self.label {
            Some(l) => {
                let lw = (display_width(l.as_str()) % 0x10000) as u16;
                Some((area.x, lw))
            },
            None => None,
        }
    }

    /// The value text's column when only the alignment places it.
    fn calculate_horizontal_value_position(&self, area: Region, value_width: u16) -> (r: u16)
        requires
            area.wf(),
        ensures
            r == self.spec_aligned_value_pos(area, value_width as int),
    {
        match self.value_alignment {
            ValueAlignment::Left => area.x,
            ValueAlignment::Center => area.x + sat_sub16(area.width, value_width) / 2,
            ValueAlignment::Right => area.x + sat_sub16(area.width, value_width),
        }
    }

    /// The value display's position, width and text, when it is shown.
    fn calculate_value_info(&self, area: Region, is_horizontal: bool) -> (r: Option<
        (u16, u16, String),
    >)
        requires
            area.wf(),
        ensures
            match r {
                Some((vx, vw, text)) => self.spec_value_info(area, is_horizontal) == Some(
                    (vx as int, vw as int, text@),
                ),
                None => self.spec_value_info(area, is_horizontal) is None,
            },
    {
        if !self.show_value {
            return None;
        }
        let text = self.value_text(is_horizontal);
        let vw = (text.as_str().unicode_len() % 0x10000) as u16;
        let x_pos: u16;
        if is_horizontal {
            let use_gap = match (&self.value_alignment, &self.label) {
                (ValueAlignment::Left, Some(_)) => true,
                _ => false,
            };
            if use_gap {
                let lw: u16 = match &self.label {
                    Some(l) => (display_width(l.as_str()) % 0x10000) as u16,
                    None => 0,
                };
                let wide: u32 = area.x as u32 + lw as u32 + 2;
                x_pos = if wide > 0xFFFF {
                    0xFFFF
                } else {
                    wide as u16
                };
            } else {
                x_pos = self.calculate_horizontal_value_position(area, vw);
            }
        } else {
            let wide: u32 = area.x as u32 + 2;
            x_pos = if wide > 0xFFFF {
                0xFFFF
            } else {
                wide as u16
            };
        }
        Some((x_pos, vw, text))
    }

    /// Whether the label's and value's column spans intersect.
    fn has_overlap(&self, label_x: u16, label_w: u16, value_x: u16, value_w: u16) -> (r: bool)
        ensures
            r == Slider::spec_has_overlap(
                label_x as int,
                label_w as int,
                value_x as int,
                value_w as int,
            ),
    {
        let label_end: u32 = label_x as u32 + label_w as u32;
        let value_end: u32 = value_x as u32 + value_w as u32;
        !(label_end <= value_x as u32 || value_end <= label_x as u32)
    }

    /// Moves the value out of the label's way.
    fn adjust_for_overlap(&self, area: Region, label_x: u16, label_w: u16, value_w: u16) -> (r: (
        u16,
        u16,
    ))
        requires
            area.wf(),
        ensures
            (r.0 as int, r.1 as int) == self.spec_adjusted(
                area,
                label_x as int,
                label_w as int,
                value_w as int,
            ),
    {
        match self.value_alignment {
            ValueAlignment::Center | ValueAlignment::Right => {
                (label_x, area.x + sat_sub16(area.width, value_w))
            },
            ValueAlignment::Left => {
                let label_end: u32 = label_x as u32 + label_w as u32;
                if label_end + 2 + value_w as u32 <= area.x as u32 + area.width as u32 {
                    (label_x, (label_end + 2) as u16)
                } else {
                    (label_x, area.x + sat_sub16(area.width, value_w))
                }
            },
        }
    }

    /// The final columns of the label and the value.
    fn resolve_positions(
        &self,
        area: Region,
        is_horizontal: bool,
        label_info: &Option<(u16, u16)>,
        value_info: &Option<(u16, u16, String)>,
    ) -> (r: (u16, u16))
        requires
            area.wf(),
            match *label_info {
                Some((lx, lw)) => self.spec_label_info(area) == Some((lx as int, lw as int)),
                None => self.spec_label_info(area) is None,
            },
            match *value_info {
                Some((vx, vw, ref text)) => self.spec_value_info(area, is_horizontal) == Some(
                    (vx as int, vw as int, text@),
                ),
                None => self.spec_value_info(area, is_horizontal) is None,
            },
        ensures
            (r.0 as int, r.1 as int) == self.spec_resolved_positions(area, is_horizontal),
    {
        match (label_info, value_info) {
            (Some((label_x, label_w)), Some((value_x, value_w, _))) => {
                if is_horizontal && self.has_overlap(*label_x, *label_w, *value_x, *value_w) {
                    self.adjust_for_overlap(area, *label_x, *label_w, *value_w)
                } else {
                    (*label_x, *value_x)
                }
            },
            (Some((label_x, _)), None) => (*label_x, area.x),
            (None, Some((value_x, _, _))) => (area.x, *value_x),
            (None, None) => (area.x, area.x),
        }
    }

    /// Whether `(x, y)` lies inside the buffer's region.
    fn is_within_buffer(&self, buf_area: Region, x: u16, y: u16) -> (r: bool)
        ensures
            r == spec_within(buf_area, x as int, y as int),
    {
        x >= buf_area.x && (x as u32) < buf_area.x as u32 + buf_area.width as u32 && y
            >= buf_area.y && (y as u32) < buf_area.y as u32 + buf_area.height as u32
    }

    /// The label's write at the given column, when it lands inside the
    /// buffer.
    fn render_label(
        &self,
        buf_area: Region,
        area: Region,
        is_horizontal: bool,
        label_x: u16,
    ) -> (r: Option<CellWrite>)
        requires
            area.wf(),
        ensures
            match r {
                Some(cw) => self.spec_label_cell(buf_area, area, is_horizontal, label_x as int)
                    =~~= seq![cw@],
                None => self.spec_label_cell(buf_area, area, is_horizontal, label_x as int)
                    == Seq::<CellModel>::empty(),
            },
    {
        match &self.label {
            Some(l) => {
                let label_y: u16 = if is_horizontal {
                    if area.y >= 1 {
                        area.y - 1
                    } else {
                        0
                    }
                } else {
                    area.y
                };
                if self.is_within_buffer(buf_area, label_x, label_y) {
                    let lw = (display_width(l.as_str()) % 0x10000) as u16;
                    Some(
                        CellWrite {
                            x: label_x,
                            y: label_y,
                            span: lw,
                            text: l.clone(),
                            color: None,
                        },
                    )
                } else {
                    None
                }
            },
            None => None,
        }
    }

    /// The value's write at the given column, when it lands inside the
    /// buffer.
    fn render_value(
        &self,
        buf_area: Region,
        area: Region,
        is_horizontal: bool,
        value_x: u16,
        value_info: Option<(u16, u16, String)>,
    ) -> (r: Option<CellWrite>)
        requires
            area.wf(),
            match value_info {
                Some((vx, vw, ref text)) => self.spec_value_info(area, is_horizontal) == Some(
                    (vx as int, vw as int, text@),
                ),
                None => self.spec_value_info(area, is_horizontal) is None,
            },
        ensures
            match r {
                Some(cw) => self.spec_value_cell(buf_area, area, is_horizontal, value_x as int)
                    =~~= seq![cw@],
                None => self.spec_value_cell(buf_area, area, is_horizontal, value_x as int)
                    == Seq::<CellModel>::empty(),
            },
    {
        match value_info {
            Some((_, vw, text)) => {
                let value_y: u16 = if is_horizontal {
                    if area.y >= 1 {
                        area.y - 1
                    } else {
                        0
                    }
                } else {
                    area.y + area.height
                };
                if self.is_within_buffer(buf_area, value_x, value_y) {
                    Some(
                        CellWrite { x: value_x, y: value_y, span: vw, text, color: None },
                    )
                } else {
                    None
                }
            },
            None => None,
        }
    }

    /// The label and value writes of a horizontal slider.
    fn render_label_and_value(&self, area: Region, buf_area: Region) -> (v: Vec<CellWrite>)
        requires
            area.wf(),
        ensures
            cells_of(v@) == self.spec_hlabel_cells(area, buf_area),
    {
        let label_info = self.calculate_label_info(area);
        let value_info = self.calculate_value_info(area, true);
        let (label_x, value_x) = self.resolve_positions(area, true, &label_info, &value_info);
        let mut v: Vec<CellWrite> = Vec::new();
        let lc = self.render_label(buf_area, area, true, label_x);
        match lc {
            Some(cw) => {
                v.push(cw);
            },
            None => {},
        }
        let vc = self.render_value(buf_area, area, true, value_x, value_info);
        match vc {
            Some(cw) => {
                v.push(cw);
            },
            None => {},
        }
        proof {
            assert(cells_of(v@) =~~= self.spec_hlabel_cells(area, buf_area));
        }
        v
    }

    /// The label and value writes of a vertical slider.
    fn render_vertical_label_and_value(&self, area: Region, buf_area: Region) -> (v: Vec<
        CellWrite,
    >)
        requires
            area.wf(),
        ensures
            cells_of(v@) == self.spec_vlabel_cells(area, buf_area),
    {
        let mut v: Vec<CellWrite> = Vec::new();
        match &self.label {
            Some(l) => {
                let lw = (display_width(l.as_str()) % 0x10000) as u16;
                let label_y: u16 = match self.vertical_label_position {
                    VerticalLabelPosition::Top => {
                        if area.y >= 1 {
                            area.y - 1
                        } else {
                            0
                        }
                    },
                    VerticalLabelPosition::Bottom => area.y + area.height,
                };
                let label_x: u16 = area.x + sat_sub16(area.width, lw) / 2;
                if self.is_within_buffer(buf_area, label_x, label_y) {
                    v.push(
                        CellWrite {
                            x: label_x,
                            y: label_y,
                            span: lw,
                            text: l.clone(),
                            color: None,
                        },
                    );
                }
            },
            None => {},
        }
        if self.show_value {
            let text = self.value_text(false);
            let vw = (text.as_str().unicode_len() % 0x10000) as u16;
            let value_y: u16 = match self.vertical_value_position {
                VerticalValuePosition::Top => {
                    if area.y >= 1 {
                        area.y - 1
                    } else {
                        0
                    }
                },
                VerticalValuePosition::Middle => area.y + area.height / 2,
                VerticalValuePosition::Bottom => area.y + area.height,
            };
            let value_x: u16 = match self.vertical_value_alignment {
                VerticalValueAlignment::Left => area.x,
                VerticalValueAlignment::Center => area.x + sat_sub16(area.width, vw) / 2,
                VerticalValueAlignment::Right => area.x + sat_sub16(area.width, vw),
            };
            if self.is_within_buffer(buf_area, value_x, value_y) {
                v.push(
                    CellWrite { x: value_x, y: value_y, span: vw, text, color: None },
                );
            }
        }
        proof {
            assert(cells_of(v@) =~~= self.spec_vlabel_cells(area, buf_area));
        }
        v
    }

    /// Renders the slider into `area` of a buffer spanning `buf_area`:
    /// the returned writes are the label and value texts followed by the
    /// bar, and nothing at all for an empty region.
    pub fn render(&self, area: Region, buf_area: Region) -> (v: Vec<CellWrite>)
        requires
            self.wf(),
            area.wf(),
        ensures
            cells_of(v@) == self.spec_render_cells(area, buf_area),
    {
        if area.width == 0 || area.height == 0 {
            let v: Vec<CellWrite> = Vec::new();
            proof {
                assert(cells_of(v@) =~~= self.spec_render_cells(area, buf_area));
            }
            return v;
        }
        let p = self.percentage();
        match self.orientation {
            SliderOrientation::Horizontal => {
                let mut v = self.render_label_and_value(area, buf_area);
                let filled = filled_count(area.width, p);
                let mut bar = horizontal_writes(
                    area,
                    filled,
                    self.filled_symbol.as_str(),
                    self.empty_symbol.as_str(),
                    self.handle_symbol.as_str(),
                    self.filled_color,
                    self.empty_color,
                    self.handle_color,
                    self.show_handle,
                );
                let ghost before = v@;
                let ghost barv = bar@;
                v.append(&mut bar);
                proof {
                    assert(v@ == before + barv);
                    assert(cells_of(v@) =~~= cells_of(before) + cells_of(barv));
                    assert(cells_of(v@) =~~= self.spec_render_cells(area, buf_area));
                }
                v
            },
            SliderOrientation::Vertical => {
                let mut v = self.render_vertical_label_and_value(area, buf_area);
                let filled = filled_count(area.height, p);
                let mut bar = vertical_writes(
                    area,
                    filled,
                    self.filled_symbol.as_str(),
                    self.empty_symbol.as_str(),
                    self.handle_symbol.as_str(),
                    self.filled_color,
                    self.empty_color,
                    self.handle_color,
                    self.show_handle,
                );
                let ghost before = v@;
                let ghost barv = bar@;
                v.append(&mut bar);
                proof {
                    assert(v@ == before + barv);
                    assert(cells_of(v@) =~~= cells_of(before) + cells_of(barv));
                    assert(cells_of(v@) =~~= self.spec_render_cells(area, buf_area));
                }
                v
            },
        }
    }
}

/// Rendering is a pure function of the slider, the target region and the
/// buffer region: two render calls on the same inputs produce identical
/// write lists.
pub proof fn lemma_render_idempotent(
    s: Slider,
    area: Region,
    buf_area: Region,
    v1: Seq<CellModel>,
    v2: Seq<CellModel>,
)
    requires
        v1 == s.spec_render_cells(area, buf_area),
        v2 == s.spec_render_cells(area, buf_area),
    ensures
        v1 == v2,
{
}

/// `a - b`, floored at zero.
fn sat_sub16(a: u16, b: u16) -> (r: u16)
    ensures
        r == sat_sub(a as int, b as int),
{
    if a >= b {
        a - b
    } else {
        0
    }
}

/// A `String` holding exactly the given literal.
fn literal_string(s: &str) -> (r: String)
    ensures
        r@ == s@,
{
    s.to_owned()
}

} // verus!
