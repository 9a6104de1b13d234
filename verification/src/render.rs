//! The fill algorithm: mapping a fraction onto a row or column of glyph
//! cells.
//!
//! A render call produces a list of [`CellWrite`]s: absolute cell
//! positions, the glyph to put there, and its colour.  The host framework
//! copies them into its buffer.  The algorithm walks the region's column
//! (or row) budget, spending each glyph's display width, and pads with
//! single spaces when the next glyph would overrun the budget — so the
//! cells written always cover the budget exactly.

use vstd::arithmetic::div_mod::{
    lemma_div_is_ordered, lemma_fundamental_div_mod, lemma_fundamental_div_mod_converse,
};
use vstd::prelude::*;

use crate::style::Color;
use crate::width::{glyph_width, spec_glyph_width};

verus! {

/// A rectangle of character cells, in absolute buffer coordinates.
#[derive(Debug, Clone, Copy, PartialEq, Eq, Structural)]
pub struct Region {
    /// Leftmost column.
    pub x: u16,
    /// Topmost row.
    pub y: u16,
    /// Width in columns.
    pub width: u16,
    /// Height in rows.
    pub height: u16,
}

impl Region {
    /// A region is well formed when it fits the coordinate space: its
    /// right and bottom edges stay representable.
    pub open spec fn wf(self) -> bool {
        &&& self.x + self.width <= 0xFFFF
        &&& self.y + self.height <= 0xFFFF
    }

    /// A region from its corner and size.
    pub fn new(x: u16, y: u16, width: u16, height: u16) -> (r: Region)
        requires
            x + width <= 0xFFFF,
            y + height <= 0xFFFF,
        ensures
            r == (Region { x, y, width, height }),
            r.wf(),
    {
        Region { x, y, width, height }
    }
}

/// The mathematical content of one cell write.
#[verifier::ext_equal]
pub ghost struct CellModel {
    /// Column of the write.
    pub x: int,
    /// Row of the write.
    pub y: int,
    /// How many columns (or rows, in a vertical bar) of the budget this
    /// write spends.
    pub span: int,
    /// The characters written.
    pub text: Seq<char>,
    /// The foreground colour, or `None` for the default style.
    pub color: Option<Color>,
}

/// One styled write of a glyph into a buffer cell.
#[derive(Debug, Clone, PartialEq, Eq)]
pub struct CellWrite {
    /// Column of the write.
    pub x: u16,
    /// Row of the write.
    pub y: u16,
    /// How many columns (or rows, in a vertical bar) of the budget this
    /// write spends.
    pub span: u16,
    /// The characters written.
    pub text: String,
    /// The foreground colour, or `None` for the default style.
    pub color: Option<Color>,
}

impl View for CellWrite {
    type V = CellModel;

    open spec fn view(&self) -> CellModel {
        CellModel {
            x: self.x as int,
            y: self.y as int,
            span: self.span as int,
            text: self.text@,
            color: self.color,
        }
    }
}

/// The models of a list of cell writes.
pub open spec fn cells_of(s: Seq<CellWrite>) -> Seq<CellModel> {
    s.map_values(|w: CellWrite| w@)
}

/// The glyphs and colours a bar is drawn with.
pub ghost struct BarGlyphs {
    /// Glyph of the filled portion.
    pub filled: Seq<char>,
    /// Colour of the filled portion.
    pub filled_color: Color,
    /// Glyph of the empty portion.
    pub empty: Seq<char>,
    /// Colour of the empty portion.
    pub empty_color: Color,
}

/// The handle glyph, its colour, and whether it is drawn at all.
pub ghost struct HandleGlyph {
    /// The handle glyph.
    pub text: Seq<char>,
    /// Its colour.
    pub color: Color,
    /// Whether the handle is drawn.
    pub show: bool,
}

/// A single padding space at `(x, y)`, spending one column of budget.
pub open spec fn space_cell(x: int, y: int) -> CellModel {
    CellModel { x, y, span: 1, text: seq![' '], color: None }
}

/// `count` padding spaces at consecutive columns starting at `x`.
pub open spec fn pad_cells(x: int, y: int, count: int) -> Seq<CellModel>
    decreases count,
{
    if count <= 0 {
        Seq::empty()
    } else {
        seq![space_cell(x, y)] + pad_cells(x + 1, y, count - 1)
    }
}

/// The cells of a horizontal bar from column offset `col` on: filled
/// glyphs while `col < filled`, then empty glyphs, each advancing by its
/// display width; when the next glyph would overrun the remaining budget,
/// single spaces fill the rest.
pub open spec fn hbar_cells(
    g: BarGlyphs,
    x: int,
    y: int,
    width: int,
    col: int,
    filled: int,
) -> Seq<CellModel>
    decreases width - col,
{
    if col >= width {
        Seq::empty()
    } else {
        let sym = if col < filled {
            g.filled
        } else {
            g.empty
        };
        let c = if col < filled {
            g.filled_color
        } else {
            g.empty_color
        };
        let w = spec_glyph_width(sym) as int;
        if w > width - col {
            pad_cells(x + col, y, width - col)
        } else {
            seq![CellModel { x: x + col, y: y, span: w, text: sym, color: Some(c) }]
                + hbar_cells(g, x, y, width, col + w, filled)
        }
    }
}

/// The column offset of the handle: the last whole filled-glyph boundary
/// at or before the filled/empty transition.
pub open spec fn handle_offset(filled: int, fw: int) -> int {
    fw * (filled / fw)
}

/// The span recorded for the handle write: its glyph width, truncated the
/// way a 16-bit column count truncates it.
pub open spec fn spec_handle_span(s: Seq<char>) -> int {
    spec_glyph_width(s) as int % 0x10000
}

/// The writes of a horizontal bar, with the handle overlaid at the
/// filled/empty boundary when it is shown and fits inside the region.
pub open spec fn hbar_writes(
    g: BarGlyphs,
    hd: HandleGlyph,
    x: int,
    y: int,
    width: int,
    filled: int,
) -> Seq<CellModel> {
    let bar = hbar_cells(g, x, y, width, 0, filled);
    let off = handle_offset(filled, spec_glyph_width(g.filled) as int);
    let hw = spec_handle_span(hd.text);
    if hd.show && off + hw <= width {
        bar + seq![CellModel { x: x + off, y: y, span: hw, text: hd.text, color: Some(hd.color) }]
    } else {
        bar
    }
}

/// `pad_cells` grows at its end: one more space lands after the others.
proof fn lemma_pad_snoc(x: int, y: int, count: int)
    requires
        count >= 0,
    ensures
        pad_cells(x, y, count + 1) == pad_cells(x, y, count).push(space_cell(x + count, y)),
    decreases count,
{
    if count == 0 {
        assert(pad_cells(x + 1, y, 0) == Seq::<CellModel>::empty());
        assert(pad_cells(x, y, 1) =~~= pad_cells(x, y, 0).push(space_cell(x, y)));
    } else {
        lemma_pad_snoc(x + 1, y, count - 1);
        assert(pad_cells(x, y, count + 1) =~~= pad_cells(x, y, count).push(
            space_cell(x + count, y),
        ));
    }
}

/// Renders a horizontal bar into `area`'s top row: exactly `area.width`
/// columns of filled glyphs, empty glyphs and padding, plus the handle
/// when it is shown and fits.
pub fn horizontal_writes(
    area: Region,
    filled_cols: u16,
    filled_symbol: &str,
    empty_symbol: &str,
    handle_symbol: &str,
    filled_color: Color,
    empty_color: Color,
    handle_color: Color,
    show_handle: bool,
) -> (v: Vec<CellWrite>)
    requires
        area.wf(),
        filled_cols <= area.width,
    ensures
        cells_of(v@) == hbar_writes(
            BarGlyphs {
                filled: filled_symbol@,
                filled_color: filled_color,
                empty: empty_symbol@,
                empty_color: empty_color,
            },
            HandleGlyph { text: handle_symbol@, color: handle_color, show: show_handle },
            area.x as int,
            area.y as int,
            area.width as int,
            filled_cols as int,
        ),
{
    let ghost g = BarGlyphs {
        filled: filled_symbol@,
        filled_color: filled_color,
        empty: empty_symbol@,
        empty_color: empty_color,
    };
    let ghost xi = area.x as int;
    let ghost yi = area.y as int;

    let mut v: Vec<CellWrite> = Vec::new();
    let fw = glyph_width(filled_symbol);
    let ew = glyph_width(empty_symbol);
    let width = area.width as usize;
    let filled = filled_cols as usize;
    let mut col: usize = 0;

    while col < width
        invariant
            area.wf(),
            col <= width,
            width == area.width as int,
            xi == area.x as int,
            yi == area.y as int,
            filled == filled_cols as int,
            filled <= width,
            fw == spec_glyph_width(g.filled),
            ew == spec_glyph_width(g.empty),
            g.filled == filled_symbol@,
            g.empty == empty_symbol@,
            g.filled_color == filled_color,
            g.empty_color == empty_color,
            cells_of(v@) + hbar_cells(g, xi, yi, width as int, col as int, filled as int)
                == hbar_cells(g, xi, yi, width as int, 0, filled as int),
        decreases width - col,
    {
        let remaining = width - col;
        let sym: &str;
        let color: Color;
        let w: usize;
        if col < filled {
            sym = filled_symbol;
            color = filled_color;
            w = fw;
        } else {
            sym = empty_symbol;
            color = empty_color;
            w = ew;
        }
        if w > remaining {
            let ghost done = cells_of(v@);
            let ghost padx = xi + col;
            proof {
                assert(hbar_cells(g, xi, yi, width as int, col as int, filled as int)
                    == pad_cells(padx, yi, remaining as int));
            }
            let mut k: usize = 0;
            while k < remaining
                invariant
                    k <= remaining,
                    remaining == width - col,
                    col < width,
                    width == area.width as int,
                    xi == area.x as int,
                    yi == area.y as int,
                    padx == xi + col,
                    area.wf(),
                    cells_of(v@) =~~= done + pad_cells(padx, yi, k as int),
                decreases remaining - k,
            {
                let cx = area.x + (col + k) as u16;
                let cw = CellWrite {
                    x: cx,
                    y: area.y,
                    span: 1,
                    text: space_string(),
                    color: None,
                };
                proof {
                    assert(cw@ =~~= space_cell(padx + k, yi));
                }
                let ghost prev = v@;
                v.push(cw);
                proof {
                    assert(cells_of(v@) =~~= cells_of(prev).push(space_cell(padx + k, yi)));
                    lemma_pad_snoc(padx, yi, k as int);
                    assert(cells_of(v@) =~~= done + pad_cells(padx, yi, k as int + 1));
                }
                k = k + 1;
            }
            proof {
                assert(cells_of(v@) + hbar_cells(g, xi, yi, width as int, width as int, filled as int)
                    =~~= hbar_cells(g, xi, yi, width as int, 0, filled as int));
            }
            col = width;
        } else {
            let cx = area.x + col as u16;
            let cw = CellWrite {
                x: cx,
                y: area.y,
                span: w as u16,
                text: sym.to_owned(),
                color: Some(color),
            };
            let ghost cm = CellModel {
                x: xi + col,
                y: yi,
                span: w as int,
                text: sym@,
                color: Some(color),
            };
            proof {
                assert(cw@ =~~= cm);
                assert(hbar_cells(g, xi, yi, width as int, col as int, filled as int) == seq![cm]
                    + hbar_cells(g, xi, yi, width as int, col as int + w as int, filled as int));
            }
            let ghost prev = v@;
            v.push(cw);
            proof {
                assert(cells_of(v@) =~~= cells_of(prev).push(cm));
                assert(cells_of(v@) + hbar_cells(
                    g,
                    xi,
                    yi,
                    width as int,
                    col as int + w as int,
                    filled as int,
                ) =~~= hbar_cells(g, xi, yi, width as int, 0, filled as int));
            }
            col = col + w;
        }
    }
    proof {
        assert(hbar_cells(g, xi, yi, width as int, width as int, filled as int)
            == Seq::<CellModel>::empty());
        assert(cells_of(v@) =~~= hbar_cells(g, xi, yi, width as int, 0, filled as int));
    }

    let ghost hd = HandleGlyph { text: handle_symbol@, color: handle_color, show: show_handle };
    if show_handle {
        let off = handle_boundary(filled, fw);
        let hw = glyph_width(handle_symbol);
        let hw16: u16 = (hw % 0x10000) as u16;
        if (off as u64) + (hw16 as u64) <= width as u64 {
            let hx = area.x + off as u16;
            let cw = CellWrite {
                x: hx,
                y: area.y,
                span: hw16,
                text: handle_symbol.to_owned(),
                color: Some(handle_color),
            };
            let ghost cm = CellModel {
                x: xi + off,
                y: yi,
                span: hw16 as int,
                text: handle_symbol@,
                color: Some(handle_color),
            };
            proof {
                assert(cw@ =~~= cm);
            }
            let ghost prev = v@;
            v.push(cw);
            proof {
                assert(cells_of(v@) =~~= cells_of(prev).push(cm));
                assert(cells_of(v@) =~~= cells_of(prev) + seq![cm]);
            }
        }
    }
    proof {
        assert(cells_of(v@) =~~= hbar_writes(
            g,
            hd,
            xi,
            yi,
            area.width as int,
            filled_cols as int,
        ));
    }
    v
}

/// `count` padding spaces at consecutive rows going up from `ystart`.
pub open spec fn vpad_cells(x: int, ystart: int, count: int) -> Seq<CellModel>
    decreases count,
{
    if count <= 0 {
        Seq::empty()
    } else {
        seq![space_cell(x, ystart)] + vpad_cells(x, ystart - 1, count - 1)
    }
}

/// The cells of a vertical bar from row offset `row` on, drawn bottom to
/// top in the single column `cx`: filled glyphs while `row < filled`,
/// then empty glyphs, each spending its display width in rows; when the
/// next glyph would overrun the remaining budget, single spaces fill the
/// rest.
pub open spec fn vbar_cells(
    g: BarGlyphs,
    cx: int,
    y: int,
    height: int,
    row: int,
    filled: int,
) -> Seq<CellModel>
    decreases height - row,
{
    if row >= height {
        Seq::empty()
    } else {
        let sym = if row < filled {
            g.filled
        } else {
            g.empty
        };
        let c = if row < filled {
            g.filled_color
        } else {
            g.empty_color
        };
        let w = spec_glyph_width(sym) as int;
        if w > height - row {
            vpad_cells(cx, y + height - 1 - row, height - row)
        } else {
            seq![CellModel { x: cx, y: y + height - 1 - row, span: w, text: sym, color: Some(c) }]
                + vbar_cells(g, cx, y, height, row + w, filled)
        }
    }
}

/// The row of the vertical handle: the bar's bottom row moved up by the
/// boundary offset, held at row zero when it would pass the top of the
/// coordinate space.
pub open spec fn vhandle_row(y: int, height: int, off: int) -> int {
    if y + height - 1 - off < 0 {
        0
    } else {
        y + height - 1 - off
    }
}

/// The writes of a vertical bar, with the handle overlaid at the
/// filled/empty boundary row when it is shown and that row lies inside
/// the region.
pub open spec fn vbar_writes(
    g: BarGlyphs,
    hd: HandleGlyph,
    cx: int,
    y: int,
    height: int,
    filled: int,
) -> Seq<CellModel> {
    let bar = vbar_cells(g, cx, y, height, 0, filled);
    let off = handle_offset(filled, spec_glyph_width(g.filled) as int);
    let hy = vhandle_row(y, height, off);
    let hw = spec_handle_span(hd.text);
    if hd.show && y <= hy < y + height {
        bar + seq![CellModel { x: cx, y: hy, span: hw, text: hd.text, color: Some(hd.color) }]
    } else {
        bar
    }
}

/// `vpad_cells` grows at its end: one more space lands one row above the
/// others.
proof fn lemma_vpad_snoc(x: int, ystart: int, count: int)
    requires
        count >= 0,
    ensures
        vpad_cells(x, ystart, count + 1) == vpad_cells(x, ystart, count).push(
            space_cell(x, ystart - count),
        ),
    decreases count,
{
    if count == 0 {
        assert(vpad_cells(x, ystart - 1, 0) == Seq::<CellModel>::empty());
        assert(vpad_cells(x, ystart, 1) =~~= vpad_cells(x, ystart, 0).push(space_cell(x, ystart)));
    } else {
        lemma_vpad_snoc(x, ystart - 1, count - 1);
        assert(vpad_cells(x, ystart, count + 1) =~~= vpad_cells(x, ystart, count).push(
            space_cell(x, ystart - count),
        ));
    }
}

/// Renders a vertical bar into the horizontally centred column of
/// `area`, bottom to top: exactly `area.height` rows of filled glyphs,
/// empty glyphs and padding, plus the handle when it is shown and its row
/// lies inside the region.
pub fn vertical_writes(
    area: Region,
    filled_rows: u16,
    filled_symbol: &str,
    empty_symbol: &str,
    handle_symbol: &str,
    filled_color: Color,
    empty_color: Color,
    handle_color: Color,
    show_handle: bool,
) -> (v: Vec<CellWrite>)
    requires
        area.wf(),
        area.width >= 1,
        filled_rows <= area.height,
    ensures
        cells_of(v@) == vbar_writes(
            BarGlyphs {
                filled: filled_symbol@,
                filled_color: filled_color,
                empty: empty_symbol@,
                empty_color: empty_color,
            },
            HandleGlyph { text: handle_symbol@, color: handle_color, show: show_handle },
            area.x as int + area.width as int / 2,
            area.y as int,
            area.height as int,
            filled_rows as int,
        ),
{
    let ghost g = BarGlyphs {
        filled: filled_symbol@,
        filled_color: filled_color,
        empty: empty_symbol@,
        empty_color: empty_color,
    };
    let ghost hd = HandleGlyph { text: handle_symbol@, color: handle_color, show: show_handle };
    let center_x: u16 = area.x + area.width / 2;
    let ghost cxi = center_x as int;
    let ghost yi = area.y as int;

    let mut v: Vec<CellWrite> = Vec::new();
    let fw = glyph_width(filled_symbol);
    let ew = glyph_width(empty_symbol);
    let height = area.height as usize;
    let filled = filled_rows as usize;

    if height == 0 {
        proof {
            assert(cells_of(v@) =~~= vbar_writes(g, hd, cxi, yi, 0, filled as int));
        }
        return v;
    }

    let mut row: usize = 0;
    while row < height
        invariant
            area.wf(),
            row <= height,
            height == area.height as int,
            height >= 1,
            filled == filled_rows as int,
            filled <= height,
            fw == spec_glyph_width(g.filled),
            ew == spec_glyph_width(g.empty),
            g.filled == filled_symbol@,
            g.empty == empty_symbol@,
            g.filled_color == filled_color,
            g.empty_color == empty_color,
            cxi == center_x as int,
            yi == area.y as int,
            cells_of(v@) + vbar_cells(g, cxi, yi, height as int, row as int, filled as int)
                == vbar_cells(g, cxi, yi, height as int, 0, filled as int),
        decreases height - row,
    {
        let remaining = height - row;
        let sym: &str;
        let color: Color;
        let w: usize;
        if row < filled {
            sym = filled_symbol;
            color = filled_color;
            w = fw;
        } else {
            sym = empty_symbol;
            color = empty_color;
            w = ew;
        }
        let bottom = area.y as usize + height - 1 - row;
        if w > remaining {
            let ghost done = cells_of(v@);
            let ghost pady = yi + height - 1 - row;
            proof {
                assert(vbar_cells(g, cxi, yi, height as int, row as int, filled as int)
                    == vpad_cells(cxi, pady, remaining as int));
            }
            let mut k: usize = 0;
            while k < remaining
                invariant
                    k <= remaining,
                    remaining == height - row,
                    row < height,
                    height == area.height as int,
                    bottom == area.y as int + height - 1 - row,
                    cxi == center_x as int,
                    yi == area.y as int,
                    pady == yi + height - 1 - row,
                    area.wf(),
                    cells_of(v@) =~~= done + vpad_cells(cxi, pady, k as int),
                decreases remaining - k,
            {
                let cy = (bottom - k) as u16;
                let cw = CellWrite {
                    x: center_x,
                    y: cy,
                    span: 1,
                    text: space_string(),
                    color: None,
                };
                proof {
                    assert(cw@ =~~= space_cell(cxi, pady - k));
                }
                let ghost prev = v@;
                v.push(cw);
                proof {
                    assert(cells_of(v@) =~~= cells_of(prev).push(space_cell(cxi, pady - k)));
                    lemma_vpad_snoc(cxi, pady, k as int);
                    assert(cells_of(v@) =~~= done + vpad_cells(cxi, pady, k as int + 1));
                }
                k = k + 1;
            }
            proof {
                assert(cells_of(v@) + vbar_cells(
                    g,
                    cxi,
                    yi,
                    height as int,
                    height as int,
                    filled as int,
                ) =~~= vbar_cells(g, cxi, yi, height as int, 0, filled as int));
            }
            row = height;
        } else {
            let cy = bottom as u16;
            let cw = CellWrite {
                x: center_x,
                y: cy,
                span: w as u16,
                text: sym.to_owned(),
                color: Some(color),
            };
            let ghost cm = CellModel {
                x: cxi,
                y: yi + height - 1 - row,
                span: w as int,
                text: sym@,
                color: Some(color),
            };
            proof {
                assert(cw@ =~~= cm);
                assert(vbar_cells(g, cxi, yi, height as int, row as int, filled as int)
                    == seq![cm] + vbar_cells(
                    g,
                    cxi,
                    yi,
                    height as int,
                    row as int + w as int,
                    filled as int,
                ));
            }
            let ghost prev = v@;
            v.push(cw);
            proof {
                assert(cells_of(v@) =~~= cells_of(prev).push(cm));
                assert(cells_of(v@) + vbar_cells(
                    g,
                    cxi,
                    yi,
                    height as int,
                    row as int + w as int,
                    filled as int,
                ) =~~= vbar_cells(g, cxi, yi, height as int, 0, filled as int));
            }
            row = row + w;
        }
    }
    proof {
        assert(vbar_cells(g, cxi, yi, height as int, height as int, filled as int)
            == Seq::<CellModel>::empty());
        assert(cells_of(v@) =~~= vbar_cells(g, cxi, yi, height as int, 0, filled as int));
    }

    if show_handle {
        let off = handle_boundary(filled, fw);
        let top = area.y as usize + height - 1;
        let hy_usize: usize = if off > top {
            0
        } else {
            top - off
        };
        proof {
            assert(hy_usize == vhandle_row(yi, height as int, off as int));
        }
        let hy = hy_usize as u16;
        if hy >= area.y && (hy as u32) < area.y as u32 + area.height as u32 {
            let hw = glyph_width(handle_symbol);
            let hw16: u16 = (hw % 0x10000) as u16;
            let cw = CellWrite {
                x: center_x,
                y: hy,
                span: hw16,
                text: handle_symbol.to_owned(),
                color: Some(handle_color),
            };
            let ghost cm = CellModel {
                x: cxi,
                y: hy as int,
                span: hw16 as int,
                text: handle_symbol@,
                color: Some(handle_color),
            };
            proof {
                assert(cw@ =~~= cm);
            }
            let ghost prev = v@;
            v.push(cw);
            proof {
                assert(cells_of(v@) =~~= cells_of(prev).push(cm));
                assert(cells_of(v@) =~~= cells_of(prev) + seq![cm]);
            }
        }
    }
    proof {
        assert(cells_of(v@) =~~= vbar_writes(
            g,
            hd,
            cxi,
            yi,
            area.height as int,
            filled_rows as int,
        ));
    }
    v
}

/// How many of `length` columns (or rows) are filled at the fraction
/// `num / den`: the floor of `length * num / den`.
pub open spec fn spec_filled_count(length: int, num: int, den: int) -> int {
    length * num / den
}

/// The number of filled columns (or rows) for a bar of the given length
/// at fraction `p`.
pub fn filled_count(length: u16, p: crate::state::Ratio) -> (r: u16)
    requires
        p.wf(),
    ensures
        r == spec_filled_count(length as int, p.num as int, p.den as int),
        r <= length,
{
    proof {
        assert((length as int) * (p.num as int) <= 0xFFFF * 0xFFFF_FFFF_FFFF_FFFF)
            by (nonlinear_arith)
            requires
                0 <= length <= 0xFFFF,
                0 <= p.num <= 0xFFFF_FFFF_FFFF_FFFF,
        ;
    }
    let prod: u128 = (length as u128) * (p.num as u128);
    let q: u128 = prod / (p.den as u128);
    proof {
        assert((length as int) * (p.num as int) <= (length as int) * (p.den as int))
            by (nonlinear_arith)
            requires
                0 <= p.num <= p.den,
                length >= 0,
        ;
        lemma_fundamental_div_mod_converse(
            (length as int) * (p.den as int),
            p.den as int,
            length as int,
            0,
        );
        lemma_div_is_ordered(
            (length as int) * (p.num as int),
            (length as int) * (p.den as int),
            p.den as int,
        );
        lemma_div_is_ordered(0, (length as int) * (p.num as int), p.den as int);
    }
    q as u16
}

/// The total budget spent by a list of cells: the sum of their spans.
pub open spec fn span_sum(cells: Seq<CellModel>) -> int
    decreases cells.len(),
{
    if cells.len() == 0 {
        0
    } else {
        cells[0].span + span_sum(cells.drop_first())
    }
}

/// The span sum of a cell prepended to a list.
proof fn lemma_span_sum_cons(c: CellModel, s: Seq<CellModel>)
    ensures
        span_sum(seq![c] + s) == c.span + span_sum(s),
{
    assert((seq![c] + s).drop_first() =~~= s);
    assert((seq![c] + s)[0] == c);
}

/// Padding spends one column per cell.
proof fn lemma_pad_span_sum(x: int, y: int, count: int)
    requires
        count >= 0,
    ensures
        span_sum(pad_cells(x, y, count)) == count,
    decreases count,
{
    if count == 0 {
    } else {
        lemma_pad_span_sum(x + 1, y, count - 1);
        lemma_span_sum_cons(space_cell(x, y), pad_cells(x + 1, y, count - 1));
    }
}

/// Vertical padding spends one row per cell.
proof fn lemma_vpad_span_sum(x: int, ystart: int, count: int)
    requires
        count >= 0,
    ensures
        span_sum(vpad_cells(x, ystart, count)) == count,
    decreases count,
{
    if count == 0 {
    } else {
        lemma_vpad_span_sum(x, ystart - 1, count - 1);
        lemma_span_sum_cons(space_cell(x, ystart), vpad_cells(x, ystart - 1, count - 1));
    }
}

/// Exact-width fill: for any width, any fill count within it, and any
/// glyphs — multi-column ones included — the cells of a horizontal bar
/// spend exactly the region's width: glyph spans plus padding spaces sum
/// to `width - col` from any column offset `col` on.
pub proof fn lemma_exact_width_fill(
    g: BarGlyphs,
    x: int,
    y: int,
    width: int,
    col: int,
    filled: int,
)
    requires
        0 <= col <= width,
    ensures
        span_sum(hbar_cells(g, x, y, width, col, filled)) == width - col,
    decreases width - col,
{
    if col >= width {
    } else {
        let sym = if col < filled {
            g.filled
        } else {
            g.empty
        };
        let c = if col < filled {
            g.filled_color
        } else {
            g.empty_color
        };
        let w = spec_glyph_width(sym) as int;
        if w > width - col {
            lemma_pad_span_sum(x + col, y, width - col);
        } else {
            lemma_exact_width_fill(g, x, y, width, col + w, filled);
            lemma_span_sum_cons(
                CellModel { x: x + col, y: y, span: w, text: sym, color: Some(c) },
                hbar_cells(g, x, y, width, col + w, filled),
            );
        }
    }
}

/// Exact-height fill: the vertical bar spends exactly the region's
/// height, glyph spans plus padding rows, from any row offset `row` on.
pub proof fn lemma_exact_height_fill(
    g: BarGlyphs,
    cx: int,
    y: int,
    height: int,
    row: int,
    filled: int,
)
    requires
        0 <= row <= height,
    ensures
        span_sum(vbar_cells(g, cx, y, height, row, filled)) == height - row,
    decreases height - row,
{
    if row >= height {
    } else {
        let sym = if row < filled {
            g.filled
        } else {
            g.empty
        };
        let c = if row < filled {
            g.filled_color
        } else {
            g.empty_color
        };
        let w = spec_glyph_width(sym) as int;
        if w > height - row {
            lemma_vpad_span_sum(cx, y + height - 1 - row, height - row);
        } else {
            lemma_exact_height_fill(g, cx, y, height, row + w, filled);
            lemma_span_sum_cons(
                CellModel {
                    x: cx,
                    y: y + height - 1 - row,
                    span: w,
                    text: sym,
                    color: Some(c),
                },
                vbar_cells(g, cx, y, height, row + w, filled),
            );
        }
    }
}

/// Every cell of the padding is a space.
proof fn lemma_pad_all_spaces(x: int, y: int, count: int)
    ensures
        forall|i: int|
            0 <= i < pad_cells(x, y, count).len() ==> pad_cells(x, y, count)[i].text == seq![' '],
    decreases count,
{
    if count <= 0 {
    } else {
        lemma_pad_all_spaces(x + 1, y, count - 1);
    }
}

/// Every cell of the vertical padding is a space.
proof fn lemma_vpad_all_spaces(x: int, ystart: int, count: int)
    ensures
        forall|i: int|
            0 <= i < vpad_cells(x, ystart, count).len() ==> vpad_cells(x, ystart, count)[i].text
                == seq![' '],
    decreases count,
{
    if count <= 0 {
    } else {
        lemma_vpad_all_spaces(x, ystart - 1, count - 1);
    }
}

/// Boundary behaviour, empty side: when no column is filled, every cell
/// of the horizontal bar is the empty glyph or a padding space, and the
/// handle's column offset is zero — the handle, if shown, sits at the
/// region's left edge.
pub proof fn lemma_zero_fill_all_empty(
    g: BarGlyphs,
    x: int,
    y: int,
    width: int,
    col: int,
    fw: int,
)
    requires
        0 <= col,
        fw >= 1,
    ensures
        forall|i: int|
            0 <= i < hbar_cells(g, x, y, width, col, 0).len() ==> (hbar_cells(
                g,
                x,
                y,
                width,
                col,
                0,
            )[i].text == g.empty || hbar_cells(g, x, y, width, col, 0)[i].text == seq![' ']),
        handle_offset(0, fw) == 0,
    decreases width - col,
{
    vstd::arithmetic::div_mod::lemma_basic_div(0, fw);
    if col >= width {
    } else {
        let w = spec_glyph_width(g.empty) as int;
        if w > width - col {
            lemma_pad_all_spaces(x + col, y, width - col);
        } else {
            lemma_zero_fill_all_empty(g, x, y, width, col + w, fw);
            assert(hbar_cells(g, x, y, width, col, 0) == seq![
                CellModel {
                    x: x + col,
                    y: y,
                    span: w,
                    text: g.empty,
                    color: Some(g.empty_color),
                },
            ] + hbar_cells(g, x, y, width, col + w, 0));
        }
    }
}

/// Boundary behaviour, full side: when every column is filled, every
/// cell of the horizontal bar is the filled glyph or a padding space,
/// and the handle's offset lands within one filled glyph of the right
/// edge — the last whole-glyph position (so a handle of positive width
/// at the exact edge is omitted).
pub proof fn lemma_full_fill_all_filled(g: BarGlyphs, x: int, y: int, width: int, col: int)
    requires
        0 <= col,
        0 <= width,
    ensures
        ({
            let fw = spec_glyph_width(g.filled) as int;
            width - fw < handle_offset(width, fw) <= width
        }),
        forall|i: int|
            0 <= i < hbar_cells(g, x, y, width, col, width).len() ==> (hbar_cells(
                g,
                x,
                y,
                width,
                col,
                width,
            )[i].text == g.filled || hbar_cells(g, x, y, width, col, width)[i].text == seq![' ']),
    decreases width - col,
{
    let fw = spec_glyph_width(g.filled) as int;
    lemma_fundamental_div_mod(width, fw);
    if col >= width {
    } else {
        let w = spec_glyph_width(g.filled) as int;
        if w > width - col {
            lemma_pad_all_spaces(x + col, y, width - col);
        } else {
            lemma_full_fill_all_filled(g, x, y, width, col + w);
            assert(hbar_cells(g, x, y, width, col, width) == seq![
                CellModel {
                    x: x + col,
                    y: y,
                    span: w,
                    text: g.filled,
                    color: Some(g.filled_color),
                },
            ] + hbar_cells(g, x, y, width, col + w, width));
        }
    }
}

/// Monotonicity of the fill count: a fraction that is at least as large
/// never yields fewer filled columns (or rows) for the same length.  The
/// comparison `n1 / d1 <= n2 / d2` is stated cross-multiplied.
pub proof fn lemma_filled_count_monotone(length: int, n1: int, d1: int, n2: int, d2: int)
    requires
        length >= 0,
        d1 >= 1,
        d2 >= 1,
        0 <= n1,
        0 <= n2,
        n1 * d2 <= n2 * d1,
    ensures
        spec_filled_count(length, n1, d1) <= spec_filled_count(length, n2, d2),
{
    let a1 = length * n1;
    let a2 = length * n2;
    let q1 = a1 / d1;
    assert(a1 * d2 <= a2 * d1) by (nonlinear_arith)
        requires
            length >= 0,
            n1 * d2 <= n2 * d1,
            a1 == length * n1,
            a2 == length * n2,
    ;
    lemma_fundamental_div_mod(a1, d1);
    assert(q1 * d1 <= a1);
    assert(q1 * d2 <= a2) by (nonlinear_arith)
        requires
            q1 * d1 <= a1,
            a1 * d2 <= a2 * d1,
            d1 >= 1,
            d2 >= 1,
            a1 >= 0,
            a2 >= 0,
    ;
    lemma_fundamental_div_mod_converse(q1 * d2, d2, q1, 0);
    lemma_div_is_ordered(q1 * d2, a2, d2);
}

/// Boundary behaviour of the fill count itself: a zero fraction fills
/// nothing and a full fraction fills the whole length.
pub proof fn lemma_fill_count_bounds(length: int, den: int)
    requires
        length >= 0,
        den >= 1,
    ensures
        spec_filled_count(length, 0, den) == 0,
        spec_filled_count(length, den, den) == length,
{
    assert(length * 0 == 0);
    vstd::arithmetic::div_mod::lemma_basic_div(0, den);
    lemma_fundamental_div_mod_converse(length * den, den, length, 0);
}

/// Padding spaces stay on their row, inside the columns they fill.
proof fn lemma_pad_confined(x: int, y: int, count: int)
    ensures
        forall|i: int|
            #![trigger pad_cells(x, y, count)[i]]
            0 <= i < pad_cells(x, y, count).len() ==> {
                let c = pad_cells(x, y, count)[i];
                c.y == y && c.span == 1 && x <= c.x && c.x + c.span <= x + count
            },
    decreases count,
{
    if count <= 0 {
    } else {
        lemma_pad_confined(x + 1, y, count - 1);
    }
}

/// The horizontal bar writes only into its own row and columns: every
/// cell lies at `y`, spends at least one column, and its columns fall
/// inside `[x + col, x + width)`.
pub proof fn lemma_hbar_confined(g: BarGlyphs, x: int, y: int, width: int, col: int, filled: int)
    requires
        0 <= col,
    ensures
        forall|i: int|
            #![trigger hbar_cells(g, x, y, width, col, filled)[i]]
            0 <= i < hbar_cells(g, x, y, width, col, filled).len() ==> {
                let c = hbar_cells(g, x, y, width, col, filled)[i];
                c.y == y && c.span >= 1 && x + col <= c.x && c.x + c.span <= x + width
            },
    decreases width - col,
{
    if col >= width {
    } else {
        let sym = if col < filled {
            g.filled
        } else {
            g.empty
        };
        let w = spec_glyph_width(sym) as int;
        if w > width - col {
            lemma_pad_confined(x + col, y, width - col);
        } else {
            lemma_hbar_confined(g, x, y, width, col + w, filled);
        }
    }
}

/// Vertical padding spaces stay in their column, inside the rows they
/// fill.
proof fn lemma_vpad_confined(x: int, ystart: int, count: int)
    ensures
        forall|i: int|
            #![trigger vpad_cells(x, ystart, count)[i]]
            0 <= i < vpad_cells(x, ystart, count).len() ==> {
                let c = vpad_cells(x, ystart, count)[i];
                c.x == x && c.span == 1 && ystart - count < c.y && c.y <= ystart
            },
    decreases count,
{
    if count <= 0 {
    } else {
        lemma_vpad_confined(x, ystart - 1, count - 1);
    }
}

/// The vertical bar writes only into its own column and rows: every cell
/// lies at `cx`, spends at least one row, and its row falls inside
/// `[y, y + height - row)`.
pub proof fn lemma_vbar_confined(g: BarGlyphs, cx: int, y: int, height: int, row: int, filled: int)
    requires
        0 <= row,
    ensures
        forall|i: int|
            #![trigger vbar_cells(g, cx, y, height, row, filled)[i]]
            0 <= i < vbar_cells(g, cx, y, height, row, filled).len() ==> {
                let c = vbar_cells(g, cx, y, height, row, filled)[i];
                c.x == cx && c.span >= 1 && y <= c.y && c.y < y + height - row
            },
    decreases height - row,
{
    if row >= height {
    } else {
        let sym = if row < filled {
            g.filled
        } else {
            g.empty
        };
        let w = spec_glyph_width(sym) as int;
        if w > height - row {
            lemma_vpad_confined(cx, y + height - 1 - row, height - row);
        } else {
            lemma_vbar_confined(g, cx, y, height, row + w, filled);
        }
    }
}

/// A single-space string.
fn space_string() -> (r: String)
    ensures
        r@ == seq![' '],
{
    let s = " ";
    proof {
        reveal_strlit(" ");
    }
    s.to_owned()
}

/// The last whole glyph boundary at or before `filled`, walking in steps
/// of `fw` columns from the left edge.
fn handle_boundary(filled: usize, fw: usize) -> (r: usize)
    requires
        fw >= 1,
    ensures
        r == handle_offset(filled as int, fw as int),
        r <= filled,
{
    let q = filled / fw;
    proof {
        lemma_fundamental_div_mod(filled as int, fw as int);
    }
    fw * q
}

} // verus!
