use tui_slider::position::ValueAlignment;
use tui_slider::{CellWrite, Region, Slider, SliderOrientation, SliderState};

fn region(x: u16, y: u16, width: u16, height: u16) -> Region {
    Region::new(x, y, width, height)
}

fn bar_writes(slider: &Slider, area: Region) -> Vec<CellWrite> {
    slider.render(area, area)
}

fn span_total(writes: &[CellWrite]) -> u32 {
    writes.iter().map(|w| w.span as u32).sum()
}

#[test]
fn test_half_filled_single_column_symbols() {
    // A 50% slider over ten columns: five filled, five empty.
    let state = SliderState::new(50, 0, 100);
    let p = state.percentage();
    assert_eq!((p.num, p.den), (50, 100));

    let slider = Slider::from_state(&state).show_handle(false);
    let writes = bar_writes(&slider, region(0, 0, 10, 1));
    assert_eq!(writes.len(), 10);
    for (i, w) in writes.iter().enumerate() {
        assert_eq!(w.x, i as u16);
        assert_eq!(w.y, 0);
        assert_eq!(w.span, 1);
        if i < 5 {
            assert_eq!(w.text, "━");
        } else {
            assert_eq!(w.text, "─");
        }
    }
}

#[test]
fn test_wide_symbol_exact_width() {
    // A filled glyph two columns wide in a width-7 region at 50%:
    // filled_columns = 3, so two wide glyphs are drawn (columns 0-3) and
    // the empty glyph finishes the row; the spans still sum to exactly 7.
    let slider = Slider::new(50, 0, 100)
        .filled_symbol("你")
        .empty_symbol(".")
        .show_handle(false);
    let writes = bar_writes(&slider, region(0, 0, 7, 1));

    assert_eq!(span_total(&writes), 7);
    assert_eq!(writes[0].text, "你");
    assert_eq!(writes[0].span, 2);
    assert_eq!(writes[1].text, "你");
    assert_eq!(writes[1].x, 2);
    for w in &writes[2..] {
        assert_eq!(w.text, ".");
        assert_eq!(w.span, 1);
    }
    // Writes tile the row: each begins where the previous one ended.
    let mut next_x = 0u16;
    for w in &writes {
        assert_eq!(w.x, next_x);
        next_x += w.span;
    }
    assert_eq!(next_x, 7);
}

#[test]
fn test_wide_symbol_padding() {
    // A two-column glyph in an odd width: the last column cannot hold
    // it, so a single space pads the row to the exact width.
    let slider = Slider::new(100, 0, 100).filled_symbol("你").show_handle(false);
    let writes = bar_writes(&slider, region(0, 0, 5, 1));

    assert_eq!(span_total(&writes), 5);
    assert_eq!(writes.last().unwrap().text, " ");
    assert_eq!(writes.last().unwrap().x, 4);
}

#[test]
fn test_monotone_fill() {
    // Increasing the value never decreases the number of filled cells.
    let mut last = 0;
    for v in 0..=100 {
        let slider = Slider::new(v, 0, 100).show_handle(false);
        let writes = bar_writes(&slider, region(0, 0, 13, 1));
        let filled = writes.iter().filter(|w| w.text == "━").count();
        assert!(filled >= last);
        last = filled;
    }
    assert_eq!(last, 13);
}

#[test]
fn test_zero_percent_all_empty() {
    let slider = Slider::new(0, 0, 100);
    let writes = bar_writes(&slider, region(0, 0, 8, 1));
    // The handle sits at the left edge; every bar cell is the empty glyph.
    let handle: Vec<&CellWrite> = writes.iter().filter(|w| w.text == "●").collect();
    assert_eq!(handle.len(), 1);
    assert_eq!(handle[0].x, 0);
    for w in writes.iter().filter(|w| w.text != "●") {
        assert_eq!(w.text, "─");
    }
}

#[test]
fn test_full_percent_all_filled() {
    let slider = Slider::new(100, 0, 100);
    let writes = bar_writes(&slider, region(0, 0, 8, 1));
    // All eight columns are filled; the boundary sits past the last
    // column, so the handle does not fit and is omitted.
    assert_eq!(writes.len(), 8);
    for w in &writes {
        assert_eq!(w.text, "━");
    }
}

#[test]
fn test_render_idempotent() {
    let slider = Slider::new(37, 0, 100)
        .label("Volume")
        .show_value(true)
        .orientation(SliderOrientation::Horizontal);
    let area = region(2, 3, 20, 2);
    let first = slider.render(area, region(0, 0, 40, 10));
    let second = slider.render(area, region(0, 0, 40, 10));
    assert_eq!(first, second);
}

#[test]
fn test_empty_region_renders_nothing() {
    let slider = Slider::new(50, 0, 100);
    assert!(bar_writes(&slider, region(0, 0, 0, 5)).is_empty());
    assert!(bar_writes(&slider, region(0, 0, 5, 0)).is_empty());
}

#[test]
fn test_vertical_fill_bottom_up() {
    // A 25% vertical slider over eight rows: the bottom two rows carry
    // the filled glyph.
    let slider = Slider::new(25, 0, 100)
        .orientation(SliderOrientation::Vertical)
        .filled_symbol("█")
        .empty_symbol("░")
        .show_handle(false);
    let writes = bar_writes(&slider, region(0, 0, 3, 8));

    assert_eq!(writes.len(), 8);
    for w in &writes {
        assert_eq!(w.x, 1); // centred column of a width-3 region
    }
    let filled: Vec<u16> = writes.iter().filter(|w| w.text == "█").map(|w| w.y).collect();
    let empty: Vec<u16> = writes.iter().filter(|w| w.text == "░").map(|w| w.y).collect();
    assert_eq!(filled, vec![7, 6]);
    assert_eq!(empty, vec![5, 4, 3, 2, 1, 0]);
}

#[test]
fn test_vertical_handle_at_boundary() {
    let slider = Slider::new(25, 0, 100)
        .orientation(SliderOrientation::Vertical)
        .filled_symbol("│")
        .empty_symbol("│")
        .handle_symbol("━");
    let writes = bar_writes(&slider, region(0, 0, 3, 8));
    let handle: Vec<&CellWrite> = writes.iter().filter(|w| w.text == "━").collect();
    // filled_rows = 2, so the handle lands two rows above the bottom row.
    assert_eq!(handle.len(), 1);
    assert_eq!(handle[0].y, 5);
    assert_eq!(handle[0].x, 1);
}

#[test]
fn test_vertical_rendering_consistency() {
    // Two sliders with different values but the same configuration fill
    // the same number of rows.
    let state1 = SliderState::new(25, 0, 100);
    let state2 = SliderState::new(75, 0, 100);

    let slider1 = Slider::from_state(&state1)
        .orientation(SliderOrientation::Vertical)
        .filled_symbol("│")
        .empty_symbol("│")
        .handle_symbol("━");

    let slider2 = Slider::from_state(&state2)
        .orientation(SliderOrientation::Vertical)
        .filled_symbol("│")
        .empty_symbol("│")
        .handle_symbol("━");

    let area = region(0, 0, 5, 20);
    let writes1 = slider1.render(area, area);
    let writes2 = slider2.render(area, area);

    let rows = |writes: &[CellWrite]| {
        let mut ys: Vec<u16> = writes
            .iter()
            .filter(|w| !w.text.trim().is_empty())
            .map(|w| w.y)
            .collect();
        ys.sort_unstable();
        ys.dedup();
        ys.len()
    };
    let count1 = rows(&writes1);
    let count2 = rows(&writes2);
    assert!(count1 > 0, "Slider 1 should render symbols");
    assert!(count2 > 0, "Slider 2 should render symbols");
    assert_eq!(
        count1 + count2,
        area.height as usize * 2,
        "Both sliders should fill the same height"
    );
}

#[test]
fn test_handle_at_half() {
    // Handle overlays the filled/empty boundary: filled_columns = 5 with
    // one-column glyphs puts it at column 5.
    let slider = Slider::new(50, 0, 100);
    let writes = bar_writes(&slider, region(0, 0, 10, 1));
    let handle: Vec<&CellWrite> = writes.iter().filter(|w| w.text == "●").collect();
    assert_eq!(handle.len(), 1);
    assert_eq!(handle[0].x, 5);
}

#[test]
fn test_handle_hidden_when_disabled() {
    let slider = Slider::new(50, 0, 100).show_handle(false);
    let writes = bar_writes(&slider, region(0, 0, 10, 1));
    assert!(writes.iter().all(|w| w.text != "●"));
}

#[test]
fn test_label_and_value_above_bar() {
    let slider = Slider::new(50, 0, 100).label("Vol").show_value(true);
    let area = region(0, 1, 10, 1);
    let buf = region(0, 0, 20, 4);
    let writes = slider.render(area, buf);

    let label: Vec<&CellWrite> = writes.iter().filter(|w| w.text == "Vol").collect();
    assert_eq!(label.len(), 1);
    assert_eq!((label[0].x, label[0].y), (0, 0));

    // The value is right-aligned by default: "50.0" is four columns wide.
    let value: Vec<&CellWrite> = writes.iter().filter(|w| w.text == "50.0").collect();
    assert_eq!(value.len(), 1);
    assert_eq!((value[0].x, value[0].y), (6, 0));
}

#[test]
fn test_label_value_overlap_resolution() {
    // A left-aligned value beside a label gets a two-column gap.
    let slider = Slider::new(7, 0, 100)
        .label("Loud")
        .show_value(true)
        .value_alignment(ValueAlignment::Left);
    let area = region(0, 1, 14, 1);
    let buf = region(0, 0, 20, 4);
    let writes = slider.render(area, buf);

    let value: Vec<&CellWrite> = writes.iter().filter(|w| w.text == "7.0").collect();
    assert_eq!(value.len(), 1);
    assert_eq!(value[0].x, 6); // after "Loud" plus a two-column gap
}

#[test]
fn test_label_outside_buffer_skipped() {
    // The label anchors at the region's left edge; when that column lies
    // outside the buffer, the write is dropped.
    let slider = Slider::new(50, 0, 100).label("Vol");
    let area = region(0, 1, 10, 1);
    let buf = region(5, 0, 10, 4);
    let writes = slider.render(area, buf);
    assert!(writes.iter().all(|w| w.text != "Vol"));
}

#[test]
fn test_label_row_saturates_at_top() {
    // With the bar on the buffer's top row, the label row above it
    // saturates to row zero and is still written (the bar then overdraws
    // it).
    let slider = Slider::new(50, 0, 100).label("Vol");
    let area = region(0, 0, 10, 1);
    let writes = slider.render(area, area);
    let label: Vec<&CellWrite> = writes.iter().filter(|w| w.text == "Vol").collect();
    assert_eq!(label.len(), 1);
    assert_eq!((label[0].x, label[0].y), (0, 0));
}

#[test]
fn test_vertical_label_and_value_positions() {
    let slider = Slider::new(60, 0, 100)
        .orientation(SliderOrientation::Vertical)
        .label("EQ")
        .show_value(true);
    let area = region(2, 1, 5, 8);
    let buf = region(0, 0, 10, 12);
    let writes = slider.render(area, buf);

    // Label centred above the bar.
    let label: Vec<&CellWrite> = writes.iter().filter(|w| w.text == "EQ").collect();
    assert_eq!(label.len(), 1);
    assert_eq!((label[0].x, label[0].y), (3, 0));

    // Value centred below the bar.
    let value: Vec<&CellWrite> = writes.iter().filter(|w| w.text == "60").collect();
    assert_eq!(value.len(), 1);
    assert_eq!((value[0].x, value[0].y), (3, 9));
}
