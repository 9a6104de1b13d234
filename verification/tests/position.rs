use tui_slider::position::{
    HorizontalBarAlignment, VerticalLabelPosition, VerticalValueAlignment, VerticalValuePosition,
};

#[test]
fn test_vertical_label_position_default() {
    assert_eq!(VerticalLabelPosition::default(), VerticalLabelPosition::Top);
}

#[test]
fn test_vertical_value_position_default() {
    assert_eq!(
        VerticalValuePosition::default(),
        VerticalValuePosition::Bottom
    );
}

#[test]
fn test_vertical_value_alignment_default() {
    assert_eq!(
        VerticalValueAlignment::default(),
        VerticalValueAlignment::Center
    );
}

#[test]
fn test_horizontal_bar_alignment_default() {
    assert_eq!(
        HorizontalBarAlignment::default(),
        HorizontalBarAlignment::Center
    );
}
