use tui_slider::position::{
    ValueAlignment, VerticalLabelPosition, VerticalValueAlignment, VerticalValuePosition,
};
use tui_slider::{Color, Slider, SliderOrientation, SliderState};

fn percentage_as_f64(slider: &Slider) -> f64 {
    let p = slider.percentage();
    p.num as f64 / p.den as f64
}

#[test]
fn test_slider_new() {
    let slider = Slider::new(50, 0, 100);
    assert_eq!(slider.value, 50);
    assert_eq!(slider.min, 0);
    assert_eq!(slider.max, 100);
}

#[test]
fn test_slider_clamping() {
    let slider = Slider::new(150, 0, 100);
    assert_eq!(slider.value, 100);

    let slider = Slider::new(-50, 0, 100);
    assert_eq!(slider.value, 0);
}

#[test]
fn slider_test_slider_percentage() {
    let slider = Slider::new(50, 0, 100);
    assert_eq!(percentage_as_f64(&slider), 0.5);

    let slider = Slider::new(25, 0, 100);
    assert_eq!(percentage_as_f64(&slider), 0.25);

    let slider = Slider::new(0, 0, 100);
    assert_eq!(percentage_as_f64(&slider), 0.0);

    let slider = Slider::new(100, 0, 100);
    assert_eq!(percentage_as_f64(&slider), 1.0);
}

#[test]
fn test_slider_builder() {
    let slider = Slider::default()
        .value(75)
        .min(0)
        .max(100)
        .label("Test")
        .show_value(true)
        .orientation(SliderOrientation::Vertical);

    assert_eq!(slider.value, 75);
    assert_eq!(slider.label, Some("Test".to_string()));
    assert!(slider.show_value);
    assert_eq!(slider.orientation, SliderOrientation::Vertical);
}

#[test]
fn test_slider_from_state() {
    let state = SliderState::new(60, 0, 100);
    let slider = Slider::from_state(&state);
    assert_eq!(slider.value, 60);
    assert_eq!(slider.min, 0);
    assert_eq!(slider.max, 100);
}

#[test]
fn test_show_handle() {
    let slider = Slider::default().show_handle(true);
    assert!(slider.show_handle);

    let slider = Slider::default().show_handle(false);
    assert!(!slider.show_handle);
}

#[test]
fn test_show_thumb_alias() {
    let slider = Slider::default().show_thumb(false);
    assert!(!slider.show_handle);

    let slider = Slider::default().show_thumb(true);
    assert!(slider.show_handle);
}

#[test]
fn test_value_alignment() {
    let slider = Slider::default().value_alignment(ValueAlignment::Left);
    assert_eq!(slider.value_alignment, ValueAlignment::Left);

    let slider = Slider::default().value_alignment(ValueAlignment::Center);
    assert_eq!(slider.value_alignment, ValueAlignment::Center);

    let slider = Slider::default().value_alignment(ValueAlignment::Right);
    assert_eq!(slider.value_alignment, ValueAlignment::Right);
}

#[test]
fn test_colors() {
    let slider = Slider::default()
        .filled_color(Color::Red)
        .empty_color(Color::Blue)
        .handle_color(Color::Green);

    assert_eq!(slider.filled_color, Color::Red);
    assert_eq!(slider.empty_color, Color::Blue);
    assert_eq!(slider.handle_color, Color::Green);
}

#[test]
fn test_symbols() {
    let slider = Slider::default()
        .filled_symbol("█")
        .empty_symbol("░")
        .handle_symbol("▐");

    assert_eq!(slider.filled_symbol, "█");
    assert_eq!(slider.empty_symbol, "░");
    assert_eq!(slider.handle_symbol, "▐");
}

#[test]
fn test_min_max_clamping() {
    let slider = Slider::default().min(10).max(90).value(100);
    assert_eq!(slider.value, 90);

    let slider = Slider::default().min(10).max(90).value(5);
    assert_eq!(slider.value, 10);

    let slider = Slider::default().min(10).max(90).value(50);
    assert_eq!(slider.value, 50);
}

#[test]
fn test_label() {
    let slider = Slider::default().label("Volume");
    assert_eq!(slider.label, Some("Volume".to_string()));

    let slider = Slider::default();
    assert_eq!(slider.label, None);
}

#[test]
fn test_show_value() {
    let slider = Slider::default().show_value(true);
    assert!(slider.show_value);

    let slider = Slider::default();
    assert!(!slider.show_value);
}

#[test]
fn test_orientation() {
    let slider = Slider::default().orientation(SliderOrientation::Horizontal);
    assert_eq!(slider.orientation, SliderOrientation::Horizontal);

    let slider = Slider::default().orientation(SliderOrientation::Vertical);
    assert_eq!(slider.orientation, SliderOrientation::Vertical);
}

#[test]
fn test_percentage_calculation() {
    let slider = Slider::new(50, 0, 100);
    assert_eq!(percentage_as_f64(&slider), 0.5);

    let slider = Slider::new(0, 0, 100);
    assert_eq!(percentage_as_f64(&slider), 0.0);

    let slider = Slider::new(100, 0, 100);
    assert_eq!(percentage_as_f64(&slider), 1.0);

    let slider = Slider::new(25, 0, 100);
    assert_eq!(percentage_as_f64(&slider), 0.25);
}

#[test]
fn test_default_values() {
    let slider = Slider::default();
    assert_eq!(slider.value, 0);
    assert_eq!(slider.min, 0);
    assert_eq!(slider.max, 100);
    assert_eq!(slider.orientation, SliderOrientation::Horizontal);
    assert!(!slider.show_value);
    assert!(slider.show_handle);
    assert_eq!(slider.filled_symbol, "━");
    assert_eq!(slider.empty_symbol, "─");
    assert_eq!(slider.handle_symbol, "●");
}

#[test]
fn test_chaining() {
    let slider = Slider::default()
        .value(75)
        .min(0)
        .max(100)
        .label("Test")
        .show_value(true)
        .value_alignment(ValueAlignment::Center)
        .filled_symbol("█")
        .empty_symbol("░")
        .handle_symbol("▐")
        .filled_color(Color::Red)
        .empty_color(Color::Blue)
        .handle_color(Color::Green)
        .show_handle(true)
        .orientation(SliderOrientation::Vertical);

    assert_eq!(slider.value, 75);
    assert_eq!(slider.min, 0);
    assert_eq!(slider.max, 100);
    assert_eq!(slider.label, Some("Test".to_string()));
    assert!(slider.show_value);
    assert_eq!(slider.value_alignment, ValueAlignment::Center);
    assert_eq!(slider.filled_symbol, "█");
    assert_eq!(slider.empty_symbol, "░");
    assert_eq!(slider.handle_symbol, "▐");
    assert_eq!(slider.filled_color, Color::Red);
    assert_eq!(slider.empty_color, Color::Blue);
    assert_eq!(slider.handle_color, Color::Green);
    assert!(slider.show_handle);
    assert_eq!(slider.orientation, SliderOrientation::Vertical);
}

#[test]
fn test_vertical_positioning() {
    let slider = Slider::default()
        .orientation(SliderOrientation::Vertical)
        .vertical_label_position(VerticalLabelPosition::Bottom)
        .vertical_value_position(VerticalValuePosition::Top)
        .vertical_value_alignment(VerticalValueAlignment::Left);

    assert_eq!(
        slider.vertical_label_position,
        VerticalLabelPosition::Bottom
    );
    assert_eq!(slider.vertical_value_position, VerticalValuePosition::Top);
    assert_eq!(
        slider.vertical_value_alignment,
        VerticalValueAlignment::Left
    );
}

#[test]
fn test_vertical_positioning_defaults() {
    let slider = Slider::default();

    assert_eq!(slider.vertical_label_position, VerticalLabelPosition::Top);
    assert_eq!(
        slider.vertical_value_position,
        VerticalValuePosition::Bottom
    );
    assert_eq!(
        slider.vertical_value_alignment,
        VerticalValueAlignment::Center
    );
}

#[test]
fn test_from_state_preserves_values() {
    let state = SliderState::new(42, 10, 90);
    let slider = Slider::from_state(&state);
    assert_eq!(slider.value, 42);
    assert_eq!(slider.min, 10);
    assert_eq!(slider.max, 90);
}
