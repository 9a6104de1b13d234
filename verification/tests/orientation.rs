use tui_slider::SliderOrientation;

#[test]
fn test_is_horizontal() {
    assert!(SliderOrientation::Horizontal.is_horizontal());
    assert!(!SliderOrientation::Vertical.is_horizontal());
}

#[test]
fn test_is_vertical() {
    assert!(SliderOrientation::Vertical.is_vertical());
    assert!(!SliderOrientation::Horizontal.is_vertical());
}

#[test]
fn test_toggle() {
    let mut orientation = SliderOrientation::Horizontal;
    orientation.toggle();
    assert_eq!(orientation, SliderOrientation::Vertical);
    orientation.toggle();
    assert_eq!(orientation, SliderOrientation::Horizontal);
}

#[test]
fn test_opposite() {
    assert_eq!(
        SliderOrientation::Horizontal.opposite(),
        SliderOrientation::Vertical
    );
    assert_eq!(
        SliderOrientation::Vertical.opposite(),
        SliderOrientation::Horizontal
    );
}

#[test]
fn test_default() {
    assert_eq!(SliderOrientation::default(), SliderOrientation::Horizontal);
}
