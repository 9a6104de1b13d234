use tui_slider::border::{create_segmented_line, BorderStyle};

#[test]
fn test_border_set_plain() {
    let set = BorderStyle::Plain.border_set();
    assert_eq!(set.top_left, '┌');
    assert_eq!(set.horizontal, '─');
    assert!(!set.segmented);
}

#[test]
fn test_border_set_rounded() {
    let set = BorderStyle::Rounded.border_set();
    assert_eq!(set.top_left, '╭');
    assert_eq!(set.top_right, '╮');
    assert!(!set.segmented);
}

#[test]
fn test_border_set_double() {
    let set = BorderStyle::Double.border_set();
    assert_eq!(set.top_left, '╔');
    assert_eq!(set.horizontal, '═');
    assert!(!set.segmented);
}

#[test]
fn test_border_set_thick() {
    let set = BorderStyle::Thick.border_set();
    assert_eq!(set.top_left, '┏');
    assert_eq!(set.horizontal, '━');
    assert!(!set.segmented);
}

#[test]
fn test_segmented_variants() {
    assert!(BorderStyle::PlainSegmented.is_segmented());
    assert!(BorderStyle::RoundedSegmented.is_segmented());
    assert!(BorderStyle::DoubleSegmented.is_segmented());
    assert!(BorderStyle::ThickSegmented.is_segmented());

    assert!(!BorderStyle::Plain.is_segmented());
    assert!(!BorderStyle::Rounded.is_segmented());
}

#[test]
fn test_create_segmented_line() {
    let line = create_segmented_line(6, '-');
    assert_eq!(line, "-- -- ");

    let line = create_segmented_line(9, '=');
    assert_eq!(line, "== == == ");
}

#[test]
fn test_all_styles() {
    let styles = BorderStyle::all();
    assert_eq!(styles.len(), 12);
}

#[test]
fn test_sides_only_variants() {
    assert!(BorderStyle::PlainSidesOnly.is_sides_only());
    assert!(BorderStyle::RoundedSidesOnly.is_sides_only());
    assert!(BorderStyle::DoubleSidesOnly.is_sides_only());
    assert!(BorderStyle::ThickSidesOnly.is_sides_only());

    assert!(!BorderStyle::Plain.is_sides_only());
    assert!(!BorderStyle::PlainSegmented.is_sides_only());
}

#[test]
fn test_names_and_descriptions() {
    assert_eq!(BorderStyle::Plain.name(), "Plain");
    assert_eq!(BorderStyle::PlainSegmented.name(), "Plain (Segmented)");
    assert_eq!(BorderStyle::Plain.description(), "Basic straight lines");
}

#[test]
fn test_border_set_flags_follow_variant() {
    let set = BorderStyle::RoundedSegmented.border_set();
    assert!(set.segmented);
    assert!(!set.sides_only);

    let set = BorderStyle::ThickSidesOnly.border_set();
    assert!(!set.segmented);
    assert!(set.sides_only);
}

#[test]
fn test_segmented_line_empty() {
    assert_eq!(create_segmented_line(0, '-'), "");
    assert_eq!(create_segmented_line(2, '*'), "**");
}
