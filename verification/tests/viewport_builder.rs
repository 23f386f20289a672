use egui_viewport::ViewportBuilder;
use std::sync::Arc;

fn assert_all_optional_absent(c: &ViewportBuilder) {
    assert_eq!(c.name, None);
    assert_eq!(c.position, None);
    assert_eq!(c.inner_size, None);
    assert_eq!(c.fullscreen, None);
    assert_eq!(c.maximized, None);
    assert_eq!(c.resizable, None);
    assert_eq!(c.transparent, None);
    assert_eq!(c.decorations, None);
    assert!(c.icon.is_none());
    assert_eq!(c.active, None);
    assert_eq!(c.visible, None);
    assert_eq!(c.title_hidden, None);
    assert_eq!(c.titlebar_transparent, None);
    assert_eq!(c.fullsize_content_view, None);
    assert_eq!(c.min_inner_size, None);
    assert_eq!(c.max_inner_size, None);
    assert_eq!(c.drag_and_drop, None);
    assert_eq!(c.close_button, None);
}

#[test]
fn empty_has_default_title_and_all_fields_absent() {
    let c = ViewportBuilder::empty();
    assert_eq!(c.title, "Dummy EGUI Window");
    assert_all_optional_absent(&c);
}

#[test]
fn defaults_populate_expected_fields() {
    let c = ViewportBuilder::default();
    assert_eq!(c.title, "Dummy EGUI Window");
    assert_eq!(c.inner_size, Some(Some((300, 200))));
    assert_eq!(c.resizable, Some(true));
    assert_eq!(c.transparent, Some(true));
    assert_eq!(c.decorations, Some(true));
    assert_eq!(c.active, Some(true));
    assert_eq!(c.visible, Some(true));
    assert_eq!(c.name, None);
    assert_eq!(c.position, None);
    assert_eq!(c.fullscreen, None);
    assert_eq!(c.maximized, None);
    assert!(c.icon.is_none());
    assert_eq!(c.title_hidden, None);
    assert_eq!(c.titlebar_transparent, None);
    assert_eq!(c.fullsize_content_view, None);
    assert_eq!(c.min_inner_size, None);
    assert_eq!(c.max_inner_size, None);
    assert_eq!(c.drag_and_drop, None);
    assert_eq!(c.close_button, None);
}

#[test]
fn tool_window_scenario_sets_exactly_title_and_resizable() {
    let c = ViewportBuilder::empty()
        .with_title("Tool".to_string())
        .with_resizable(false);
    assert_eq!(c.title, "Tool");
    assert_eq!(c.resizable, Some(false));
    assert_eq!(c.name, None);
    assert_eq!(c.position, None);
    assert_eq!(c.inner_size, None);
    assert_eq!(c.fullscreen, None);
    assert_eq!(c.maximized, None);
    assert_eq!(c.transparent, None);
    assert_eq!(c.decorations, None);
    assert!(c.icon.is_none());
    assert_eq!(c.active, None);
    assert_eq!(c.visible, None);
    assert_eq!(c.title_hidden, None);
    assert_eq!(c.titlebar_transparent, None);
    assert_eq!(c.fullsize_content_view, None);
    assert_eq!(c.min_inner_size, None);
    assert_eq!(c.max_inner_size, None);
    assert_eq!(c.drag_and_drop, None);
    assert_eq!(c.close_button, None);
}

#[test]
fn each_setter_makes_exactly_one_field_present() {
    let c = ViewportBuilder::empty().with_maximized(true);
    assert_eq!(c.maximized, Some(true));
    let mut back = c.clone();
    back.maximized = None;
    assert_eq!(back, ViewportBuilder::empty());

    let c = ViewportBuilder::empty().with_drag_and_drop(false);
    assert_eq!(c.drag_and_drop, Some(false));
    let mut back = c.clone();
    back.drag_and_drop = None;
    assert_eq!(back, ViewportBuilder::empty());
}

#[test]
fn clearing_overrides_are_present_not_absent() {
    let c = ViewportBuilder::empty()
        .with_position(None)
        .with_inner_size(None)
        .with_min_inner_size(None)
        .with_max_inner_size(None)
        .with_window_icon(None);
    assert_eq!(c.position, Some(None));
    assert_eq!(c.inner_size, Some(None));
    assert_eq!(c.min_inner_size, Some(None));
    assert_eq!(c.max_inner_size, Some(None));
    assert_eq!(c.icon, Some(None));
    assert_ne!(c, ViewportBuilder::empty());
}

#[test]
fn setters_are_idempotent() {
    let once = ViewportBuilder::empty().with_resizable(false);
    let twice = ViewportBuilder::empty()
        .with_resizable(false)
        .with_resizable(false);
    assert_eq!(once, twice);

    let once = ViewportBuilder::empty().with_title("Same".to_string());
    let twice = ViewportBuilder::empty()
        .with_title("Same".to_string())
        .with_title("Same".to_string());
    assert_eq!(once, twice);

    let once = ViewportBuilder::empty().with_inner_size(Some((640, 480)));
    let twice = ViewportBuilder::empty()
        .with_inner_size(Some((640, 480)))
        .with_inner_size(Some((640, 480)));
    assert_eq!(once, twice);

    let once = ViewportBuilder::empty().with_position(Some((-5, 7)));
    let twice = ViewportBuilder::empty()
        .with_position(Some((-5, 7)))
        .with_position(Some((-5, 7)));
    assert_eq!(once, twice);
}

#[test]
fn merging_empty_override_is_identity() {
    let base = ViewportBuilder::default()
        .with_title("Base".to_string())
        .with_position(Some((10, 20)))
        .with_close_button(false);
    let merged = ViewportBuilder::merge(base.clone(), ViewportBuilder::empty());
    assert_eq!(merged, base);
}

#[test]
fn merging_onto_empty_is_identity() {
    let c = ViewportBuilder::empty()
        .with_title("Over".to_string())
        .with_fullscreen(true)
        .with_max_inner_size(Some((1920, 1080)));
    let merged = ViewportBuilder::merge(ViewportBuilder::empty(), c.clone());
    assert_eq!(merged, c);

    // Also when the override still carries the default title.
    let c = ViewportBuilder::empty().with_visible(false);
    let merged = ViewportBuilder::merge(ViewportBuilder::empty(), c.clone());
    assert_eq!(merged, c);
}

#[test]
fn merge_prefers_present_override_fields() {
    let base = ViewportBuilder::default().with_title("Base".to_string());
    let overrides = ViewportBuilder::empty()
        .with_title("Over".to_string())
        .with_resizable(false)
        .with_position(Some((1, 2)));
    let merged = ViewportBuilder::merge(base, overrides);
    assert_eq!(merged.title, "Over");
    assert_eq!(merged.resizable, Some(false));
    assert_eq!(merged.position, Some(Some((1, 2))));
    // Fields the override leaves absent keep the base's values.
    assert_eq!(merged.inner_size, Some(Some((300, 200))));
    assert_eq!(merged.transparent, Some(true));
}

#[test]
fn merge_keeps_base_title_when_override_title_is_default() {
    let base = ViewportBuilder::empty().with_title("Kept".to_string());
    let overrides = ViewportBuilder::empty().with_decorations(false);
    let merged = ViewportBuilder::merge(base, overrides);
    assert_eq!(merged.title, "Kept");
    assert_eq!(merged.decorations, Some(false));
}

#[test]
fn equality_compares_icon_pixels_by_content() {
    let a = ViewportBuilder::empty()
        .with_window_icon(Some(Arc::new((2, 2, vec![1, 2, 3, 4]))));
    let b = ViewportBuilder::empty()
        .with_window_icon(Some(Arc::new((2, 2, vec![1, 2, 3, 4]))));
    let c = ViewportBuilder::empty()
        .with_window_icon(Some(Arc::new((2, 2, vec![1, 2, 3, 5]))));
    let d = ViewportBuilder::empty()
        .with_window_icon(Some(Arc::new((2, 1, vec![1, 2, 3, 4]))));
    assert_eq!(a, b);
    assert_ne!(a, c);
    assert_ne!(a, d);
    assert_ne!(a, ViewportBuilder::empty());
}

#[test]
fn equality_compares_names_by_content() {
    let a = ViewportBuilder::empty().with_title(String::from("T"));
    let b = ViewportBuilder::empty().with_title(String::from("T"));
    assert_eq!(a, b);
    let mut c = b.clone();
    c.name = Some("n".to_string());
    assert_ne!(a, c);
}
