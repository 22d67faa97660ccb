use todo_highlight::config::{build_palette, default_palette, parse_hex_color, UserColors};
use todo_highlight::entities::color::{Color, ColorType, Colors};
use todo_highlight::gateways::color_provider::ColorProvider;
use todo_highlight::ports::colorer::Colorer;

#[test]
fn parse_six_digit_hex_works() {
    let c = parse_hex_color("#818181").unwrap();
    assert_eq!(c.into_components(), (129, 129, 129, 255));
}

#[test]
fn parse_eight_digit_hex_works() {
    let c = parse_hex_color("#b8b80e80").unwrap();
    assert_eq!(c.into_components(), (184, 184, 14, 128));
}

#[test]
fn parse_upper_case_hex_works() {
    let c = parse_hex_color("#FF0000").unwrap();
    assert_eq!(c.into_components(), (255, 0, 0, 255));
}

#[test]
fn parse_rejects_malformed_hex() {
    assert!(parse_hex_color("").is_none());
    assert!(parse_hex_color("red").is_none());
    assert!(parse_hex_color("#zzzzzz").is_none());
    assert!(parse_hex_color("#12345").is_none());
    assert!(parse_hex_color("808080").is_none());
}

#[test]
fn missing_config_resolves_to_default_todo_entry() {
    let palette = build_palette(None);
    assert_eq!(palette.len(), 1);
    let colors = palette.get("TODO").unwrap();
    assert_eq!(colors.background.into_components(), (134, 134, 134, 255));
}

#[test]
fn empty_config_resolves_to_default_todo_entry() {
    let palette = build_palette(Some(vec![]));
    assert_eq!(palette.len(), 1);
    let colors = palette.get("TODO").unwrap();
    assert_eq!(colors.background.into_components(), (134, 134, 134, 255));
}

#[test]
fn keyword_without_color_gets_default_background() {
    let palette = build_palette(Some(vec![("TODO".to_string(), None)]));
    assert_eq!(palette.len(), 1);
    let colors = palette.get("TODO").unwrap();
    assert_eq!(colors.background.into_components(), (134, 134, 134, 255));
}

#[test]
fn configured_color_is_kept() {
    let palette = build_palette(Some(vec![("TODO".to_string(), Some("#ffffff".to_string()))]));
    let colors = palette.get("TODO").unwrap();
    assert_eq!(colors.background.into_components(), (255, 255, 255, 255));
}

#[test]
fn malformed_color_falls_back_to_default_palette() {
    let palette = build_palette(Some(vec![
        ("TODO".to_string(), Some("#ffffff".to_string())),
        ("NOTE".to_string(), Some("not-a-color".to_string())),
    ]));
    assert_eq!(palette.len(), 1);
    assert!(palette.get("NOTE").is_none());
    let colors = palette.get("TODO").unwrap();
    assert_eq!(colors.background.into_components(), (134, 134, 134, 255));
}

#[test]
fn whole_config_resolves_every_keyword() {
    let palette = build_palette(Some(vec![
        ("TODO".to_string(), Some("#ffffff".to_string())),
        ("NOTE".to_string(), Some("#808080".to_string())),
        ("COMMENT".to_string(), Some("#808080".to_string())),
        ("FIXME".to_string(), Some("#b8b80e".to_string())),
        ("BUG".to_string(), Some("#FF0000".to_string())),
    ]));
    assert_eq!(palette.len(), 5);
    let rgb = |k: &str| {
        let c = palette.get(k).unwrap().background.into_components();
        (c.0, c.1, c.2)
    };
    assert_eq!(rgb("TODO"), (255, 255, 255));
    assert_eq!(rgb("NOTE"), (128, 128, 128));
    assert_eq!(rgb("COMMENT"), (128, 128, 128));
    assert_eq!(rgb("FIXME"), (184, 184, 14));
    assert_eq!(rgb("BUG"), (255, 0, 0));
}

#[test]
fn default_palette_has_exactly_one_entry() {
    let palette = default_palette();
    assert_eq!(palette.len(), 1);
    assert!(palette.get("TODO").is_some());
}

#[test]
fn default_background_color_is_neutral_gray() {
    assert_eq!(
        UserColors::default_background_color().into_components(),
        (134, 134, 134, 255)
    );
}

#[test]
fn color_provider_looks_up_installed_colors() {
    let mut provider = ColorProvider::default();
    assert!(provider.color_text("TODO", ColorType::Background).is_none());
    provider.update_palette("TODO".to_string(), Colors::new(Color::new(1, 2, 3, 4)));
    let c = provider.color_text("TODO", ColorType::Background).unwrap();
    assert_eq!(c.into_components(), (1, 2, 3, 4));
    assert!(provider.color_text("FIXME", ColorType::Background).is_none());
}
