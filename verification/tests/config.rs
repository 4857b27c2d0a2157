use colormatch::color::SRGBColor;
use colormatch::metric::{select_metric, str_eq, Metric};
use colormatch::output::{format_match, usize_to_decimal};
use colormatch::palette::build_palette;

#[test]
fn metric_defaults_to_cie94() {
    assert_eq!(select_metric(None), Some(Metric::Cie94));
}

#[test]
fn metric_cie76_selected() {
    assert_eq!(select_metric(Some("cie76")), Some(Metric::Cie76));
}

#[test]
fn metric_cie94_selected() {
    assert_eq!(select_metric(Some("cie94")), Some(Metric::Cie94));
}

#[test]
fn unknown_metric_rejected() {
    assert_eq!(select_metric(Some("cie2000")), None);
    assert_eq!(select_metric(Some("")), None);
    assert_eq!(select_metric(Some("CIE76")), None);
}

#[test]
fn str_eq_basic() {
    assert!(str_eq("cie76", "cie76"));
    assert!(!str_eq("cie76", "cie94"));
    assert!(!str_eq("cie76", "cie7"));
    assert!(str_eq("", ""));
}

#[test]
fn palette_keeps_order_and_notation() {
    let lines = vec![
        "#000000".to_string(),
        "#ffffff".to_string(),
        "#ff8000".to_string(),
    ];
    let palette = build_palette(&lines).unwrap();
    assert_eq!(palette.len(), 3);
    assert_eq!(palette[0].0, SRGBColor { r: 0, g: 0, b: 0 });
    assert_eq!(palette[0].1, "#000000");
    assert_eq!(palette[1].0, SRGBColor { r: 255, g: 255, b: 255 });
    assert_eq!(palette[1].1, "#ffffff");
    assert_eq!(palette[2].0, SRGBColor { r: 255, g: 128, b: 0 });
    assert_eq!(palette[2].1, "#ff8000");
}

#[test]
fn palette_keeps_duplicates() {
    let lines = vec!["#102030".to_string(), "#102030".to_string()];
    let palette = build_palette(&lines).unwrap();
    assert_eq!(palette.len(), 2);
    assert_eq!(palette[0].0, palette[1].0);
}

#[test]
fn palette_empty_input() {
    let lines: Vec<String> = Vec::new();
    let palette = build_palette(&lines).unwrap();
    assert!(palette.is_empty());
}

#[test]
fn palette_fails_on_first_invalid_line() {
    let lines = vec![
        "#000000".to_string(),
        "#12345".to_string(),
        "oops".to_string(),
    ];
    assert_eq!(build_palette(&lines), Err(1));
}

#[test]
fn palette_fails_on_invalid_first_line() {
    let lines = vec!["123456".to_string(), "#000000".to_string()];
    assert_eq!(build_palette(&lines), Err(0));
}

#[test]
fn decimal_writing() {
    assert_eq!(usize_to_decimal(0), "0");
    assert_eq!(usize_to_decimal(7), "7");
    assert_eq!(usize_to_decimal(10), "10");
    assert_eq!(usize_to_decimal(12345), "12345");
    assert_eq!(usize_to_decimal(1000000), "1000000");
}

#[test]
fn result_line_format() {
    assert_eq!(format_match(0, "#000000"), "0 #000000");
    assert_eq!(format_match(42, "#ff8000"), "42 #ff8000");
}
