use iron_canvas_core::labels::{col_name, row_number_text};
use iron_canvas_core::model::fetch_range;
use iron_canvas_core::{Fetched, RCRange};

/// Stand-in for a cell style: the bulk read forwards it without looking.
#[derive(Debug, Clone, Default, PartialEq)]
struct Style {
    bold: bool,
}

/// Stand-in for a conditional-formatting decoration.
#[derive(Debug, Clone, PartialEq)]
enum Decoration {
    Icon(String),
}

fn style_at(row: i32, col: i32) -> Fetched<Style> {
    match (row, col) {
        (1, 1) => Fetched::BridgeFailed,
        (1, 2) => Fetched::Value(Style::default()),
        _ => Fetched::Absent,
    }
}

fn decoration_at(row: i32, col: i32) -> Fetched<Decoration> {
    match (row, col) {
        (1, 1) => Fetched::BridgeFailed,
        (1, 2) => Fetched::Value(Decoration::Icon("ArrowUp".to_string())),
        _ => Fetched::Absent,
    }
}

#[test]
fn default_bulk_styles_preserve_bridge_failed_per_slot() {
    let range = RCRange { r1: 1, c1: 1, r2: 2, c2: 2 };
    let mut out = Vec::new();
    fetch_range(range, style_at, &mut out);

    // Row-major: (1,1), (1,2), (2,1), (2,2).
    assert!(matches!(out[0], Fetched::BridgeFailed));
    assert!(matches!(out[1], Fetched::Value(_)));
    assert!(matches!(out[2], Fetched::Absent));
    assert!(matches!(out[3], Fetched::Absent));
}

#[test]
fn default_bulk_decorations_preserve_bridge_failed_per_slot() {
    let range = RCRange { r1: 1, c1: 1, r2: 2, c2: 2 };
    let mut out = Vec::new();
    fetch_range(range, decoration_at, &mut out);

    // Row-major: (1,1), (1,2), (2,1), (2,2).
    assert!(matches!(out[0], Fetched::BridgeFailed));
    assert!(matches!(out[1], Fetched::Value(Decoration::Icon(_))));
    assert!(matches!(out[2], Fetched::Absent));
    assert!(matches!(out[3], Fetched::Absent));
}

#[test]
fn bulk_read_is_row_major_and_empty_for_an_inverted_span() {
    let range = RCRange { r1: 3, c1: 5, r2: 4, c2: 7 };
    let mut out = vec![Fetched::Absent];
    fetch_range(range, |r, c| Fetched::Value(r * 100 + c), &mut out);
    let got: Vec<Option<i32>> = out.into_iter().map(|f| f.value()).collect();
    assert_eq!(got, vec![Some(305), Some(306), Some(307), Some(405), Some(406), Some(407)]);

    let mut empty = vec![Fetched::Value(1)];
    fetch_range(RCRange { r1: 2, c1: 1, r2: 1, c2: 3 }, |_, _| Fetched::Value(0), &mut empty);
    assert!(empty.is_empty());
}

#[test]
fn labels_name_columns_and_number_rows() {
    assert_eq!(col_name(1), "A");
    assert_eq!(col_name(26), "Z");
    assert_eq!(col_name(27), "AA");
    assert_eq!(col_name(52), "AZ");
    assert_eq!(col_name(703), "AAA");
    assert_eq!(col_name(16384), "XFD");
    assert_eq!(col_name(0), "");
    assert_eq!(row_number_text(1), "1");
    assert_eq!(row_number_text(100), "100");
    assert_eq!(row_number_text(0), "0");
    assert_eq!(row_number_text(-42), "-42");
    assert_eq!(row_number_text(i32::MIN), i32::MIN.to_string());
}
