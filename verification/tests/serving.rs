use race_of_sloths::badge::{cached_avatar, stores_avatar};
use race_of_sloths::commands::command_in_text;
use race_of_sloths::records::UserCachedMetadata;
use race_of_sloths::render::{postprocess_svg, postprocess_svg_to_png, RenderError};
use race_of_sloths::responses::{no_cache_headers, Badge};
use race_of_sloths::text::{chars_of, is_whitespace, split_whitespace};
use race_of_sloths::timeperiod::{day_string_of, month_string_of, quarter_string_of, week_string_of};
use std::sync::Arc;

#[test]
fn whitespace_is_what_std_says() {
    for c in (0u32..=0x10ffff).filter_map(char::from_u32) {
        assert_eq!(is_whitespace(c), c.is_whitespace(), "{:?}", c);
    }
    let words = split_whitespace(&chars_of("score \u{3000}5\n"));
    assert_eq!(words, vec![vec!['s', 'c', 'o', 'r', 'e'], vec!['5']]);
}

#[test]
fn badges_are_served_by_kind() {
    let svg = Badge::new_svg("<svg/>".to_string());
    assert_eq!((svg.content_type(), svg.response_status()), (Some("image/svg+xml"), 200));
    let png = Badge::new_ong(vec![1]);
    assert_eq!((png.content_type(), png.response_status()), (Some("image/png"), 200));
    let none = Badge::with_status(404);
    assert_eq!((none.content_type(), none.response_status()), (None, 404));
    assert_eq!(no_cache_headers(), [("Cache-Control", "no-cache"), ("Pragma", "no-cache")]);
}

#[test]
fn period_names_of_dates() {
    assert_eq!(day_string_of(2024, 6, 3), "03062024");
    assert_eq!(week_string_of(2024, 23), "2024W23");
    assert_eq!(month_string_of(2024, 6), "062024");
    assert_eq!(quarter_string_of(2024, 6), "2024Q2");
    assert_eq!(quarter_string_of(2024, 12), "2024Q4");
}

#[test]
fn commands_in_text_keep_case() {
    assert_eq!(
        command_in_text("race-of-sloths", "hi @race-of-sloths Score 5  now"),
        Some(("Score".to_string(), "5 now".to_string()))
    );
    assert_eq!(command_in_text("race-of-sloths", "@Race-Of-Sloths score"), None);
}

#[test]
fn avatars_are_cached_for_a_day() {
    let day: u64 = 86_400_000_000_000;
    let cached = UserCachedMetadata { image_base64: "x".to_string(), load_time: 10 };
    assert!(cached_avatar(Some(cached.clone()), 10 + day - 1).is_some());
    assert!(cached_avatar(Some(cached), 10 + day).is_none());
    assert!(cached_avatar(None, 0).is_none());
    assert!(stores_avatar(7));
    assert!(!stores_avatar(i32::MAX));
}

#[test]
fn badges_are_drawn() {
    let fonts = Arc::new(usvg::fontdb::Database::new());
    let svg = r#"<svg xmlns="http://www.w3.org/2000/svg" width="10" height="10"><rect width="5" height="5"/></svg>"#;
    let text = postprocess_svg(svg, &fonts).unwrap();
    assert!(text.starts_with("<svg"));
    let png = postprocess_svg_to_png(svg, &fonts).unwrap();
    assert_eq!(&png[..4], &[0x89, b'P', b'N', b'G']);
    assert_eq!(postprocess_svg("not svg", &fonts), Err(RenderError::Parse));
    assert_eq!(postprocess_svg_to_png("not svg", &fonts), Err(RenderError::Parse));
}
