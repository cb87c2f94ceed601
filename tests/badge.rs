use visitor_badge::badge::{
    badge_options, badge_style_from_string, label_fits, query_get, render, BadgeStyle, MAX_TEXT_LEN,
};

fn query(pairs: &[(&str, &str)]) -> Vec<(String, String)> {
    pairs.iter().map(|(k, v)| (k.to_string(), v.to_string())).collect()
}

#[test]
fn style_names() {
    assert_eq!(badge_style_from_string("flat"), Some(BadgeStyle::Flat));
    assert_eq!(badge_style_from_string("flat-square"), Some(BadgeStyle::FlatSquare));
    assert_eq!(badge_style_from_string("plastic"), Some(BadgeStyle::Plastic));
    assert_eq!(badge_style_from_string("for-the-badge"), Some(BadgeStyle::ForTheBadge));
    assert_eq!(badge_style_from_string("social"), Some(BadgeStyle::Social));
    assert_eq!(badge_style_from_string("bogus"), None);
    assert_eq!(badge_style_from_string(""), None);
    assert_eq!(badge_style_from_string("Flat"), None);
}

#[test]
fn query_lookup_last_pair_wins() {
    let q = query(&[("label", "a"), ("style", "plastic"), ("label", "b")]);
    assert_eq!(query_get(&q, "label"), Some("b".to_string()));
    assert_eq!(query_get(&q, "style"), Some("plastic".to_string()));
    assert_eq!(query_get(&q, "logo"), None);
    assert_eq!(query_get(&Vec::new(), "label"), None);
}

#[test]
fn options_defaults() {
    let o = badge_options(&Vec::new(), "42");
    assert_eq!(o.style, BadgeStyle::Flat);
    assert_eq!(o.label, "visitors");
    assert_eq!(o.message, "42");
    assert_eq!(o.logo, None);
    assert_eq!(o.logo_color, None);
    assert_eq!(o.label_color, None);
    assert_eq!(o.message_color, None);
}

#[test]
fn options_from_query() {
    let q = query(&[
        ("style", "for-the-badge"),
        ("label", "hits"),
        ("logo", "github"),
        ("logoColor", "white"),
        ("labelColor", "black"),
        ("messageColor", "green"),
        ("cacheSeconds", "10"),
    ]);
    let o = badge_options(&q, "7");
    assert_eq!(o.style, BadgeStyle::ForTheBadge);
    assert_eq!(o.label, "hits");
    assert_eq!(o.message, "7");
    assert_eq!(o.logo.as_deref(), Some("github"));
    assert_eq!(o.logo_color.as_deref(), Some("white"));
    assert_eq!(o.label_color.as_deref(), Some("black"));
    assert_eq!(o.message_color.as_deref(), Some("green"));
}

#[test]
fn render_is_deterministic() {
    let q = query(&[("style", "flat"), ("label", "visitors")]);
    let a = render(&q, "42");
    let b = render(&q, "42");
    assert_eq!(a, b);
    assert!(a.starts_with("<svg"));
    assert!(a.contains("visitors"));
    assert!(a.contains("42"));
}

#[test]
fn unknown_style_renders_flat() {
    let bogus = render(&query(&[("style", "bogus"), ("label", "x")]), "3");
    let flat = render(&query(&[("style", "flat"), ("label", "x")]), "3");
    let none = render(&query(&[("label", "x")]), "3");
    assert_eq!(bogus, flat);
    assert_eq!(none, flat);
    let plastic = render(&query(&[("style", "plastic"), ("label", "x")]), "3");
    assert_ne!(plastic, flat);
}

#[test]
fn message_color_alias() {
    let by_color = render(&query(&[("color", "red")]), "5");
    let by_alias = render(&query(&[("messageColor", "red")]), "5");
    let both = render(&query(&[("messageColor", "blue"), ("color", "red")]), "5");
    let blue = render(&query(&[("color", "blue")]), "5");
    let plain = render(&Vec::new(), "5");
    assert_eq!(by_color, by_alias);
    assert_eq!(both, by_color);
    assert_ne!(blue, by_color);
    assert_ne!(plain, by_color);
    let o = badge_options(&query(&[("messageColor", "blue"), ("color", "red")]), "5");
    assert_eq!(o.message_color.as_deref(), Some("red"));
}

#[test]
fn render_shows_label_and_message() {
    let svg = render(&query(&[("label", "page views")]), "1234");
    assert!(svg.contains("page views"));
    assert!(svg.contains("1234"));
    assert!(!svg.contains("visitors"));
}

#[test]
fn label_length_limit() {
    assert!(label_fits(&Vec::new()));
    assert!(label_fits(&query(&[("label", "visitors")])));
    let at_limit = "é".repeat(MAX_TEXT_LEN);
    assert!(label_fits(&vec![("label".to_string(), at_limit)]));
    let over = "a".repeat(MAX_TEXT_LEN + 1);
    assert!(!label_fits(&vec![("label".to_string(), over)]));
}
