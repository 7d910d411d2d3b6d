use hoards::notification::NotificationLevel;
use hoards::theme::ThemeVariant;
use hoards::toasts::{toast_areas, toast_lines, toast_style, toast_width};

#[test]
fn toast_styles() {
    let p = ThemeVariant::CatppuccinMocha.theme().colors;
    assert_eq!(toast_style(NotificationLevel::Info, &p), (p.blue, "ℹ"));
    assert_eq!(toast_style(NotificationLevel::Warning, &p), (p.yellow, "⚠"));
    assert_eq!(toast_style(NotificationLevel::Error, &p), (p.red, "✗"));
}

#[test]
fn toast_text_wraps_by_words() {
    assert_eq!(toast_lines("Saved config", "i", 40), vec!["i Saved config"]);
    assert_eq!(
        toast_lines("alpha beta gamma delta", "!", 12),
        vec!["! alpha beta", "  gamma", "  delta"]
    );
    assert_eq!(toast_lines("   ", "!", 12), vec!["! "]);
    // The icon's bytes count: "✗ " is four bytes.
    assert_eq!(toast_lines("abcdefgh", "✗", 12), vec!["✗ ", "  abcdefgh"]);
}

#[test]
fn toast_widths_and_stacking() {
    assert_eq!(toast_width(100), 60);
    assert_eq!(toast_width(50), 40);
    assert_eq!(toast_width(200), 80);
    assert_eq!(toast_width(30), 26);
    assert_eq!(toast_areas(100, 20, 60, &vec![1, 3]), vec![(38, 1, 60, 3), (38, 5, 60, 5)]);
    // The third toast is cut to nothing at the bottom; the fourth is
    // dropped.
    assert_eq!(
        toast_areas(100, 12, 60, &vec![3, 2, 1, 1]),
        vec![(38, 1, 60, 5), (38, 7, 60, 4), (38, 12, 60, 0)]
    );
    assert_eq!(toast_areas(100, 8, 60, &vec![3, 2]), vec![(38, 1, 60, 5), (38, 7, 60, 1)]);
    assert_eq!(toast_areas(100, 6, 60, &vec![3, 2]), vec![(38, 1, 60, 5)]);
    assert_eq!(toast_areas(100, 20, 60, &vec![]), vec![]);
}
