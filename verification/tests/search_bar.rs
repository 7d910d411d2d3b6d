use hoards::search_bar::{
    ai_toggle, filter_chips, filter_chips_width, search_controls_fit, search_text, search_title,
};
use hoards::theme::ThemeVariant;

#[test]
fn chip_widths() {
    // Emoji icons take two cells, Nerd Font glyphs one.
    let sources = vec![("cargo", "🦀", "cargo"), ("npm", "\u{e71e}", "npm"), ("github", "🐙", "GitHub")];
    assert_eq!(filter_chips_width(&sources), 8 + 8 + 8 + 2);
    let ascii = vec![("x", "x", "x")];
    assert_eq!(filter_chips_width(&ascii), 7 + 2);
    assert_eq!(filter_chips_width(&vec![]), 2);
    let ten: Vec<(&str, &str, &str)> = (0..10).map(|_| ("x", "🦀", "x")).collect();
    assert_eq!(filter_chips_width(&ten), 9 * 8 + 9 + 2);
    assert!(search_controls_fit(53, 26));
    assert!(!search_controls_fit(52, 26));
}

#[test]
fn toggle_and_chips() {
    let p = ThemeVariant::Dracula.theme().colors;
    let (on, border) = ai_toggle(true, &p);
    assert_eq!((on.text.as_str(), on.bold, on.color, border), ("[x]🤖", true, Some(p.green), p.green));
    let (off, border) = ai_toggle(false, &p);
    assert_eq!((off.text.as_str(), off.bold, off.color, border), ("[ ]🤖", false, Some(p.subtext0), p.surface1));
    let sources = vec![("cargo", "🦀", "cargo"), ("pip", "🐍", "pip")];
    let enabled = vec!["pip".to_string()];
    let (chips, border) = filter_chips(&sources, &enabled, false, &p);
    let texts: Vec<&str> = chips.iter().map(|c| c.text.as_str()).collect();
    assert_eq!(texts, vec!["F1[ ]🦀 ", "F2[x]🐍 "]);
    assert_eq!((chips[0].color, chips[1].color, border), (Some(p.subtext0), Some(p.blue), p.surface1));
    let (chips, border) = filter_chips(&sources, &enabled, true, &p);
    assert_eq!((chips[1].color, border), (Some(p.surface1), p.surface0));
}

#[test]
fn search_box_titles_and_text() {
    let p = ThemeVariant::Dracula.theme().colors;
    assert_eq!(search_title(true, "npm", 2, 3, None, 0), " npm (2/3) ");
    assert_eq!(search_title(true, "", 0, 0, Some(1), 5), " Searching... ");
    assert_eq!(search_title(false, "npm", 2, 3, Some(1), 5), " History [2/5] ");
    assert_eq!(search_title(false, "", 0, 0, None, 5), " Search ");
    assert_eq!(search_text("", false, true, &p).text, "Press / to search, ↑↓ history");
    assert_eq!(search_text("", false, false, &p).text, "Press / to search");
    let typing = search_text("", true, true, &p);
    assert_eq!((typing.text.as_str(), typing.color), ("", Some(p.text)));
    assert_eq!(search_text("rg", false, true, &p).text, "rg");
}
