use hoards::readme::{
    extract_markdown_links, link_display, link_picker_area, links_hint, readme_title, ReadmePopup,
};

fn popup(links: Vec<(&str, &str)>) -> ReadmePopup {
    ReadmePopup {
        tool_name: "rg".to_string(),
        content: String::new(),
        scroll_offset: 0,
        loading: false,
        links: links.into_iter().map(|(a, b)| (a.to_string(), b.to_string())).collect(),
        show_links: false,
        selected_link: 0,
    }
}

#[test]
fn markdown_and_bare_links() {
    let md = "See [docs](https://docs.rs/x) and https://example.com/page, or [docs](https://docs.rs/x).";
    let links = extract_markdown_links(md);
    assert_eq!(links[0], ("docs".to_string(), "https://docs.rs/x".to_string()));
    assert!(links.iter().any(|l| l.1 == "https://example.com/page,"
        || l.1 == "https://example.com/page"));
    assert!(extract_markdown_links("no links here").is_empty());
}

#[test]
fn scrolling_and_link_picker() {
    let mut p = popup(vec![("a", "https://a"), ("b", "https://b")]);
    p.scroll_up(3);
    assert_eq!(p.scroll_offset, 0);
    p.scroll_down(5);
    p.scroll_down(u16::MAX);
    assert_eq!(p.scroll_offset, u16::MAX);
    assert!(p.toggle_links());
    assert!(p.show_links);
    p.select_next_link();
    p.select_next_link();
    assert_eq!(p.selected_link, 1);
    p.select_prev_link();
    assert_eq!(p.selected_link, 0);
    assert_eq!(p.take_selected_link(), Some("https://a".to_string()));
    assert!(!p.show_links);
    assert_eq!(p.take_selected_link(), None);
    let mut empty = popup(Vec::new());
    assert!(!empty.toggle_links());
}

fn link(t: &str, u: &str) -> (String, String) {
    (t.to_string(), u.to_string())
}

#[test]
fn link_picker_layout() {
    let parent = (10u16, 5u16, 100u16, 40u16);
    // No links: minimum height, width 40.
    assert_eq!(link_picker_area(parent, &vec![]), (40, 22, 40, 5));
    let links = vec![link("docs", "docs"), link("Site", "https://example.com/a/long/path")];
    // Widest: 4 + 31 + 4 = 39, plus 6 = 45 columns; 2 links + 2 = 4 -> 5 rows.
    assert_eq!(link_picker_area(parent, &links), (10 + 27, 5 + 17, 45, 5));
    let many: Vec<(String, String)> = (0..20).map(|i| link(&"x".repeat(90), &format!("u{}", i))).collect();
    assert_eq!(link_picker_area(parent, &many), (10 + 12, 5 + 11, 76, 17));
    // A small popup bounds the picker.
    assert_eq!(link_picker_area((0, 0, 30, 6), &many), (2, 2, 26, 2));
}

#[test]
fn link_lines_are_cut_to_fit() {
    assert_eq!(link_display("docs", "docs", 40), "docs");
    assert_eq!(link_display("Site", "https://x.io", 40), "Site → https://x.io");
    assert_eq!(link_display("Site", "https://example.com/long", 14), "Site → ...");
    assert_eq!(link_display("abcdef", "abcdef", 10), "abcdef");
    assert_eq!(link_display("abcdefg", "abcdefg", 10), "abc...");
    assert_eq!(link_display("abc", "x", 5), "...");
}

#[test]
fn readme_scroll_is_clamped() {
    let mut p = popup(vec![("a", "b")]);
    p.scroll_offset = 50;
    p.clamp_scroll(40, 10);
    assert_eq!(p.scroll_offset, 30);
    p.clamp_scroll(40, 10);
    assert_eq!(p.scroll_offset, 30);
    p.clamp_scroll(5, 10);
    assert_eq!(p.scroll_offset, 0);
    assert_eq!(readme_title("ripgrep"), " ripgrep - README ");
    assert_eq!(links_hint(0), None);
    assert_eq!(links_hint(7), Some("links(7)".to_string()));
}
