use hoards::cache::GitHubInfo;
use hoards::details::tool_details_lines;
use hoards::dialogs::DialogLine;
use hoards::theme::ThemeVariant;
use hoards::tools::Tool;
use hoards::types::InstallSource;

fn text_lines(lines: &[DialogLine]) -> Vec<String> {
    lines
        .iter()
        .map(|l| l.iter().map(|s| s.text.as_str()).collect::<Vec<_>>().join(""))
        .collect()
}

fn ripgrep() -> Tool {
    Tool {
        name: "ripgrep".to_string(),
        description: Some("Fast grep".to_string()),
        category: Some("search".to_string()),
        source: InstallSource::Cargo,
        install_command: Some("cargo install ripgrep".to_string()),
        binary_name: Some("rg".to_string()),
        is_installed: true,
        is_favorite: true,
        updated_at: 0,
    }
}

#[test]
fn full_details() {
    let p = ThemeVariant::CatppuccinMocha.theme().colors;
    let labels = vec!["cli".to_string(), "search".to_string()];
    let gh = GitHubInfo {
        repo_owner: "BurntSushi".to_string(),
        repo_name: "ripgrep".to_string(),
        description: None,
        stars: 45000,
        language: Some("Rust".to_string()),
    };
    let tool = ripgrep();
    let lines = tool_details_lines(
        Some(&tool),
        "🦀",
        "cargo",
        Some(&labels),
        Some((42, Some("Today at 3:45 PM"))),
        Some((&gh, "45.0K")),
        Some(2),
        &p,
    );
    assert_eq!(
        text_lines(&lines),
        vec![
            "Name: ripgrep",
            "",
            "Description:",
            "Fast grep",
            "",
            "Source: 🦀 cargo",
            "Install: cargo install ripgrep",
            "Binary: rg",
            "Category: search",
            "Labels:  cli   search ",
            "",
            "Usage:",
            "  Invocations: 42",
            "  Last used: Today at 3:45 PM",
            "",
            "GitHub:",
            "  ★ Stars: 45.0K",
            "  Language: Rust",
            "  Repo: BurntSushi/ripgrep",
            "",
            "Status: Installed (active)",
            "★ Favorite",
        ]
    );
    // Label pills: dark text on the label's colour.
    assert_eq!(lines[9][1].color, Some(p.base));
    assert_eq!(lines[9][1].background, Some(hoards::display::label_color("cli", &p)));
}

#[test]
fn sparse_details() {
    let p = ThemeVariant::Nord.theme().colors;
    let mut tool = ripgrep();
    tool.description = None;
    tool.install_command = None;
    tool.binary_name = None;
    tool.category = None;
    tool.is_favorite = false;
    let lines = tool_details_lines(Some(&tool), "?", "manual", Some(&vec![]), None, None, None, &p);
    assert_eq!(
        text_lines(&lines),
        vec!["Name: ripgrep", "", "Source: ? manual", "", "Status: Installed (never used)", "  ↳ Consider using or removing"]
    );
    let none = tool_details_lines(None, "", "", None, None, None, None, &p);
    assert_eq!(text_lines(&none), vec!["No tool selected"]);
}

fn found() -> hoards::types::DiscoverResult {
    hoards::types::DiscoverResult {
        name: "bat".to_string(),
        description: Some("cat with wings".to_string()),
        source: hoards::types::DiscoverSource::GitHub,
        stars: Some(48000),
        url: Some("https://github.com/sharkdp/bat/".to_string()),
        install_options: vec![
            hoards::types::InstallOption {
                source: hoards::types::DiscoverSource::CratesIo,
                install_command: "cargo install bat".to_string(),
            },
            hoards::types::InstallOption {
                source: hoards::types::DiscoverSource::Homebrew,
                install_command: "brew install bat".to_string(),
            },
        ],
    }
}

#[test]
fn discover_result_details() {
    let p = ThemeVariant::Gruvbox.theme().colors;
    let r = found();
    let lines = hoards::details::discover_details_lines(Some(&r), Some("Rust"), Some("48.0K"), &p);
    assert_eq!(
        text_lines(&lines),
        vec![
            "Name: bat",
            "",
            "Description:",
            "cat with wings",
            "",
            "Package Info:",
            "  Source: \u{f09b} GitHub",
            "  Language: Rust",
            "  ★ Stars: 48.0K",
            "  URL: sharkdp/bat",
            "",
            "Install:",
            "  🦀 cargo install bat",
            "  🍺 brew install bat",
            "",
            "─── Actions ───",
            "i install  Enter view README",
        ]
    );
    let mut plain = found();
    plain.description = None;
    plain.stars = None;
    plain.url = Some("https://pypi.org/project/bat".to_string());
    plain.install_options.clear();
    plain.source = hoards::types::DiscoverSource::PyPI;
    let text = text_lines(&hoards::details::discover_details_lines(Some(&plain), None, None, &p));
    assert_eq!(
        text,
        vec![
            "Name: bat",
            "",
            "Package Info:",
            "  Source: 🐍 PyPI",
            "  URL: https://pypi.org/project/bat",
            "",
            "─── Actions ───",
            "i install  Enter view README",
        ]
    );
    let none = text_lines(&hoards::details::discover_details_lines(None, None, None, &p));
    assert_eq!(none, vec!["", "Select a result to see details"]);
}
