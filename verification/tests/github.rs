use hoards::github::{
    count_char_in, crates_io_repo_url_from, github_repo_path, is_github_url, lowercase_readme_url,
    npm_repo_url_from, raw_readme_url, readme_filename_from, redirect_repo_path, replace_str,
    readme_source, strip_prefix_all_str, strip_prefix_str, strip_suffix_all_str, top_level_text,
    ReadmeSource,
};

#[test]
fn string_helpers() {
    assert_eq!(strip_prefix_str("git+https://x", "git+"), Some("https://x".to_string()));
    assert_eq!(strip_prefix_str("https://x", "git+"), None);
    assert_eq!(strip_prefix_all_str("ababc", "ab"), "c");
    assert_eq!(strip_suffix_all_str("a.git.git", ".git"), "a");
    assert_eq!(strip_suffix_all_str("abc", ""), "abc");
    assert_eq!(replace_str("a.git/b.git", ".git", ""), "a/b");
    assert_eq!(replace_str("aaa", "aa", "b"), "ba");
    assert_eq!(count_char_in("a/b/c", '/'), 2);
}

#[test]
fn repository_paths() {
    assert_eq!(github_repo_path("https://github.com/BurntSushi/ripgrep.git/"), "BurntSushi/ripgrep");
    assert_eq!(github_repo_path("http://github.com/a/b//"), "a/b");
    assert_eq!(github_repo_path("https://gitlab.com/x/y.git"), "https://gitlab.com/x/y");
    assert_eq!(
        raw_readme_url("a/b", "main", "README.md"),
        "https://raw.githubusercontent.com/a/b/main/README.md"
    );
    assert_eq!(
        lowercase_readme_url("https://raw.githubusercontent.com/a/b/HEAD/README.md"),
        "https://raw.githubusercontent.com/a/b/HEAD/readme.md"
    );
}

#[test]
fn github_api_answers() {
    let listing = br#"[{"name":"src"},{"name":"ReadMe.MD"},{"name":"README"}]"#;
    assert_eq!(readme_filename_from(listing), Some("ReadMe.MD".to_string()));
    assert_eq!(readme_filename_from(br#"[{"name":"main.rs"}]"#), None);
    assert_eq!(readme_filename_from(br#"{"name":"README.md"}"#), None);
    let repo = br#"{"full_name":"a/b","default_branch":"main"}"#;
    assert_eq!(top_level_text(repo, "default_branch"), Some("main".to_string()));
    assert_eq!(top_level_text(repo, "full_name"), Some("a/b".to_string()));
    assert_eq!(top_level_text(repo, "missing"), None);
    assert_eq!(redirect_repo_path("https://github.com/new/repo/"), Some("new/repo".to_string()));
    assert_eq!(redirect_repo_path("https://github.com/new"), None);
    assert_eq!(redirect_repo_path("https://example.com/a/b"), None);
}

#[test]
fn registry_repository_urls() {
    assert_eq!(
        crates_io_repo_url_from(br#"{"crate":{"repository":"https://github.com/a/b"}}"#),
        Some("https://github.com/a/b".to_string())
    );
    assert_eq!(crates_io_repo_url_from(br#"{"crate":{"repository":"https://gitlab.com/a/b"}}"#), None);
    assert_eq!(
        npm_repo_url_from(br#"{"repository":{"type":"git","url":"git+https://github.com/a/b.git"}}"#),
        Some("https://github.com/a/b".to_string())
    );
    assert_eq!(
        npm_repo_url_from(br#"{"repository":{"url":"git://github.com/a/b.git"}}"#),
        Some("https://github.com/a/b".to_string())
    );
    assert_eq!(npm_repo_url_from(br#"{"repository":"github:a/b"}"#), None);
}

#[test]
fn readme_sources_by_url() {
    assert_eq!(
        readme_source("https://github.com/BurntSushi/ripgrep"),
        ReadmeSource::GitHub("https://github.com/BurntSushi/ripgrep".to_string())
    );
    assert_eq!(readme_source("https://crates.io/crates/ripgrep"), ReadmeSource::CratesIo);
    assert_eq!(readme_source("https://www.npmjs.com/package/prettier"), ReadmeSource::Npm);
    assert_eq!(readme_source("https://pypi.org/project/black"), ReadmeSource::Browser);
    assert!(is_github_url("git+https://github.com/a/b.git"));
    assert!(!is_github_url("https://gitlab.com/a/b"));
}
