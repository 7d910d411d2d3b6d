use hoards::manager_output::{
    apt_upgradable, cargo_installed_crates, cargo_update_from_latest, cargo_version_in_list,
    pip_show_version, trimmed_version,
};

#[test]
fn cargo_install_list() {
    let out = "bat v0.24.0:\n    bat\nripgrep v14.1.0:\n    rg\nlonely v1.0.0:\n";
    assert_eq!(
        cargo_installed_crates(out),
        vec![
            ("bat".to_string(), "0.24.0".to_string()),
            ("ripgrep".to_string(), "14.1.0".to_string())
        ]
    );
    assert_eq!(cargo_version_in_list(out, "ripgrep"), Some("14.1.0".to_string()));
    assert_eq!(cargo_version_in_list(out, "fd"), None);
}

#[test]
fn apt_upgradable_list() {
    let out = "Listing...\nbat/jammy 0.24.0 amd64 [upgradable from: 0.19.0]\nshort line\n";
    let u = apt_upgradable(out);
    assert_eq!(u.len(), 1);
    assert_eq!(u[0].name, "bat");
    assert_eq!(u[0].current, "0.19.0");
    assert_eq!(u[0].latest, "0.24.0");
    assert_eq!(u[0].source, "apt");
}

#[test]
fn pip_and_plain_versions() {
    assert_eq!(pip_show_version("Name: black\nVersion: 24.1.0\nSummary: x\n"), Some("24.1.0".to_string()));
    assert_eq!(pip_show_version("Name: black\n"), None);
    assert_eq!(trimmed_version("  1.2.3\n"), Some("1.2.3".to_string()));
    assert_eq!(trimmed_version(" \n"), None);
}

#[test]
fn cargo_updates_only_for_newer() {
    let u = cargo_update_from_latest("bat", "0.23.0", Some("0.24.0".to_string())).unwrap();
    assert_eq!(u.latest, "0.24.0");
    assert_eq!(u.source, "cargo");
    assert!(cargo_update_from_latest("bat", "0.24.0", Some("0.24.0".to_string())).is_none());
    assert!(cargo_update_from_latest("bat", "0.25.0", Some("0.24.0".to_string())).is_none());
    assert!(cargo_update_from_latest("bat", "0.23.0", None).is_none());
}

use hoards::manager_output::{brew_outdated_from, npm_installed_version_from, npm_outdated_from, pip_outdated_from};

#[test]
fn pip_outdated_report() {
    let body = br#"[{"name":"black","version":"23.1.0","latest_version":"24.1.0","latest_filetype":"wheel"},{"name":"odd"}]"#;
    let u = pip_outdated_from(body).unwrap();
    assert_eq!(u.len(), 1);
    assert_eq!((u[0].name.as_str(), u[0].current.as_str(), u[0].latest.as_str(), u[0].source.as_str()), ("black", "23.1.0", "24.1.0", "pip"));
    assert!(pip_outdated_from(br#"{"a":1}"#).is_none());
    assert!(pip_outdated_from(b"oops").is_none());
}

#[test]
fn npm_outdated_report() {
    assert_eq!(npm_outdated_from("  {} \n").unwrap().len(), 0);
    assert_eq!(npm_outdated_from("").unwrap().len(), 0);
    let text = r#"{"typescript":{"current":"5.0.0","latest":"5.4.0"},"eslint":{"current":"9.0.0","latest":"9.0.0"}}"#;
    let u = npm_outdated_from(text).unwrap();
    assert_eq!(u.len(), 1);
    assert_eq!((u[0].name.as_str(), u[0].current.as_str(), u[0].latest.as_str(), u[0].source.as_str()), ("typescript", "5.0.0", "5.4.0", "npm"));
    assert_eq!(npm_outdated_from("[1,2]").unwrap().len(), 0);
    assert!(npm_outdated_from("not json").is_none());
}

#[test]
fn brew_outdated_report() {
    let body = br#"{"formulae":[{"name":"jq","installed_versions":["1.6"],"current_version":"1.7.1"},{"name":"x","installed_versions":[],"current_version":"2"}],"casks":[]}"#;
    let u = brew_outdated_from(body).unwrap();
    assert_eq!(u.len(), 1);
    assert_eq!((u[0].name.as_str(), u[0].current.as_str(), u[0].latest.as_str(), u[0].source.as_str()), ("jq", "1.6", "1.7.1", "brew"));
    assert_eq!(brew_outdated_from(br#"{"casks":[]}"#).unwrap().len(), 0);
    assert!(brew_outdated_from(b"{").is_none());
}

#[test]
fn npm_installed_version() {
    let body = br#"{"dependencies":{"typescript":{"version":"5.4.2"}}}"#;
    assert_eq!(npm_installed_version_from(body, "typescript"), Some("5.4.2".to_string()));
    assert_eq!(npm_installed_version_from(body, "eslint"), None);
}
