use hoards::types::{
    package_managers, ConfigSection, DiscoverSource, DiscoverSortBy, InstallSource, SortBy, Tab,
};

#[test]
fn tabs_cycle_and_index() {
    assert_eq!(Tab::all().len(), 5);
    assert_eq!(Tab::Installed.next(), Tab::Available);
    assert_eq!(Tab::Discover.next(), Tab::Installed);
    assert_eq!(Tab::Installed.prev(), Tab::Discover);
    assert_eq!(Tab::Bundles.index(), 3);
    assert_eq!(Tab::from_index(4), Some(Tab::Discover));
    assert_eq!(Tab::from_index(5), None);
    assert_eq!(Tab::Updates.title(), "Updates");
}

#[test]
fn sorts_cycle() {
    assert_eq!(SortBy::Name.next(), SortBy::Usage);
    assert_eq!(SortBy::Recent.next(), SortBy::Name);
    assert_eq!(SortBy::Usage.label(), "usage");
    assert_eq!(DiscoverSortBy::Stars.next(), DiscoverSortBy::Name);
}

#[test]
fn sources() {
    assert_eq!(DiscoverSource::CratesIo.to_install_source(), InstallSource::Cargo);
    assert_eq!(DiscoverSource::GitHub.to_install_source(), InstallSource::Unknown);
    assert_eq!(InstallSource::Flatpak.filter_name(), "flatpak");
    assert_eq!(package_managers()[0], ("cargo", "Cargo (Rust)"));
}

#[test]
fn config_sections_cycle() {
    let mut s = ConfigSection::AiProvider;
    for _ in 0..ConfigSection::all().len() {
        s = s.next();
    }
    assert_eq!(s, ConfigSection::AiProvider);
    assert_eq!(ConfigSection::Buttons.prev().next(), ConfigSection::Buttons);
}
