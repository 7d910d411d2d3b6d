use hoards::theme::ThemeVariant;

#[test]
fn themes_cycle_through_all() {
    let all = ThemeVariant::all();
    assert_eq!(all.len(), 6);
    let mut t = ThemeVariant::CatppuccinMocha;
    for _ in 0..all.len() {
        t = t.next();
    }
    assert_eq!(t, ThemeVariant::CatppuccinMocha);
    assert_eq!(ThemeVariant::CatppuccinMocha.next(), ThemeVariant::CatppuccinLatte);
}

#[test]
fn theme_names_and_colors() {
    assert_eq!(ThemeVariant::TokyoNight.display_name(), "Tokyo Night");
    let mocha = ThemeVariant::CatppuccinMocha.theme();
    assert_eq!(mocha.name, "Catppuccin Mocha");
    assert_eq!((mocha.colors.base.r, mocha.colors.base.g, mocha.colors.base.b), (30, 30, 46));
    assert_eq!(ThemeVariant::Gruvbox.theme().name, ThemeVariant::Gruvbox.display_name());
}

#[test]
fn custom_theme_statuses() {
    let create = hoards::theme::create_theme_status;
    let p = Some("/c/theme.toml");
    assert_eq!(create(true, Ok(false), p), ("Custom theme already exists: /c/theme.toml".to_string(), false));
    assert_eq!(create(true, Err("x"), None), ("Custom theme already exists".to_string(), false));
    assert_eq!(create(false, Ok(true), p), ("Created custom theme: /c/theme.toml".to_string(), false));
    assert_eq!(create(false, Ok(true), None), ("Created custom theme file".to_string(), false));
    assert_eq!(create(false, Ok(false), p), ("Custom theme already exists".to_string(), false));
    assert_eq!(create(false, Err("disk full"), p), ("Failed to create theme: disk full".to_string(), true));
    let show = hoards::theme::theme_path_status;
    assert_eq!(show(Ok(("/c/theme.toml", true))), ("Custom theme: /c/theme.toml".to_string(), false));
    assert_eq!(
        show(Ok(("/c/theme.toml", false))),
        ("Custom theme not found. Create with :create-theme".to_string(), true)
    );
    assert_eq!(show(Err("no home")), ("Error: no home".to_string(), true));
}
