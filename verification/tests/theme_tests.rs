use gptranslate::theme::{
    get_system_theme, icon_size_for_dpi, is_dark_theme, theme_from_probe, tray_icon_name,
    SystemTheme,
};

#[test]
fn test_get_system_theme() {
    let theme = get_system_theme();
    assert!(theme.is_ok());
    println!("Current system theme: {:?}", theme.unwrap());
}

#[test]
fn theme_names() {
    assert_eq!(SystemTheme::Light.as_str(), "light");
    assert_eq!(SystemTheme::Dark.as_str(), "dark");
}

#[test]
fn default_theme_is_light() {
    assert!(!is_dark_theme());
    assert_eq!(get_system_theme().unwrap(), SystemTheme::Light);
}

#[test]
fn probe_outcomes() {
    assert_eq!(theme_from_probe(Some(1)), SystemTheme::Light);
    assert_eq!(theme_from_probe(Some(0)), SystemTheme::Dark);
    assert_eq!(theme_from_probe(Some(7)), SystemTheme::Dark);
    assert_eq!(theme_from_probe(None), SystemTheme::Light);
}

#[test]
fn icon_sizes_track_scaling() {
    assert_eq!(icon_size_for_dpi(96), 16);
    assert_eq!(icon_size_for_dpi(119), 16);
    assert_eq!(icon_size_for_dpi(120), 20);
    assert_eq!(icon_size_for_dpi(144), 24);
    assert_eq!(icon_size_for_dpi(192), 32);
    assert_eq!(icon_size_for_dpi(300), 32);
}

#[test]
fn icon_names() {
    assert_eq!(tray_icon_name(SystemTheme::Dark, 16), "tray_dark_16.png");
    assert_eq!(tray_icon_name(SystemTheme::Light, 24), "tray_light_24.png");
    assert_eq!(tray_icon_name(SystemTheme::Light, 48), "tray_light_32.png");
    assert_eq!(tray_icon_name(SystemTheme::Dark, 17), "tray_dark_32.png");
}
