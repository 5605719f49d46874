use rylus::config::{resolve_tls_mode, wayland_flag_given, ThemeType, TlsMode};

#[test]
fn theme_type_default_is_greybird() {
    assert_eq!(ThemeType::default(), ThemeType::Greybird);
}

#[test]
fn theme_type_to_index_from_index_roundtrip() {
    for (i, theme) in ThemeType::themes().iter().enumerate() {
        assert_eq!(theme.to_index(), i as i32);
        assert_eq!(ThemeType::from_index(i as i32), *theme);
    }
}

#[test]
fn theme_type_from_index_clamps() {
    let t = ThemeType::from_index(-1);
    assert_eq!(t, ThemeType::themes()[0]);
    let t = ThemeType::from_index(100);
    assert_eq!(t, *ThemeType::themes().last().unwrap());
}

#[test]
fn theme_type_name() {
    assert_eq!(ThemeType::Dark.name(), "Dark");
    assert_eq!(ThemeType::Metro.name(), "Metro");
}

#[test]
fn theme_list_length() {
    assert_eq!(ThemeType::themes().len(), 8);
}

#[test]
fn theme_names_match_variants() {
    let names: Vec<String> = ThemeType::themes().iter().map(|t| t.name()).collect();
    assert_eq!(
        names,
        vec!["Aero", "AquaClassic", "Blue", "Classic", "Dark", "Greybird", "HighContrast", "Metro"]
    );
}

#[test]
fn tls_mode_defaults_to_auto() {
    assert_eq!(resolve_tls_mode(None), TlsMode::Auto);
}

#[test]
fn tls_mode_explicit_disabled() {
    assert_eq!(resolve_tls_mode(Some("disabled")), TlsMode::Disabled);
}

#[test]
fn tls_mode_auto() {
    assert_eq!(resolve_tls_mode(Some("auto")), TlsMode::Auto);
}

#[test]
fn tls_mode_certified() {
    assert_eq!(resolve_tls_mode(Some("certified")), TlsMode::Certified);
}

#[test]
fn tls_mode_unknown_falls_back_to_auto() {
    assert_eq!(resolve_tls_mode(Some("bogus")), TlsMode::Auto);
}

#[test]
fn tls_mode_off_and_none_disable() {
    assert_eq!(resolve_tls_mode(Some("off")), TlsMode::Disabled);
    assert_eq!(resolve_tls_mode(Some("none")), TlsMode::Disabled);
    assert_eq!(resolve_tls_mode(Some("Disabled")), TlsMode::Auto);
}

#[test]
fn tls_mode_type_default_is_disabled() {
    assert_eq!(TlsMode::default(), TlsMode::Disabled);
}

#[test]
fn wayland_flag_detected_only_when_given() {
    let args = vec!["rylus".to_string(), "--wayland-support".to_string()];
    assert!(wayland_flag_given(&args));
    let args = vec!["rylus".to_string(), "--wayland-support=true".to_string()];
    assert!(!wayland_flag_given(&args));
    assert!(!wayland_flag_given(&vec![]));
}
