use zkk::models::{Service, SettingsModel, ThemeMode};

#[test]
fn settings_default_to_system_theme_without_biometrics() {
    let fresh = SettingsModel::new();
    assert_eq!(fresh.theme_mode, ThemeMode::System);
    assert!(!fresh.biometric_enabled);
    let defaulted = SettingsModel::default();
    assert_eq!(defaulted, fresh);
    assert_eq!(ThemeMode::default(), ThemeMode::System);
}

#[test]
fn setters_change_only_their_own_field() {
    let mut settings = SettingsModel::new();
    settings.set_theme_mode(ThemeMode::Dark);
    assert_eq!(settings.theme_mode, ThemeMode::Dark);
    assert!(!settings.biometric_enabled);

    settings.set_biometric_enabled(true);
    assert!(settings.biometric_enabled);
    assert_eq!(settings.theme_mode, ThemeMode::Dark);

    settings.set_theme_mode(ThemeMode::Light);
    assert_eq!(settings.theme_mode, ThemeMode::Light);
    assert!(settings.biometric_enabled);
}

#[test]
fn service_catalogue_is_fixed_and_ordered() {
    let services = Service::get_all_services();
    assert_eq!(services.len(), 7);
    let names: Vec<&str> = services.iter().map(|s| s.name.as_str()).collect();
    assert_eq!(
        names,
        vec!["Webmail", "Gradescope", "Library", "WiFi Access", "Badal VM", "Moodle", "Admin Login"]
    );
    let ids: Vec<&str> = services.iter().map(|s| s.id.as_str()).collect();
    assert_eq!(
        ids,
        vec!["webmail", "gradescope", "library", "wifi", "badal", "moodle", "admin"]
    );
}
