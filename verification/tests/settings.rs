use united_cinemas::settings::{Settings, DEFAULT_PORT};

#[test]
fn settings_hold_what_they_are_given() {
    let settings = Settings::new("127.0.0.1".to_owned(), 9000, true);
    assert_eq!(settings.host, "127.0.0.1");
    assert_eq!(settings.port, 9000);
    assert!(settings.debug);
}

#[test]
fn default_settings() {
    let settings = Settings::default();
    assert_eq!(settings.host, "0.0.0.0");
    assert_eq!(settings.port, 8080);
    assert_eq!(settings.port, DEFAULT_PORT);
    assert!(!settings.debug);
}
