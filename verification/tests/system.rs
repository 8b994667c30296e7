use localhost_manager::config::{
    config_dir, config_file, home_or_default, join, registry_home, AppConfig,
};
use localhost_manager::system::{
    get_hosts_file_path, language_for, language_from_apple_languages, language_from_locale,
    map_language_code, Platform, ServicesStatus,
};

#[test]
fn language_codes_map_to_the_five_languages() {
    for (code, language) in [
        ("en", "en"),
        ("en_us", "en"),
        ("en_gb", "en"),
        ("es", "es"),
        ("es_es", "es"),
        ("es_mx", "es"),
        ("fr", "fr"),
        ("fr_fr", "fr"),
        ("fr_ca", "fr"),
        ("de", "de"),
        ("de_de", "de"),
        ("pt", "pt"),
        ("pt_br", "pt"),
        ("pt_pt", "pt"),
        ("it", "en"),
        ("", "en"),
        ("de_at", "en"),
    ] {
        assert_eq!(language_for(code), language);
        assert_eq!(map_language_code(code), language);
    }
}

#[test]
fn language_codes_are_lowered_first() {
    assert_eq!(map_language_code("ES_MX"), "es");
    assert_eq!(map_language_code("De"), "de");
    assert_eq!(map_language_code("PT_br"), "pt");
    assert_eq!(language_for("ES_MX"), "en");
}

#[test]
fn language_is_read_from_the_locale() {
    assert_eq!(language_from_locale("de_DE.UTF-8"), "de");
    assert_eq!(language_from_locale("fr_CA"), "fr");
    assert_eq!(language_from_locale("pt"), "pt");
    assert_eq!(language_from_locale("C.UTF-8"), "en");
    assert_eq!(language_from_locale(""), "en");
    assert_eq!(language_from_locale("es.utf8_x"), "es");
}

#[test]
fn language_is_read_from_the_list_of_macos() {
    assert_eq!(language_from_apple_languages("(\n    \"es-ES\",\n    \"en-US\"\n)\n"), Some("es".to_string()));
    assert_eq!(language_from_apple_languages("(\n    fr,\n    \"en-US\"\n)\n"), Some("fr".to_string()));
    assert_eq!(language_from_apple_languages("(\n    \"de\"\n)"), Some("de".to_string()));
    assert_eq!(language_from_apple_languages("(\n\n)"), Some("en".to_string()));
    assert_eq!(language_from_apple_languages("("), None);
    assert_eq!(language_from_apple_languages(""), None);
}

#[test]
fn hosts_file_lies_below_the_home_directory() {
    assert_eq!(
        get_hosts_file_path("/home/ann", Platform::Linux),
        "/home/ann/localhost-manager/conf/hosts.json"
    );
    assert_eq!(
        get_hosts_file_path("/Users/ann", Platform::MacOs),
        "/Users/ann/localhost-manager/conf/hosts.json"
    );
    assert_eq!(
        get_hosts_file_path("C:\\Users\\ann", Platform::Windows),
        "C:\\Users\\ann\\localhost-manager\\conf\\hosts.json"
    );
}

#[test]
fn all_services_run_where_each_does() {
    assert_eq!(
        ServicesStatus::new(true, true, true),
        ServicesStatus { apache: true, mysql: true, php: true, all_running: true }
    );
    assert!(!ServicesStatus::new(true, false, true).all_running);
    assert!(!ServicesStatus::new(false, false, false).all_running);
    assert!(ServicesStatus::new(false, true, true).mysql);
}

#[test]
fn home_directories_fall_back_on_defaults() {
    assert_eq!(home_or_default(Platform::Linux, Some("/home/ann")), "/home/ann");
    assert_eq!(home_or_default(Platform::Linux, None), "/tmp");
    assert_eq!(home_or_default(Platform::MacOs, None), "/tmp");
    assert_eq!(home_or_default(Platform::Windows, None), "C:\\Users\\Default");
    assert_eq!(registry_home(Platform::Windows, Some("C:\\Users\\ann"), None, None), "C:\\Users\\ann");
    assert_eq!(registry_home(Platform::Windows, None, None, None), "C:\\Users\\Default");
    assert_eq!(registry_home(Platform::Windows, None, Some("D:"), None), "D:\\Users\\Default");
    assert_eq!(registry_home(Platform::Windows, None, Some("D:"), Some("\\home\\ann")), "D:\\home\\ann");
    assert_eq!(registry_home(Platform::Linux, None, Some("D:"), Some("\\x")), "/tmp");
    assert_eq!(registry_home(Platform::MacOs, Some("/Users/ann"), None, None), "/Users/ann");
}

#[test]
fn config_directory_follows_the_platform() {
    assert_eq!(config_dir(Platform::Linux, "/home/ann", None), "/home/ann/.config/localhost-manager");
    assert_eq!(config_dir(Platform::Linux, "/home/ann", Some("/xdg")), "/xdg/localhost-manager");
    assert_eq!(
        config_dir(Platform::MacOs, "/Users/ann", Some("/ignored")),
        "/Users/ann/Library/Application Support/localhost-manager"
    );
    assert_eq!(
        config_dir(Platform::Windows, "C:\\Users\\ann", None),
        "C:\\Users\\ann\\AppData\\Roaming\\localhost-manager"
    );
    assert_eq!(
        config_dir(Platform::Windows, "C:\\Users\\ann", Some("D:\\Data\\")),
        "D:\\Data\\localhost-manager"
    );
    assert_eq!(config_file(Platform::Linux, "/c"), "/c/config.json");
    assert_eq!(join(Platform::Windows, "C:/x/", "y"), "C:/x/y");
    assert_eq!(join(Platform::Linux, "a\\", "y"), "a\\/y");
    assert_eq!(join(Platform::Linux, "", "y"), "y");
}

#[test]
fn the_settings_start_in_the_config_directory() {
    let config = AppConfig::in_directory(Platform::Linux, "/home/ann/.config/localhost-manager");
    assert_eq!(
        config,
        AppConfig {
            php_install_dir: "/home/ann/.config/localhost-manager/php-versions".to_string(),
            projects_config_dir: "/home/ann/.config/localhost-manager/projects".to_string(),
            default_php_version: None,
        }
    );
}
