use localhost_manager::php::{
    available_php_versions, create_php_version, find_php_ini_path, find_php_install_path,
    get_php_extensions, installed_version, is_php_formula_directory, join_path, major_minor,
    php_formula, php_install_candidates, PhpExtension, PhpVersion,
};

#[test]
fn create_php_version_is_not_installed() {
    let php = create_php_version("8.3.14", 8, 3, 14);
    assert_eq!(
        php,
        PhpVersion {
            version: "8.3.14".to_string(),
            major: 8,
            minor: 3,
            patch: 14,
            installed: false,
            install_path: None,
            download_url: None,
        }
    );
}

#[test]
fn available_versions_are_the_six_on_offer() {
    let versions = available_php_versions();
    let names: Vec<&str> = versions.iter().map(|v| v.version.as_str()).collect();
    assert_eq!(names, vec!["8.4.1", "8.3.14", "8.2.26", "8.1.30", "8.0.30", "7.4.33"]);
    assert_eq!(versions[5], create_php_version("7.4.33", 7, 4, 33));
    assert!(versions.iter().all(|v| !v.installed));
}

#[test]
fn extensions_are_the_three_assumed() {
    let expected: Vec<PhpExtension> = ["mbstring", "curl", "openssl"]
        .iter()
        .map(|name| PhpExtension { name: name.to_string(), enabled: true, version: None })
        .collect();
    assert_eq!(get_php_extensions("8.3"), Ok(expected.clone()));
    assert_eq!(get_php_extensions(""), Ok(expected));
}

#[test]
fn major_minor_keeps_two_parts() {
    assert_eq!(major_minor("8.3.14"), "8.3");
    assert_eq!(major_minor("8.3"), "8.3");
    assert_eq!(major_minor("8"), "8");
    assert_eq!(major_minor(""), "");
    assert_eq!(major_minor("8.3.14.2"), "8.3");
    assert_eq!(major_minor(".3.1"), ".3");
    assert_eq!(major_minor("8..1"), "8.");
}

#[test]
fn install_candidates_and_the_first_that_exists() {
    assert_eq!(
        php_install_candidates("8.3.14"),
        vec!["/opt/homebrew/Cellar/php/8.3.14", "/opt/homebrew/Cellar/php@8.3/8.3.14"]
    );
    assert_eq!(
        find_php_install_path("8.3.14", &vec![true, true]),
        Some("/opt/homebrew/Cellar/php/8.3.14".to_string())
    );
    assert_eq!(
        find_php_install_path("8.3.14", &vec![false, true]),
        Some("/opt/homebrew/Cellar/php@8.3/8.3.14".to_string())
    );
    assert_eq!(find_php_install_path("8.3.14", &vec![false, false]), None);
    assert_eq!(find_php_install_path("8.3.14", &vec![false]), None);
    assert_eq!(find_php_install_path("8.3.14", &vec![]), None);
    assert_eq!(find_php_install_path("8.3.14", &vec![false, false, true]), None);
}

#[test]
fn ini_path_falls_back_on_the_development_template() {
    assert_eq!(find_php_ini_path("/opt/php/8.3", true), "/opt/php/8.3/etc/php.ini");
    assert_eq!(find_php_ini_path("/opt/php/8.3", false), "/opt/php/8.3/etc/php.ini-development");
    assert_eq!(find_php_ini_path("/opt/php/8.3/", true), "/opt/php/8.3/etc/php.ini");
    assert_eq!(find_php_ini_path("", false), "etc/php.ini-development");
    assert_eq!(join_path("a", "b"), "a/b");
    assert_eq!(join_path("a/", "b"), "a/b");
    assert_eq!(join_path("", "b"), "b");
}

#[test]
fn formula_of_a_version() {
    assert_eq!(php_formula("8.4.1"), "php");
    assert_eq!(php_formula("8.4"), "php");
    assert_eq!(php_formula("8.3.14"), "php@8.3");
    assert_eq!(php_formula("7.4"), "php@7.4");
    assert_eq!(php_formula("8"), "php@8");
    assert_eq!(php_formula(""), "php@");
}

#[test]
fn installed_version_is_read_from_the_directory_name() {
    let php = installed_version("8.3.14", "/opt/homebrew/Cellar/php/8.3.14").unwrap();
    assert_eq!(
        php,
        PhpVersion {
            version: "8.3.14".to_string(),
            major: 8,
            minor: 3,
            patch: 14,
            installed: true,
            install_path: Some("/opt/homebrew/Cellar/php/8.3.14".to_string()),
            download_url: None,
        }
    );
    let php = installed_version("8.3", "/p").unwrap();
    assert_eq!((php.major, php.minor, php.patch), (8, 3, 0));
    let php = installed_version("8.3.14_1", "/p").unwrap();
    assert_eq!((php.major, php.minor, php.patch), (8, 3, 0));
    let php = installed_version("x.300.2.9", "/p").unwrap();
    assert_eq!((php.major, php.minor, php.patch), (0, 0, 2));
    let php = installed_version("+8.03.", "/p").unwrap();
    assert_eq!((php.major, php.minor, php.patch), (8, 3, 0));
    assert_eq!(installed_version("8", "/p"), None);
    assert_eq!(installed_version("", "/p"), None);
}

#[test]
fn formula_directories_are_recognised() {
    assert!(is_php_formula_directory("php"));
    assert!(is_php_formula_directory("php@8.3"));
    assert!(is_php_formula_directory("php@"));
    assert!(!is_php_formula_directory("phpunit"));
    assert!(!is_php_formula_directory("httpd"));
    assert!(!is_php_formula_directory(""));
}
