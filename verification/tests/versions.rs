use localhost_manager::system::Platform;
use localhost_manager::versions::{
    apache_binary_candidates, banner_php_version, brew_php_versions, linux_php_candidates,
    linux_php_installed, mysql_binary_candidates, parse_apache_version, parse_mysql_version,
    parse_php_version, php_binary_candidates,
};

#[test]
fn php_version_is_read_from_the_first_line() {
    let output = "PHP 8.3.14 (cli) (built: Nov 19 2024 15:14:23) (NTS)\nCopyright (c) The PHP Group\n";
    assert_eq!(parse_php_version(output), Some("8.3.14".to_string()));
    assert_eq!(parse_php_version("PHP 7.4.33 "), Some("7.4.33".to_string()));
}

#[test]
fn php_version_needs_the_marker_in_the_first_line_and_a_space_after() {
    assert_eq!(parse_php_version(""), None);
    assert_eq!(parse_php_version("\nPHP 8.3.14 (cli)"), None);
    assert_eq!(parse_php_version("php 8.3.14 (cli)"), None);
    assert_eq!(parse_php_version("PHP 8.3.14"), None);
    assert_eq!(parse_php_version("Warning\nPHP 8.3.14 (cli)"), None);
    assert_eq!(parse_php_version("PHP 8.3.14\nnext line"), Some("8.3.14\nnext".to_string()));
    assert_eq!(parse_php_version("xPHP  y"), Some("".to_string()));
}

#[test]
fn apache_version_is_read_up_to_space_bracket_or_line_end() {
    let output = "Server version: Apache/2.4.62 (Unix)\nServer built:   Jul 17 2024 00:00:00\n";
    assert_eq!(parse_apache_version(output), Some("2.4.62".to_string()));
    assert_eq!(parse_apache_version("(Apache/2.4.54)"), Some("2.4.54".to_string()));
    assert_eq!(parse_apache_version("Apache/2.4.1"), Some("2.4.1".to_string()));
    assert_eq!(parse_apache_version("Apache/2.4.1\r\nmore"), Some("2.4.1".to_string()));
    assert_eq!(parse_apache_version("Apache/2.4.1\nmore"), Some("2.4.1".to_string()));
    assert_eq!(parse_apache_version("Apache/2.4.1\r"), Some("2.4.1\r".to_string()));
    assert_eq!(parse_apache_version("first\nsecond Apache/9 x"), Some("9".to_string()));
    assert_eq!(parse_apache_version("Apache/"), Some("".to_string()));
    assert_eq!(parse_apache_version("apache/2.4"), None);
    assert_eq!(parse_apache_version(""), None);
}

#[test]
fn mysql_version_is_read_up_to_space_or_hyphen() {
    assert_eq!(
        parse_mysql_version("mysql  Ver 8.4.3 for macos14.7 on arm64 (Homebrew)"),
        Some("8.4.3".to_string())
    );
    assert_eq!(
        parse_mysql_version("mysql  Ver 15.1 Distrib 10.11.6-MariaDB, for debian-linux-gnu"),
        Some("15.1".to_string())
    );
    assert_eq!(parse_mysql_version("mysql Ver 8.0.31-0ubuntu"), Some("8.0.31".to_string()));
    assert_eq!(parse_mysql_version("x Ver 8.0"), Some("8.0".to_string()));
    assert_eq!(parse_mysql_version("mysql Version 8"), None);
    assert_eq!(parse_mysql_version(""), None);
}

#[test]
fn versions_with_characters_beyond_ascii_are_cut_by_characters() {
    assert_eq!(parse_mysql_version("\u{e9}\u{e9} Ver 8.\u{e9} x"), Some("8.\u{e9}".to_string()));
    assert_eq!(parse_php_version("\u{4e2d}PHP 8.\u{4e2d} "), Some("8.\u{4e2d}".to_string()));
}

#[test]
fn binary_candidates_are_listed_in_order() {
    let php = php_binary_candidates(Platform::MacOs);
    assert_eq!(php.len(), 7);
    assert_eq!(php[0], "/opt/homebrew/opt/php@8.4/bin/php");
    assert_eq!(php[6], "php");
    let php = php_binary_candidates(Platform::Linux);
    assert_eq!(php[4], "/opt/homebrew/bin/php");
    let php = php_binary_candidates(Platform::Windows);
    assert_eq!(php.len(), 9);
    assert_eq!(php[0], "C:\\xampp\\php\\php.exe");
    assert_eq!(php[5], "C:\\laragon\\bin\\php\\php-8.3.0-nts-Win32-vs16-x64\\php.exe");
    let apache = apache_binary_candidates(Platform::Windows);
    assert_eq!(
        apache,
        vec![
            "C:\\xampp\\apache\\bin\\httpd.exe",
            "C:\\wamp64\\bin\\apache\\apache2.4.54\\bin\\httpd.exe",
            "C:\\wamp64\\bin\\apache\\apache2.4.51\\bin\\httpd.exe",
            "C:\\laragon\\bin\\apache\\httpd-2.4.54-win64-VS16\\bin\\httpd.exe",
            "httpd.exe",
            "httpd",
        ]
    );
    assert_eq!(
        apache_binary_candidates(Platform::MacOs),
        vec![
            "/opt/homebrew/opt/httpd/bin/httpd",
            "/opt/homebrew/bin/httpd",
            "/usr/local/bin/httpd",
            "/usr/sbin/httpd",
            "httpd",
        ]
    );
    assert_eq!(
        mysql_binary_candidates(Platform::Linux),
        vec![
            "/opt/homebrew/opt/mysql@8.4/bin/mysql",
            "/opt/homebrew/opt/mysql@8.0/bin/mysql",
            "/opt/homebrew/bin/mysql",
            "/usr/local/bin/mysql",
            "mysql",
        ]
    );
    assert_eq!(mysql_binary_candidates(Platform::Windows).len(), 6);
    assert_eq!(mysql_binary_candidates(Platform::Windows)[3], "C:\\laragon\\bin\\mysql\\mysql-8.0.30-winx64\\bin\\mysql.exe");
}

#[test]
fn brew_versions_are_read_once_each() {
    let output = "httpd 2.4.62\nphp 8.4.1\nphp@8.3 8.3.14\nphp@8.2 8.2.26 8.2.25\nphpunit 11.0\nmysql 9.0\nphp@8.3b 8.3.1\nphp\n";
    assert_eq!(brew_php_versions(output), vec!["8.4", "8.3", "8.2"]);
    assert_eq!(brew_php_versions(""), Vec::<String>::new());
    assert_eq!(brew_php_versions("php 8"), vec!["8"]);
    assert_eq!(brew_php_versions(" php 8.1.2"), Vec::<String>::new());
}

#[test]
fn banner_version_is_the_second_word_of_the_first_line() {
    assert_eq!(banner_php_version("PHP 8.3.14 (cli)\nmore"), Some("8.3".to_string()));
    assert_eq!(banner_php_version("PHP\t8.1\r\n"), Some("8.1".to_string()));
    assert_eq!(banner_php_version("PHP"), None);
    assert_eq!(banner_php_version(""), None);
    assert_eq!(banner_php_version("\nPHP 8.3.14"), None);
}

#[test]
fn linux_versions_follow_the_findings() {
    assert_eq!(
        linux_php_candidates(),
        vec!["/usr/bin/php7.4", "/usr/bin/php8.0", "/usr/bin/php8.1", "/usr/bin/php8.2", "/usr/bin/php8.3"]
    );
    assert_eq!(linux_php_installed(&vec![false, true, false, false, true]), vec!["8.0", "8.3"]);
    assert_eq!(linux_php_installed(&vec![true]), vec!["7.4"]);
    assert_eq!(linux_php_installed(&vec![]), Vec::<String>::new());
    assert_eq!(linux_php_installed(&vec![true; 7]).len(), 5);
}
