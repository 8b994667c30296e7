use localhost_manager::commands::{command, next_try, CommandLine, NextTry};
use localhost_manager::control::{
    configs_applied_message, privilege_failure_message, privileged_command, script_command, script_failed_message,
    scripts_path, service_done_message, service_failed_message, service_plan,
    service_unreachable_message, Script, ServiceAttempt, ServicePlan,
};
use localhost_manager::services::{
    command_probe, install_command, package_probe, process_image, process_probe, process_running,
    restart_php_fpm_command, stack_package_probe,
};
use localhost_manager::setup::{
    detected_stack, initial_settings, package_manager_probe, platform_info, stack_probes,
    DetectedStack, PlatformInfo, SetupConfig,
};
use localhost_manager::json::{render_document, JsonValue};
use localhost_manager::system::Platform;

fn line(program: &str, arguments: &[&str]) -> CommandLine {
    CommandLine {
        program: program.to_string(),
        arguments: arguments.iter().map(|a| a.to_string()).collect(),
    }
}

#[test]
fn unknown_services_and_actions_are_refused() {
    for platform in [Platform::Windows, Platform::MacOs, Platform::Linux] {
        assert_eq!(
            service_plan(platform, "start", "redis"),
            ServicePlan::Refused("Unknown service: redis".to_string())
        );
    }
    assert_eq!(
        service_plan(Platform::Windows, "reload", "apache"),
        ServicePlan::Refused("Unknown action: reload".to_string())
    );
    assert_eq!(
        service_plan(Platform::Windows, "reload", "php"),
        ServicePlan::NotAService("Service php does not run as a Windows service".to_string())
    );
}

#[test]
fn windows_tries_every_name_with_sc_and_then_with_net() {
    let plan = service_plan(Platform::Windows, "restart", "mysql");
    let attempts = match plan {
        ServicePlan::Attempts(attempts) => attempts,
        _ => panic!("tries were expected"),
    };
    let names = ["MySQL", "wampmysqld64", "MySQL80"];
    assert_eq!(attempts.len(), 6);
    for (i, attempt) in attempts.iter().enumerate() {
        let tool = if i < 3 { "sc" } else { "net" };
        assert_eq!(
            attempt,
            &ServiceAttempt {
                command: line(tool, &["stop", names[i % 3]]),
                start_again: Some(line(tool, &["start", names[i % 3]])),
            }
        );
    }
    let plan = service_plan(Platform::Windows, "start", "apache");
    let attempts = match plan {
        ServicePlan::Attempts(attempts) => attempts,
        _ => panic!("tries were expected"),
    };
    assert_eq!(attempts[0], ServiceAttempt { command: line("sc", &["start", "Apache2.4"]), start_again: None });
    assert_eq!(attempts[4], ServiceAttempt { command: line("net", &["start", "wampapache64"]), start_again: None });
    assert_eq!(attempts[5].command, line("net", &["start", "Apache"]));
    let plan = service_plan(Platform::Windows, "stop", "apache");
    assert!(matches!(plan, ServicePlan::Attempts(ref a) if a[2].command == line("sc", &["stop", "Apache"])));
}

#[test]
fn elsewhere_homebrew_is_asked_once() {
    for (service, name) in [("apache", "httpd"), ("mysql", "mysql@8.4"), ("php", "php@8.3")] {
        assert_eq!(
            service_plan(Platform::MacOs, "restart", service),
            ServicePlan::Attempts(vec![ServiceAttempt {
                command: line("brew", &["services", "restart", name]),
                start_again: None,
            }])
        );
    }
    assert_eq!(
        service_plan(Platform::Linux, "whatever", "php"),
        ServicePlan::Attempts(vec![ServiceAttempt {
            command: line("brew", &["services", "whatever", "php@8.3"]),
            start_again: None,
        }])
    );
}

#[test]
fn messages_of_services_and_scripts() {
    assert_eq!(service_done_message("apache", "start"), "Service apache started successfully");
    assert_eq!(service_failed_message("stop", "mysql", "no"), "Failed to stop mysql: no");
    assert_eq!(
        service_unreachable_message("start", "apache"),
        "Could not start apache - service may not be installed or requires admin rights"
    );
    assert_eq!(script_failed_message(Script::Generate, "boom"), "Generate failed: boom");
    assert_eq!(script_failed_message(Script::Install, "boom"), "Install failed: boom");
    assert_eq!(
        configs_applied_message("done"),
        "Configuration generated and applied successfully.\ndone"
    );
}

#[test]
fn scripts_lie_below_the_home_directory() {
    assert_eq!(scripts_path(Platform::Linux, "/home/ann"), "/home/ann/localhost-manager/scripts");
    assert_eq!(
        scripts_path(Platform::Windows, "C:\\Users\\ann"),
        "C:\\Users\\ann\\localhost-manager\\scripts\\windows"
    );
    assert_eq!(
        script_command(Platform::MacOs, "/Users/ann", Script::Generate),
        line("bash", &["/Users/ann/localhost-manager/scripts/generate-all.sh"])
    );
    assert_eq!(
        script_command(Platform::Linux, "/home/ann", Script::Install),
        line("bash", &["/home/ann/localhost-manager/scripts/install.sh"])
    );
    assert_eq!(
        script_command(Platform::Windows, "C:\\u", Script::Generate),
        line(
            "powershell",
            &["-ExecutionPolicy", "Bypass", "-File", "C:\\u\\localhost-manager\\scripts\\windows\\generate-all.ps1"]
        )
    );
    assert_eq!(
        script_command(Platform::Windows, "C:\\u", Script::Install).arguments[3],
        "C:\\u\\localhost-manager\\scripts\\windows\\install.ps1"
    );
}

#[test]
fn privileges_are_asked_for_as_the_platform_wants() {
    let arguments = vec!["-c".to_string(), "echo \"hi\"".to_string()];
    assert_eq!(
        privileged_command(Platform::MacOs, "sh", &arguments),
        line(
            "osascript",
            &["-e", "do shell script \"sh -c echo \\\"hi\\\"\" with administrator privileges"]
        )
    );
    assert_eq!(
        privileged_command(Platform::MacOs, "ls", &Vec::new()),
        line("osascript", &["-e", "do shell script \"ls \" with administrator privileges"])
    );
    assert_eq!(
        privileged_command(Platform::Windows, "cmd", &arguments),
        line(
            "powershell",
            &[
                "-Command",
                "Start-Process -FilePath 'cmd' -ArgumentList '-c echo \"hi\"' -Verb RunAs -Wait -WindowStyle Hidden"
            ]
        )
    );
    assert_eq!(
        privileged_command(Platform::Linux, "sh", &arguments),
        line("pkexec", &["sh", "-c", "echo \"hi\""])
    );
    assert_eq!(privileged_command(Platform::Linux, "sh", &Vec::new()), line("pkexec", &["sh"]));
}

#[test]
fn processes_are_looked_for_as_the_platform_wants() {
    assert_eq!(process_image("httpd"), "httpd.exe");
    assert_eq!(process_image("mysqld"), "mysqld.exe");
    assert_eq!(process_image("php-fpm"), "php-cgi.exe");
    assert_eq!(process_image("nginx"), "nginx");
    assert_eq!(
        process_probe(Platform::Windows, "php-fpm"),
        line("tasklist", &["/FI", "IMAGENAME eq php-cgi.exe", "/NH"])
    );
    assert_eq!(process_probe(Platform::Linux, "php-fpm"), line("pgrep", &["-f", "php-fpm"]));
    assert_eq!(process_probe(Platform::MacOs, "httpd"), line("pgrep", &["httpd"]));
    assert!(process_running(Platform::Windows, "httpd", "httpd.exe    1234 Services"));
    assert!(!process_running(Platform::Windows, "httpd", "INFO: No tasks are running"));
    assert!(!process_running(Platform::Windows, "httpd", ""));
    assert!(process_running(Platform::Linux, "httpd", "812\n"));
    assert!(!process_running(Platform::MacOs, "httpd", ""));
}

#[test]
fn packages_are_looked_for_and_installed_as_the_platform_wants() {
    assert_eq!(command_probe(Platform::Windows, "php"), line("where", &["php"]));
    assert_eq!(command_probe(Platform::Linux, "php"), line("which", &["php"]));
    assert_eq!(package_probe(Platform::MacOs, "a", "b", "c"), line("brew", &["list", "a"]));
    assert_eq!(package_probe(Platform::Windows, "a", "b", "c"), line("where", &["b"]));
    assert_eq!(package_probe(Platform::Linux, "a", "b", "c"), line("dpkg", &["-l", "c"]));
    assert_eq!(stack_package_probe(Platform::Linux, "apache"), Some(line("dpkg", &["-l", "apache2"])));
    assert_eq!(stack_package_probe(Platform::Linux, "mysql"), Some(line("dpkg", &["-l", "mysql-server"])));
    assert_eq!(stack_package_probe(Platform::MacOs, "apache"), Some(line("brew", &["list", "httpd"])));
    assert_eq!(stack_package_probe(Platform::Windows, "php"), Some(line("where", &["php"])));
    assert_eq!(stack_package_probe(Platform::Windows, "nginx"), None);
    assert_eq!(install_command(Platform::MacOs, "apache", ""), Some(line("brew", &["install", "httpd"])));
    assert_eq!(install_command(Platform::MacOs, "mysql", "9"), Some(line("brew", &["install", "mysql"])));
    assert_eq!(install_command(Platform::MacOs, "php", ""), Some(line("brew", &["install", "php"])));
    assert_eq!(install_command(Platform::MacOs, "php", "8.3"), Some(line("brew", &["install", "php"])));
    assert_eq!(install_command(Platform::MacOs, "php", "8.1"), Some(line("brew", &["install", "php@8.1"])));
    assert_eq!(
        install_command(Platform::Windows, "apache", ""),
        Some(line("choco", &["install", "apache-httpd", "-y"]))
    );
    assert_eq!(
        install_command(Platform::Windows, "php", ""),
        Some(line("choco", &["install", "php", "--version=8.3", "-y"]))
    );
    assert_eq!(
        install_command(Platform::Windows, "php", "8.1"),
        Some(line("choco", &["install", "php", "--version=8.1", "-y"]))
    );
    assert_eq!(
        install_command(Platform::Linux, "mysql", ""),
        Some(line("sudo", &["apt", "install", "-y", "mysql-server"]))
    );
    assert_eq!(
        install_command(Platform::Linux, "php", "8.2"),
        Some(line(
            "sudo",
            &["apt", "install", "-y", "php8.2", "php8.2-fpm", "php8.2-mysql", "php8.2-curl", "php8.2-gd", "php8.2-mbstring"]
        ))
    );
    assert_eq!(install_command(Platform::Linux, "php", "").unwrap().arguments[3], "php8.3");
    assert_eq!(install_command(Platform::Linux, "nginx", ""), None);
    assert_eq!(restart_php_fpm_command(Platform::MacOs), Some(line("brew", &["services", "restart", "php"])));
    assert_eq!(restart_php_fpm_command(Platform::Windows), None);
    assert_eq!(
        restart_php_fpm_command(Platform::Linux),
        Some(line("sudo", &["systemctl", "restart", "php-fpm"]))
    );
    assert_eq!(command("a", vec!["b", "c"]), line("a", &["b", "c"]));
}

#[test]
fn the_wizard_looks_for_the_stacks_of_the_platform() {
    let windows = stack_probes(Platform::Windows);
    let names: Vec<&str> = windows.iter().map(|p| p.name.as_str()).collect();
    assert_eq!(names, vec!["XAMPP", "WAMP", "Laragon", "MAMP"]);
    assert_eq!(windows[1].value, "wamp");
    assert_eq!(windows[1].places, vec!["C:\\wamp64", "C:\\wamp"]);
    let mac = stack_probes(Platform::MacOs);
    assert_eq!(mac.len(), 3);
    assert_eq!(mac[0].name, "Homebrew");
    assert_eq!(mac[0].value, "native");
    assert_eq!(mac[0].places, vec!["/opt/homebrew/bin/brew", "/usr/local/bin/brew"]);
    assert_eq!(mac[2].places, vec!["/Applications/XAMPP"]);
    let linux = stack_probes(Platform::Linux);
    assert_eq!(linux.len(), 2);
    assert_eq!(linux[0].name, "Native (apt/dnf)");
    assert_eq!(linux[0].places, vec!["/usr/sbin/apache2", "/usr/sbin/httpd"]);
    assert_eq!(linux[1].places, vec!["/opt/lampp"]);
    assert_eq!(
        detected_stack("WAMP", "wamp", 2, &vec![false, true]),
        DetectedStack { name: "WAMP".into(), value: "wamp".into(), detected: true }
    );
    assert!(!detected_stack("WAMP", "wamp", 2, &vec![false, false, true]).detected);
    assert!(!detected_stack("WAMP", "wamp", 2, &vec![]).detected);
    assert!(detected_stack("X", "x", 1, &vec![true]).detected);
}

#[test]
fn the_wizard_reports_the_platform() {
    assert_eq!(
        platform_info(Platform::MacOs, true),
        PlatformInfo { os: "macOS".into(), package_manager: "Homebrew".into(), available: true }
    );
    assert_eq!(
        platform_info(Platform::Windows, false),
        PlatformInfo { os: "Windows".into(), package_manager: "Chocolatey".into(), available: false }
    );
    assert_eq!(
        platform_info(Platform::Linux, true),
        PlatformInfo { os: "Linux".into(), package_manager: "apt".into(), available: true }
    );
    assert_eq!(package_manager_probe(Platform::MacOs), line("which", &["brew"]));
    assert_eq!(package_manager_probe(Platform::Windows), line("where", &["choco"]));
    assert_eq!(package_manager_probe(Platform::Linux), line("which", &["apt"]));
}

#[test]
fn the_wizard_writes_its_settings() {
    let config = SetupConfig {
        stack: "native".into(),
        projects_path: "/p".into(),
        config_path: "/c".into(),
        ssl_path: "/s".into(),
    };
    let doc = initial_settings(&config, "2024-05-01T10:00:00+00:00");
    let members = doc.as_object().unwrap();
    assert_eq!(members.len(), 6);
    assert_eq!(members[4], ("setupCompleted".to_string(), JsonValue::Bool(true)));
    assert_eq!(
        render_document(&doc).unwrap(),
        "{\n  \"configPath\": \"/c\",\n  \"projectsPath\": \"/p\",\n  \"setupCompleted\": true,\n  \"setupDate\": \"2024-05-01T10:00:00+00:00\",\n  \"sslPath\": \"/s\",\n  \"stack\": \"native\"\n}"
    );
}

#[test]
fn programs_are_tried_in_turn_up_to_the_first_success() {
    assert_eq!(next_try(3, 0, None), NextTry::Run(0));
    assert_eq!(next_try(3, 1, None), NextTry::Run(1));
    assert_eq!(next_try(3, 2, None), NextTry::Run(2));
    assert_eq!(next_try(3, 3, None), NextTry::GiveUp);
    assert_eq!(next_try(3, 7, None), NextTry::GiveUp);
    assert_eq!(next_try(0, 0, None), NextTry::GiveUp);
    assert_eq!(next_try(3, 1, Some("out".to_string())), NextTry::Found("out".to_string()));
    assert_eq!(next_try(3, 3, Some(String::new())), NextTry::Found(String::new()));
    let outcomes = [None, None, Some("third".to_string()), Some("fourth".to_string())];
    let mut ran = Vec::new();
    let mut tried = 0;
    let mut last = None;
    let found = loop {
        match next_try(outcomes.len(), tried, last) {
            NextTry::Run(number) => {
                ran.push(number);
                last = outcomes[number].clone();
                tried = number + 1;
            }
            NextTry::Found(output) => break Some(output),
            NextTry::GiveUp => break None,
        }
    };
    assert_eq!(found, Some("third".to_string()));
    assert_eq!(ran, vec![0, 1, 2]);
}

#[test]
fn a_failure_to_raise_privileges_names_the_tool_on_linux() {
    assert_eq!(privilege_failure_message(Platform::MacOs, "no"), "Failed to execute: no");
    assert_eq!(privilege_failure_message(Platform::Windows, "no"), "Failed to execute: no");
    assert_eq!(
        privilege_failure_message(Platform::Linux, "no"),
        "Failed to execute with pkexec: no"
    );
}
