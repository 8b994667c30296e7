//! Starting and stopping the services, running the scripts that write the
//! server configuration, and running a command with raised privileges.

use crate::commands::{
    command, command_spec, view_strings, view_strs, CommandLine, CommandView,
};
use crate::system::Platform;
use crate::text::{append_range, chars_of, replace_all, replace_text, same_text, text_of};
use vstd::prelude::*;
use vstd::string::StringExecFns;

verus! {

/// One try at a service: a command, and for a restart the command that
/// starts the service again once the first has stopped it.
#[derive(Debug, PartialEq, Eq)]
pub struct ServiceAttempt {
    pub command: CommandLine,
    pub start_again: Option<CommandLine>,
}

/// Model of a try.
pub struct AttemptView {
    pub command: CommandView,
    pub start_again: Option<CommandView>,
}

impl View for ServiceAttempt {
    type V = AttemptView;

    open spec fn view(&self) -> AttemptView {
        AttemptView {
            command: self.command@,
            start_again: match self.start_again {
                Some(line) => Some(line@),
                None => None,
            },
        }
    }
}

/// How an action on a service is carried out.
#[derive(Debug, PartialEq, Eq)]
pub enum ServicePlan {
    /// The service or the action is not known; the text says which.
    Refused(String),
    /// There is nothing to do; the text says why.
    NotAService(String),
    /// The tries to make, in order, up to the first that succeeds.
    Attempts(Vec<ServiceAttempt>),
}

/// Model of a plan.
pub enum PlanView {
    Refused(Seq<char>),
    NotAService(Seq<char>),
    Attempts(Seq<AttemptView>),
}

/// Models of the tries of a list, in order.
pub open spec fn view_attempts(attempts: Seq<ServiceAttempt>) -> Seq<AttemptView> {
    Seq::new(attempts.len(), |i: int| attempts[i]@)
}

impl View for ServicePlan {
    type V = PlanView;

    open spec fn view(&self) -> PlanView {
        match self {
            ServicePlan::Refused(why) => PlanView::Refused(why@),
            ServicePlan::NotAService(why) => PlanView::NotAService(why@),
            ServicePlan::Attempts(attempts) => PlanView::Attempts(view_attempts(attempts@)),
        }
    }
}

/// The names under which a service may be registered on Windows; `None` for
/// a service that the panel does not know. PHP is no Windows service.
pub open spec fn windows_service_names(service: Seq<char>) -> Option<Seq<Seq<char>>> {
    if service == "apache"@ {
        Some(seq!["Apache2.4"@, "wampapache64"@, "Apache"@])
    } else if service == "mysql"@ {
        Some(seq!["MySQL"@, "wampmysqld64"@, "MySQL80"@])
    } else if service == "php"@ {
        Some(Seq::empty())
    } else {
        None
    }
}

/// The name of a service with Homebrew; `None` for a service that the panel
/// does not know.
pub open spec fn brew_service_name(service: Seq<char>) -> Option<Seq<char>> {
    if service == "apache"@ {
        Some("httpd"@)
    } else if service == "mysql"@ {
        Some("mysql@8.4"@)
    } else if service == "php"@ {
        Some("php@8.3"@)
    } else {
        None
    }
}

/// What the service manager of Windows is told for an action: a restart
/// begins with a stop. `None` for an action that the panel does not know.
pub open spec fn windows_verb(action: Seq<char>) -> Option<Seq<char>> {
    if action == "start"@ {
        Some("start"@)
    } else if action == "stop"@ || action == "restart"@ {
        Some("stop"@)
    } else {
        None
    }
}

/// One try on Windows with a tool, `sc` or `net`, on a name of the service.
pub open spec fn windows_attempt(tool: Seq<char>, verb: Seq<char>, action: Seq<char>, name: Seq<char>) -> AttemptView {
    AttemptView {
        command: command_spec(tool, seq![verb, name]),
        start_again: if action == "restart"@ {
            Some(command_spec(tool, seq!["start"@, name]))
        } else {
            None
        },
    }
}

/// The tries on Windows: every name of the service with `sc`, then every
/// name with `net`.
pub open spec fn windows_attempts(verb: Seq<char>, action: Seq<char>, names: Seq<Seq<char>>) -> Seq<
    AttemptView,
> {
    Seq::new(
        2 * names.len(),
        |i: int|
            if i < names.len() {
                windows_attempt("sc"@, verb, action, names[i])
            } else {
                windows_attempt("net"@, verb, action, names[i - names.len()])
            },
    )
}

/// How an action on a service is carried out on a platform.
pub open spec fn service_plan_spec(platform: Platform, action: Seq<char>, service: Seq<char>) -> PlanView {
    match platform {
        Platform::Windows => match windows_service_names(service) {
            None => PlanView::Refused("Unknown service: "@ + service),
            Some(names) => if names.len() == 0 {
                PlanView::NotAService(
                    "Service "@ + service + " does not run as a Windows service"@,
                )
            } else {
                match windows_verb(action) {
                    None => PlanView::Refused("Unknown action: "@ + action),
                    Some(verb) => PlanView::Attempts(windows_attempts(verb, action, names)),
                }
            },
        },
        _ => match brew_service_name(service) {
            None => PlanView::Refused("Unknown service: "@ + service),
            Some(name) => PlanView::Attempts(
                seq![
                    AttemptView {
                        command: command_spec("brew"@, seq!["services"@, action, name]),
                        start_again: None,
                    },
                ],
            ),
        },
    }
}

/// One try on Windows with a tool on a name of the service.
fn make_windows_attempt(tool: &str, verb: &str, restart: bool, name: &str) -> (attempt:
    ServiceAttempt)
    ensures
        attempt@.command == command_spec(tool@, seq![verb@, name@]),
        attempt@.start_again == if restart {
            Some(command_spec(tool@, seq!["start"@, name@]))
        } else {
            None
        },
{
    let first = command(tool, vec![verb, name]);
    assert(first@.arguments =~= seq![verb@, name@]);
    let start_again = if restart {
        let again = command(tool, vec!["start", name]);
        assert(again@.arguments =~= seq!["start"@, name@]);
        Some(again)
    } else {
        None
    };
    ServiceAttempt { command: first, start_again }
}

/// Plans an action on a service: the commands to try, or why there is
/// nothing to try.
pub fn service_plan(platform: Platform, action: &str, service: &str) -> (plan: ServicePlan)
    ensures
        plan@ == service_plan_spec(platform, action@, service@),
{
    let apache = same_text(service, "apache");
    let mysql = same_text(service, "mysql");
    let php = same_text(service, "php");
    if !apache && !mysql && !php {
        return ServicePlan::Refused("Unknown service: ".to_owned().concat(service));
    }
    match platform {
        Platform::Windows => {
            if !apache && !mysql {
                return ServicePlan::NotAService(
                    "Service ".to_owned().concat(service).concat(
                        " does not run as a Windows service",
                    ),
                );
            }
            let names: Vec<&str> = if apache {
                vec!["Apache2.4", "wampapache64", "Apache"]
            } else {
                vec!["MySQL", "wampmysqld64", "MySQL80"]
            };
            let ghost wanted = windows_service_names(service@)->Some_0;
            let restart = same_text(action, "restart");
            let verb = if same_text(action, "start") {
                "start"
            } else if restart || same_text(action, "stop") {
                "stop"
            } else {
                return ServicePlan::Refused("Unknown action: ".to_owned().concat(action));
            };
            let mut attempts: Vec<ServiceAttempt> = Vec::new();
            let mut i: usize = 0;
            while i < 3
                invariant
                    i <= 3,
                    names@.len() == 3,
                    view_strs(names@) == wanted,
                    restart == (action@ == "restart"@),
                    attempts@.len() == i,
                    forall|j: int|
                        0 <= j < i ==> (#[trigger] attempts@[j])@ == windows_attempt(
                            "sc"@,
                            verb@,
                            action@,
                            wanted[j],
                        ),
                decreases 3 - i,
            {
                attempts.push(make_windows_attempt("sc", verb, restart, names[i]));
                i += 1;
            }
            let mut k: usize = 0;
            while k < 3
                invariant
                    k <= 3,
                    names@.len() == 3,
                    view_strs(names@) == wanted,
                    restart == (action@ == "restart"@),
                    attempts@.len() == 3 + k,
                    forall|j: int|
                        0 <= j < 3 ==> (#[trigger] attempts@[j])@ == windows_attempt(
                            "sc"@,
                            verb@,
                            action@,
                            wanted[j],
                        ),
                    forall|j: int|
                        3 <= j < 3 + k ==> (#[trigger] attempts@[j])@ == windows_attempt(
                            "net"@,
                            verb@,
                            action@,
                            wanted[j - 3],
                        ),
                decreases 3 - k,
            {
                attempts.push(make_windows_attempt("net", verb, restart, names[k]));
                k += 1;
            }
            assert(view_attempts(attempts@) =~= windows_attempts(verb@, action@, wanted));
            ServicePlan::Attempts(attempts)
        },
        _ => {
            let name = if apache {
                "httpd"
            } else if mysql {
                "mysql@8.4"
            } else {
                "php@8.3"
            };
            let line = command("brew", vec!["services", action, name]);
            assert(line@.arguments =~= seq!["services"@, action@, name@]);
            let attempt = ServiceAttempt { command: line, start_again: None };
            let mut attempts: Vec<ServiceAttempt> = Vec::new();
            attempts.push(attempt);
            assert(view_attempts(attempts@) =~= seq![attempt@]);
            ServicePlan::Attempts(attempts)
        },
    }
}

/// What the panel says when an action on a service went well.
pub open spec fn service_done_spec(service: Seq<char>, action: Seq<char>) -> Seq<char> {
    "Service "@ + service + " "@ + action + "ed successfully"@
}

/// What the panel says when an action on a service went well.
pub fn service_done_message(service: &str, action: &str) -> (message: String)
    ensures
        message@ == service_done_spec(service@, action@),
{
    "Service ".to_owned().concat(service).concat(" ").concat(action).concat("ed successfully")
}

/// What the panel says when an action on a service failed with a cause.
pub open spec fn service_failed_spec(action: Seq<char>, service: Seq<char>, cause: Seq<char>) -> Seq<
    char,
> {
    "Failed to "@ + action + " "@ + service + ": "@ + cause
}

/// What the panel says when an action on a service failed with a cause.
pub fn service_failed_message(action: &str, service: &str, cause: &str) -> (message: String)
    ensures
        message@ == service_failed_spec(action@, service@, cause@),
{
    "Failed to ".to_owned().concat(action).concat(" ").concat(service).concat(": ").concat(cause)
}

/// What the panel says when no try at a service of Windows went well.
pub open spec fn service_unreachable_spec(action: Seq<char>, service: Seq<char>) -> Seq<char> {
    "Could not "@ + action + " "@ + service
        + " - service may not be installed or requires admin rights"@
}

/// What the panel says when no try at a service of Windows went well.
pub fn service_unreachable_message(action: &str, service: &str) -> (message: String)
    ensures
        message@ == service_unreachable_spec(action@, service@),
{
    "Could not ".to_owned().concat(action).concat(" ").concat(service).concat(
        " - service may not be installed or requires admin rights",
    )
}

/// What the panel says when a command could not be run with raised
/// privileges; on Linux it names PolicyKit.
pub open spec fn privilege_failure_spec(platform: Platform, cause: Seq<char>) -> Seq<char> {
    match platform {
        Platform::Linux => "Failed to execute with pkexec: "@ + cause,
        _ => "Failed to execute: "@ + cause,
    }
}

/// What the panel says when a command could not be run with raised
/// privileges.
pub fn privilege_failure_message(platform: Platform, cause: &str) -> (message: String)
    ensures
        message@ == privilege_failure_spec(platform, cause@),
{
    match platform {
        Platform::Linux => "Failed to execute with pkexec: ".to_owned().concat(cause),
        _ => "Failed to execute: ".to_owned().concat(cause),
    }
}

/// Where the scripts of the panel lie below the home directory.
pub open spec fn scripts_path_spec(platform: Platform, home: Seq<char>) -> Seq<char> {
    match platform {
        Platform::Windows => home + "\\localhost-manager\\scripts\\windows"@,
        _ => home + "/localhost-manager/scripts"@,
    }
}

/// The directory of the scripts of the panel for a home directory.
pub fn scripts_path(platform: Platform, home: &str) -> (path: String)
    ensures
        path@ == scripts_path_spec(platform, home@),
{
    match platform {
        Platform::Windows => home.to_owned().concat("\\localhost-manager\\scripts\\windows"),
        _ => home.to_owned().concat("/localhost-manager/scripts"),
    }
}

/// A script of the panel.
#[derive(Debug, Clone, Copy, PartialEq, Eq, Structural)]
pub enum Script {
    /// Writes the configuration of the servers from the registry.
    Generate,
    /// Puts the configuration in place.
    Install,
}

/// The file of a script in the directory of the scripts.
pub open spec fn script_file_spec(platform: Platform, home: Seq<char>, script: Script) -> Seq<char> {
    scripts_path_spec(platform, home) + match (platform, script) {
        (Platform::Windows, Script::Generate) => "\\generate-all.ps1"@,
        (Platform::Windows, Script::Install) => "\\install.ps1"@,
        (_, Script::Generate) => "/generate-all.sh"@,
        (_, Script::Install) => "/install.sh"@,
    }
}

/// The command that runs a script: PowerShell on Windows, bash elsewhere.
pub open spec fn script_command_spec(platform: Platform, home: Seq<char>, script: Script) -> CommandView {
    match platform {
        Platform::Windows => command_spec(
            "powershell"@,
            seq![
                "-ExecutionPolicy"@,
                "Bypass"@,
                "-File"@,
                script_file_spec(platform, home, script),
            ],
        ),
        _ => command_spec("bash"@, seq![script_file_spec(platform, home, script)]),
    }
}

/// The command that runs a script of the panel.
pub fn script_command(platform: Platform, home: &str, script: Script) -> (line: CommandLine)
    ensures
        line@ == script_command_spec(platform, home@, script),
{
    let directory = scripts_path(platform, home);
    match platform {
        Platform::Windows => {
            let file = match script {
                Script::Generate => directory.concat("\\generate-all.ps1"),
                Script::Install => directory.concat("\\install.ps1"),
            };
            let line = command(
                "powershell",
                vec!["-ExecutionPolicy", "Bypass", "-File", file.as_str()],
            );
            assert(line@.arguments =~= seq![
                "-ExecutionPolicy"@,
                "Bypass"@,
                "-File"@,
                script_file_spec(platform, home@, script),
            ]);
            line
        },
        _ => {
            let file = match script {
                Script::Generate => directory.concat("/generate-all.sh"),
                Script::Install => directory.concat("/install.sh"),
            };
            let line = command("bash", vec![file.as_str()]);
            assert(line@.arguments =~= seq![script_file_spec(platform, home@, script)]);
            line
        },
    }
}

/// What the panel says when a script failed; `printed` is what the script
/// wrote to its error stream.
pub open spec fn script_failed_spec(script: Script, printed: Seq<char>) -> Seq<char> {
    match script {
        Script::Generate => "Generate failed: "@ + printed,
        Script::Install => "Install failed: "@ + printed,
    }
}

/// What the panel says when a script failed.
pub fn script_failed_message(script: Script, printed: &str) -> (message: String)
    ensures
        message@ == script_failed_spec(script, printed@),
{
    match script {
        Script::Generate => "Generate failed: ".to_owned().concat(printed),
        Script::Install => "Install failed: ".to_owned().concat(printed),
    }
}

/// What the panel says when the configuration was written and put in place;
/// `printed` is what the install script wrote.
pub open spec fn configs_applied_spec(printed: Seq<char>) -> Seq<char> {
    "Configuration generated and applied successfully.\n"@ + printed
}

/// What the panel says when the configuration was written and put in place.
pub fn configs_applied_message(printed: &str) -> (message: String)
    ensures
        message@ == configs_applied_spec(printed@),
{
    "Configuration generated and applied successfully.\n".to_owned().concat(printed)
}

/// Texts put together with a space between one and the next.
pub open spec fn join_spaced(texts: Seq<Seq<char>>) -> Seq<char>
    decreases texts.len(),
{
    if texts.len() == 0 {
        Seq::empty()
    } else if texts.len() == 1 {
        texts[0]
    } else {
        join_spaced(texts.drop_last()) + seq![' '] + texts.last()
    }
}

/// Puts texts together with a space between one and the next.
pub fn join_with_spaces(texts: &Vec<String>) -> (joined: Vec<char>)
    ensures
        joined@ == join_spaced(view_strings(texts@)),
{
    let mut joined: Vec<char> = Vec::new();
    let mut i: usize = 0;
    let ghost all = view_strings(texts@);
    while i < texts.len()
        invariant
            i <= texts.len(),
            all == view_strings(texts@),
            joined@ == join_spaced(all.take(i as int)),
        decreases texts.len() - i,
    {
        let item = chars_of(texts[i].as_str());
        proof {
            assert(all.take(i + 1).drop_last() =~= all.take(i as int));
        }
        if i > 0 {
            joined.push(' ');
        }
        append_range(&mut joined, &item, 0, item.len());
        i += 1;
    }
    assert(all.take(i as int) =~= all);
    joined
}

/// The command with its arguments as one line, each double quote in it
/// escaped with a backslash.
pub open spec fn escaped_line(program: Seq<char>, arguments: Seq<Seq<char>>) -> Seq<char> {
    replace_all(program + seq![' '] + join_spaced(arguments), seq!['"'], seq!['\\', '"'])
}

/// The command that runs a command with raised privileges: through the
/// password dialog of macOS, through the elevation prompt of Windows,
/// through PolicyKit on Linux.
pub open spec fn privileged_command_spec(
    platform: Platform,
    program: Seq<char>,
    arguments: Seq<Seq<char>>,
) -> CommandView {
    match platform {
        Platform::MacOs => command_spec(
            "osascript"@,
            seq![
                "-e"@,
                "do shell script \""@ + escaped_line(program, arguments)
                    + "\" with administrator privileges"@,
            ],
        ),
        Platform::Windows => command_spec(
            "powershell"@,
            seq![
                "-Command"@,
                "Start-Process -FilePath '"@ + program + "' -ArgumentList '"@ + join_spaced(
                    arguments,
                ) + "' -Verb RunAs -Wait -WindowStyle Hidden"@,
            ],
        ),
        Platform::Linux => command_spec("pkexec"@, seq![program] + arguments),
    }
}

/// The command that runs a command with raised privileges.
pub fn privileged_command(platform: Platform, program: &str, arguments: &Vec<String>) -> (line:
    CommandLine)
    ensures
        line@ == privileged_command_spec(platform, program@, view_strings(arguments@)),
{
    match platform {
        Platform::MacOs => {
            let joined = join_with_spaces(arguments);
            let mut full = chars_of(program);
            full.push(' ');
            append_range(&mut full, &joined, 0, joined.len());
            let mut quote: Vec<char> = Vec::new();
            quote.push('"');
            let mut escaped_quote: Vec<char> = Vec::new();
            escaped_quote.push('\\');
            escaped_quote.push('"');
            assert(escaped_quote@ =~= seq!['\\', '"']);
            assert(full@ =~= program@ + seq![' '] + join_spaced(view_strings(arguments@)));
            let escaped = text_of(&replace_text(&full, &quote, &escaped_quote));
            let script = "do shell script \"".to_owned().concat(escaped.as_str()).concat(
                "\" with administrator privileges",
            );
            let line = command("osascript", vec!["-e", script.as_str()]);
            assert(line@.arguments =~= seq!["-e"@, script@]);
            line
        },
        Platform::Windows => {
            let joined = text_of(&join_with_spaces(arguments));
            let request = "Start-Process -FilePath '".to_owned().concat(program).concat(
                "' -ArgumentList '",
            ).concat(joined.as_str()).concat("' -Verb RunAs -Wait -WindowStyle Hidden");
            let line = command("powershell", vec!["-Command", request.as_str()]);
            assert(line@.arguments =~= seq!["-Command"@, request@]);
            line
        },
        Platform::Linux => {
            let mut all: Vec<String> = Vec::new();
            all.push(program.to_owned());
            let mut i: usize = 0;
            while i < arguments.len()
                invariant
                    i <= arguments.len(),
                    all@.len() == i + 1,
                    all@[0]@ == program@,
                    forall|j: int| 1 <= j <= i ==> (#[trigger] all@[j])@ == arguments@[j - 1]@,
                decreases arguments.len() - i,
            {
                all.push(arguments[i].clone());
                i += 1;
            }
            assert(view_strings(all@) =~= seq![program@] + view_strings(arguments@));
            CommandLine { program: "pkexec".to_owned(), arguments: all }
        },
    }
}

} // verus!
