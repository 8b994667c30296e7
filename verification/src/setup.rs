//! The first-run wizard: which stacks are on the machine, and the files the
//! panel starts from.

use crate::commands::{
    command, command_spec, owned_texts, view_strings, view_strs, CommandLine, CommandView,
};
use crate::json::{lemma_view_members_push, view_members, JsonValue, JsonView};
use crate::system::Platform;
use vstd::prelude::*;

verus! {

/// A stack that the wizard looked for.
#[derive(Debug, PartialEq, Eq)]
pub struct DetectedStack {
    /// The name shown to the user.
    pub name: String,
    /// The value stored in the settings.
    pub value: String,
    /// Whether the stack was found.
    pub detected: bool,
}

/// What the user chose in the wizard.
#[derive(Debug, PartialEq, Eq)]
pub struct SetupConfig {
    pub stack: String,
    pub projects_path: String,
    pub config_path: String,
    pub ssl_path: String,
}

/// The platform and its package manager.
#[derive(Debug, PartialEq, Eq)]
pub struct PlatformInfo {
    pub os: String,
    pub package_manager: String,
    pub available: bool,
}

/// Whether any of the first `count` findings is `true`.
pub open spec fn any_present(present: Seq<bool>, count: int) -> bool {
    exists|i: int| 0 <= i < count && i < present.len() && #[trigger] present[i]
}

/// A stack as the wizard reports it: found where any of the places it may
/// live in exists. `present[i]` says whether place `i` of `places` exists; a
/// place without a finding counts as absent.
pub fn detected_stack(name: &str, value: &str, places: usize, present: &Vec<bool>) -> (stack:
    DetectedStack)
    ensures
        stack.name@ == name@,
        stack.value@ == value@,
        stack.detected == any_present(present@, places as int),
{
    let mut detected = false;
    let mut i: usize = 0;
    while i < places && i < present.len()
        invariant
            i <= places,
            detected == any_present(present@, i as int),
        decreases present.len() - i,
    {
        if present[i] {
            detected = true;
        }
        i += 1;
    }
    DetectedStack { name: name.to_owned(), value: value.to_owned(), detected }
}

/// The name of the operating system as the wizard shows it.
pub open spec fn os_name_spec(platform: Platform) -> Seq<char> {
    match platform {
        Platform::MacOs => "macOS"@,
        Platform::Windows => "Windows"@,
        Platform::Linux => "Linux"@,
    }
}

/// The name of the package manager of a platform.
pub open spec fn package_manager_spec(platform: Platform) -> Seq<char> {
    match platform {
        Platform::MacOs => "Homebrew"@,
        Platform::Windows => "Chocolatey"@,
        Platform::Linux => "apt"@,
    }
}

/// The platform as the wizard reports it; `available` says whether its
/// package manager was found.
pub fn platform_info(platform: Platform, available: bool) -> (info: PlatformInfo)
    ensures
        info.os@ == os_name_spec(platform),
        info.package_manager@ == package_manager_spec(platform),
        info.available == available,
{
    match platform {
        Platform::MacOs => PlatformInfo {
            os: "macOS".to_owned(),
            package_manager: "Homebrew".to_owned(),
            available,
        },
        Platform::Windows => PlatformInfo {
            os: "Windows".to_owned(),
            package_manager: "Chocolatey".to_owned(),
            available,
        },
        Platform::Linux => PlatformInfo {
            os: "Linux".to_owned(),
            package_manager: "apt".to_owned(),
            available,
        },
    }
}

/// The settings that the wizard writes: the choices of the user, the mark
/// that the setup is complete, and its date.
pub open spec fn initial_settings_spec(
    stack: Seq<char>,
    projects_path: Seq<char>,
    config_path: Seq<char>,
    ssl_path: Seq<char>,
    setup_date: Seq<char>,
) -> JsonView {
    JsonView::Object(
        Map::empty().insert("stack"@, JsonView::String(stack)).insert(
            "projectsPath"@,
            JsonView::String(projects_path),
        ).insert("configPath"@, JsonView::String(config_path)).insert(
            "sslPath"@,
            JsonView::String(ssl_path),
        ).insert("setupCompleted"@, JsonView::Bool(true)).insert(
            "setupDate"@,
            JsonView::String(setup_date),
        ),
    )
}

/// Adds a string member to the members of an object under construction.
fn push_text(members: &mut Vec<(String, JsonValue)>, key: &str, value: &str)
    ensures
        view_members(final(members)@) == view_members(old(members)@).insert(
            key@,
            JsonView::String(value@),
        ),
{
    let owned = key.to_owned();
    let item = JsonValue::String(value.to_owned());
    proof {
        lemma_view_members_push(members@, owned, item);
    }
    members.push((owned, item));
}

/// The settings document that the wizard writes; `setup_date` is the moment
/// of the setup as text.
pub fn initial_settings(config: &SetupConfig, setup_date: &str) -> (doc: JsonValue)
    ensures
        doc@ == initial_settings_spec(
            config.stack@,
            config.projects_path@,
            config.config_path@,
            config.ssl_path@,
            setup_date@,
        ),
{
    let mut members: Vec<(String, JsonValue)> = Vec::new();
    push_text(&mut members, "stack", config.stack.as_str());
    push_text(&mut members, "projectsPath", config.projects_path.as_str());
    push_text(&mut members, "configPath", config.config_path.as_str());
    push_text(&mut members, "sslPath", config.ssl_path.as_str());
    let done = "setupCompleted".to_owned();
    proof {
        lemma_view_members_push(members@, done, JsonValue::Bool(true));
    }
    members.push((done, JsonValue::Bool(true)));
    push_text(&mut members, "setupDate", setup_date);
    JsonValue::Object(members)
}

/// A stack that the wizard looks for, with the places one of which exists
/// where the stack is installed.
#[derive(Debug, PartialEq, Eq)]
pub struct StackProbe {
    pub name: String,
    pub value: String,
    pub places: Vec<String>,
}

/// Model of a stack to look for.
pub struct StackProbeView {
    pub name: Seq<char>,
    pub value: Seq<char>,
    pub places: Seq<Seq<char>>,
}

impl View for StackProbe {
    type V = StackProbeView;

    open spec fn view(&self) -> StackProbeView {
        StackProbeView {
            name: self.name@,
            value: self.value@,
            places: view_strings(self.places@),
        }
    }
}

/// Models of the stacks of a list, in order.
pub open spec fn view_probes(probes: Seq<StackProbe>) -> Seq<StackProbeView> {
    Seq::new(probes.len(), |i: int| probes[i]@)
}

/// The stacks that the wizard looks for on a platform.
pub open spec fn stack_probes_spec(platform: Platform) -> Seq<StackProbeView> {
    match platform {
        Platform::Windows => seq![
            StackProbeView { name: "XAMPP"@, value: "xampp"@, places: seq!["C:\\xampp"@] },
            StackProbeView {
                name: "WAMP"@,
                value: "wamp"@,
                places: seq!["C:\\wamp64"@, "C:\\wamp"@],
            },
            StackProbeView { name: "Laragon"@, value: "laragon"@, places: seq!["C:\\laragon"@] },
            StackProbeView { name: "MAMP"@, value: "mamp"@, places: seq!["C:\\MAMP"@] },
        ],
        Platform::MacOs => seq![
            StackProbeView {
                name: "Homebrew"@,
                value: "native"@,
                places: seq!["/opt/homebrew/bin/brew"@, "/usr/local/bin/brew"@],
            },
            StackProbeView { name: "MAMP"@, value: "mamp"@, places: seq!["/Applications/MAMP"@] },
            StackProbeView {
                name: "XAMPP"@,
                value: "xampp"@,
                places: seq!["/Applications/XAMPP"@],
            },
        ],
        Platform::Linux => seq![
            StackProbeView {
                name: "Native (apt/dnf)"@,
                value: "native"@,
                places: seq!["/usr/sbin/apache2"@, "/usr/sbin/httpd"@],
            },
            StackProbeView { name: "XAMPP"@, value: "xampp"@, places: seq!["/opt/lampp"@] },
        ],
    }
}

/// A stack to look for.
fn stack_probe(name: &str, value: &str, places: Vec<&str>) -> (probe: StackProbe)
    ensures
        probe@ == (StackProbeView { name: name@, value: value@, places: view_strs(places@) }),
{
    StackProbe { name: name.to_owned(), value: value.to_owned(), places: owned_texts(&places) }
}

/// The stacks that the wizard looks for on a platform.
pub fn stack_probes(platform: Platform) -> (probes: Vec<StackProbe>)
    ensures
        view_probes(probes@) == stack_probes_spec(platform),
{
    let mut probes: Vec<StackProbe> = Vec::new();
    match platform {
        Platform::Windows => {
            let places = vec!["C:\\xampp"];
            assert(view_strs(places@) =~= seq!["C:\\xampp"@]);
            probes.push(stack_probe("XAMPP", "xampp", places));
            let places = vec!["C:\\wamp64", "C:\\wamp"];
            assert(view_strs(places@) =~= seq!["C:\\wamp64"@, "C:\\wamp"@]);
            probes.push(stack_probe("WAMP", "wamp", places));
            let places = vec!["C:\\laragon"];
            assert(view_strs(places@) =~= seq!["C:\\laragon"@]);
            probes.push(stack_probe("Laragon", "laragon", places));
            let places = vec!["C:\\MAMP"];
            assert(view_strs(places@) =~= seq!["C:\\MAMP"@]);
            probes.push(stack_probe("MAMP", "mamp", places));
        },
        Platform::MacOs => {
            let places = vec!["/opt/homebrew/bin/brew", "/usr/local/bin/brew"];
            assert(view_strs(places@) =~= seq!["/opt/homebrew/bin/brew"@, "/usr/local/bin/brew"@]);
            probes.push(stack_probe("Homebrew", "native", places));
            let places = vec!["/Applications/MAMP"];
            assert(view_strs(places@) =~= seq!["/Applications/MAMP"@]);
            probes.push(stack_probe("MAMP", "mamp", places));
            let places = vec!["/Applications/XAMPP"];
            assert(view_strs(places@) =~= seq!["/Applications/XAMPP"@]);
            probes.push(stack_probe("XAMPP", "xampp", places));
        },
        Platform::Linux => {
            let places = vec!["/usr/sbin/apache2", "/usr/sbin/httpd"];
            assert(view_strs(places@) =~= seq!["/usr/sbin/apache2"@, "/usr/sbin/httpd"@]);
            probes.push(stack_probe("Native (apt/dnf)", "native", places));
            let places = vec!["/opt/lampp"];
            assert(view_strs(places@) =~= seq!["/opt/lampp"@]);
            probes.push(stack_probe("XAMPP", "xampp", places));
        },
    }
    probes
}

/// The command that says whether the package manager of the platform is
/// there.
pub open spec fn package_manager_probe_spec(platform: Platform) -> CommandView {
    match platform {
        Platform::MacOs => command_spec("which"@, seq!["brew"@]),
        Platform::Windows => command_spec("where"@, seq!["choco"@]),
        Platform::Linux => command_spec("which"@, seq!["apt"@]),
    }
}

/// The command that says whether the package manager of the platform is
/// there; it is where the command succeeds.
pub fn package_manager_probe(platform: Platform) -> (probe: CommandLine)
    ensures
        probe@ == package_manager_probe_spec(platform),
{
    match platform {
        Platform::MacOs => {
            let probe = command("which", vec!["brew"]);
            assert(probe@.arguments =~= seq!["brew"@]);
            probe
        },
        Platform::Windows => {
            let probe = command("where", vec!["choco"]);
            assert(probe@.arguments =~= seq!["choco"@]);
            probe
        },
        Platform::Linux => {
            let probe = command("which", vec!["apt"]);
            assert(probe@.arguments =~= seq!["apt"@]);
            probe
        },
    }
}

} // verus!
