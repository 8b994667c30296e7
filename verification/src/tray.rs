//! The menu of the tray icon: what its items stand for.

use crate::commands::{command, command_spec, CommandLine};
use crate::hosts::HostView;
use crate::registry::Registry;
use crate::store::{Mutation, MutationView};
use crate::text::{chars_of, is_match_at, matches_at, same_text, slice_of};
use vstd::prelude::*;
use vstd::string::StringExecFns;

verus! {

/// What choosing an item of the menu asks for.
#[derive(Debug)]
pub enum TrayAction {
    ShowWindow,
    HideWindow,
    StartAllServices,
    StopAllServices,
    RestartAllServices,
    /// Change the registry through the guard.
    ChangeRegistry(Mutation),
    GenerateConfigs,
    Quit,
    /// The item stands for nothing.
    Ignore,
}

/// Model of what an item asks for.
pub enum TrayActionView {
    ShowWindow,
    HideWindow,
    StartAllServices,
    StopAllServices,
    RestartAllServices,
    ChangeRegistry(MutationView),
    GenerateConfigs,
    Quit,
    Ignore,
}

impl View for TrayAction {
    type V = TrayActionView;

    open spec fn view(&self) -> TrayActionView {
        match self {
            TrayAction::ShowWindow => TrayActionView::ShowWindow,
            TrayAction::HideWindow => TrayActionView::HideWindow,
            TrayAction::StartAllServices => TrayActionView::StartAllServices,
            TrayAction::StopAllServices => TrayActionView::StopAllServices,
            TrayAction::RestartAllServices => TrayActionView::RestartAllServices,
            TrayAction::ChangeRegistry(mutation) => TrayActionView::ChangeRegistry(mutation@),
            TrayAction::GenerateConfigs => TrayActionView::GenerateConfigs,
            TrayAction::Quit => TrayActionView::Quit,
            TrayAction::Ignore => TrayActionView::Ignore,
        }
    }
}

/// What the item of an identifier asks for. The item of a host has the
/// identifier `toggle_host_` followed by the domain, and switches that host.
pub open spec fn tray_action_spec(id: Seq<char>) -> TrayActionView {
    if id == "show"@ {
        TrayActionView::ShowWindow
    } else if id == "hide"@ {
        TrayActionView::HideWindow
    } else if id == "start_all"@ {
        TrayActionView::StartAllServices
    } else if id == "stop_all"@ {
        TrayActionView::StopAllServices
    } else if id == "restart_all"@ {
        TrayActionView::RestartAllServices
    } else if id == "activate_hosts"@ {
        TrayActionView::ChangeRegistry(MutationView::SetAllActive(true))
    } else if id == "deactivate_hosts"@ {
        TrayActionView::ChangeRegistry(MutationView::SetAllActive(false))
    } else if id == "generate"@ {
        TrayActionView::GenerateConfigs
    } else if id == "quit"@ {
        TrayActionView::Quit
    } else if matches_at(id, "toggle_host_"@, 0) {
        TrayActionView::ChangeRegistry(MutationView::ToggleActive(id.subrange(12, id.len() as int)))
    } else {
        TrayActionView::Ignore
    }
}

/// What choosing the item of an identifier asks for.
pub fn tray_action(id: &str) -> (action: TrayAction)
    ensures
        action@ == tray_action_spec(id@),
{
    if same_text(id, "show") {
        TrayAction::ShowWindow
    } else if same_text(id, "hide") {
        TrayAction::HideWindow
    } else if same_text(id, "start_all") {
        TrayAction::StartAllServices
    } else if same_text(id, "stop_all") {
        TrayAction::StopAllServices
    } else if same_text(id, "restart_all") {
        TrayAction::RestartAllServices
    } else if same_text(id, "activate_hosts") {
        TrayAction::ChangeRegistry(Mutation::SetAllActive(true))
    } else if same_text(id, "deactivate_hosts") {
        TrayAction::ChangeRegistry(Mutation::SetAllActive(false))
    } else if same_text(id, "generate") {
        TrayAction::GenerateConfigs
    } else if same_text(id, "quit") {
        TrayAction::Quit
    } else {
        let chars = chars_of(id);
        let prefix = chars_of("toggle_host_");
        proof {
            reveal_strlit("toggle_host_");
        }
        if is_match_at(&chars, &prefix, 0) {
            TrayAction::ChangeRegistry(Mutation::ToggleActive(slice_of(id, 12, chars.len())))
        } else {
            TrayAction::Ignore
        }
    }
}

/// An item of the menu.
#[derive(Debug, PartialEq, Eq)]
pub struct TrayItem {
    pub id: String,
    pub label: String,
}

/// Model of an item.
pub struct TrayItemView {
    pub id: Seq<char>,
    pub label: Seq<char>,
}

impl View for TrayItem {
    type V = TrayItemView;

    open spec fn view(&self) -> TrayItemView {
        TrayItemView { id: self.id@, label: self.label@ }
    }
}

/// The item of a host: a check mark or a cross for its state, then its
/// domain.
pub open spec fn host_item_spec(host: HostView) -> TrayItemView {
    TrayItemView {
        id: "toggle_host_"@ + host.domain,
        label: (if host.active {
            "\u{2713} "@
        } else {
            "\u{2717} "@
        }) + host.domain,
    }
}

/// The items of the hosts of the registry, one for each host, in the order
/// of the registry's list.
pub fn host_items(registry: &Registry) -> (items: Vec<TrayItem>)
    ensures
        items@.len() == registry.entries().len(),
        forall|i: int|
            0 <= i < items@.len() ==> (#[trigger] items@[i])@ == host_item_spec(
                registry.entries()[i]@,
            ),
{
    let hosts = registry.hosts();
    let mut items: Vec<TrayItem> = Vec::new();
    let mut i: usize = 0;
    while i < hosts.len()
        invariant
            i <= hosts.len(),
            items@.len() == i,
            forall|j: int| 0 <= j < i ==> (#[trigger] items@[j])@ == host_item_spec(hosts@[j]@),
        decreases hosts.len() - i,
    {
        let host = &hosts[i];
        let mark = if host.active {
            "\u{2713} "
        } else {
            "\u{2717} "
        };
        items.push(
            TrayItem {
                id: "toggle_host_".to_owned().concat(host.domain.as_str()),
                label: mark.to_owned().concat(host.domain.as_str()),
            },
        );
        i += 1;
    }
    items
}

/// The identifier of the item of a host leads back to the switch of that
/// host.
pub proof fn lemma_host_item_toggles(host: HostView)
    ensures
        tray_action_spec(host_item_spec(host).id) == TrayActionView::ChangeRegistry(
            MutationView::ToggleActive(host.domain),
        ),
{
    let id = "toggle_host_"@ + host.domain;
    reveal_strlit("toggle_host_");
    reveal_strlit("show");
    reveal_strlit("hide");
    reveal_strlit("start_all");
    reveal_strlit("stop_all");
    reveal_strlit("restart_all");
    reveal_strlit("activate_hosts");
    reveal_strlit("deactivate_hosts");
    reveal_strlit("generate");
    reveal_strlit("quit");
    assert(id[0] == 't');
    assert(id.subrange(0, 12) =~= "toggle_host_"@);
    assert(id.subrange(12, id.len() as int) =~= host.domain);
}

/// The shell line that applies a verb of `brew services` to every service
/// of the stack that Homebrew lists.
pub open spec fn all_services_line(verb: Seq<char>) -> Seq<char> {
    "brew services list | grep -E 'httpd|mysql|php' | awk '{print $1}' | xargs -I {} brew services "@
        + verb + " {}"@
}

/// The command that starts, stops or restarts every service of the stack.
pub fn all_services_command(verb: &str) -> (line: CommandLine)
    ensures
        line@ == command_spec("sh"@, seq!["-c"@, all_services_line(verb@)]),
{
    let script =
        "brew services list | grep -E 'httpd|mysql|php' | awk '{print $1}' | xargs -I {} brew services ".to_owned().concat(
        verb,
    ).concat(" {}");
    let line = command("sh", vec!["-c", script.as_str()]);
    assert(line@.arguments =~= seq!["-c"@, all_services_line(verb@)]);
    line
}

} // verus!
