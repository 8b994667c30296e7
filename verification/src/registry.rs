//! The registry: the virtual hosts of the machine, each under its domain.

use crate::error::{ErrorView, RegistryError};
use crate::hosts::{HostView, VirtualHost};
use crate::text::same_text;
use vstd::prelude::*;

verus! {

/// The map that a list of hosts stands for: each host under its domain, a
/// later host over an earlier one of the same domain.
pub open spec fn view_hosts(hosts: Seq<VirtualHost>) -> Map<Seq<char>, HostView>
    decreases hosts.len(),
{
    if hosts.len() == 0 {
        Map::empty()
    } else {
        view_hosts(hosts.drop_last()).insert(hosts.last().domain@, hosts.last()@)
    }
}

/// No two hosts of the list have the same domain.
pub open spec fn distinct_domains(hosts: Seq<VirtualHost>) -> bool {
    forall|i: int, j: int|
        0 <= i < j < hosts.len() ==> (#[trigger] hosts[i]).domain@ != (#[trigger] hosts[j]).domain@
}

/// Every host is stored under its own domain.
pub open spec fn keys_are_domains(m: Map<Seq<char>, HostView>) -> bool {
    forall|k: Seq<char>| m.contains_key(k) ==> (#[trigger] m[k]).domain == k
}

/// The registry with the host under `domain` switched the other way.
pub open spec fn toggled(m: Map<Seq<char>, HostView>, domain: Seq<char>) -> Map<
    Seq<char>,
    HostView,
> {
    m.insert(domain, m[domain].with_active(!m[domain].active))
}

/// The registry with every host switched to `value`.
pub open spec fn all_set_active(m: Map<Seq<char>, HostView>, value: bool) -> Map<
    Seq<char>,
    HostView,
> {
    m.map_values(|host: HostView| host.with_active(value))
}

/// The keys of the map of a list are the domains of its hosts.
pub proof fn lemma_view_hosts_keys(hosts: Seq<VirtualHost>)
    ensures
        view_hosts(hosts).dom().finite(),
        forall|k: Seq<char>|
            view_hosts(hosts).contains_key(k) <==> exists|i: int|
                0 <= i < hosts.len() && (#[trigger] hosts[i]).domain@ == k,
        keys_are_domains(view_hosts(hosts)),
    decreases hosts.len(),
{
    if hosts.len() > 0 {
        let front = hosts.drop_last();
        lemma_view_hosts_keys(front);
        assert forall|k: Seq<char>|
            (exists|i: int|
                0 <= i < hosts.len() && (#[trigger] hosts[i]).domain@ == k) implies view_hosts(
            hosts,
        ).contains_key(k) by {
            let i = choose|i: int| 0 <= i < hosts.len() && (#[trigger] hosts[i]).domain@ == k;
            if i < front.len() {
                assert(front[i].domain@ == k);
            }
        }
    }
}

/// In a list of distinct domains every host is the one its domain maps to.
pub proof fn lemma_view_hosts_values(hosts: Seq<VirtualHost>)
    requires
        distinct_domains(hosts),
    ensures
        forall|i: int|
            0 <= i < hosts.len() ==> view_hosts(hosts).contains_key((#[trigger] hosts[i]).domain@)
                && view_hosts(hosts)[hosts[i].domain@] == hosts[i]@,
        view_hosts(hosts).len() == hosts.len(),
    decreases hosts.len(),
{
    if hosts.len() > 0 {
        let front = hosts.drop_last();
        lemma_view_hosts_values(front);
        lemma_view_hosts_keys(front);
        assert forall|i: int| 0 <= i < hosts.len() implies view_hosts(hosts).contains_key(
            (#[trigger] hosts[i]).domain@,
        ) && view_hosts(hosts)[hosts[i].domain@] == hosts[i]@ by {
            if i < front.len() {
                assert(front[i] == hosts[i]);
            }
        }
    }
}

/// The place of the host under `domain` in a list.
fn position(hosts: &Vec<VirtualHost>, domain: &str) -> (place: Option<usize>)
    ensures
        match place {
            Some(i) => i < hosts@.len() && hosts@[i as int].domain@ == domain@,
            None => forall|i: int| 0 <= i < hosts@.len() ==> (#[trigger] hosts@[i]).domain@ != domain@,
        },
{
    let mut i: usize = 0;
    while i < hosts.len()
        invariant
            i <= hosts.len(),
            forall|j: int| 0 <= j < i ==> (#[trigger] hosts@[j]).domain@ != domain@,
        decreases hosts.len() - i,
    {
        if same_text(hosts[i].domain.as_str(), domain) {
            return Some(i);
        }
        i += 1;
    }
    None
}

/// The virtual hosts of the machine. A domain names at most one host, and
/// every host is stored under its own domain.
#[derive(Debug)]
pub struct Registry {
    hosts: Vec<VirtualHost>,
}

impl View for Registry {
    type V = Map<Seq<char>, HostView>;

    closed spec fn view(&self) -> Map<Seq<char>, HostView> {
        view_hosts(self.hosts@)
    }
}

impl Registry {
    #[verifier::type_invariant]
    spec fn distinct(self) -> bool {
        distinct_domains(self.hosts@)
    }

    /// The hosts of the registry as a list, each once. The order is that in
    /// which the hosts are written; it carries no other meaning.
    pub closed spec fn entries(&self) -> Seq<VirtualHost> {
        self.hosts@
    }

    /// In every registry each host is stored under its own domain, and the
    /// hosts are finitely many.
    pub proof fn lemma_keys_are_domains(self)
        ensures
            keys_are_domains(self@),
            self@.dom().finite(),
    {
        lemma_view_hosts_keys(self.hosts@);
    }

    /// The registry without hosts.
    pub fn new() -> (registry: Registry)
        ensures
            registry@ == Map::<Seq<char>, HostView>::empty(),
    {
        Registry { hosts: Vec::new() }
    }

    /// How many hosts the registry holds.
    pub fn len(&self) -> (count: usize)
        ensures
            count == self@.len(),
    {
        proof {
            use_type_invariant(self);
            lemma_view_hosts_values(self.hosts@);
        }
        self.hosts.len()
    }

    /// Whether a host is stored under `domain`.
    pub fn contains(&self, domain: &str) -> (found: bool)
        ensures
            found == self@.contains_key(domain@),
    {
        proof {
            lemma_view_hosts_keys(self.hosts@);
        }
        position(&self.hosts, domain).is_some()
    }

    /// The host stored under `domain`.
    pub fn get(&self, domain: &str) -> (found: Option<&VirtualHost>)
        ensures
            match found {
                Some(host) => self@.contains_key(domain@) && self@[domain@] == host@,
                None => !self@.contains_key(domain@),
            },
    {
        proof {
            use_type_invariant(self);
            lemma_view_hosts_keys(self.hosts@);
            lemma_view_hosts_values(self.hosts@);
        }
        match position(&self.hosts, domain) {
            Some(i) => Some(&self.hosts[i]),
            None => None,
        }
    }

    /// The hosts of the registry, each once, in no order that carries meaning.
    pub fn hosts(&self) -> (hosts: &Vec<VirtualHost>)
        ensures
            hosts@ == self.entries(),
            distinct_domains(hosts@),
            view_hosts(hosts@) == self@,
    {
        proof {
            use_type_invariant(self);
        }
        &self.hosts
    }

    /// Takes the list of hosts out, leaving the registry empty.
    fn take_hosts(&mut self) -> (hosts: Vec<VirtualHost>)
        ensures
            hosts@ == old(self).hosts@,
            distinct_domains(hosts@),
            final(self).hosts@.len() == 0,
    {
        proof {
            use_type_invariant(&*self);
        }
        let mut hosts: Vec<VirtualHost> = Vec::new();
        std::mem::swap(&mut self.hosts, &mut hosts);
        hosts
    }

    /// Stores a host under its domain, in place of the host that was stored
    /// there, if any.
    pub fn insert(&mut self, host: VirtualHost)
        ensures
            final(self)@ == old(self)@.insert(host.domain@, host@),
    {
        let mut hosts = self.take_hosts();
        let ghost before = hosts@;
        match position(&hosts, host.domain.as_str()) {
            Some(i) => {
                hosts.set(i, host);
                proof {
                    lemma_view_hosts_replace(before, i as int, host);
                }
            },
            None => {
                hosts.push(host);
                proof {
                    assert(hosts@.drop_last() =~= before);
                }
            },
        }
        self.hosts = hosts;
    }

    /// Takes the host under `domain` out of the registry.
    pub fn remove(&mut self, domain: &str) -> (removed: Option<VirtualHost>)
        ensures
            match removed {
                Some(host) => old(self)@.contains_key(domain@) && old(self)@[domain@] == host@
                    && final(self)@ == old(self)@.remove(domain@),
                None => !old(self)@.contains_key(domain@) && final(self)@ == old(self)@,
            },
    {
        let mut hosts = self.take_hosts();
        let ghost before = hosts@;
        proof {
            lemma_view_hosts_keys(before);
            lemma_view_hosts_values(before);
        }
        let removed = match position(&hosts, domain) {
            Some(i) => {
                let host = hosts.remove(i);
                proof {
                    lemma_view_hosts_remove(before, i as int);
                }
                Some(host)
            },
            None => None,
        };
        self.hosts = hosts;
        removed
    }

    /// Deletes the host under `domain`. Where there is none the registry
    /// stays as it is and the failure names the domain.
    pub fn delete_one(&mut self, domain: &str) -> (outcome: Result<(), RegistryError>)
        ensures
            match outcome {
                Ok(_) => old(self)@.contains_key(domain@) && final(self)@ == old(self)@.remove(
                    domain@,
                ),
                Err(error) => !old(self)@.contains_key(domain@) && final(self)@ == old(self)@
                    && error@ == ErrorView::NotFound(domain@),
            },
    {
        match self.remove(domain) {
            Some(_) => Ok(()),
            None => Err(RegistryError::NotFound(domain.to_owned())),
        }
    }

    /// Switches the host under `domain` the other way. Where there is none
    /// the registry stays as it is and the failure names the domain.
    pub fn toggle_active(&mut self, domain: &str) -> (outcome: Result<(), RegistryError>)
        ensures
            match outcome {
                Ok(_) => old(self)@.contains_key(domain@) && final(self)@ == toggled(
                    old(self)@,
                    domain@,
                ),
                Err(error) => !old(self)@.contains_key(domain@) && final(self)@ == old(self)@
                    && error@ == ErrorView::NotFound(domain@),
            },
    {
        let mut hosts = self.take_hosts();
        let ghost before = hosts@;
        proof {
            lemma_view_hosts_keys(before);
            lemma_view_hosts_values(before);
        }
        let outcome = match position(&hosts, domain) {
            Some(i) => {
                let mut host = hosts[i].clone();
                host.active = !host.active;
                hosts.set(i, host);
                proof {
                    lemma_view_hosts_replace(before, i as int, host);
                }
                Ok(())
            },
            None => Err(RegistryError::NotFound(domain.to_owned())),
        };
        self.hosts = hosts;
        outcome
    }

    /// Switches every host to `value`.
    pub fn set_all_active(&mut self, value: bool)
        ensures
            final(self)@ == all_set_active(old(self)@, value),
    {
        let mut hosts = self.take_hosts();
        let ghost before = hosts@;
        let mut i: usize = 0;
        while i < hosts.len()
            invariant
                i <= hosts@.len(),
                hosts@.len() == before.len(),
                forall|j: int| 0 <= j < i ==> (#[trigger] hosts@[j])@ == before[j]@.with_active(value),
                forall|j: int| i <= j < before.len() ==> #[trigger] hosts@[j] == before[j],
            decreases hosts@.len() - i,
        {
            let mut host = hosts[i].clone();
            host.active = value;
            hosts.set(i, host);
            i += 1;
        }
        proof {
            lemma_view_hosts_all_set(before, hosts@, value);
        }
        self.hosts = hosts;
    }

    /// The registry of the hosts of a list. Of several hosts with one domain
    /// the last one stays.
    pub fn from_hosts(hosts: Vec<VirtualHost>) -> (registry: Registry)
        ensures
            registry@ == view_hosts(hosts@),
    {
        let mut registry = Registry::new();
        let mut i: usize = 0;
        while i < hosts.len()
            invariant
                i <= hosts.len(),
                registry@ == view_hosts(hosts@.take(i as int)),
            decreases hosts.len() - i,
        {
            proof {
                assert(hosts@.take(i + 1).drop_last() =~= hosts@.take(i as int));
            }
            registry.insert(hosts[i].clone());
            i += 1;
        }
        assert(hosts@.take(i as int) =~= hosts@);
        registry
    }
}

/// Putting a host in the place of one with the same domain changes the map
/// at that domain alone.
proof fn lemma_view_hosts_replace(hosts: Seq<VirtualHost>, i: int, host: VirtualHost)
    requires
        distinct_domains(hosts),
        0 <= i < hosts.len(),
        hosts[i].domain@ == host.domain@,
    ensures
        distinct_domains(hosts.update(i, host)),
        view_hosts(hosts.update(i, host)) == view_hosts(hosts).insert(host.domain@, host@),
{
    let after = hosts.update(i, host);
    lemma_view_hosts_keys(hosts);
    lemma_view_hosts_values(hosts);
    lemma_view_hosts_keys(after);
    lemma_view_hosts_values(after);
    let expected = view_hosts(hosts).insert(host.domain@, host@);
    assert forall|k: Seq<char>| expected.contains_key(k) implies view_hosts(after).contains_key(
        k,
    ) by {
        if k == host.domain@ {
            assert(after[i].domain@ == k);
        } else {
            let j = choose|j: int| 0 <= j < hosts.len() && (#[trigger] hosts[j]).domain@ == k;
            assert(after[j].domain@ == k);
        }
    }
}

/// Taking a host out of a list of distinct domains removes its domain from
/// the map and nothing else.
proof fn lemma_view_hosts_remove(hosts: Seq<VirtualHost>, i: int)
    requires
        distinct_domains(hosts),
        0 <= i < hosts.len(),
    ensures
        distinct_domains(hosts.remove(i)),
        view_hosts(hosts.remove(i)) == view_hosts(hosts).remove(hosts[i].domain@),
{
    let after = hosts.remove(i);
    lemma_view_hosts_keys(hosts);
    lemma_view_hosts_values(hosts);
    lemma_view_hosts_keys(after);
    lemma_view_hosts_values(after);
    let expected = view_hosts(hosts).remove(hosts[i].domain@);
    assert forall|k: Seq<char>| expected.contains_key(k) implies view_hosts(after).contains_key(
        k,
    ) by {
        let j = choose|j: int| 0 <= j < hosts.len() && (#[trigger] hosts[j]).domain@ == k;
        let j1 = if j < i { j } else { j - 1 };
        assert(after[j1] == hosts[j]);
    }
}

/// Switching every host of a list to one value switches every host of the
/// map.
proof fn lemma_view_hosts_all_set(before: Seq<VirtualHost>, after: Seq<VirtualHost>, value: bool)
    requires
        distinct_domains(before),
        after.len() == before.len(),
        forall|j: int| 0 <= j < before.len() ==> (#[trigger] after[j])@ == before[j]@.with_active(value),
    ensures
        distinct_domains(after),
        view_hosts(after) == all_set_active(view_hosts(before), value),
{
    lemma_view_hosts_keys(before);
    lemma_view_hosts_values(before);
    lemma_view_hosts_keys(after);
    lemma_view_hosts_values(after);
    let expected = all_set_active(view_hosts(before), value);
    assert forall|k: Seq<char>| expected.contains_key(k) implies view_hosts(after).contains_key(
        k,
    ) by {
        let j = choose|j: int| 0 <= j < before.len() && (#[trigger] before[j]).domain@ == k;
        assert(after[j]@.domain == before[j]@.domain);
    }
}

} // verus!
