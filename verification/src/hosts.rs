//! Virtual hosts and their aliases.

use vstd::prelude::*;

verus! {

/// Model of an alias.
pub struct AliasView {
    pub id: Seq<char>,
    pub value: Seq<char>,
    pub active: bool,
}

/// Model of a virtual host.
pub struct HostView {
    pub domain: Seq<char>,
    pub docroot: Seq<char>,
    pub aliases: Seq<AliasView>,
    pub group: Seq<char>,
    pub active: bool,
    pub ssl: bool,
    pub host_type: Seq<char>,
}

impl HostView {
    /// Every alias names a host: an alias without a value is never kept.
    pub open spec fn well_formed(self) -> bool {
        forall|i: int| 0 <= i < self.aliases.len() ==> (#[trigger] self.aliases[i]).value.len() > 0
    }

    /// The same host with its `active` flag set to `value`.
    pub open spec fn with_active(self, value: bool) -> HostView {
        HostView { active: value, ..self }
    }
}

/// An alternate name under which a virtual host answers.
#[derive(Debug, PartialEq, Eq)]
pub struct VirtualHostAlias {
    /// Stable identifier of the alias.
    pub id: String,
    /// The alternate host name.
    pub value: String,
    /// Whether the alias is switched on.
    pub active: bool,
}

impl View for VirtualHostAlias {
    type V = AliasView;

    open spec fn view(&self) -> AliasView {
        AliasView { id: self.id@, value: self.value@, active: self.active }
    }
}

impl Clone for VirtualHostAlias {
    fn clone(&self) -> (copy: Self)
        ensures
            copy@ == self@,
    {
        VirtualHostAlias { id: self.id.clone(), value: self.value.clone(), active: self.active }
    }
}

/// Models of the aliases of a list, in order.
pub open spec fn view_aliases(aliases: Seq<VirtualHostAlias>) -> Seq<AliasView> {
    Seq::new(aliases.len(), |i: int| aliases[i]@)
}

/// A copy of a list of aliases.
pub fn clone_aliases(aliases: &Vec<VirtualHostAlias>) -> (copy: Vec<VirtualHostAlias>)
    ensures
        view_aliases(copy@) == view_aliases(aliases@),
{
    let mut copy: Vec<VirtualHostAlias> = Vec::new();
    let mut i: usize = 0;
    while i < aliases.len()
        invariant
            i <= aliases.len(),
            copy@.len() == i,
            forall|j: int| 0 <= j < i ==> copy@[j]@ == aliases@[j]@,
        decreases aliases.len() - i,
    {
        copy.push(aliases[i].clone());
        i += 1;
    }
    copy
}

/// A virtual host: a domain served from a document root.
#[derive(Debug, PartialEq, Eq)]
pub struct VirtualHost {
    /// Primary host name, the key of the host in the registry.
    pub domain: String,
    /// Directory that is served; may be empty.
    pub docroot: String,
    /// Alternate names, in the order in which they were added.
    pub aliases: Vec<VirtualHostAlias>,
    /// Free-text category.
    pub group: String,
    /// Whether the host is switched on.
    pub active: bool,
    /// Whether the host is served over TLS.
    pub ssl: bool,
    /// Free-text kind of host, such as "static" or "proxy".
    pub host_type: String,
}

impl View for VirtualHost {
    type V = HostView;

    open spec fn view(&self) -> HostView {
        HostView {
            domain: self.domain@,
            docroot: self.docroot@,
            aliases: view_aliases(self.aliases@),
            group: self.group@,
            active: self.active,
            ssl: self.ssl,
            host_type: self.host_type@,
        }
    }
}

impl Clone for VirtualHost {
    fn clone(&self) -> (copy: Self)
        ensures
            copy@ == self@,
    {
        VirtualHost {
            domain: self.domain.clone(),
            docroot: self.docroot.clone(),
            aliases: clone_aliases(&self.aliases),
            group: self.group.clone(),
            active: self.active,
            ssl: self.ssl,
            host_type: self.host_type.clone(),
        }
    }
}

} // verus!
