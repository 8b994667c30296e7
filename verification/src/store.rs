//! The registry and the text of its file.
//!
//! The file is read in full, the registry is changed in memory, and the whole
//! registry is written again. Nothing here touches the file itself: the text
//! comes in and goes out as a plain value.

use crate::codec::{decode_host, encode_host, encode_host_spec, host_decodes};
use crate::error::{ErrorView, RegistryError};
use crate::hosts::HostView;
use crate::json::{
    lemma_view_members_push, parse_document, parsed_json, pretty_text, render_document,
    view_members, JsonValue, JsonView,
};
use crate::registry::{all_set_active, toggled, view_hosts, Registry};
use vstd::prelude::*;

verus! {

/// The canonical JSON form of a registry: an object with the canonical form
/// of each host under its domain.
pub open spec fn encode_registry_spec(registry: Map<Seq<char>, HostView>) -> JsonView {
    JsonView::Object(registry.map_values(|host: HostView| encode_host_spec(host)))
}

/// What decoding a document may give. The document is an object; the
/// registry has a host for each member that is an object and for no other;
/// and each host is one that its member decodes to under its key. A member
/// that is no object is skipped and does not keep the others from loading.
pub open spec fn registry_decodes(doc: JsonView, registry: Map<Seq<char>, HostView>) -> bool {
    &&& doc matches JsonView::Object(m)
    &&& forall|k: Seq<char>|
        #![trigger registry.contains_key(k)]
        #![trigger m.contains_key(k)]
        registry.contains_key(k) <==> (m.contains_key(k) && m[k] is Object)
    &&& forall|k: Seq<char>|
        registry.contains_key(k) ==> #[trigger] host_decodes(k, m[k], Some(registry[k]))
}

/// The cause that is reported for a file whose content is JSON but no object.
pub open spec fn not_an_object() -> Seq<char> {
    "the top-level value is not an object"@
}

/// Encodes a registry in its canonical form.
pub fn encode_registry(registry: &Registry) -> (doc: JsonValue)
    ensures
        doc@ == encode_registry_spec(registry@),
{
    let hosts = registry.hosts();
    let mut members: Vec<(String, JsonValue)> = Vec::new();
    let mut i: usize = 0;
    while i < hosts.len()
        invariant
            i <= hosts.len(),
            view_members(members@) == view_hosts(hosts@.take(i as int)).map_values(
                |host: HostView| encode_host_spec(host),
            ),
        decreases hosts.len() - i,
    {
        let key = hosts[i].domain.clone();
        let value = encode_host(&hosts[i]);
        proof {
            lemma_view_members_push(members@, key, value);
            assert(hosts@.take(i + 1).drop_last() =~= hosts@.take(i as int));
        }
        members.push((key, value));
        i += 1;
    }
    assert(hosts@.take(i as int) =~= hosts@);
    JsonValue::Object(members)
}

/// Decodes a registry from a document. A document that is no object is
/// refused. A member that is no object is skipped; every other member gives
/// the host under its key, with defaults for what is absent or of the wrong
/// type.
pub fn decode_registry(doc: &JsonValue) -> (outcome: Result<Registry, RegistryError>)
    ensures
        match outcome {
            Ok(registry) => registry_decodes(doc@, registry@),
            Err(error) => !(doc@ is Object) && error@ == ErrorView::Parse(not_an_object()),
        },
{
    match doc.as_object() {
        Some(members) => {
            let mut registry = Registry::new();
            let mut i: usize = 0;
            while i < members.len()
                invariant
                    i <= members.len(),
                    registry_decodes(
                        JsonView::Object(view_members(members@.take(i as int))),
                        registry@,
                    ),
                decreases members.len() - i,
            {
                proof {
                    assert(members@.take(i + 1).drop_last() =~= members@.take(i as int));
                }
                let key = members[i].0.as_str();
                match decode_host(key, &members[i].1) {
                    Some(host) => {
                        let ghost model = host@;
                        registry.insert(host);
                    },
                    None => {
                        registry.remove(key);
                    },
                }
                i += 1;
            }
            assert(members@.take(i as int) =~= members@);
            Ok(registry)
        },
        None => Err(RegistryError::Parse("the top-level value is not an object".to_owned())),
    }
}

/// What loading may give for the content of the file, `None` standing for a
/// file that does not exist: the empty registry for no file, and for a text
/// what its JSON document decodes to.
pub open spec fn loads(content: Option<Seq<char>>, registry: Map<Seq<char>, HostView>) -> bool {
    match content {
        None => registry == Map::<Seq<char>, HostView>::empty(),
        Some(text) => parsed_json(text) matches Ok(doc) && registry_decodes(doc, registry),
    }
}

/// Whether the content of the file can be loaded: there is no file, or its
/// text is JSON and its top-level value an object.
pub open spec fn loadable(content: Option<Seq<char>>) -> bool {
    match content {
        None => true,
        Some(text) => parsed_json(text) matches Ok(doc) && doc is Object,
    }
}

/// The failure that loading reports for a content that cannot be loaded:
/// the message of the parser for a text that is no JSON, and a cause of its
/// own for JSON whose top-level value is no object.
pub open spec fn load_failure(content: Option<Seq<char>>) -> ErrorView {
    match content {
        Some(text) => match parsed_json(text) {
            Ok(_) => ErrorView::Parse(not_an_object()),
            Err(message) => ErrorView::Parse(message),
        },
        None => ErrorView::Parse(not_an_object()),
    }
}

/// The text of an optional content.
pub open spec fn view_content(content: Option<&str>) -> Option<Seq<char>> {
    match content {
        Some(text) => Some(text@),
        None => None,
    }
}

/// Loads the registry from the content of its file; `None` stands for a file
/// that does not exist and gives the empty registry. A text that is no JSON,
/// or whose top-level value is no object, is refused as a whole. Entries that
/// are no objects are skipped.
pub fn load_registry(content: Option<&str>) -> (outcome: Result<Registry, RegistryError>)
    ensures
        outcome is Ok <==> loadable(view_content(content)),
        match outcome {
            Ok(registry) => loads(view_content(content), registry@),
            Err(error) => error@ == load_failure(view_content(content)),
        },
{
    match content {
        None => Ok(Registry::new()),
        Some(text) => {
            match parse_document(text) {
                Ok(doc) => decode_registry(&doc),
                Err(cause) => Err(RegistryError::Parse(cause)),
            }
        },
    }
}

/// What saving makes of a registry: the text that the writer makes of its
/// canonical form, or the failure of the writer.
pub open spec fn saved_text(registry: Map<Seq<char>, HostView>) -> Result<Seq<char>, ErrorView> {
    match pretty_text(encode_registry_spec(registry)) {
        Ok(text) => Ok(text),
        Err(message) => Err(ErrorView::Encode(message)),
    }
}

/// Writes the whole registry as indented JSON, in canonical form. The text is
/// complete before anything is returned, so that a failure leaves nothing
/// half written.
pub fn save_registry(registry: &Registry) -> (outcome: Result<String, RegistryError>)
    ensures
        view_written(outcome) == saved_text(registry@),
{
    let doc = encode_registry(registry);
    match render_document(&doc) {
        Ok(text) => Ok(text),
        Err(cause) => Err(RegistryError::Encode(cause)),
    }
}

/// A change to the registry.
#[derive(Debug)]
pub enum Mutation {
    /// Put the given registry in place of the stored one.
    ReplaceAll(Registry),
    /// Delete the host under the domain.
    DeleteOne(String),
    /// Switch the host under the domain the other way.
    ToggleActive(String),
    /// Switch every host to the value.
    SetAllActive(bool),
}

/// Model of a change.
pub enum MutationView {
    ReplaceAll(Map<Seq<char>, HostView>),
    DeleteOne(Seq<char>),
    ToggleActive(Seq<char>),
    SetAllActive(bool),
}

impl View for Mutation {
    type V = MutationView;

    open spec fn view(&self) -> MutationView {
        match self {
            Mutation::ReplaceAll(registry) => MutationView::ReplaceAll(registry@),
            Mutation::DeleteOne(domain) => MutationView::DeleteOne(domain@),
            Mutation::ToggleActive(domain) => MutationView::ToggleActive(domain@),
            Mutation::SetAllActive(value) => MutationView::SetAllActive(*value),
        }
    }
}

/// What a change makes of a registry: the registry after it, or the failure
/// that leaves the registry as it was.
pub open spec fn mutation_result(
    before: Map<Seq<char>, HostView>,
    mutation: MutationView,
) -> Result<Map<Seq<char>, HostView>, ErrorView> {
    match mutation {
        MutationView::ReplaceAll(registry) => Ok(registry),
        MutationView::DeleteOne(domain) => {
            if before.contains_key(domain) {
                Ok(before.remove(domain))
            } else {
                Err(ErrorView::NotFound(domain))
            }
        },
        MutationView::ToggleActive(domain) => {
            if before.contains_key(domain) {
                Ok(toggled(before, domain))
            } else {
                Err(ErrorView::NotFound(domain))
            }
        },
        MutationView::SetAllActive(value) => Ok(all_set_active(before, value)),
    }
}

/// The model of the outcome of a change.
pub open spec fn view_outcome(outcome: Result<Registry, RegistryError>) -> Result<
    Map<Seq<char>, HostView>,
    ErrorView,
> {
    match outcome {
        Ok(registry) => Ok(registry@),
        Err(error) => Err(error@),
    }
}

/// Applies a change to a registry in memory.
pub fn apply_mutation(registry: Registry, mutation: Mutation) -> (outcome: Result<
    Registry,
    RegistryError,
>)
    ensures
        view_outcome(outcome) == mutation_result(registry@, mutation@),
{
    let mut registry = registry;
    match mutation {
        Mutation::ReplaceAll(replacement) => Ok(replacement),
        Mutation::DeleteOne(domain) => {
            match registry.delete_one(domain.as_str()) {
                Ok(_) => Ok(registry),
                Err(error) => Err(error),
            }
        },
        Mutation::ToggleActive(domain) => {
            match registry.toggle_active(domain.as_str()) {
                Ok(_) => Ok(registry),
                Err(error) => Err(error),
            }
        },
        Mutation::SetAllActive(value) => {
            registry.set_all_active(value);
            Ok(registry)
        },
    }
}

/// What one read-modify-write cycle may make of the content of the file: the
/// text to write in its place, for some registry that the content loads to,
/// or the failure that leaves the file as it is.
pub open spec fn cycle_allows(
    content: Option<Seq<char>>,
    mutation: MutationView,
    outcome: Result<Seq<char>, ErrorView>,
) -> bool {
    if !loadable(content) {
        outcome == Err::<Seq<char>, ErrorView>(load_failure(content))
    } else {
        exists|before: Map<Seq<char>, HostView>|
            loads(content, before) && match #[trigger] mutation_result(before, mutation) {
                Ok(after) => outcome == saved_text(after),
                Err(error) => outcome == Err::<Seq<char>, ErrorView>(error),
            }
    }
}

/// The model of the outcome of a cycle.
pub open spec fn view_written(outcome: Result<String, RegistryError>) -> Result<
    Seq<char>,
    ErrorView,
> {
    match outcome {
        Ok(text) => Ok(text@),
        Err(error) => Err(error@),
    }
}

/// One read-modify-write cycle on the content of the file: load, change,
/// write the whole registry again. On success the result is the new content
/// of the file; on failure there is nothing to write and the file stays as
/// it is.
pub fn mutate_content(content: Option<&str>, mutation: Mutation) -> (outcome: Result<
    String,
    RegistryError,
>)
    ensures
        cycle_allows(view_content(content), mutation@, view_written(outcome)),
{
    match load_registry(content) {
        Ok(registry) => {
            match apply_mutation(registry, mutation) {
                Ok(changed) => {
                    let outcome = save_registry(&changed);
                    outcome
                },
                Err(error) => {
                    Err(error)
                },
            }
        },
        Err(error) => Err(error),
    }
}

} // verus!
