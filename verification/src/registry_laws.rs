//! What holds of the registry and of its changes.

use crate::codec::{decode_host_spec, encode_host_spec, host_decodes, token_slots, tokens_fit};
use crate::codec_laws::{lemma_decode_of_encode, lemma_host_keys_distinct};
use crate::error::ErrorView;
use crate::hosts::HostView;
use crate::registry::{all_set_active, keys_are_domains, toggled};
use crate::store::{encode_registry_spec, mutation_result, registry_decodes, MutationView};
use vstd::prelude::*;

verus! {

/// Switching every host to a value twice gives the same registry as doing
/// it once.
pub proof fn lemma_set_all_active_idempotent(registry: Map<Seq<char>, HostView>, value: bool)
    ensures
        all_set_active(all_set_active(registry, value), value) == all_set_active(registry, value),
{
}

/// After switching every host to a value, every host has that value and is
/// otherwise as it was; no host comes or goes.
pub proof fn lemma_set_all_active_sets_all(registry: Map<Seq<char>, HostView>, value: bool)
    ensures
        all_set_active(registry, value).dom() == registry.dom(),
        forall|k: Seq<char>|
            registry.contains_key(k) ==> #[trigger] all_set_active(registry, value)[k]
                == registry[k].with_active(value),
{
}

/// Switching a host twice gives the registry back.
pub proof fn lemma_toggle_twice(registry: Map<Seq<char>, HostView>, domain: Seq<char>)
    requires
        registry.contains_key(domain),
    ensures
        toggled(toggled(registry, domain), domain) == registry,
{
}

/// Two switches of different hosts, made one after the other in either
/// order, are both reflected in the registry: each host is switched, and
/// every other host is as it was.
pub proof fn lemma_toggles_both_reflected(
    registry: Map<Seq<char>, HostView>,
    first: Seq<char>,
    second: Seq<char>,
)
    requires
        registry.contains_key(first),
        registry.contains_key(second),
        first != second,
    ensures
        toggled(toggled(registry, first), second) == toggled(toggled(registry, second), first),
        toggled(toggled(registry, first), second)[first] == registry[first].with_active(
            !registry[first].active,
        ),
        toggled(toggled(registry, first), second)[second] == registry[second].with_active(
            !registry[second].active,
        ),
        toggled(toggled(registry, first), second).dom() == registry.dom(),
        forall|k: Seq<char>|
            registry.contains_key(k) && k != first && k != second ==> #[trigger] toggled(
                toggled(registry, first),
                second,
            )[k] == registry[k],
{
}

/// A change keeps every host under its own domain: where that holds of the
/// registry before, and of the registry that a replacement brings, it holds
/// of the registry after.
pub proof fn lemma_mutation_keeps_keys(before: Map<Seq<char>, HostView>, mutation: MutationView)
    requires
        keys_are_domains(before),
        mutation matches MutationView::ReplaceAll(replacement) ==> keys_are_domains(replacement),
    ensures
        mutation_result(before, mutation) matches Ok(after) ==> keys_are_domains(after),
{
}

/// A change that fails names the domain that was not found, and comes only
/// from deleting or switching a host that is not there.
pub proof fn lemma_mutation_failure(before: Map<Seq<char>, HostView>, mutation: MutationView)
    ensures
        mutation_result(before, mutation) matches Err(error) ==> {
            &&& error matches ErrorView::NotFound(domain)
            &&& !before.contains_key(domain)
            &&& (mutation == MutationView::DeleteOne(domain) || mutation
                == MutationView::ToggleActive(domain))
        },
{
}

/// The canonical form of a well-formed host is served by a supply of empty
/// tokens: nothing in it needs an identifier.
pub proof fn lemma_encoded_host_needs_no_token(host: HostView)
    requires
        host.well_formed(),
    ensures
        host_decodes(host.domain, encode_host_spec(host), Some(host)),
{
    lemma_host_keys_distinct();
    crate::codec_laws::lemma_alias_keys_distinct();
    let v = encode_host_spec(host);
    let tokens = Seq::new(token_slots(v), |i: int| Seq::<char>::empty());
    lemma_decode_of_encode(host, tokens);
}

/// Reading back a registry that was written gives that registry and no
/// other, where every host is well formed and stored under its own domain.
pub proof fn lemma_registry_decode_of_encode(
    registry: Map<Seq<char>, HostView>,
    decoded: Map<Seq<char>, HostView>,
)
    requires
        keys_are_domains(registry),
        forall|k: Seq<char>| registry.contains_key(k) ==> (#[trigger] registry[k]).well_formed(),
    ensures
        registry_decodes(encode_registry_spec(registry), registry),
        registry_decodes(encode_registry_spec(registry), decoded) ==> decoded == registry,
{
    let doc = encode_registry_spec(registry);
    let m = doc->Object_0;
    assert forall|k: Seq<char>| registry.contains_key(k) implies #[trigger] host_decodes(
        k,
        m[k],
        Some(registry[k]),
    ) by {
        lemma_encoded_host_needs_no_token(registry[k]);
    }
    if registry_decodes(doc, decoded) {
        assert forall|k: Seq<char>| decoded.contains_key(k) implies decoded[k] == registry[k] by {
            assert(host_decodes(k, m[k], Some(decoded[k])));
            let tokens = choose|tokens: Seq<Seq<char>>|
                tokens_fit(m[k], tokens) && Some(decoded[k]) == #[trigger] decode_host_spec(
                    k,
                    m[k],
                    tokens,
                );
            lemma_decode_of_encode(registry[k], tokens);
        }
    }
}

} // verus!
