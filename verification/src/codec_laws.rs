//! What holds of the codec: reading back what was written gives the same
//! host, and writing what was read gives the canonical form.

use crate::codec::{
    alias_needs_token, alias_retained, decode_alias_spec, decode_host_spec, encode_alias_spec,
    encode_aliases_spec, encode_host_spec, fresh_id, host_decodes, id_in_order, is_fresh_id,
    is_own_id, listed_aliases, slot_needs_token, token_at, tokens_fit,
};
use crate::hosts::{AliasView, HostView};
use crate::json::{items_member, text_member, JsonView};
use vstd::prelude::*;

verus! {

/// The names of the members of an alias object differ from one another.
pub proof fn lemma_alias_keys_distinct()
    ensures
        "id"@ != "value"@,
        "id"@ != "active"@,
        "value"@ != "active"@,
{
    reveal_strlit("id");
    reveal_strlit("value");
    reveal_strlit("active");
    assert("id"@.len() == 2);
    assert("value"@.len() == 5);
}

/// The names of the members of a host object differ from one another.
pub proof fn lemma_host_keys_distinct()
    ensures
        "docroot"@ != "aliases"@,
        "docroot"@ != "group"@,
        "docroot"@ != "active"@,
        "docroot"@ != "ssl"@,
        "docroot"@ != "type"@,
        "docroot"@ != "alias"@,
        "aliases"@ != "group"@,
        "aliases"@ != "active"@,
        "aliases"@ != "ssl"@,
        "aliases"@ != "type"@,
        "aliases"@ != "alias"@,
        "group"@ != "active"@,
        "group"@ != "ssl"@,
        "group"@ != "type"@,
        "group"@ != "alias"@,
        "active"@ != "ssl"@,
        "active"@ != "type"@,
        "active"@ != "alias"@,
        "ssl"@ != "type"@,
        "ssl"@ != "alias"@,
        "type"@ != "alias"@,
{
    reveal_strlit("docroot");
    reveal_strlit("aliases");
    reveal_strlit("group");
    reveal_strlit("active");
    reveal_strlit("ssl");
    reveal_strlit("type");
    reveal_strlit("alias");
    assert("aliases"@.len() == 7);
    assert("active"@.len() == 6);
    assert("ssl"@.len() == 3);
    assert("docroot"@[0] != "aliases"@[0]);
    assert("group"@[0] != "alias"@[0]);
}

/// An alias with a value is read back as it was written, whatever token is
/// at hand.
pub proof fn lemma_decode_of_encoded_alias(alias: AliasView, token: Seq<char>)
    requires
        alias.value.len() > 0,
    ensures
        decode_alias_spec(encode_alias_spec(alias), token) == Some(alias),
{
    lemma_alias_keys_distinct();
}

/// A list of aliases with values is read back as it was written.
pub proof fn lemma_decode_of_encoded_aliases(aliases: Seq<AliasView>, tokens: Seq<Seq<char>>)
    requires
        forall|i: int| 0 <= i < aliases.len() ==> (#[trigger] aliases[i]).value.len() > 0,
    ensures
        listed_aliases(encode_aliases_spec(aliases), tokens) == aliases,
    decreases aliases.len(),
{
    if aliases.len() > 0 {
        let items = encode_aliases_spec(aliases);
        assert(items.drop_last() =~= encode_aliases_spec(aliases.drop_last()));
        lemma_decode_of_encoded_aliases(aliases.drop_last(), tokens);
        lemma_decode_of_encoded_alias(aliases.last(), token_at(tokens, items.len() - 1));
    }
}

/// Reading back what was written: decoding the canonical form of a
/// well-formed host under its domain gives that host again, whatever random
/// tokens are at hand.
pub proof fn lemma_decode_of_encode(host: HostView, tokens: Seq<Seq<char>>)
    requires
        host.well_formed(),
    ensures
        decode_host_spec(host.domain, encode_host_spec(host), tokens) == Some(host),
{
    lemma_host_keys_distinct();
    lemma_decode_of_encoded_aliases(host.aliases, tokens);
}

/// The canonical shape of an alias: an object of exactly the members `id`,
/// `value` and `active`, each of its type, with a value that is not empty.
pub open spec fn is_canonical_alias(v: JsonView) -> bool {
    &&& v matches JsonView::Object(m)
    &&& m.dom() =~= set!["id"@, "value"@, "active"@]
    &&& m["id"@] is String
    &&& m["value"@] matches JsonView::String(value)
    &&& value.len() > 0
    &&& m["active"@] is Bool
}

/// The canonical shape of a host: an object of exactly the members
/// `docroot`, `aliases`, `group`, `active`, `ssl` and `type`, each of its
/// type, with an alias list of canonical aliases.
pub open spec fn is_canonical_host(v: JsonView) -> bool {
    &&& v matches JsonView::Object(m)
    &&& m.dom() =~= set!["docroot"@, "aliases"@, "group"@, "active"@, "ssl"@, "type"@]
    &&& m["docroot"@] is String
    &&& m["aliases"@] matches JsonView::Array(items)
    &&& forall|i: int| 0 <= i < items.len() ==> is_canonical_alias(#[trigger] items[i])
    &&& m["group"@] is String
    &&& m["active"@] is Bool
    &&& m["ssl"@] is Bool
    &&& m["type"@] is String
}

/// Writing is canonical: the form of a well-formed host has the canonical
/// shape, and never the older shapes.
pub proof fn lemma_encode_is_canonical(host: HostView)
    requires
        host.well_formed(),
    ensures
        is_canonical_host(encode_host_spec(host)),
{
    lemma_host_keys_distinct();
    lemma_alias_keys_distinct();
}

/// A canonical alias is read and written back unchanged.
pub proof fn lemma_encode_of_decoded_canonical_alias(v: JsonView, token: Seq<char>)
    requires
        is_canonical_alias(v),
    ensures
        decode_alias_spec(v, token) matches Some(alias) && encode_alias_spec(alias) == v,
{
    let m = v->Object_0;
    let alias = decode_alias_spec(v, token)->Some_0;
    assert(encode_alias_spec(alias)->Object_0 =~= m);
}

/// A list of canonical aliases is read in full and written back unchanged.
pub proof fn lemma_encode_of_decoded_canonical_aliases(items: Seq<JsonView>, tokens: Seq<Seq<char>>)
    requires
        forall|i: int| 0 <= i < items.len() ==> is_canonical_alias(#[trigger] items[i]),
    ensures
        encode_aliases_spec(listed_aliases(items, tokens)) == items,
        listed_aliases(items, tokens).len() == items.len(),
    decreases items.len(),
{
    if items.len() > 0 {
        lemma_encode_of_decoded_canonical_aliases(items.drop_last(), tokens);
        lemma_encode_of_decoded_canonical_alias(items.last(), token_at(tokens, items.len() - 1));
        let before = listed_aliases(items.drop_last(), tokens);
        let alias = decode_alias_spec(items.last(), token_at(tokens, items.len() - 1))->Some_0;
        assert(encode_aliases_spec(before.push(alias)) =~= encode_aliases_spec(before).push(
            encode_alias_spec(alias),
        ));
    }
}

/// Writing back what was read: an entry of canonical shape is decoded to a
/// well-formed host whose canonical form is that entry.
pub proof fn lemma_encode_of_decode_canonical(domain: Seq<char>, v: JsonView, tokens: Seq<Seq<char>>)
    requires
        is_canonical_host(v),
    ensures
        decode_host_spec(domain, v, tokens) matches Some(host) && host.well_formed()
            && encode_host_spec(host) == v,
{
    lemma_host_keys_distinct();
    let m = v->Object_0;
    let items = m["aliases"@]->Array_0;
    lemma_encode_of_decoded_canonical_aliases(items, tokens);
    lemma_listed_aliases_retained(items, tokens);
    let host = decode_host_spec(domain, v, tokens)->Some_0;
    assert(encode_host_spec(host)->Object_0 =~= m);
}

/// Whatever is read has aliases with values: decoding gives well-formed
/// hosts.
pub proof fn lemma_listed_aliases_retained(items: Seq<JsonView>, tokens: Seq<Seq<char>>)
    ensures
        forall|i: int|
            0 <= i < listed_aliases(items, tokens).len() ==> (#[trigger] listed_aliases(
                items,
                tokens,
            )[i]).value.len() > 0,
    decreases items.len(),
{
    if items.len() > 0 {
        lemma_listed_aliases_retained(items.drop_last(), tokens);
        let before = listed_aliases(items.drop_last(), tokens);
        let listed = listed_aliases(items, tokens);
        match decode_alias_spec(items.last(), token_at(tokens, items.len() - 1)) {
            Some(alias) => {
                assert forall|i: int| 0 <= i < listed.len() implies (#[trigger] listed[i]).value.len()
                    > 0 by {
                    if i < before.len() {
                        assert(listed[i] == before[i]);
                    }
                }
            },
            None => {},
        }
    }
}

/// Decoding gives a well-formed host under the key it was asked for.
pub proof fn lemma_decoded_is_well_formed(domain: Seq<char>, v: JsonView, tokens: Seq<Seq<char>>)
    ensures
        decode_host_spec(domain, v, tokens) matches Some(host) ==> host.well_formed()
            && host.domain == domain,
{
    if let JsonView::Object(m) = v {
        lemma_listed_aliases_retained(items_member(m, "aliases"@), tokens);
    }
}

/// Writing what was read normalises: the canonical form of what any object
/// decodes to has the canonical shape, and reading it again gives the same
/// host. So one pass through the codec brings an entry of any accepted shape
/// to its canonical form, and further passes change nothing.
pub proof fn lemma_encode_of_decode_is_normal(
    domain: Seq<char>,
    v: JsonView,
    tokens: Seq<Seq<char>>,
    later_tokens: Seq<Seq<char>>,
)
    requires
        v is Object,
    ensures
        decode_host_spec(domain, v, tokens) matches Some(host) && is_canonical_host(
            encode_host_spec(host),
        ) && decode_host_spec(domain, encode_host_spec(host), later_tokens) == Some(host),
{
    lemma_decoded_is_well_formed(domain, v, tokens);
    let host = decode_host_spec(domain, v, tokens)->Some_0;
    lemma_encode_is_canonical(host);
    lemma_decode_of_encode(host, later_tokens);
}

/// Whatever an entry decodes to is stored under the key it was read from.
pub proof fn lemma_host_decodes_domain(domain: Seq<char>, v: JsonView, host: HostView)
    requires
        host_decodes(domain, v, Some(host)),
    ensures
        host.domain == domain,
        host.well_formed(),
        v is Object,
{
    let tokens = choose|tokens: Seq<Seq<char>>|
        tokens_fit(v, tokens) && Some(host) == #[trigger] decode_host_spec(domain, v, tokens);
    lemma_decoded_is_well_formed(domain, v, tokens);
}

/// The item that an alias of the decoded list comes from.
pub open spec fn alias_source(items: Seq<JsonView>, tokens: Seq<Seq<char>>, k: int) -> int
    decreases items.len(),
{
    if items.len() == 0 {
        -1
    } else if k < listed_aliases(items.drop_last(), tokens).len() {
        alias_source(items.drop_last(), tokens, k)
    } else {
        items.len() - 1
    }
}

/// Every alias of the decoded list comes from an item of the list that was
/// read, later aliases from later items; and where the decoded list is
/// empty no item is kept.
pub proof fn lemma_listed_aliases_sources(items: Seq<JsonView>, tokens: Seq<Seq<char>>)
    ensures
        forall|k: int|
            0 <= k < listed_aliases(items, tokens).len() ==> {
                &&& 0 <= #[trigger] alias_source(items, tokens, k) < items.len()
                &&& decode_alias_spec(
                    items[alias_source(items, tokens, k)],
                    token_at(tokens, alias_source(items, tokens, k)),
                ) == Some(listed_aliases(items, tokens)[k])
            },
        forall|k: int, l: int|
            0 <= k < l < listed_aliases(items, tokens).len() ==> #[trigger] alias_source(
                items,
                tokens,
                k,
            ) < #[trigger] alias_source(items, tokens, l),
        listed_aliases(items, tokens).len() == 0 ==> forall|i: int|
            0 <= i < items.len() ==> !alias_retained(#[trigger] items[i]),
    decreases items.len(),
{
    if items.len() > 0 {
        let front = items.drop_last();
        lemma_listed_aliases_sources(front, tokens);
        let before = listed_aliases(front, tokens);
        let listed = listed_aliases(items, tokens);
        assert forall|k: int| 0 <= k < listed.len() implies {
            &&& 0 <= #[trigger] alias_source(items, tokens, k) < items.len()
            &&& decode_alias_spec(
                items[alias_source(items, tokens, k)],
                token_at(tokens, alias_source(items, tokens, k)),
            ) == Some(listed[k])
        } by {
            if k < before.len() {
                let i = alias_source(front, tokens, k);
                assert(front[i] == items[i]);
                assert(listed[k] == before[k]);
            }
        }
        assert forall|k: int, l: int| 0 <= k < l < listed.len() implies #[trigger] alias_source(
            items,
            tokens,
            k,
        ) < #[trigger] alias_source(items, tokens, l) by {
            if l < before.len() {
                assert(alias_source(front, tokens, k) < alias_source(front, tokens, l));
            } else {
                assert(0 <= alias_source(front, tokens, k) < front.len());
            }
        }
        if listed.len() == 0 {
            assert forall|i: int| 0 <= i < items.len() implies !alias_retained(
                #[trigger] items[i],
            ) by {
                if i < front.len() {
                    assert(front[i] == items[i]);
                }
            }
        }
    }
}

/// Where the identifiers of what was read come from: every alias of a
/// decoded host has the identifier that its item brought along, or one made
/// from a fresh random token. An identifier made from a token is `alias_`
/// and 36 characters or more, no other alias of the host has it, and the
/// entry did not bring it along.
pub proof fn lemma_decoded_ids(domain: Seq<char>, v: JsonView, tokens: Seq<Seq<char>>)
    requires
        tokens_fit(v, tokens),
    ensures
        decode_host_spec(domain, v, tokens) matches Some(host) ==> forall|k: int|
            0 <= k < host.aliases.len() ==> #[trigger] id_in_order(v->Object_0, host.aliases, k),
{
    if let JsonView::Object(m) = v {
        let items = items_member(m, "aliases"@);
        let listed = listed_aliases(items, tokens);
        let host = decode_host_spec(domain, v, tokens)->Some_0;
        lemma_listed_aliases_sources(items, tokens);
        assert forall|k: int| 0 <= k < host.aliases.len() implies #[trigger] id_in_order(
            m,
            host.aliases,
            k,
        ) by {
            if listed.len() > 0 {
                let i = alias_source(items, tokens, k);
                assert(decode_alias_spec(items[i], token_at(tokens, i)) == Some(listed[k]));
                if alias_needs_token(items[i]) {
                    assert(slot_needs_token(v, i));
                    assert(tokens[i].len() >= 36);
                    assert(listed[k].id == fresh_id(tokens[i]));
                    assert(!is_own_id(m, fresh_id(tokens[i])));
                    assert forall|l: int| 0 <= l < listed.len() && l != k implies (
                    #[trigger] listed[l]).id != listed[k].id by {
                        let j = alias_source(items, tokens, l);
                        assert(decode_alias_spec(items[j], token_at(tokens, j)) == Some(listed[l]));
                        if l < k {
                            assert(alias_source(items, tokens, l) < alias_source(items, tokens, k));
                        } else {
                            assert(alias_source(items, tokens, k) < alias_source(items, tokens, l));
                        }
                        if alias_needs_token(items[j]) {
                            assert(slot_needs_token(v, j));
                            assert(listed[l].id == fresh_id(tokens[j]));
                            if i < j {
                                assert(fresh_id(tokens[i]) != fresh_id(tokens[j]));
                            } else {
                                assert(fresh_id(tokens[j]) != fresh_id(tokens[i]));
                            }
                        } else {
                            assert(items[j] is Object);
                            assert(text_member(items[j]->Object_0, "id"@) == Some(listed[l].id));
                            assert(is_own_id(m, listed[l].id));
                        }
                    }
                } else {
                    assert(items[i] is Object);
                    assert(text_member(items[i]->Object_0, "id"@) == Some(listed[k].id));
                    assert(is_own_id(m, listed[k].id));
                }
            } else {
                let slot = items.len() as int;
                assert(slot_needs_token(v, slot));
                assert(tokens[slot].len() >= 36);
                assert(host.aliases[k].id == fresh_id(tokens[slot]));
            }
        }
    }
}

/// Two aliases of a decoded host of which one got its identifier from a
/// random token have different identifiers.
pub proof fn lemma_generated_ids_differ(
    domain: Seq<char>,
    v: JsonView,
    tokens: Seq<Seq<char>>,
    first: int,
    second: int,
)
    requires
        tokens_fit(v, tokens),
        decode_host_spec(domain, v, tokens) is Some,
        0 <= first < decode_host_spec(domain, v, tokens)->Some_0.aliases.len(),
        0 <= second < decode_host_spec(domain, v, tokens)->Some_0.aliases.len(),
        first != second,
        !is_own_id(v->Object_0, decode_host_spec(domain, v, tokens)->Some_0.aliases[first].id),
    ensures
        decode_host_spec(domain, v, tokens)->Some_0.aliases[first].id != decode_host_spec(
            domain,
            v,
            tokens,
        )->Some_0.aliases[second].id,
{
    lemma_decoded_ids(domain, v, tokens);
    let aliases = decode_host_spec(domain, v, tokens)->Some_0.aliases;
    assert(id_in_order(v->Object_0, aliases, first));
}

/// An identifier made from a fresh random token is not empty: it has 42
/// characters or more and begins with `alias_`.
pub proof fn lemma_fresh_id_shape(id: Seq<char>)
    requires
        is_fresh_id(id),
    ensures
        id.len() >= 42,
        id.subrange(0, 6) == "alias_"@,
{
    reveal_strlit("alias_");
}

} // verus!
