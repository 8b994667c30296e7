//! The codec between host records and their JSON form.
//!
//! Reading is tolerant: a field that is absent or of the wrong type takes its
//! default, and two older shapes of the alias list are accepted. Writing
//! always produces the one canonical shape.

use crate::hosts::{AliasView, HostView, VirtualHost, VirtualHostAlias, view_aliases};
use crate::json::{
    bool_member, items_member, lemma_view_items, lemma_view_items_push, lemma_view_members_push,
    member, member_bool, member_text, text_member, view_items, view_members, JsonValue, JsonView,
};
use vstd::prelude::*;
use vstd::string::StringExecFns;

verus! {

/// The string under `key`, or `default` where there is none.
pub open spec fn text_or(m: Map<Seq<char>, JsonView>, key: Seq<char>, default: Seq<char>) -> Seq<
    char,
> {
    match text_member(m, key) {
        Some(s) => s,
        None => default,
    }
}

/// The boolean under `key`, or `default` where there is none.
pub open spec fn bool_or(m: Map<Seq<char>, JsonView>, key: Seq<char>, default: bool) -> bool {
    match bool_member(m, key) {
        Some(b) => b,
        None => default,
    }
}

/// The identifier made from a random token.
pub open spec fn fresh_id(token: Seq<char>) -> Seq<char> {
    "alias_"@ + token
}

/// The token of a slot; empty where the supply has no such slot.
pub open spec fn token_at(tokens: Seq<Seq<char>>, i: int) -> Seq<char> {
    if 0 <= i < tokens.len() {
        tokens[i]
    } else {
        Seq::empty()
    }
}

/// Whether an item of an alias list is kept: an object with a non-empty
/// string `value`, or a non-empty string.
pub open spec fn alias_retained(v: JsonView) -> bool {
    match v {
        JsonView::Object(m) => text_or(m, "value"@, Seq::empty()).len() > 0,
        JsonView::String(s) => s.len() > 0,
        _ => false,
    }
}

/// Whether an item that is kept comes without an identifier of its own.
pub open spec fn alias_needs_token(v: JsonView) -> bool {
    match v {
        JsonView::Object(m) => alias_retained(v) && text_member(m, "id"@) is None,
        JsonView::String(s) => s.len() > 0,
        _ => false,
    }
}

/// The alias that an item of an alias list stands for. `token` makes the
/// identifier where the item has none.
pub open spec fn decode_alias_spec(v: JsonView, token: Seq<char>) -> Option<AliasView> {
    match v {
        JsonView::Object(m) => {
            let value = text_or(m, "value"@, Seq::empty());
            if value.len() == 0 {
                None
            } else {
                Some(
                    AliasView {
                        id: text_or(m, "id"@, fresh_id(token)),
                        value: value,
                        active: bool_or(m, "active"@, true),
                    },
                )
            }
        },
        JsonView::String(s) => {
            if s.len() == 0 {
                None
            } else {
                Some(AliasView { id: fresh_id(token), value: s, active: true })
            }
        },
        _ => None,
    }
}

/// The aliases that the items of a list stand for, in order; item `i` draws
/// on slot `i` of the supply.
pub open spec fn listed_aliases(items: Seq<JsonView>, tokens: Seq<Seq<char>>) -> Seq<AliasView>
    decreases items.len(),
{
    if items.len() == 0 {
        Seq::empty()
    } else {
        let before = listed_aliases(items.drop_last(), tokens);
        match decode_alias_spec(items.last(), token_at(tokens, items.len() - 1)) {
            Some(alias) => before.push(alias),
            None => before,
        }
    }
}

/// The alias that the older single field `alias` stands for.
pub open spec fn legacy_alias(m: Map<Seq<char>, JsonView>, token: Seq<char>) -> Seq<AliasView> {
    match text_member(m, "alias"@) {
        Some(s) => {
            if s.len() > 0 {
                seq![AliasView { id: fresh_id(token), value: s, active: true }]
            } else {
                Seq::empty()
            }
        },
        None => Seq::empty(),
    }
}

/// The aliases of a host object. The single field `alias` is consulted only
/// where the list `aliases` yields nothing; it draws on the slot after those
/// of the list.
pub open spec fn decode_aliases_spec(m: Map<Seq<char>, JsonView>, tokens: Seq<Seq<char>>) -> Seq<
    AliasView,
> {
    let items = items_member(m, "aliases"@);
    let listed = listed_aliases(items, tokens);
    if listed.len() > 0 {
        listed
    } else {
        legacy_alias(m, token_at(tokens, items.len() as int))
    }
}

/// The host that the entry under `domain` stands for; `None` where the entry
/// is no object.
pub open spec fn decode_host_spec(domain: Seq<char>, v: JsonView, tokens: Seq<Seq<char>>) -> Option<
    HostView,
> {
    match v {
        JsonView::Object(m) => Some(
            HostView {
                domain: domain,
                docroot: text_or(m, "docroot"@, Seq::empty()),
                aliases: decode_aliases_spec(m, tokens),
                group: text_or(m, "group"@, "Uncategorized"@),
                active: bool_or(m, "active"@, true),
                ssl: bool_or(m, "ssl"@, true),
                host_type: text_or(m, "type"@, "static"@),
            },
        ),
        _ => None,
    }
}

/// The texts of a list of strings.
pub open spec fn view_texts(texts: Seq<String>) -> Seq<Seq<char>> {
    Seq::new(texts.len(), |i: int| texts[i]@)
}

/// The string under `key` as an owned text, or `default`.
fn owned_text_or(members: &Vec<(String, JsonValue)>, key: &str, default: &str) -> (text: String)
    ensures
        text@ == text_or(view_members(members@), key@, default@),
{
    match member_text(members, key) {
        Some(s) => s.clone(),
        None => default.to_owned(),
    }
}

/// The boolean under `key`, or `default`.
fn flag_or(members: &Vec<(String, JsonValue)>, key: &str, default: bool) -> (flag: bool)
    ensures
        flag == bool_or(view_members(members@), key@, default),
{
    match member_bool(members, key) {
        Some(b) => b,
        None => default,
    }
}

/// Makes an identifier from a random token.
fn make_fresh_id(token: &str) -> (id: String)
    ensures
        id@ == fresh_id(token@),
{
    "alias_".to_owned().concat(token)
}

/// Whether an item of an alias list is kept.
pub fn is_alias_retained(v: &JsonValue) -> (kept: bool)
    ensures
        kept == alias_retained(v@),
{
    match v {
        JsonValue::Object(members) => {
            match member_text(members, "value") {
                Some(s) => !s.as_str().is_empty(),
                None => false,
            }
        },
        JsonValue::String(s) => !s.as_str().is_empty(),
        _ => false,
    }
}

/// Whether an item of an alias list is kept and has no identifier of its own.
pub fn does_alias_need_token(v: &JsonValue) -> (needs: bool)
    ensures
        needs == alias_needs_token(v@),
{
    match v {
        JsonValue::Object(members) => {
            is_alias_retained(v) && member_text(members, "id").is_none()
        },
        JsonValue::String(s) => !s.as_str().is_empty(),
        _ => false,
    }
}

/// Decodes one item of an alias list; `token` makes the identifier where the
/// item has none.
pub fn decode_alias(v: &JsonValue, token: &str) -> (alias: Option<VirtualHostAlias>)
    ensures
        match alias {
            Some(a) => decode_alias_spec(v@, token@) == Some(a@),
            None => decode_alias_spec(v@, token@) is None,
        },
{
    match v {
        JsonValue::Object(members) => {
            let value = owned_text_or(members, "value", "");
            proof {
                reveal_strlit("");
            }
            if value.as_str().is_empty() {
                None
            } else {
                let id = match member_text(members, "id") {
                    Some(s) => s.clone(),
                    None => make_fresh_id(token),
                };
                let active = flag_or(members, "active", true);
                Some(VirtualHostAlias { id, value, active })
            }
        },
        JsonValue::String(s) => {
            if s.as_str().is_empty() {
                None
            } else {
                Some(VirtualHostAlias { id: make_fresh_id(token), value: s.clone(), active: true })
            }
        },
        _ => None,
    }
}

/// One more item of a list adds at most its own alias.
pub proof fn lemma_listed_aliases_step(items: Seq<JsonView>, tokens: Seq<Seq<char>>, i: int)
    requires
        0 <= i < items.len(),
    ensures
        listed_aliases(items.take(i + 1), tokens) == match decode_alias_spec(
            items[i],
            token_at(tokens, i),
        ) {
            Some(alias) => listed_aliases(items.take(i), tokens).push(alias),
            None => listed_aliases(items.take(i), tokens),
        },
{
    assert(items.take(i + 1).drop_last() =~= items.take(i));
}

/// The slot of a supply as a text; empty where the supply has no such slot.
fn token_of(tokens: &Vec<String>, i: usize) -> (token: &str)
    ensures
        token@ == token_at(view_texts(tokens@), i as int),
{
    if i < tokens.len() {
        tokens[i].as_str()
    } else {
        proof {
            reveal_strlit("");
        }
        ""
    }
}

/// Decodes the items of an alias list in order, dropping those that are not
/// kept.
pub fn decode_listed_aliases(items: &Vec<JsonValue>, tokens: &Vec<String>) -> (aliases: Vec<
    VirtualHostAlias,
>)
    ensures
        view_aliases(aliases@) == listed_aliases(view_items(items@), view_texts(tokens@)),
{
    let mut aliases: Vec<VirtualHostAlias> = Vec::new();
    let mut i: usize = 0;
    proof {
        lemma_view_items(items@);
    }
    while i < items.len()
        invariant
            i <= items.len(),
            view_items(items@).len() == items.len(),
            forall|j: int| 0 <= j < items.len() ==> #[trigger] view_items(items@)[j] == items@[j]@,
            view_aliases(aliases@) == listed_aliases(
                view_items(items@).take(i as int),
                view_texts(tokens@),
            ),
        decreases items.len() - i,
    {
        proof {
            lemma_listed_aliases_step(view_items(items@), view_texts(tokens@), i as int);
        }
        match decode_alias(&items[i], token_of(tokens, i)) {
            Some(alias) => {
                aliases.push(alias);
            },
            None => {},
        }
        i += 1;
    }
    assert(view_items(items@).take(i as int) =~= view_items(items@));
    aliases
}

/// Decodes the aliases of a host object from its members.
fn decode_aliases(members: &Vec<(String, JsonValue)>, tokens: &Vec<String>) -> (aliases: Vec<
    VirtualHostAlias,
>)
    ensures
        view_aliases(aliases@) == decode_aliases_spec(view_members(members@), view_texts(tokens@)),
{
    let mut aliases: Vec<VirtualHostAlias> = Vec::new();
    let mut slots: usize = 0;
    match member(members, "aliases") {
        Some(list) => {
            match list.as_array() {
                Some(items) => {
                    proof {
                        lemma_view_items(items@);
                    }
                    aliases = decode_listed_aliases(items, tokens);
                    slots = items.len();
                },
                None => {},
            }
        },
        None => {},
    }
    if aliases.len() == 0 {
        match member_text(members, "alias") {
            Some(s) => {
                if !s.as_str().is_empty() {
                    let alias = VirtualHostAlias {
                        id: make_fresh_id(token_of(tokens, slots)),
                        value: s.clone(),
                        active: true,
                    };
                    aliases.push(alias);
                }
            },
            None => {},
        }
    }
    aliases
}

/// Decodes the entry stored under `domain`, with the random tokens handed in:
/// item `i` of the list `aliases` takes its identifier, where it has none,
/// from `tokens[i]`, and the single field `alias` from the slot after the
/// list. A slot that the supply lacks counts as empty.
pub fn decode_host_with(domain: &str, entry: &JsonValue, tokens: &Vec<String>) -> (host: Option<
    VirtualHost,
>)
    ensures
        match host {
            Some(h) => decode_host_spec(domain@, entry@, view_texts(tokens@)) == Some(h@),
            None => decode_host_spec(domain@, entry@, view_texts(tokens@)) is None,
        },
{
    match entry.as_object() {
        Some(members) => {
            proof {
                reveal_strlit("");
                assert(""@ =~= Seq::<char>::empty());
            }
            let host = VirtualHost {
                domain: domain.to_owned(),
                docroot: owned_text_or(members, "docroot", ""),
                aliases: decode_aliases(members, tokens),
                group: owned_text_or(members, "group", "Uncategorized"),
                active: flag_or(members, "active", true),
                ssl: flag_or(members, "ssl", true),
                host_type: owned_text_or(members, "type", "static"),
            };
            Some(host)
        },
        None => None,
    }
}

/// The number of slots that the entry draws on: one for each item of its
/// list `aliases` and one for its single field `alias`.
pub open spec fn token_slots(v: JsonView) -> nat {
    match v {
        JsonView::Object(m) => items_member(m, "aliases"@).len() + 1,
        _ => 0,
    }
}

/// Whether decoding the entry takes an identifier from slot `i`.
pub open spec fn slot_needs_token(v: JsonView, i: int) -> bool {
    match v {
        JsonView::Object(m) => {
            let items = items_member(m, "aliases"@);
            if 0 <= i < items.len() {
                alias_needs_token(items[i])
            } else {
                &&& i == items.len()
                &&& forall|j: int| 0 <= j < items.len() ==> !alias_retained(#[trigger] items[j])
                &&& text_or(m, "alias"@, Seq::empty()).len() > 0
            }
        },
        _ => false,
    }
}

/// An identifier that an item of the list `aliases` of an object brings
/// along.
pub open spec fn is_own_id(m: Map<Seq<char>, JsonView>, id: Seq<char>) -> bool {
    exists|i: int|
        {
            &&& 0 <= i < items_member(m, "aliases"@).len()
            &&& (#[trigger] items_member(m, "aliases"@)[i]) is Object
            &&& text_member(items_member(m, "aliases"@)[i]->Object_0, "id"@) == Some(id)
        }
}

/// A supply of random tokens that serves the entry: it has the entry's slots,
/// and in each slot that decoding draws on a token of 36 characters or more.
/// The identifiers made from these tokens differ from one another and from
/// every identifier that the entry brings along.
pub open spec fn tokens_fit(v: JsonView, tokens: Seq<Seq<char>>) -> bool {
    &&& tokens.len() == token_slots(v)
    &&& forall|i: int|
        0 <= i < tokens.len() && slot_needs_token(v, i) ==> (#[trigger] tokens[i]).len() >= 36
    &&& forall|i: int, j: int|
        0 <= i < j < tokens.len() && slot_needs_token(v, i) && slot_needs_token(v, j) ==> fresh_id(
            #[trigger] tokens[i],
        ) != fresh_id(#[trigger] tokens[j])
    &&& forall|i: int|
        0 <= i < tokens.len() && slot_needs_token(v, i) ==> !is_own_id(
            v->Object_0,
            fresh_id(#[trigger] tokens[i]),
        )
}

/// What decoding an entry may give: the host that `decode_host_spec` names
/// for some supply of random tokens that serves the entry.
pub open spec fn host_decodes(domain: Seq<char>, v: JsonView, host: Option<HostView>) -> bool {
    exists|tokens: Seq<Seq<char>>|
        tokens_fit(v, tokens) && host == #[trigger] decode_host_spec(domain, v, tokens)
}

/// An identifier that decoding made from a random token: `alias_` followed
/// by the token, which has 36 characters or more.
pub open spec fn is_fresh_id(id: Seq<char>) -> bool {
    exists|token: Seq<char>| token.len() >= 36 && id == #[trigger] fresh_id(token)
}

/// Whether the identifier of an alias of a decoded host is in order: it is
/// one that the entry brought along, or it was made from a random token and
/// then no other alias of the host has it.
pub open spec fn id_in_order(m: Map<Seq<char>, JsonView>, aliases: Seq<AliasView>, k: int) -> bool {
    ||| is_own_id(m, aliases[k].id)
    ||| is_fresh_id(aliases[k].id) && forall|l: int|
        0 <= l < aliases.len() && l != k ==> (#[trigger] aliases[l]).id != aliases[k].id
}

/// The model of what decoding gave.
pub open spec fn view_decoded(host: Option<VirtualHost>) -> Option<HostView> {
    match host {
        Some(h) => Some(h@),
        None => None,
    }
}

/// Draws a random version-4 identifier with `uuid::Uuid::new_v4` and writes
/// it with its `Display`, which is the hyphenated form: 36 characters.
#[verifier::external_body]
fn random_token() -> (token: String)
    ensures
        token@.len() == 36,
{
    uuid::Uuid::new_v4().to_string()
}

/// Whether an identifier is among those of a list.
pub open spec fn holds_id(taken: Seq<Seq<char>>, id: Seq<char>) -> bool {
    exists|i: int| 0 <= i < taken.len() && #[trigger] taken[i] == id
}

/// The length of the longest identifier of a list.
pub open spec fn longest(taken: Seq<Seq<char>>) -> nat
    decreases taken.len(),
{
    if taken.len() == 0 {
        0
    } else if taken.last().len() > longest(taken.drop_last()) {
        taken.last().len()
    } else {
        longest(taken.drop_last())
    }
}

/// No identifier of a list is longer than the longest.
proof fn lemma_longest(taken: Seq<Seq<char>>, i: int)
    requires
        0 <= i < taken.len(),
    ensures
        taken[i].len() <= longest(taken),
    decreases taken.len(),
{
    if i < taken.len() - 1 {
        lemma_longest(taken.drop_last(), i);
    }
}

/// Whether the list holds the identifier that an item brings along, if it
/// brings one.
pub open spec fn own_id_taken(item: JsonView, taken: Seq<Seq<char>>) -> bool {
    item matches JsonView::Object(fields) ==> (text_member(fields, "id"@) matches Some(id)
        ==> holds_id(taken, id))
}

/// Whether the list holds every identifier that the items bring along.
pub open spec fn own_ids_taken(items: Seq<JsonView>, taken: Seq<Seq<char>>) -> bool {
    forall|j: int| 0 <= j < items.len() ==> own_id_taken(#[trigger] items[j], taken)
}

/// A list that grows holds what it held.
proof fn lemma_taken_grows(items: Seq<JsonView>, taken: Seq<Seq<char>>, id: Seq<char>)
    ensures
        forall|other: Seq<char>| holds_id(taken, other) ==> holds_id(taken.push(id), other),
        holds_id(taken.push(id), id),
        own_ids_taken(items, taken) ==> own_ids_taken(items, taken.push(id)),
{
    let grown = taken.push(id);
    assert forall|other: Seq<char>| holds_id(taken, other) implies holds_id(grown, other) by {
        let i = choose|i: int| 0 <= i < taken.len() && #[trigger] taken[i] == other;
        assert(grown[i] == other);
    }
    assert(grown[taken.len() as int] == id);
}

/// An identifier that a list does not hold, while the list holds every
/// identifier that the entry brings along, is none of the entry's own.
proof fn lemma_not_taken_not_own(m: Map<Seq<char>, JsonView>, taken: Seq<Seq<char>>, id: Seq<char>)
    requires
        own_ids_taken(items_member(m, "aliases"@), taken),
        !holds_id(taken, id),
    ensures
        !is_own_id(m, id),
{
    if is_own_id(m, id) {
        let i = choose|i: int|
            {
                &&& 0 <= i < items_member(m, "aliases"@).len()
                &&& (#[trigger] items_member(m, "aliases"@)[i]) is Object
                &&& text_member(items_member(m, "aliases"@)[i]->Object_0, "id"@) == Some(id)
            };
        assert(own_id_taken(items_member(m, "aliases"@)[i], taken));
    }
}

/// Whether an identifier is among those taken.
fn is_taken(taken: &Vec<String>, id: &str) -> (found: bool)
    ensures
        found == holds_id(view_texts(taken@), id@),
{
    let mut i: usize = 0;
    while i < taken.len()
        invariant
            i <= taken.len(),
            forall|j: int| 0 <= j < i ==> (#[trigger] taken@[j])@ != id@,
        decreases taken.len() - i,
    {
        if crate::text::same_text(taken[i].as_str(), id) {
            assert(view_texts(taken@)[i as int] == id@);
            return true;
        }
        i += 1;
    }
    proof {
        if holds_id(view_texts(taken@), id@) {
            let k = choose|k: int|
                0 <= k < view_texts(taken@).len() && #[trigger] view_texts(taken@)[k] == id@;
            assert(taken@[k]@ == id@);
        }
    }
    false
}

/// Draws a random token whose identifier is not taken. Should the
/// identifier of what was drawn be taken, the token is made longer until it
/// is not.
fn draw_token(taken: &Vec<String>) -> (token: String)
    ensures
        token@.len() >= 36,
        !holds_id(view_texts(taken@), fresh_id(token@)),
{
    let mut token = random_token();
    let mut id = make_fresh_id(token.as_str());
    while is_taken(taken, id.as_str())
        invariant
            id@ == fresh_id(token@),
            token@.len() >= 36,
        decreases longest(view_texts(taken@)) + 1 - id@.len(),
    {
        proof {
            let held = view_texts(taken@);
            let i = choose|i: int| 0 <= i < held.len() && #[trigger] held[i] == id@;
            lemma_longest(held, i);
            reveal_strlit("0");
        }
        token.append("0");
        id.append("0");
        assert(id@ =~= fresh_id(token@));
    }
    token
}

/// The identifiers that the items of an alias list bring along.
fn own_ids(items: &Vec<JsonValue>) -> (taken: Vec<String>)
    ensures
        own_ids_taken(view_items(items@), view_texts(taken@)),
{
    let mut taken: Vec<String> = Vec::new();
    let mut i: usize = 0;
    proof {
        lemma_view_items(items@);
    }
    while i < items.len()
        invariant
            i <= items.len(),
            view_items(items@).len() == items.len(),
            forall|j: int| 0 <= j < items.len() ==> #[trigger] view_items(items@)[j] == items@[j]@,
            own_ids_taken(view_items(items@).take(i as int), view_texts(taken@)),
        decreases items.len() - i,
    {
        let ghost source = view_items(items@);
        let ghost held = view_texts(taken@);
        match &items[i] {
            JsonValue::Object(fields) => {
                match member_text(fields, "id") {
                    Some(id) => {
                        taken.push(id.clone());
                        proof {
                            assert(view_texts(taken@) =~= held.push(id@));
                            lemma_taken_grows(source.take(i as int), held, id@);
                        }
                    },
                    None => {},
                }
            },
            _ => {},
        }
        proof {
            let grown = view_texts(taken@);
            assert forall|j: int| 0 <= j < source.take(i + 1).len() implies own_id_taken(
                #[trigger] source.take(i + 1)[j],
                grown,
            ) by {
                if j < i {
                    assert(source.take(i + 1)[j] == source.take(i as int)[j]);
                }
            }
        }
        i += 1;
    }
    assert(view_items(items@).take(i as int) =~= view_items(items@));
    taken
}

/// Draws the random tokens that decoding the entry takes: one for each slot
/// that needs one, and an empty text for every other slot. No identifier
/// made from them is one that the entry brings along or one made before.
fn draw_tokens(entry: &JsonValue) -> (tokens: Vec<String>)
    ensures
        tokens_fit(entry@, view_texts(tokens@)),
{
    let mut tokens: Vec<String> = Vec::new();
    match entry.as_object() {
        Some(members) => {
            let ghost m = view_members(members@);
            let ghost source = items_member(m, "aliases"@);
            let mut none_kept = true;
            let mut taken: Vec<String> = Vec::new();
            match member(members, "aliases") {
                Some(list) => {
                    match list.as_array() {
                        Some(items) => {
                            proof {
                                lemma_view_items(items@);
                            }
                            taken = own_ids(items);
                            let mut i: usize = 0;
                            while i < items.len()
                                invariant
                                    i <= items.len(),
                                    tokens@.len() == i,
                                    source == items_member(m, "aliases"@),
                                    source == view_items(items@),
                                    source.len() == items.len(),
                                    forall|j: int|
                                        0 <= j < items.len() ==> #[trigger] source[j] == items@[j]@,
                                    own_ids_taken(source, view_texts(taken@)),
                                    forall|j: int|
                                        0 <= j < i && alias_needs_token(source[j]) ==> {
                                            &&& (#[trigger] tokens@[j])@.len() >= 36
                                            &&& holds_id(view_texts(taken@), fresh_id(tokens@[j]@))
                                            &&& !is_own_id(m, fresh_id(tokens@[j]@))
                                        },
                                    forall|a: int, b: int|
                                        0 <= a < b < i && alias_needs_token(source[a])
                                            && alias_needs_token(source[b]) ==> fresh_id(
                                            (#[trigger] tokens@[a])@,
                                        ) != fresh_id((#[trigger] tokens@[b])@),
                                    none_kept == forall|j: int|
                                        0 <= j < i ==> !alias_retained(#[trigger] source[j]),
                                decreases items.len() - i,
                            {
                                if is_alias_retained(&items[i]) {
                                    none_kept = false;
                                    assert(alias_retained(source[i as int]));
                                }
                                if does_alias_need_token(&items[i]) {
                                    let ghost held = view_texts(taken@);
                                    let token = draw_token(&taken);
                                    let id = make_fresh_id(token.as_str());
                                    proof {
                                        lemma_not_taken_not_own(m, held, id@);
                                        lemma_taken_grows(source, held, id@);
                                    }
                                    taken.push(id);
                                    assert(view_texts(taken@) =~= held.push(fresh_id(token@)));
                                    tokens.push(token);
                                } else {
                                    tokens.push(String::new());
                                }
                                i += 1;
                            }
                        },
                        None => {},
                    }
                },
                None => {},
            }
            let legacy = match member_text(members, "alias") {
                Some(s) => !s.as_str().is_empty(),
                None => false,
            };
            if none_kept && legacy {
                let token = draw_token(&taken);
                proof {
                    lemma_not_taken_not_own(m, view_texts(taken@), fresh_id(token@));
                }
                tokens.push(token);
            } else {
                tokens.push(String::new());
            }
        },
        None => {},
    }
    tokens
}

/// Decodes the entry stored under `domain`. An entry that is no object is
/// skipped: the result is `None`. Every other entry gives a host, with a
/// default for each field that is absent or of the wrong type. An alias that
/// comes without an identifier gets one made from a fresh random token, which
/// no other alias of the host has and which the entry did not bring along;
/// every other alias keeps the identifier that its item brought along.
pub fn decode_host(domain: &str, entry: &JsonValue) -> (host: Option<VirtualHost>)
    ensures
        host is Some <==> entry@ is Object,
        host_decodes(domain@, entry@, view_decoded(host)),
        host matches Some(h) ==> forall|k: int|
            0 <= k < h@.aliases.len() ==> #[trigger] id_in_order(entry@->Object_0, h@.aliases, k),
{
    let tokens = draw_tokens(entry);
    let host = decode_host_with(domain, entry, &tokens);
    proof {
        crate::codec_laws::lemma_decoded_ids(domain@, entry@, view_texts(tokens@));
        if host is Some {
            let found = host->Some_0@;
            let named = decode_host_spec(domain@, entry@, view_texts(tokens@))->Some_0;
            assert(named == found);
        }
    }
    host
}

/// The canonical JSON form of an alias.
pub open spec fn encode_alias_spec(alias: AliasView) -> JsonView {
    JsonView::Object(
        Map::empty().insert("id"@, JsonView::String(alias.id)).insert(
            "value"@,
            JsonView::String(alias.value),
        ).insert("active"@, JsonView::Bool(alias.active)),
    )
}

/// The canonical JSON forms of the aliases of a list, in order.
pub open spec fn encode_aliases_spec(aliases: Seq<AliasView>) -> Seq<JsonView> {
    Seq::new(aliases.len(), |i: int| encode_alias_spec(aliases[i]))
}

/// The canonical JSON form of a host: an object of six members. The domain is
/// not among them; it is the key under which the object is stored.
pub open spec fn encode_host_spec(host: HostView) -> JsonView {
    JsonView::Object(
        Map::empty().insert("docroot"@, JsonView::String(host.docroot)).insert(
            "aliases"@,
            JsonView::Array(encode_aliases_spec(host.aliases)),
        ).insert("group"@, JsonView::String(host.group)).insert(
            "active"@,
            JsonView::Bool(host.active),
        ).insert("ssl"@, JsonView::Bool(host.ssl)).insert("type"@, JsonView::String(host.host_type)),
    )
}

/// Adds a member to the members of an object under construction.
fn push_member(members: &mut Vec<(String, JsonValue)>, key: &str, value: JsonValue)
    ensures
        view_members(final(members)@) == view_members(old(members)@).insert(key@, value@),
{
    let owned = key.to_owned();
    proof {
        lemma_view_members_push(members@, owned, value);
    }
    members.push((owned, value));
}

/// Encodes an alias in its canonical form.
pub fn encode_alias(alias: &VirtualHostAlias) -> (doc: JsonValue)
    ensures
        doc@ == encode_alias_spec(alias@),
{
    let mut members: Vec<(String, JsonValue)> = Vec::new();
    push_member(&mut members, "id", JsonValue::String(alias.id.clone()));
    push_member(&mut members, "value", JsonValue::String(alias.value.clone()));
    push_member(&mut members, "active", JsonValue::Bool(alias.active));
    JsonValue::Object(members)
}

/// Encodes a host in its canonical form, whatever shape it was read from.
pub fn encode_host(host: &VirtualHost) -> (doc: JsonValue)
    ensures
        doc@ == encode_host_spec(host@),
{
    let mut items: Vec<JsonValue> = Vec::new();
    let mut i: usize = 0;
    while i < host.aliases.len()
        invariant
            i <= host.aliases.len(),
            view_items(items@).len() == i,
            forall|j: int|
                0 <= j < i ==> #[trigger] view_items(items@)[j] == encode_alias_spec(
                    host.aliases@[j]@,
                ),
        decreases host.aliases.len() - i,
    {
        let item = encode_alias(&host.aliases[i]);
        proof {
            lemma_view_items_push(items@, item);
        }
        items.push(item);
        i += 1;
    }
    assert(view_items(items@) =~= encode_aliases_spec(host@.aliases));
    let mut members: Vec<(String, JsonValue)> = Vec::new();
    push_member(&mut members, "docroot", JsonValue::String(host.docroot.clone()));
    push_member(&mut members, "aliases", JsonValue::Array(items));
    push_member(&mut members, "group", JsonValue::String(host.group.clone()));
    push_member(&mut members, "active", JsonValue::Bool(host.active));
    push_member(&mut members, "ssl", JsonValue::Bool(host.ssl));
    push_member(&mut members, "type", JsonValue::String(host.host_type.clone()));
    JsonValue::Object(members)
}

} // verus!
