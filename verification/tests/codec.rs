use localhost_manager::codec::{
    decode_alias, decode_host, decode_host_with, decode_listed_aliases, does_alias_need_token,
    encode_alias, encode_host, is_alias_retained,
};
use localhost_manager::hosts::{VirtualHost, VirtualHostAlias};
use localhost_manager::json::{member, parse_document, JsonValue};

fn text(s: &str) -> JsonValue {
    JsonValue::String(s.to_string())
}

fn object(members: Vec<(&str, JsonValue)>) -> JsonValue {
    JsonValue::Object(members.into_iter().map(|(k, v)| (k.to_string(), v)).collect())
}

fn sample_host() -> VirtualHost {
    VirtualHost {
        domain: "shop.test".to_string(),
        docroot: "/srv/shop".to_string(),
        aliases: vec![
            VirtualHostAlias { id: "a1".to_string(), value: "www.shop.test".to_string(), active: true },
            VirtualHostAlias { id: "".to_string(), value: "old.shop.test".to_string(), active: false },
        ],
        group: "Clients".to_string(),
        active: false,
        ssl: false,
        host_type: "proxy".to_string(),
    }
}

#[test]
fn decode_of_encode_gives_the_host_back() {
    let host = sample_host();
    let doc = encode_host(&host);
    let back = decode_host("shop.test", &doc).unwrap();
    assert_eq!(back, host);
}

#[test]
fn encode_has_the_canonical_members_and_no_domain() {
    let doc = encode_host(&sample_host());
    let members = match &doc {
        JsonValue::Object(members) => members,
        _ => panic!("an object was expected"),
    };
    let keys: Vec<&str> = members.iter().map(|(k, _)| k.as_str()).collect();
    assert_eq!(keys, vec!["docroot", "aliases", "group", "active", "ssl", "type"]);
    assert_eq!(member(members, "docroot"), Some(&text("/srv/shop")));
    assert_eq!(member(members, "group"), Some(&text("Clients")));
    assert_eq!(member(members, "active"), Some(&JsonValue::Bool(false)));
    assert_eq!(member(members, "ssl"), Some(&JsonValue::Bool(false)));
    assert_eq!(member(members, "type"), Some(&text("proxy")));
    assert_eq!(member(members, "domain"), None);
    assert_eq!(member(members, "alias"), None);
    let aliases = member(members, "aliases").unwrap();
    let expected = JsonValue::Array(vec![
        object(vec![
            ("id", text("a1")),
            ("value", text("www.shop.test")),
            ("active", JsonValue::Bool(true)),
        ]),
        object(vec![
            ("id", text("")),
            ("value", text("old.shop.test")),
            ("active", JsonValue::Bool(false)),
        ]),
    ]);
    assert_eq!(aliases, &expected);
}

#[test]
fn encode_of_decode_leaves_a_canonical_entry_unchanged() {
    let canonical = encode_host(&sample_host());
    let host = decode_host("shop.test", &canonical).unwrap();
    assert_eq!(encode_host(&host), canonical);
}

#[test]
fn encode_of_decode_normalises_legacy_shapes() {
    let legacy = object(vec![
        ("docroot", text("/srv/a")),
        ("aliases", JsonValue::Array(vec![text("one.test"), text("two.test")])),
    ]);
    let host = decode_host("a.test", &legacy).unwrap();
    let normal = encode_host(&host);
    let again = decode_host("a.test", &normal).unwrap();
    assert_eq!(again, host);
    assert_eq!(encode_host(&again), normal);
    assert_eq!(host.aliases.len(), 2);
    assert_eq!(host.aliases[0].value, "one.test");
    assert_eq!(host.aliases[1].value, "two.test");
    assert!(host.aliases.iter().all(|a| a.active));
}

#[test]
fn tolerant_decode_substitutes_defaults_on_wrong_types() {
    let doc = parse_document(r#"{"a.test": {"group": 5, "active": "yes"}}"#).unwrap();
    let members = doc.as_object().unwrap();
    let entry = member(members, "a.test").unwrap();
    let host = decode_host("a.test", entry).unwrap();
    assert_eq!(host.domain, "a.test");
    assert_eq!(host.group, "Uncategorized");
    assert!(host.active);
    assert_eq!(host.docroot, "");
    assert!(host.ssl);
    assert_eq!(host.host_type, "static");
    assert!(host.aliases.is_empty());
}

#[test]
fn legacy_alias_field_becomes_one_alias_with_a_fresh_id() {
    let doc = parse_document(r#"{"a.test": {"alias": "old.test"}}"#).unwrap();
    let entry = member(doc.as_object().unwrap(), "a.test").unwrap();
    let host = decode_host("a.test", entry).unwrap();
    assert_eq!(host.aliases.len(), 1);
    let alias = &host.aliases[0];
    assert_eq!(alias.value, "old.test");
    assert!(alias.active);
    assert!(!alias.id.is_empty());
    assert!(alias.id.starts_with("alias_"));
    assert_eq!(alias.id.chars().count(), 42);
    let written = encode_host(&host);
    let members = written.as_object().unwrap();
    assert_eq!(member(members, "alias"), None);
    let expected = JsonValue::Array(vec![object(vec![
        ("id", text(&alias.id)),
        ("value", text("old.test")),
        ("active", JsonValue::Bool(true)),
    ])]);
    assert_eq!(member(members, "aliases"), Some(&expected));
}

#[test]
fn fresh_ids_differ_from_one_another() {
    let legacy = object(vec![("aliases", JsonValue::Array(vec![text("one.test"), text("two.test")]))]);
    let host = decode_host("a.test", &legacy).unwrap();
    assert_ne!(host.aliases[0].id, host.aliases[1].id);
    let again = decode_host("a.test", &legacy).unwrap();
    assert_ne!(host.aliases[0].id, again.aliases[0].id);
}

#[test]
fn legacy_alias_field_is_ignored_when_the_list_yields_aliases() {
    let entry = object(vec![
        ("alias", text("old.test")),
        ("aliases", JsonValue::Array(vec![object(vec![("id", text("k")), ("value", text("new.test"))])])),
    ]);
    let host = decode_host("a.test", &entry).unwrap();
    assert_eq!(
        host.aliases,
        vec![VirtualHostAlias { id: "k".to_string(), value: "new.test".to_string(), active: true }]
    );
}

#[test]
fn legacy_alias_field_is_consulted_when_the_list_yields_nothing() {
    let entry = object(vec![
        ("aliases", JsonValue::Array(vec![object(vec![("id", text("k")), ("value", text(""))]), JsonValue::Null])),
        ("alias", text("old.test")),
    ]);
    let tokens = vec![String::new(), String::new(), "t".to_string()];
    let host = decode_host_with("a.test", &entry, &tokens).unwrap();
    assert_eq!(
        host.aliases,
        vec![VirtualHostAlias { id: "alias_t".to_string(), value: "old.test".to_string(), active: true }]
    );
}

#[test]
fn empty_legacy_alias_field_gives_no_alias() {
    let entry = object(vec![("alias", text(""))]);
    let host = decode_host("a.test", &entry).unwrap();
    assert!(host.aliases.is_empty());
}

#[test]
fn decode_with_tokens_is_exact() {
    let entry = object(vec![
        ("docroot", text("/d")),
        ("type", text("proxy")),
        ("ssl", JsonValue::Bool(false)),
        (
            "aliases",
            JsonValue::Array(vec![
                text("first.test"),
                object(vec![("value", text("second.test")), ("active", JsonValue::Bool(false))]),
                object(vec![("id", text("own")), ("value", text("third.test"))]),
                JsonValue::Bool(true),
                text(""),
            ]),
        ),
    ]);
    let tokens: Vec<String> = vec!["t0".into(), "t1".into(), "t2".into(), "t3".into(), "t4".into(), "t5".into()];
    let host = decode_host_with("d.test", &entry, &tokens).unwrap();
    let expected = VirtualHost {
        domain: "d.test".to_string(),
        docroot: "/d".to_string(),
        aliases: vec![
            VirtualHostAlias { id: "alias_t0".into(), value: "first.test".into(), active: true },
            VirtualHostAlias { id: "alias_t1".into(), value: "second.test".into(), active: false },
            VirtualHostAlias { id: "own".into(), value: "third.test".into(), active: true },
        ],
        group: "Uncategorized".to_string(),
        active: true,
        ssl: false,
        host_type: "proxy".to_string(),
    };
    assert_eq!(host, expected);
}

#[test]
fn decode_with_a_short_supply_takes_empty_tokens() {
    let entry = object(vec![("aliases", JsonValue::Array(vec![text("first.test")]))]);
    let host = decode_host_with("d.test", &entry, &Vec::new()).unwrap();
    assert_eq!(host.aliases[0].id, "alias_");
}

#[test]
fn an_entry_that_is_no_object_is_skipped() {
    assert_eq!(decode_host("bad.test", &text("not-an-object")), None);
    assert_eq!(decode_host("bad.test", &JsonValue::Null), None);
    assert_eq!(decode_host("bad.test", &JsonValue::Array(Vec::new())), None);
    assert_eq!(decode_host_with("bad.test", &JsonValue::Bool(true), &Vec::new()), None);
}

#[test]
fn aliases_without_a_value_are_dropped() {
    let items = vec![
        object(vec![("id", text("x"))]),
        object(vec![("id", text("y")), ("value", JsonValue::Bool(true))]),
        object(vec![("id", text("z")), ("value", text("kept.test"))]),
    ];
    let aliases = decode_listed_aliases(&items, &Vec::new());
    assert_eq!(
        aliases,
        vec![VirtualHostAlias { id: "z".into(), value: "kept.test".into(), active: true }]
    );
    assert!(!is_alias_retained(&items[0]));
    assert!(!is_alias_retained(&items[1]));
    assert!(is_alias_retained(&items[2]));
    assert!(!does_alias_need_token(&items[2]));
    assert!(does_alias_need_token(&text("legacy.test")));
    assert!(!does_alias_need_token(&text("")));
    assert!(does_alias_need_token(&object(vec![("value", text("v.test"))])));
    assert!(does_alias_need_token(&object(vec![("id", JsonValue::Null), ("value", text("v.test"))])));
}

#[test]
fn decode_alias_takes_the_token_only_where_the_id_is_missing() {
    let with_id = object(vec![("id", text("own")), ("value", text("a.test"))]);
    assert_eq!(
        decode_alias(&with_id, "tok"),
        Some(VirtualHostAlias { id: "own".into(), value: "a.test".into(), active: true })
    );
    let without = object(vec![("value", text("a.test")), ("active", text("no"))]);
    assert_eq!(
        decode_alias(&without, "tok"),
        Some(VirtualHostAlias { id: "alias_tok".into(), value: "a.test".into(), active: true })
    );
    assert_eq!(decode_alias(&JsonValue::Null, "tok"), None);
}

#[test]
fn encode_alias_writes_three_members() {
    let alias = VirtualHostAlias { id: "i".into(), value: "v.test".into(), active: false };
    assert_eq!(
        encode_alias(&alias),
        object(vec![("id", text("i")), ("value", text("v.test")), ("active", JsonValue::Bool(false))])
    );
}

#[test]
fn the_last_of_repeated_members_counts() {
    let entry = object(vec![("docroot", text("/first")), ("docroot", text("/second"))]);
    let host = decode_host("a.test", &entry).unwrap();
    assert_eq!(host.docroot, "/second");
}

#[test]
fn generated_ids_differ_from_one_another_and_from_those_brought_along() {
    let mut items: Vec<JsonValue> = Vec::new();
    for i in 0..40 {
        items.push(text(&format!("legacy{}.test", i)));
    }
    items.push(object(vec![("id", text("own-1")), ("value", text("own1.test"))]));
    items.push(object(vec![("value", text("noid.test"))]));
    items.push(object(vec![("id", text("own-2")), ("value", text(""))]));
    let entry = object(vec![("aliases", JsonValue::Array(items))]);
    let host = decode_host("a.test", &entry).unwrap();
    assert_eq!(host.aliases.len(), 42);
    for (k, alias) in host.aliases.iter().enumerate() {
        for (l, other) in host.aliases.iter().enumerate() {
            if k != l {
                assert_ne!(alias.id, other.id);
            }
        }
    }
    assert_eq!(host.aliases[40].id, "own-1");
    for (k, alias) in host.aliases.iter().enumerate() {
        if k != 40 {
            assert!(alias.id.starts_with("alias_"));
            assert!(alias.id.chars().count() >= 42);
            assert_ne!(alias.id, "own-1");
            assert_ne!(alias.id, "own-2");
        }
    }
}

#[test]
fn two_legacy_strings_give_two_aliases_in_order_with_different_ids() {
    let doc = parse_document(r#"{"a.test": {"aliases": ["b.test", "a2.test"]}}"#).unwrap();
    let entry = member(doc.as_object().unwrap(), "a.test").unwrap();
    let host = decode_host("a.test", entry).unwrap();
    assert_eq!(host.aliases.len(), 2);
    assert_eq!(host.aliases[0].value, "b.test");
    assert_eq!(host.aliases[1].value, "a2.test");
    assert!(host.aliases[0].active && host.aliases[1].active);
    assert!(!host.aliases[0].id.is_empty() && !host.aliases[1].id.is_empty());
    assert_ne!(host.aliases[0].id, host.aliases[1].id);
}
