use provider_store::model::{Models, ModelsV1, Provider, ProviderV1, Template, TemplateModels};
use provider_store::store::{activate, decode_providers, migrate_all, remove_by_id, upsert_by_id, ConfigError};

fn models(tag: &str) -> Models {
    Models {
        default: format!("{tag}-default"),
        small_fast: format!("{tag}-fast"),
        opus: format!("{tag}-opus"),
        sonnet: format!("{tag}-sonnet"),
        haiku: format!("{tag}-haiku"),
    }
}

fn provider(id: &str, active: bool) -> Provider {
    Provider {
        id: id.to_string(),
        name: format!("name {id}"),
        icon: None,
        base_url: format!("https://{id}.example"),
        api_key: format!("key-{id}"),
        tags: vec!["a".to_string(), "a".to_string()],
        models: models(id),
        anthropic_model: None,
        anthropic_small_fast_model: None,
        custom_env: serde_json::Map::new(),
        is_active: active,
        created_at: 1,
        updated_at: 2,
    }
}

fn legacy(id: &str) -> ProviderV1 {
    ProviderV1 {
        id: id.to_string(),
        name: "old".to_string(),
        icon: Some("star".to_string()),
        base_url: "https://old".to_string(),
        api_key: "old-key".to_string(),
        tags: vec!["t".to_string()],
        models: ModelsV1 { opus: "o".to_string(), sonnet: "s".to_string(), haiku: "h".to_string() },
        is_active: true,
        created_at: 10,
        updated_at: 20,
    }
}

fn ids(list: &[Provider]) -> Vec<String> {
    list.iter().map(|p| p.id.clone()).collect()
}

fn template(id: &str, name: &str) -> Template {
    Template {
        id: id.to_string(),
        name: name.to_string(),
        icon: "i".to_string(),
        base_url: "https://t".to_string(),
        default_models: TemplateModels { opus: "o".to_string(), sonnet: "s".to_string(), haiku: "h".to_string() },
    }
}

#[test]
fn models_migrate_routes_default_and_small_fast() {
    let m = ModelsV1 { opus: "o1".to_string(), sonnet: "s1".to_string(), haiku: "h1".to_string() }.migrate();
    assert_eq!(m.default, "s1");
    assert_eq!(m.small_fast, "h1");
    assert_eq!(m.opus, "o1");
    assert_eq!(m.sonnet, "s1");
    assert_eq!(m.haiku, "h1");
}

#[test]
fn provider_migrate_copies_fields_and_sets_defaults() {
    let p = legacy("x").migrate();
    assert_eq!(p.id, "x");
    assert_eq!(p.name, "old");
    assert_eq!(p.icon.as_deref(), Some("star"));
    assert_eq!(p.base_url, "https://old");
    assert_eq!(p.api_key, "old-key");
    assert_eq!(p.tags, vec!["t".to_string()]);
    assert_eq!(p.models.default, "s");
    assert_eq!(p.models.small_fast, "h");
    assert!(p.anthropic_model.is_none());
    assert!(p.anthropic_small_fast_model.is_none());
    assert!(p.custom_env.is_empty());
    assert!(p.is_active);
    assert_eq!((p.created_at, p.updated_at), (10, 20));
}

#[test]
fn migrate_all_keeps_order() {
    let out = migrate_all(vec![legacy("a"), legacy("b"), legacy("c")]);
    assert_eq!(ids(&out), vec!["a", "b", "c"]);
    assert!(out.iter().all(|p| p.models.default == "s" && p.models.small_fast == "h"));
}

#[test]
fn decode_current_schema_is_returned_unchanged() {
    let list = vec![provider("a", true), provider("b", false)];
    let (out, migrated) = decode_providers(Ok(list), Err("unused".to_string())).unwrap();
    assert!(!migrated);
    assert_eq!(ids(&out), vec!["a", "b"]);
    assert!(out[0].is_active && !out[1].is_active);
    assert_eq!(out[1].models.default, "b-default");
}

#[test]
fn decode_legacy_schema_migrates_and_flags() {
    let (out, migrated) =
        decode_providers(Err("missing field `default`".to_string()), Ok(vec![legacy("p")])).unwrap();
    assert!(migrated);
    assert_eq!(out.len(), 1);
    assert_eq!(out[0].models.default, "s");
    assert_eq!(out[0].models.small_fast, "h");
}

#[test]
fn decode_empty_list_after_clear() {
    let (out, migrated) = decode_providers(Ok(Vec::new()), Ok(Vec::new())).unwrap();
    assert!(out.is_empty());
    assert!(!migrated);
}

#[test]
fn decode_neither_schema_is_corrupt_store() {
    let r = decode_providers(Err("bad".to_string()), Err("expected value".to_string()));
    match r {
        Err(ConfigError::CorruptStore(msg)) => assert_eq!(msg, "expected value"),
        other => panic!("unexpected {:?}", other.map(|(l, m)| (l.len(), m))),
    }
}

#[test]
fn upsert_replaces_first_match() {
    let mut list = vec![provider("a", false), provider("b", false), provider("b", false)];
    let mut replacement = provider("b", true);
    replacement.name = "new".to_string();
    upsert_by_id(&mut list, replacement);
    assert_eq!(ids(&list), vec!["a", "b", "b"]);
    assert_eq!(list[1].name, "new");
    assert_eq!(list[2].name, "name b");
}

#[test]
fn upsert_appends_new_id() {
    let mut list = vec![provider("a", false)];
    upsert_by_id(&mut list, provider("z", false));
    assert_eq!(ids(&list), vec!["a", "z"]);
}

#[test]
fn remove_drops_every_match() {
    let mut list = vec![provider("a", false), provider("b", false), provider("a", false), provider("c", false)];
    remove_by_id(&mut list, &"a".to_string());
    assert_eq!(ids(&list), vec!["b", "c"]);
}

#[test]
fn remove_missing_id_is_noop() {
    let mut list = vec![provider("a", false), provider("b", false)];
    remove_by_id(&mut list, &"q".to_string());
    assert_eq!(ids(&list), vec!["a", "b"]);
}

#[test]
fn activate_leaves_exactly_one_active() {
    let mut list = vec![provider("a", true), provider("b", false), provider("c", true)];
    let pos = activate(&mut list, &"b".to_string()).unwrap();
    assert_eq!(pos, 1);
    let active: Vec<&str> = list.iter().filter(|p| p.is_active).map(|p| p.id.as_str()).collect();
    assert_eq!(active, vec!["b"]);
    assert_eq!(ids(&list), vec!["a", "b", "c"]);
}

#[test]
fn activate_missing_id_is_not_found_and_unchanged() {
    let mut list = vec![provider("a", true), provider("b", false)];
    let r = activate(&mut list, &"nope".to_string());
    assert!(matches!(r, Err(ConfigError::NotFound)));
    assert_eq!(ids(&list), vec!["a", "b"]);
    assert!(list[0].is_active && !list[1].is_active);
}

#[test]
fn templates_upsert_and_remove() {
    let mut list = vec![template("t1", "one")];
    upsert_by_id(&mut list, template("t2", "two"));
    upsert_by_id(&mut list, template("t1", "uno"));
    assert_eq!(list.len(), 2);
    assert_eq!(list[0].name, "uno");
    assert_eq!(list[1].name, "two");
    remove_by_id(&mut list, &"t1".to_string());
    assert_eq!(list.len(), 1);
    assert_eq!(list[0].id, "t2");
}
