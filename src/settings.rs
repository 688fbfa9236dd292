//! The external tool's settings document and the merge of a provider into its
//! `env` object.
use vstd::prelude::*;
use crate::json::{
    entries, into_object, integer_value, json_integer, json_string, new_object, object_clear,
    object_insert, object_of, object_pairs, object_value, string_value, JsonObject,
};
use crate::model::Provider;
use crate::store::ConfigError;

verus! {

/// The settings document: its `env` field and every other top-level field.
#[derive(Debug)]
pub struct ClaudeSettings {
    pub env: serde_json::Value,
    pub other: JsonObject,
}

/// The entries of the document's `env`, or `None` where `env` is no object.
pub open spec fn env_entries(s: ClaudeSettings) -> Option<Map<Seq<char>, serde_json::Value>> {
    match object_of(s.env) {
        Some(m) => Some(entries(m)),
        None => None,
    }
}

/// The model that requests go to: the override where present, else the
/// default model.
pub open spec fn effective_model(p: Provider) -> Seq<char> {
    match p.anthropic_model {
        Some(m) => m@,
        None => p.models.default@,
    }
}

/// The small, fast model: the override where present, else `models.small_fast`.
pub open spec fn effective_small_fast_model(p: Provider) -> Seq<char> {
    match p.anthropic_small_fast_model {
        Some(m) => m@,
        None => p.models.small_fast@,
    }
}

/// The entries that synchronization computes from a provider.
pub open spec fn fixed_env(p: Provider) -> Map<Seq<char>, serde_json::Value> {
    Map::empty().insert("ANTHROPIC_BASE_URL"@, json_string(p.base_url@)).insert(
        "ANTHROPIC_AUTH_TOKEN"@,
        json_string(p.api_key@),
    ).insert("API_TIMEOUT_MS"@, json_string("3000000"@)).insert(
        "CLAUDE_CODE_DISABLE_NONESSENTIAL_TRAFFIC"@,
        json_integer(1),
    ).insert("ANTHROPIC_MODEL"@, json_string(effective_model(p))).insert(
        "ANTHROPIC_SMALL_FAST_MODEL"@,
        json_string(effective_small_fast_model(p)),
    ).insert("ANTHROPIC_DEFAULT_SONNET_MODEL"@, json_string(p.models.sonnet@)).insert(
        "ANTHROPIC_DEFAULT_OPUS_MODEL"@,
        json_string(p.models.opus@),
    ).insert("ANTHROPIC_DEFAULT_HAIKU_MODEL"@, json_string(p.models.haiku@))
}

/// `env` after synchronizing `p` into it: the computed entries overwrite, then
/// the provider's custom entries overwrite those; every other key stays.
pub open spec fn synced_env(env: Map<Seq<char>, serde_json::Value>, p: Provider) -> Map<
    Seq<char>,
    serde_json::Value,
> {
    env.union_prefer_right(fixed_env(p)).union_prefer_right(entries(p.custom_env))
}

impl ClaudeSettings {
    /// The document that stands in for a missing file: an empty `env` and no
    /// other field.
    pub fn bootstrap() -> (r: ClaudeSettings)
        ensures
            env_entries(r) == Some(Map::<Seq<char>, serde_json::Value>::empty()),
            entries(r.other).dom() == Set::<Seq<char>>::empty(),
    {
        let env = new_object();
        let other = new_object();
        ClaudeSettings { env: object_value(env), other }
    }
}

/// Inserts every custom entry of `p` into `env`.
fn insert_custom_env(env: &mut JsonObject, p: &Provider)
    ensures
        entries(*final(env)) == entries(*old(env)).union_prefer_right(entries(p.custom_env)),
{
    let ghost base = entries(*env);
    let ghost custom = entries(p.custom_env);
    let mut pairs = object_pairs(&p.custom_env);
    let ghost orig = pairs@;
    let ghost mut done: Map<Seq<char>, serde_json::Value> = Map::empty();
    while pairs.len() > 0
        invariant
            pairs@ == orig.take(pairs.len() as int),
            pairs.len() <= orig.len(),
            forall|i: int|
                0 <= i < orig.len() ==> #[trigger] custom.contains_key(orig[i].0@) && custom[orig[i].0@]
                    == orig[i].1,
            forall|k: Seq<char>|
                #[trigger] custom.contains_key(k) ==> exists|i: int|
                    0 <= i < orig.len() && orig[i].0@ == k,
            entries(*env) == base.union_prefer_right(done),
            forall|k: Seq<char>| #[trigger]
                done.contains_key(k) ==> custom.contains_key(k) && done[k] == custom[k],
            forall|i: int| pairs.len() <= i < orig.len() ==> #[trigger] done.contains_key(orig[i].0@),
        decreases pairs.len(),
    {
        let ghost n = pairs.len() as int;
        let (k, v) = pairs.pop().unwrap();
        assert(orig[n - 1] == (k, v));
        proof {
            done = done.insert(k@, v);
        }
        object_insert(env, k, v);
        assert(entries(*env) =~= base.union_prefer_right(done));
    }
    assert forall|k: Seq<char>| custom.contains_key(k) implies #[trigger] done.contains_key(k) by {
        let i = choose|i: int| 0 <= i < orig.len() && orig[i].0@ == k;
        assert(done.contains_key(orig[i].0@));
    }
    assert(done =~= custom);
}

/// Merges `provider` into the document's `env`, keeping every other
/// top-level field and every unmanaged `env` key. Fails where `env` is no
/// object.
pub fn apply_provider(settings: ClaudeSettings, provider: &Provider) -> (r: Result<
    ClaudeSettings,
    ConfigError,
>)
    ensures
        env_entries(settings) is None ==> r is Err && r->Err_0 is InvalidSettingsDocument,
        env_entries(settings) is Some ==> r is Ok && r->Ok_0.other == settings.other
            && env_entries(r->Ok_0) == Some(synced_env(env_entries(settings)->Some_0, *provider)),
{
    let ClaudeSettings { env, other } = settings;
    let mut env = match into_object(env) {
        Some(m) => m,
        None => return Err(ConfigError::InvalidSettingsDocument),
    };
    let ghost start = entries(env);
    let model = match &provider.anthropic_model {
        Some(m) => m.clone(),
        None => provider.models.default.clone(),
    };
    let small_fast = match &provider.anthropic_small_fast_model {
        Some(m) => m.clone(),
        None => provider.models.small_fast.clone(),
    };
    object_insert(&mut env, "ANTHROPIC_BASE_URL".to_owned(), string_value(provider.base_url.clone()));
    object_insert(&mut env, "ANTHROPIC_AUTH_TOKEN".to_owned(), string_value(provider.api_key.clone()));
    object_insert(&mut env, "API_TIMEOUT_MS".to_owned(), string_value("3000000".to_owned()));
    object_insert(
        &mut env,
        "CLAUDE_CODE_DISABLE_NONESSENTIAL_TRAFFIC".to_owned(),
        integer_value(1),
    );
    object_insert(&mut env, "ANTHROPIC_MODEL".to_owned(), string_value(model));
    object_insert(&mut env, "ANTHROPIC_SMALL_FAST_MODEL".to_owned(), string_value(small_fast));
    object_insert(
        &mut env,
        "ANTHROPIC_DEFAULT_SONNET_MODEL".to_owned(),
        string_value(provider.models.sonnet.clone()),
    );
    object_insert(
        &mut env,
        "ANTHROPIC_DEFAULT_OPUS_MODEL".to_owned(),
        string_value(provider.models.opus.clone()),
    );
    object_insert(
        &mut env,
        "ANTHROPIC_DEFAULT_HAIKU_MODEL".to_owned(),
        string_value(provider.models.haiku.clone()),
    );
    assert(entries(env) =~= start.union_prefer_right(fixed_env(*provider)));
    insert_custom_env(&mut env, provider);
    Ok(ClaudeSettings { env: object_value(env), other })
}

/// Removes every key from the document's `env`, keeping the other top-level
/// fields. Fails where `env` is no object.
pub fn clear_env(settings: ClaudeSettings) -> (r: Result<ClaudeSettings, ConfigError>)
    ensures
        env_entries(settings) is None ==> r is Err && r->Err_0 is InvalidSettingsDocument,
        env_entries(settings) is Some ==> r is Ok && r->Ok_0.other == settings.other
            && env_entries(r->Ok_0) == Some(Map::<Seq<char>, serde_json::Value>::empty()),
{
    let ClaudeSettings { env, other } = settings;
    let mut env = match into_object(env) {
        Some(m) => m,
        None => return Err(ConfigError::InvalidSettingsDocument),
    };
    object_clear(&mut env);
    assert(entries(env) =~= Map::<Seq<char>, serde_json::Value>::empty());
    Ok(ClaudeSettings { env: object_value(env), other })
}

} // verus!
