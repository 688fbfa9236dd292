//! What holds of the operations taken together.
use vstd::prelude::*;
use crate::json::entries;
use crate::model::Provider;
use crate::settings::{fixed_env, synced_env};
use crate::store::{activated, has_key, keys_unique};

verus! {

/// After activating an identifier that a list with unique identifiers holds,
/// exactly one record is active, and it is the one with that identifier.
pub proof fn lemma_activate_leaves_one_active(s: Seq<Provider>, id: Seq<char>)
    requires
        keys_unique(s),
        has_key(s, id),
    ensures
        exists|i: int|
            0 <= i < s.len() && activated(s, id)[i].is_active && activated(s, id)[i].id@ == id
                && forall|j: int|
                0 <= j < s.len() && #[trigger] activated(s, id)[j].is_active ==> j == i,
        activated(s, id).len() == s.len(),
{
    let i = choose|i: int| 0 <= i < s.len() && s[i].id@ == id;
    assert(activated(s, id)[i].is_active);
    assert forall|j: int| 0 <= j < s.len() && #[trigger] activated(s, id)[j].is_active implies j
        == i by {
        if j != i {
            assert(s[j].id@ != s[i].id@);
        }
    }
}

/// Synchronization keeps every `env` key that it does not manage and that the
/// provider's custom entries do not name, with its value.
pub proof fn lemma_sync_keeps_other_keys(
    env: Map<Seq<char>, serde_json::Value>,
    p: Provider,
    k: Seq<char>,
)
    requires
        env.contains_key(k),
        !fixed_env(p).contains_key(k),
        !entries(p.custom_env).contains_key(k),
    ensures
        synced_env(env, p).contains_key(k),
        synced_env(env, p)[k] == env[k],
{
}

/// Synchronizing the same provider a second time changes nothing more.
pub proof fn lemma_sync_idempotent(env: Map<Seq<char>, serde_json::Value>, p: Provider)
    ensures
        synced_env(synced_env(env, p), p) == synced_env(env, p),
{
    assert(synced_env(synced_env(env, p), p) =~= synced_env(env, p));
}

/// A custom entry wins over the computed value under the same key.
pub proof fn lemma_custom_env_wins(
    env: Map<Seq<char>, serde_json::Value>,
    p: Provider,
    k: Seq<char>,
)
    requires
        entries(p.custom_env).contains_key(k),
    ensures
        synced_env(env, p).contains_key(k),
        synced_env(env, p)[k] == entries(p.custom_env)[k],
{
}

/// Every computed entry stands in the result unless a custom entry names its key.
pub proof fn lemma_sync_sets_fixed_keys(
    env: Map<Seq<char>, serde_json::Value>,
    p: Provider,
    k: Seq<char>,
)
    requires
        fixed_env(p).contains_key(k),
        !entries(p.custom_env).contains_key(k),
    ensures
        synced_env(env, p).contains_key(k),
        synced_env(env, p)[k] == fixed_env(p)[k],
{
}

} // verus!
