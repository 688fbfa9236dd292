//! The records that the library keeps: providers in the current schema and in
//! the older one, and templates.
use vstd::prelude::*;
use crate::json::{entries, new_object, JsonObject};

verus! {

/// A record that a list keeps by a string identifier.
pub trait Keyed {
    /// The identifier's characters.
    spec fn key(&self) -> Seq<char>;

    /// The identifier.
    fn id_ref(&self) -> (r: &String)
        ensures
            r@ == self.key(),
    ;
}

/// The five model identifiers that a provider routes requests to.
#[derive(Debug, Clone)]
pub struct Models {
    pub default: String,
    pub small_fast: String,
    pub opus: String,
    pub sonnet: String,
    pub haiku: String,
}

/// A provider profile in the current schema.
#[derive(Debug)]
pub struct Provider {
    pub id: String,
    pub name: String,
    pub icon: Option<String>,
    pub base_url: String,
    pub api_key: String,
    pub tags: Vec<String>,
    pub models: Models,
    /// Overrides `models.default` where present.
    pub anthropic_model: Option<String>,
    /// Overrides `models.small_fast` where present.
    pub anthropic_small_fast_model: Option<String>,
    /// Extra environment entries, applied after the computed ones.
    pub custom_env: JsonObject,
    pub is_active: bool,
    pub created_at: i64,
    pub updated_at: i64,
}

/// The three model identifiers of the older schema.
#[derive(Debug, Clone)]
pub struct ModelsV1 {
    pub opus: String,
    pub sonnet: String,
    pub haiku: String,
}

/// A provider profile in the older schema: three models and no overrides.
#[derive(Debug, Clone)]
pub struct ProviderV1 {
    pub id: String,
    pub name: String,
    pub icon: Option<String>,
    pub base_url: String,
    pub api_key: String,
    pub tags: Vec<String>,
    pub models: ModelsV1,
    pub is_active: bool,
    pub created_at: i64,
    pub updated_at: i64,
}

/// The models a template prefills.
#[derive(Debug, Clone)]
pub struct TemplateModels {
    pub opus: String,
    pub sonnet: String,
    pub haiku: String,
}

/// A preset that prefills a new provider.
#[derive(Debug, Clone)]
pub struct Template {
    pub id: String,
    pub name: String,
    pub icon: String,
    pub base_url: String,
    pub default_models: TemplateModels,
}

impl Keyed for Provider {
    open spec fn key(&self) -> Seq<char> {
        self.id@
    }

    fn id_ref(&self) -> (r: &String) {
        &self.id
    }
}

impl Keyed for Template {
    open spec fn key(&self) -> Seq<char> {
        self.id@
    }

    fn id_ref(&self) -> (r: &String) {
        &self.id
    }
}

/// The current-schema models for older ones: `default` takes `sonnet` and
/// `small_fast` takes `haiku`.
pub open spec fn migrated_models(m: ModelsV1) -> Models {
    Models {
        default: m.sonnet,
        small_fast: m.haiku,
        opus: m.opus,
        sonnet: m.sonnet,
        haiku: m.haiku,
    }
}

/// `p` is the current-schema form of the older record `v1`: its fields are
/// copied, its models migrated, no overrides are set and `custom_env` is empty.
pub open spec fn is_migration_of(p: Provider, v1: ProviderV1) -> bool {
    &&& p.id == v1.id
    &&& p.name == v1.name
    &&& p.icon == v1.icon
    &&& p.base_url == v1.base_url
    &&& p.api_key == v1.api_key
    &&& p.tags == v1.tags
    &&& p.models == migrated_models(v1.models)
    &&& p.anthropic_model is None
    &&& p.anthropic_small_fast_model is None
    &&& entries(p.custom_env).dom() == Set::<Seq<char>>::empty()
    &&& p.is_active == v1.is_active
    &&& p.created_at == v1.created_at
    &&& p.updated_at == v1.updated_at
}

impl ModelsV1 {
    /// The current-schema models: `default` from `sonnet`, `small_fast` from
    /// `haiku`, the three tiers copied.
    pub fn migrate(self) -> (r: Models)
        ensures
            r == migrated_models(self),
    {
        Models {
            default: self.sonnet.clone(),
            small_fast: self.haiku.clone(),
            opus: self.opus,
            sonnet: self.sonnet,
            haiku: self.haiku,
        }
    }
}

impl ProviderV1 {
    /// The current-schema record for this one.
    pub fn migrate(self) -> (r: Provider)
        ensures
            is_migration_of(r, self),
    {
        Provider {
            id: self.id,
            name: self.name,
            icon: self.icon,
            base_url: self.base_url,
            api_key: self.api_key,
            tags: self.tags,
            models: self.models.migrate(),
            anthropic_model: None,
            anthropic_small_fast_model: None,
            custom_env: new_object(),
            is_active: self.is_active,
            created_at: self.created_at,
            updated_at: self.updated_at,
        }
    }
}

} // verus!
