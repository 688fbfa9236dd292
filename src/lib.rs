//! A store of API provider profiles: the record model, migration of records
//! written in the older schema, list operations that keep at most one provider
//! active, and the merge of the active provider into an external settings
//! document's `env` object.
pub mod json;
pub mod model;
pub mod store;
pub mod settings;
pub mod laws;
