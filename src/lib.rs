//! An identity registry: per account, a bundle of identity attributes and a
//! verification flag, kept in one persisted mapping.

mod identities;
mod laws;
mod record;
mod registry;

pub use identities::{entries_map, keys_distinct, Identities, IdentitiesView};
pub use laws::{
    lemma_fresh_registration, lemma_read_before_registration_fails, lemma_records_independent,
    lemma_reregistration_resets, lemma_verification, lemma_verify_unknown_is_noop,
};
pub use record::{AccountId, AccountView, AttributeRecord, RecordView};
pub use registry::{
    lookup_spec, register_spec, stored_record, verify_spec, IdentityRegistry, RegistryError,
    StoreView,
};
