use vstd::prelude::*;
use crate::record::{AccountView, RecordView};
use crate::registry::{
    lookup_spec, register_spec, stored_record, verify_spec, RegistryError, StoreView,
};

verus! {

/// Registering an account that has no record, then reading it, yields the
/// registered attributes, not verified.
pub proof fn lemma_fresh_registration(
    s: StoreView,
    a: AccountView,
    name: Seq<char>,
    country: Seq<char>,
    doc_type: Seq<char>,
    doc_hash: Seq<char>,
)
    requires
        stored_record(s, a) is None,
    ensures
        lookup_spec(register_spec(s, a, RecordView::fresh(name, country, doc_type, doc_hash)), a)
            == Ok::<RecordView, RegistryError>(RecordView::fresh(name, country, doc_type, doc_hash)),
{
}

/// Verifying a registered, unverified account succeeds, and reading it then
/// yields the same attributes, verified.
pub proof fn lemma_verification(s: StoreView, a: AccountView, rec: RecordView)
    requires
        stored_record(s, a) == Some(rec),
        !rec.verified,
    ensures
        verify_spec(s, a) is Ok,
        lookup_spec(verify_spec(s, a)->Ok_0, a) == Ok::<RecordView, RegistryError>(
            RecordView { verified: true, ..rec },
        ),
{
}

/// Registering a verified account again, then reading it, yields the new
/// attributes, not verified: verification does not survive re-registration.
pub proof fn lemma_reregistration_resets(
    s: StoreView,
    a: AccountView,
    name: Seq<char>,
    country: Seq<char>,
    doc_type: Seq<char>,
    doc_hash: Seq<char>,
)
    requires
        stored_record(s, a) matches Some(rec) && rec.verified,
    ensures
        lookup_spec(register_spec(s, a, RecordView::fresh(name, country, doc_type, doc_hash)), a)
            == Ok::<RecordView, RegistryError>(RecordView::fresh(name, country, doc_type, doc_hash)),
{
}

/// Where the mapping exists but holds no record of `a`, verifying `a`
/// succeeds without changing the state, and a read of `a` still fails.
pub proof fn lemma_verify_unknown_is_noop(s: StoreView, a: AccountView)
    requires
        s is Some,
        stored_record(s, a) is None,
    ensures
        verify_spec(s, a) == Ok::<StoreView, RegistryError>(s),
        lookup_spec(s, a) == Err::<RecordView, RegistryError>(RegistryError::IdentityNotFound),
{
}

/// Before anything is registered, both reading and verifying fail.
pub proof fn lemma_read_before_registration_fails(a: AccountView)
    ensures
        lookup_spec(None, a) == Err::<RecordView, RegistryError>(RegistryError::RegistryMissing),
        verify_spec(None, a) == Err::<StoreView, RegistryError>(RegistryError::RegistryMissing),
{
}

/// Registering or verifying `a` leaves the stored record of every other
/// account `b`, or its absence, as it was.
pub proof fn lemma_records_independent(
    s: StoreView,
    a: AccountView,
    b: AccountView,
    name: Seq<char>,
    country: Seq<char>,
    doc_type: Seq<char>,
    doc_hash: Seq<char>,
)
    requires
        a != b,
    ensures
        stored_record(register_spec(s, a, RecordView::fresh(name, country, doc_type, doc_hash)), b)
            == stored_record(s, b),
        verify_spec(s, a) matches Ok(t) ==> stored_record(t, b) == stored_record(s, b),
{
}

} // verus!
