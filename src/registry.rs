use vstd::prelude::*;
use crate::identities::{Identities, IdentitiesView};
use crate::record::{AccountId, AccountView, AttributeRecord, RecordView};

verus! {

/// Why a read of the registry failed.
#[derive(Debug, Clone, Copy, PartialEq, Eq)]
pub enum RegistryError {
    /// Nothing has ever been registered: the mapping is not in storage.
    RegistryMissing,
    /// The mapping exists but holds no record for the account.
    IdentityNotFound,
}

/// The abstract value of the persisted state: the mapping, if it was ever
/// written.
pub type StoreView = Option<IdentitiesView>;

/// The state after registering `rec` for `user`: an absent mapping counts as
/// empty, and any earlier record of `user` is replaced whole.
pub open spec fn register_spec(s: StoreView, user: AccountView, rec: RecordView) -> StoreView {
    match s {
        Some(m) => Some(m.insert(user, rec)),
        None => Some(IdentitiesView::empty().insert(user, rec)),
    }
}

/// The outcome of verifying `user`: fails when the mapping is absent; marks
/// the record of `user` verified when there is one; otherwise changes nothing.
pub open spec fn verify_spec(s: StoreView, user: AccountView) -> Result<StoreView, RegistryError> {
    match s {
        None => Err(RegistryError::RegistryMissing),
        Some(m) => if m.contains_key(user) {
            Ok(Some(m.insert(user, m[user].as_verified())))
        } else {
            Ok(s)
        },
    }
}

/// The outcome of reading the record of `user`.
pub open spec fn lookup_spec(s: StoreView, user: AccountView) -> Result<RecordView, RegistryError> {
    match s {
        None => Err(RegistryError::RegistryMissing),
        Some(m) => if m.contains_key(user) {
            Ok(m[user])
        } else {
            Err(RegistryError::IdentityNotFound)
        },
    }
}

/// The record stored for `user`, if any.
pub open spec fn stored_record(s: StoreView, user: AccountView) -> Option<RecordView> {
    match s {
        Some(m) => if m.contains_key(user) {
            Some(m[user])
        } else {
            None
        },
        None => None,
    }
}

/// The identity registry: the one persisted slot that holds the mapping from
/// accounts to records, absent until the first registration.
pub struct IdentityRegistry {
    stored: Option<Identities>,
}

impl View for IdentityRegistry {
    type V = StoreView;

    closed spec fn view(&self) -> StoreView {
        match self.stored {
            Some(m) => Some(m@),
            None => None,
        }
    }
}

impl IdentityRegistry {
    pub closed spec fn wf(&self) -> bool {
        self.stored matches Some(m) ==> m.wf()
    }

    /// A registry whose storage holds nothing yet.
    pub fn new() -> (r: IdentityRegistry)
        ensures
            r.wf(),
            r@ is None,
    {
        IdentityRegistry { stored: None }
    }

    /// A registry over what storage held under the registry's key.
    pub fn from_storage(stored: Option<Identities>) -> (r: IdentityRegistry)
        requires
            stored matches Some(m) ==> m.wf(),
        ensures
            r.wf(),
            r@ == (match stored {
                Some(m) => Some(m@),
                None => None,
            }),
    {
        IdentityRegistry { stored }
    }

    /// What storage is to hold under the registry's key.
    pub fn into_storage(self) -> (r: Option<Identities>)
        requires
            self.wf(),
        ensures
            r matches Some(m) ==> m.wf(),
            self@ == (match r {
                Some(m) => Some(m@),
                None => None,
            }),
    {
        self.stored
    }

    /// Records `user` with the given attributes, not verified, replacing any
    /// record it had (and with it any verification).
    pub fn register_identity(
        &mut self,
        user: AccountId,
        name: String,
        country: String,
        doc_type: String,
        doc_hash: String,
    )
        requires
            old(self).wf(),
        ensures
            final(self).wf(),
            final(self)@ == register_spec(
                old(self)@,
                user@,
                RecordView::fresh(name@, country@, doc_type@, doc_hash@),
            ),
    {
        let mut identities = match self.stored.take() {
            Some(m) => m,
            None => Identities::new(),
        };
        let data = AttributeRecord::new(name, country, doc_type, doc_hash);
        identities.set(user, data);
        self.stored = Some(identities);
    }

    /// Marks the record of `user` verified. Fails with `RegistryMissing`,
    /// changing nothing, when nothing was ever registered; an account without
    /// a record is left alone.
    pub fn verify_identity(&mut self, user: AccountId) -> (r: Result<(), RegistryError>)
        requires
            old(self).wf(),
        ensures
            final(self).wf(),
            match verify_spec(old(self)@, user@) {
                Ok(s) => r is Ok && final(self)@ == s,
                Err(e) => r == Err::<(), RegistryError>(e) && final(self)@ == old(self)@,
            },
    {
        match &mut self.stored {
            None => Err(RegistryError::RegistryMissing),
            Some(identities) => {
                match identities.get(&user) {
                    Some(mut data) => {
                        data.verified = true;
                        identities.set(user, data);
                    },
                    None => {},
                }
                Ok(())
            },
        }
    }

    /// The record of `user`. Fails with `RegistryMissing` when nothing was
    /// ever registered, and with `IdentityNotFound` when `user` has no record.
    pub fn get_identity(&self, user: AccountId) -> (r: Result<AttributeRecord, RegistryError>)
        requires
            self.wf(),
        ensures
            match r {
                Ok(rec) => lookup_spec(self@, user@) == Ok::<RecordView, RegistryError>(rec@),
                Err(e) => lookup_spec(self@, user@) == Err::<RecordView, RegistryError>(e),
            },
    {
        match &self.stored {
            None => Err(RegistryError::RegistryMissing),
            Some(identities) => match identities.get(&user) {
                Some(data) => Ok(data),
                None => Err(RegistryError::IdentityNotFound),
            },
        }
    }
}

} // verus!
