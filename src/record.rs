use vstd::prelude::*;

verus! {

/// An account identifier, held as its textual form (e.g. a strkey).
/// Two identifiers denote the same account exactly when their texts agree.
#[derive(Debug, Clone, PartialEq, Eq)]
pub struct AccountId {
    pub key: String,
}

/// The abstract value of an account identifier: its characters.
pub type AccountView = Seq<char>;

impl View for AccountId {
    type V = AccountView;

    open spec fn view(&self) -> AccountView {
        self.key@
    }
}

impl AccountId {
    pub fn new(key: String) -> (r: AccountId)
        ensures
            r@ == key@,
    {
        AccountId { key }
    }

    /// A second identifier for the same account.
    pub fn duplicate(&self) -> (r: AccountId)
        ensures
            r@ == self@,
    {
        AccountId { key: self.key.clone() }
    }

    /// Whether `self` and `other` denote the same account.
    pub fn same_as(&self, other: &AccountId) -> (r: bool)
        ensures
            r == (self@ == other@),
    {
        self.key == other.key
    }
}

/// The abstract value of an identity record.
pub ghost struct RecordView {
    pub name: Seq<char>,
    pub country: Seq<char>,
    pub doc_type: Seq<char>,
    pub doc_hash: Seq<char>,
    pub verified: bool,
}

impl RecordView {
    /// The record that a registration with these attributes creates.
    pub open spec fn fresh(
        name: Seq<char>,
        country: Seq<char>,
        doc_type: Seq<char>,
        doc_hash: Seq<char>,
    ) -> RecordView {
        RecordView { name, country, doc_type, doc_hash, verified: false }
    }

    /// The same attributes, marked verified.
    pub open spec fn as_verified(self) -> RecordView {
        RecordView { verified: true, ..self }
    }
}

/// The identity bundle stored for one account.
#[derive(Debug, Clone, PartialEq, Eq)]
pub struct AttributeRecord {
    pub name: String,
    pub country: String,
    pub doc_type: String,
    pub doc_hash: String,
    pub verified: bool,
}

impl View for AttributeRecord {
    type V = RecordView;

    open spec fn view(&self) -> RecordView {
        RecordView {
            name: self.name@,
            country: self.country@,
            doc_type: self.doc_type@,
            doc_hash: self.doc_hash@,
            verified: self.verified,
        }
    }
}

impl AttributeRecord {
    /// A newly registered, not yet verified record.
    pub fn new(name: String, country: String, doc_type: String, doc_hash: String) -> (r:
        AttributeRecord)
        ensures
            r@ == RecordView::fresh(name@, country@, doc_type@, doc_hash@),
    {
        AttributeRecord { name, country, doc_type, doc_hash, verified: false }
    }

    /// A copy of this record with equal attributes.
    pub fn duplicate(&self) -> (r: AttributeRecord)
        ensures
            r@ == self@,
    {
        AttributeRecord {
            name: self.name.clone(),
            country: self.country.clone(),
            doc_type: self.doc_type.clone(),
            doc_hash: self.doc_hash.clone(),
            verified: self.verified,
        }
    }
}

} // verus!
