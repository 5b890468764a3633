use identity_registry::{AccountId, AttributeRecord, Identities, IdentityRegistry, RegistryError};

fn account(key: &str) -> AccountId {
    AccountId::new(key.to_string())
}

fn register(reg: &mut IdentityRegistry, user: &str, name: &str, country: &str, doc_type: &str, doc_hash: &str) {
    reg.register_identity(
        account(user),
        name.to_string(),
        country.to_string(),
        doc_type.to_string(),
        doc_hash.to_string(),
    );
}

fn record(name: &str, country: &str, doc_type: &str, doc_hash: &str, verified: bool) -> AttributeRecord {
    AttributeRecord {
        name: name.to_string(),
        country: country.to_string(),
        doc_type: doc_type.to_string(),
        doc_hash: doc_hash.to_string(),
        verified,
    }
}

#[test]
fn end_to_end_register_verify_reregister() {
    let mut reg = IdentityRegistry::new();
    register(&mut reg, "alice", "Alice", "US", "passport", "0xdead");
    assert_eq!(
        reg.get_identity(account("alice")),
        Ok(record("Alice", "US", "passport", "0xdead", false))
    );
    assert_eq!(reg.verify_identity(account("alice")), Ok(()));
    assert!(reg.get_identity(account("alice")).unwrap().verified);
    register(&mut reg, "alice", "Alice", "US", "passport", "0xdead");
    assert!(!reg.get_identity(account("alice")).unwrap().verified);
}

#[test]
fn fresh_registration_reads_back_unverified() {
    let mut reg = IdentityRegistry::new();
    register(&mut reg, "bob", "Bob", "FR", "id_card", "0xbeef");
    register(&mut reg, "carol", "Carol", "DE", "license", "0x01");
    assert_eq!(
        reg.get_identity(account("carol")),
        Ok(record("Carol", "DE", "license", "0x01", false))
    );
}

#[test]
fn empty_fields_are_accepted() {
    let mut reg = IdentityRegistry::new();
    register(&mut reg, "dave", "", "", "", "");
    assert_eq!(reg.get_identity(account("dave")), Ok(record("", "", "", "", false)));
}

#[test]
fn verification_keeps_fields() {
    let mut reg = IdentityRegistry::new();
    register(&mut reg, "erin", "Erin", "JP", "passport", "0xabc");
    assert_eq!(reg.verify_identity(account("erin")), Ok(()));
    assert_eq!(
        reg.get_identity(account("erin")),
        Ok(record("Erin", "JP", "passport", "0xabc", true))
    );
}

#[test]
fn verifying_twice_stays_verified() {
    let mut reg = IdentityRegistry::new();
    register(&mut reg, "erin", "Erin", "JP", "passport", "0xabc");
    assert_eq!(reg.verify_identity(account("erin")), Ok(()));
    assert_eq!(reg.verify_identity(account("erin")), Ok(()));
    assert_eq!(
        reg.get_identity(account("erin")),
        Ok(record("Erin", "JP", "passport", "0xabc", true))
    );
}

#[test]
fn reregistration_replaces_fields_and_resets_verification() {
    let mut reg = IdentityRegistry::new();
    register(&mut reg, "frank", "Frank", "IT", "passport", "0x11");
    reg.verify_identity(account("frank")).unwrap();
    register(&mut reg, "frank", "Franco", "ES", "id_card", "0x22");
    assert_eq!(
        reg.get_identity(account("frank")),
        Ok(record("Franco", "ES", "id_card", "0x22", false))
    );
}

#[test]
fn verify_unknown_account_creates_nothing() {
    let mut reg = IdentityRegistry::new();
    register(&mut reg, "gina", "Gina", "BR", "passport", "0x33");
    assert_eq!(reg.verify_identity(account("hank")), Ok(()));
    assert_eq!(reg.get_identity(account("hank")), Err(RegistryError::IdentityNotFound));
    assert_eq!(
        reg.get_identity(account("gina")),
        Ok(record("Gina", "BR", "passport", "0x33", false))
    );
}

#[test]
fn read_before_any_registration_fails() {
    let reg = IdentityRegistry::new();
    assert_eq!(reg.get_identity(account("ivy")), Err(RegistryError::RegistryMissing));
}

#[test]
fn verify_before_any_registration_fails() {
    let mut reg = IdentityRegistry::new();
    assert_eq!(reg.verify_identity(account("ivy")), Err(RegistryError::RegistryMissing));
    assert_eq!(reg.get_identity(account("ivy")), Err(RegistryError::RegistryMissing));
    assert!(reg.into_storage().is_none());
}

#[test]
fn records_of_other_accounts_are_untouched() {
    let mut reg = IdentityRegistry::new();
    register(&mut reg, "jack", "Jack", "CA", "passport", "0x44");
    register(&mut reg, "kate", "Kate", "MX", "license", "0x55");
    reg.verify_identity(account("kate")).unwrap();
    register(&mut reg, "kate", "Katie", "MX", "license", "0x66");
    assert_eq!(
        reg.get_identity(account("jack")),
        Ok(record("Jack", "CA", "passport", "0x44", false))
    );
    reg.verify_identity(account("jack")).unwrap();
    assert_eq!(
        reg.get_identity(account("kate")),
        Ok(record("Katie", "MX", "license", "0x66", false))
    );
}

#[test]
fn storage_round_trip_keeps_records() {
    let mut reg = IdentityRegistry::new();
    register(&mut reg, "liam", "Liam", "NZ", "passport", "0x77");
    let stored = reg.into_storage();
    assert!(stored.is_some());
    let reg = IdentityRegistry::from_storage(stored);
    assert_eq!(
        reg.get_identity(account("liam")),
        Ok(record("Liam", "NZ", "passport", "0x77", false))
    );
}

#[test]
fn identities_set_get_and_replace() {
    let mut ids = Identities::new();
    assert!(!ids.contains(&account("mia")));
    assert_eq!(ids.get(&account("mia")), None);
    ids.set(account("mia"), record("Mia", "AU", "passport", "0x88", false));
    ids.set(account("noah"), record("Noah", "AU", "passport", "0x99", true));
    ids.set(account("mia"), record("Mia", "AU", "passport", "0x88", true));
    assert!(ids.contains(&account("mia")));
    assert_eq!(ids.get(&account("mia")), Some(record("Mia", "AU", "passport", "0x88", true)));
    let entries = ids.into_entries();
    assert_eq!(entries.len(), 2);
}

#[test]
fn account_identity_is_by_text() {
    let a = account("GA7X");
    assert!(a.same_as(&account("GA7X")));
    assert!(!a.same_as(&account("GA7Y")));
    assert_eq!(a.duplicate(), a);
}

#[test]
fn record_copy_and_fresh_record() {
    let r = AttributeRecord::new("Olga".to_string(), "PL".to_string(), "passport".to_string(), "0xaa".to_string());
    assert_eq!(r, record("Olga", "PL", "passport", "0xaa", false));
    assert_eq!(r.duplicate(), r);
}
