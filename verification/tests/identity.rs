use ihnet::identity::{
    new_identity, restore_identity, stored_identity, IdentitySource, SECRET_KEY_LENGTH,
};

#[test]
fn stored_identity_is_restored() {
    let key = new_identity();
    let mut stored = stored_identity(&key);
    assert_eq!(stored.len(), SECRET_KEY_LENGTH);
    let restored = restore_identity(&stored);
    assert_eq!(restored.to_bytes(), key.to_bytes());
    assert_eq!(restored.public(), key.public());
    stored.push(7);
    assert_eq!(restore_identity(&stored).to_bytes(), key.to_bytes());
}

#[test]
fn new_identities_differ() {
    assert_ne!(new_identity().to_bytes(), new_identity().to_bytes());
}

#[test]
fn identity_is_the_first_bytes() {
    let data: Vec<u8> = (0u8..40).collect();
    let key = restore_identity(&data);
    assert_eq!(key.to_bytes().to_vec(), (0u8..32).collect::<Vec<u8>>());
    assert_eq!(stored_identity(&key), (0u8..32).collect::<Vec<u8>>());
    assert_eq!(stored_identity(&restore_identity(&[9u8; 32])), vec![9u8; 32]);
}

#[test]
fn source_of_the_identity() {
    let none: Option<&str> = None;
    assert_eq!(IdentitySource::choose_from(none, false), IdentitySource::Fresh);
    assert_eq!(IdentitySource::choose_from(none, true), IdentitySource::Fresh);
    assert_eq!(
        IdentitySource::choose_from(Some("key"), true),
        IdentitySource::Load("key")
    );
    assert_eq!(
        IdentitySource::choose_from(Some("key"), false),
        IdentitySource::Create("key")
    );
}
