use tutor_service::persistent::Decimal;
use tutor_service::persistent::Tutor;

#[test]
fn test_create_tutor() {
    let name = "Alice".to_string();
    let email = "alice@example.com".to_string();

    let tutor = Tutor::new(name.clone(), email.clone());

    assert_eq!(tutor.name, name);
    assert_eq!(tutor.email, email);
    assert_eq!(tutor.courses, 0);
    assert_eq!(tutor.rating, Decimal::zero());
    assert!(tutor.id.value != 0);
}

#[test]
fn fresh_tutors_get_distinct_identities() {
    let a = Tutor::new("Bob".to_string(), "bob@example.com".to_string());
    let b = Tutor::new("Bob".to_string(), "bob@example.com".to_string());
    assert_ne!(a.id, b.id);
}
