use radial::id::generate_id;

#[test]
fn test_generate_id() {
    for _ in 0..100 {
        let id = generate_id();
        assert_eq!(id.len(), 8);
        assert!(!id.starts_with('-'));
        assert!(!id.starts_with('_'));
        assert!(!id.contains('-'));
        assert!(!id.contains('_'));
    }
}

#[test]
fn generated_ids_are_alphanumeric() {
    for _ in 0..50 {
        let id = generate_id();
        assert!(id.chars().all(|c| c.is_ascii_alphanumeric()));
    }
}
