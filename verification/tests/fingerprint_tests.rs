use ctd_core::fingerprint::fingerprint_bytes;

#[test]
fn test_small_file_hash() {
    let content = b"test content";
    let (hash, size) = fingerprint_bytes(content, content.len() as u64);

    assert_eq!(hash.len(), 16);
    assert_eq!(size, 12);
    assert!(hash.chars().all(|c| c.is_ascii_hexdigit()));
}

#[test]
fn test_same_content_same_hash() {
    let (hash1, _) = fingerprint_bytes(b"identical", 9);
    let (hash2, _) = fingerprint_bytes(b"identical", 9);

    assert_eq!(hash1, hash2);
}

#[test]
fn test_different_content_different_hash() {
    let (hash1, _) = fingerprint_bytes(b"content a", 9);
    let (hash2, _) = fingerprint_bytes(b"content b", 9);

    assert_ne!(hash1, hash2);
}

#[test]
fn size_changes_the_fingerprint() {
    // Only files longer than the sampled prefix can share leading bytes
    // with different sizes; the size still separates them.
    let head = vec![0u8; 65536];
    let (hash1, size1) = fingerprint_bytes(&head, 70000);
    let (hash2, size2) = fingerprint_bytes(&head, 70001);
    assert_ne!(hash1, hash2);
    assert_ne!(size1, size2);
}

#[test]
fn fingerprint_is_lowercase_hex() {
    let (hash, _) = fingerprint_bytes(b"Mixed Case Content", 18);
    assert!(hash.chars().all(|c| c.is_ascii_digit() || ('a'..='f').contains(&c)));
}
