use banyan_cli::fs_compression_encryption::{EncryptionMetadata, EncryptionPart};

#[test]
fn test() {
    // Test compression and encryption: the record of a part compressed with GZIP and encrypted.
    let key = [7u8; 32];
    let part = EncryptionPart::gzip_part((0, 4096), "/tmp/out/part0".to_string(), key, 1234, "AES-256-GCM".to_string());
    assert_eq!(part.segment, (0, 4096));
    assert_eq!(part.encrypted_file_path, "/tmp/out/part0");
    assert_eq!(part.key, key);
    assert_eq!(part.size_after, 1234);
    assert_eq!(part.cipher_info, "AES-256-GCM");
    assert_eq!(part.compression_info, "GZIP");
    let meta = EncryptionMetadata {
        encrypted_pieces: Some(vec![part]),
        cipher_info: "AES-256-GCM".to_string(),
        compression_info: "GZIP".to_string(),
    };
    assert_eq!(meta.encrypted_pieces.as_ref().map(|p| p.len()), Some(1));
}
