use drink::code_hash::{decode_code_hash, InvalidCodeHash};

#[test]
fn decodes_thirty_two_bytes() {
    let bytes: Vec<u8> = (0u8..32).collect();
    let hash = decode_code_hash(&bytes).unwrap();
    assert_eq!(hash.to_vec(), bytes);
}

#[test]
fn refuses_fewer_than_thirty_two_bytes() {
    let bytes = vec![7u8; 31];
    assert_eq!(decode_code_hash(&bytes), Err(InvalidCodeHash));
    assert_eq!(decode_code_hash(&[]), Err(InvalidCodeHash));
}

#[test]
fn ignores_bytes_after_the_hash() {
    let bytes: Vec<u8> = (100u8..140).collect();
    let hash = decode_code_hash(&bytes).unwrap();
    assert_eq!(hash.to_vec(), bytes[..32].to_vec());
}
