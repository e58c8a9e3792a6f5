use drink::carrier::{dummy_contract, DUMMY_CONTRACT};

fn contains(haystack: &[u8], needle: &[u8]) -> bool {
    haystack.windows(needle.len()).any(|window| window == needle)
}

#[test]
fn carrier_assembles_to_a_binary_module() {
    let binary = dummy_contract().unwrap();
    assert_eq!(&binary[..8], b"\0asm\x01\0\0\0");
    assert_ne!(binary, DUMMY_CONTRACT.as_bytes().to_vec());
}

#[test]
fn carrier_exports_constructor_and_message() {
    let binary = dummy_contract().unwrap();
    assert!(contains(&binary, b"deploy"));
    assert!(contains(&binary, b"call"));
    assert!(contains(&binary, b"env"));
    assert!(contains(&binary, b"memory"));
}

#[test]
fn carrier_assembles_the_same_every_time() {
    assert_eq!(dummy_contract(), dummy_contract());
}
