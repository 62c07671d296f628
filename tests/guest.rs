use wasm_counter::guest::{guest_module, module_from_parse, module_from_text, GuestError, GUEST_WAT};

#[test]
fn guest_module_is_a_binary_module() {
    let bytes = guest_module().expect("the guest text is a valid module");
    assert_eq!(&bytes[0..4], b"\0asm");
    assert_eq!(&bytes[4..8], &[1, 0, 0, 0]);
    assert_ne!(bytes, GUEST_WAT.as_bytes().to_vec());
}

#[test]
fn guest_module_matches_encoding_its_text() {
    let a = guest_module().unwrap();
    let b = module_from_text(GUEST_WAT).unwrap();
    assert_eq!(a, b);
}

#[test]
fn empty_module_encodes_to_header_only() {
    let bytes = module_from_text("(module)").unwrap();
    assert_eq!(bytes, vec![0x00, 0x61, 0x73, 0x6d, 0x01, 0x00, 0x00, 0x00]);
}

#[test]
fn invalid_text_is_rejected() {
    let r = module_from_text("(module (func (result i64) i64.nope))");
    assert!(matches!(r, Err(GuestError::InvalidText(_))));
    let r = module_from_text("not a module");
    assert!(matches!(r, Err(GuestError::InvalidText(_))));
}

#[test]
fn module_from_parse_keeps_bytes_and_messages() {
    let ok = module_from_parse(Ok(vec![1, 2, 3]));
    assert_eq!(ok.unwrap(), vec![1, 2, 3]);
    match module_from_parse(Err("bad".to_string())) {
        Err(GuestError::InvalidText(m)) => assert_eq!(m, "bad"),
        other => panic!("unexpected {:?}", other),
    }
}
