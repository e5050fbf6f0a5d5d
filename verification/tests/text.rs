use pamsm::text::text_from_bytes;
use pamsm::{CText, PamError};

#[test]
fn text_is_closed_by_one_zero_byte() {
    let t = CText::from_str("login: ").unwrap();
    assert_eq!(t.as_bytes_with_nul(), b"login: \0");
    assert_eq!(t.to_bytes(), b"login: ".to_vec());
}

#[test]
fn empty_text_is_the_zero_byte_alone() {
    let t = CText::from_str("").unwrap();
    assert_eq!(t.as_bytes_with_nul(), &[0u8]);
    assert_eq!(t.to_bytes(), Vec::<u8>::new());
    let t = CText::new(&[]).unwrap();
    assert_eq!(t.as_bytes_with_nul(), &[0u8]);
}

#[test]
fn text_keeps_its_utf8_bytes() {
    let t = CText::from_str("m\u{f8}de").unwrap();
    assert_eq!(t.as_bytes_with_nul(), &[b'm', 0xc3, 0xb8, b'd', b'e', 0]);
}

#[test]
fn zero_byte_in_text_is_service_err() {
    for s in ["\0", "a\0", "\0a", "a\0b", "ab\0\0"] {
        assert_eq!(CText::from_str(s).err(), Some(PamError::SERVICE_ERR));
        assert_eq!(CText::new(s.as_bytes()).err(), Some(PamError::SERVICE_ERR));
    }
}

#[test]
fn bytes_need_not_be_utf8_to_cross_outbound() {
    let t = CText::new(&[0xff, 0xfe, 0x01]).unwrap();
    assert_eq!(t.as_bytes_with_nul(), &[0xff, 0xfe, 0x01, 0]);
    assert_eq!(t.to_bytes(), vec![0xff, 0xfe, 0x01]);
}

#[test]
fn valid_utf8_reads_as_text() {
    assert_eq!(text_from_bytes(b"root"), Ok("root".to_string()));
    assert_eq!(text_from_bytes(b""), Ok(String::new()));
    assert_eq!(text_from_bytes(&[0xe2, 0x82, 0xac]), Ok("\u{20ac}".to_string()));
    assert_eq!(text_from_bytes(&[0xf0, 0x9f, 0x94, 0x91]), Ok("\u{1f511}".to_string()));
}

#[test]
fn invalid_utf8_is_service_err() {
    assert_eq!(text_from_bytes(&[0xff]), Err(PamError::SERVICE_ERR));
    assert_eq!(text_from_bytes(&[b'a', 0x80]), Err(PamError::SERVICE_ERR));
    assert_eq!(text_from_bytes(&[0xe2, 0x82]), Err(PamError::SERVICE_ERR));
    assert_eq!(text_from_bytes(&[0xf4, 0x90, 0x80, 0x80]), Err(PamError::SERVICE_ERR));
}
