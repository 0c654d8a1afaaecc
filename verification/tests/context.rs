use nix_store::context::{Context, NIX_ERR_KEY, NIX_OK};
use nix_store::error::Error;
use nix_store::text::decode_text;

#[test]
fn success_code_checks_ok() {
    let ctx = Context::new(NIX_OK, Vec::new());
    assert_eq!(ctx.check_err(), Ok(()));
}

#[test]
fn failure_code_carries_the_message() {
    let ctx = Context::new(-4, b"store error".to_vec());
    assert_eq!(
        ctx.check_err(),
        Err(Error::NativeCall(-4, "store error".to_string()))
    );
}

#[test]
fn invalid_message_bytes_become_a_decoding_error() {
    let ctx = Context::new(1, vec![0xff, 0xfe]);
    assert_eq!(ctx.check_err(), Err(Error::TextDecoding));
}

#[test]
fn key_error_is_distinguished() {
    let missing = Context::new(NIX_ERR_KEY, b"attribute missing".to_vec());
    assert!(missing.is_key_error());
    assert_eq!(NIX_ERR_KEY, -3);

    let ok = Context::new(NIX_OK, Vec::new());
    assert!(!ok.is_key_error());

    let other = Context::new(-1, Vec::new());
    assert!(!other.is_key_error());
}

#[test]
fn decode_text_roundtrips_utf8() {
    assert_eq!(decode_text(b"daemon"), Ok("daemon".to_string()));
    assert_eq!(decode_text(&[]), Ok(String::new()));
    assert_eq!(decode_text(&[0x80]), Err(Error::TextDecoding));
}
