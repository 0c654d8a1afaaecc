use nix_store::context::{Context, NIX_OK};
use nix_store::error::Error;
use nix_store::handle::Handle;
use nix_store::init::InitCache;
use nix_store::path::StorePath;
use nix_store::store::{get_uri_result, open_finish, open_prepare, OpenOutcome, StoreRef};

fn initialized() -> InitCache {
    let mut cache = InitCache::new();
    cache.record(Ok(()));
    cache
}

#[test]
fn open_prepare_terminates_the_url() {
    let cache = initialized();
    let bytes = open_prepare(&cache, b"auto").unwrap();
    assert_eq!(bytes, b"auto\0".to_vec());
}

#[test]
fn open_prepare_rejects_interior_nul() {
    let cache = initialized();
    assert_eq!(
        open_prepare(&cache, b"au\0to"),
        Err(Error::UrlContainsNul)
    );
}

#[test]
fn open_prepare_fails_fast_on_a_stored_initialization_failure() {
    let mut cache = InitCache::new();
    cache.record(Err("bootstrap failed".to_string()));
    assert_eq!(
        open_prepare(&cache, b"auto"),
        Err(Error::Initialization("bootstrap failed".to_string()))
    );
}

#[test]
fn open_finish_adopts_a_reported_success() {
    let ctx = Context::new(NIX_OK, Vec::new());
    match open_finish(&ctx, 12345) {
        OpenOutcome::Opened(store) => assert_eq!(store.ptr(), 12345),
        _ => panic!("expected the connection to be adopted"),
    }
}

#[test]
fn open_finish_flags_a_null_handle_without_an_error() {
    let ctx = Context::new(NIX_OK, Vec::new());
    assert!(matches!(
        open_finish(&ctx, 0),
        OpenOutcome::NullWithoutError
    ));
}

#[test]
fn open_finish_propagates_a_reported_error() {
    let ctx = Context::new(1, b"unknown scheme".to_vec());
    match open_finish(&ctx, 0) {
        OpenOutcome::Failed(e) => {
            assert_eq!(e, Error::NativeCall(1, "unknown scheme".to_string()))
        }
        _ => panic!("expected the reported error to be propagated"),
    }
}

#[test]
fn get_uri_result_decodes_the_marshaled_bytes() {
    let ctx = Context::new(NIX_OK, Vec::new());
    let uri = get_uri_result(&ctx, b"https://cache.nixos.org").unwrap();
    assert_eq!(uri, "https://cache.nixos.org");
    // What a recognized scheme's URI looks like once the query succeeded.
    assert!(!uri.is_empty());
    assert!(uri.is_ascii());
}

#[test]
fn get_uri_result_checks_the_context_first() {
    let ctx = Context::new(-1, b"connection lost".to_vec());
    assert_eq!(
        get_uri_result(&ctx, b"ignored"),
        Err(Error::NativeCall(-1, "connection lost".to_string()))
    );
}

#[test]
fn get_uri_result_surfaces_a_decoding_error() {
    let ctx = Context::new(NIX_OK, Vec::new());
    assert_eq!(get_uri_result(&ctx, &[0xc0]), Err(Error::TextDecoding));
}

#[test]
fn handles_keep_their_address() {
    let h: Handle<nix_store::path::PathKind> = Handle::adopt(7);
    assert_eq!(h.ptr(), 7);

    let p = StorePath::new_raw(41);
    assert_eq!(p.ptr(), 41);

    let s = StoreRef::adopt(99);
    assert_eq!(s.ptr(), 99);
}
