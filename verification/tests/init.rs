use nix_store::error::Error;
use nix_store::init::InitCache;

#[test]
fn fresh_cache_asks_for_the_bootstrap() {
    let cache = InitCache::new();
    assert!(cache.needs_bootstrap());
}

#[test]
fn recorded_success_is_served_and_never_recomputed() {
    let mut cache = InitCache::new();
    assert!(cache.needs_bootstrap());

    cache.record(Ok(()));

    // Re-running the initialization concept: the bootstrap is never asked
    // for again, and every consultation observes the recorded outcome.
    assert!(!cache.needs_bootstrap());
    assert_eq!(cache.consult(), Ok(()));
    assert!(!cache.needs_bootstrap());
    assert_eq!(cache.consult(), Ok(()));
}

#[test]
fn recorded_failure_is_served_with_its_description() {
    let mut cache = InitCache::new();
    cache.record(Err("no daemon".to_string()));

    assert!(!cache.needs_bootstrap());
    assert_eq!(
        cache.consult(),
        Err(Error::Initialization("no daemon".to_string()))
    );
    // The stored description is identical on every later consultation.
    assert_eq!(
        cache.consult(),
        Err(Error::Initialization("no daemon".to_string()))
    );
}
