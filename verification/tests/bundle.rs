use syqure::bundle::{
    bundle_name, default_cache_dir, BundleCache, CacheAction, CacheError, CacheEvent,
    CacheLocations, CacheState,
};
use syqure::relocate::{RelocateError, RelocationSummary};
use syqure::signature::BundleSignature;

fn home_only() -> CacheLocations {
    CacheLocations {
        override_root: None,
        home: Some(String::from("/home/u")),
        temp_dir: Some(String::from("/tmp")),
    }
}

fn cache_for<'a>(payload: &'a [u8]) -> BundleCache<'a> {
    BundleCache::resolve("bundles/x86_64.tar.zst", Some(payload), &home_only()).unwrap()
}

fn summary() -> RelocationSummary {
    RelocationSummary { applied: 0, warnings: Vec::new() }
}

#[test]
fn bundle_is_named_after_its_file() {
    assert_eq!(bundle_name("/build/bundles/aarch64-apple-darwin.tar.zst"), "aarch64-apple-darwin.tar.zst");
    assert_eq!(bundle_name("b.tar.zst"), "b.tar.zst");
    assert_eq!(bundle_name("dir/b/"), "b");
}

#[test]
fn bundle_without_a_file_name_is_called_bundle() {
    assert_eq!(bundle_name(""), "bundle");
    assert_eq!(bundle_name("/"), "bundle");
    assert_eq!(bundle_name("dir/.."), "bundle");
}

#[test]
fn cache_dir_lies_below_the_home_directory() {
    let s = BundleSignature { hash: 0xab, len: 0x10 };
    let dir = default_cache_dir(&home_only(), "b.tar.zst", &s);
    assert_eq!(
        dir.unwrap(),
        "/home/u/.cache/syqure/b.tar.zst/00000000000000ab-0000000000000010"
    );
}

#[test]
fn cache_dir_falls_back_to_the_temporary_directory() {
    let locations = CacheLocations {
        override_root: None,
        home: None,
        temp_dir: Some(String::from("/tmp")),
    };
    let s = BundleSignature { hash: 1, len: 2 };
    let dir = default_cache_dir(&locations, "b", &s);
    assert_eq!(dir.unwrap(), "/tmp/syqure-cache/b/0000000000000001-0000000000000002");
}

#[test]
fn cache_dir_override_is_taken_as_it_is() {
    let locations = CacheLocations {
        override_root: Some(String::from("/srv/cache")),
        home: Some(String::from("/home/u")),
        temp_dir: Some(String::from("/tmp")),
    };
    let a = default_cache_dir(&locations, "b", &BundleSignature { hash: 1, len: 2 });
    let b = default_cache_dir(&locations, "c", &BundleSignature { hash: 3, len: 4 });
    assert_eq!(a.unwrap(), "/srv/cache");
    assert_eq!(b.unwrap(), "/srv/cache");
}

#[test]
fn no_location_gives_no_cache_dir() {
    let locations = CacheLocations { override_root: None, home: None, temp_dir: None };
    assert!(default_cache_dir(&locations, "b", &BundleSignature { hash: 1, len: 2 }).is_none());
}

#[test]
fn resolve_without_bytes_is_bundle_unavailable() {
    let r = BundleCache::resolve("b.tar.zst", None, &home_only());
    assert!(matches!(r, Err(CacheError::BundleUnavailable)));
    let nowhere = CacheLocations { override_root: None, home: None, temp_dir: None };
    let r = BundleCache::resolve("b.tar.zst", None, &nowhere);
    assert!(matches!(r, Err(CacheError::BundleUnavailable)));
}

#[test]
fn resolve_without_any_location_is_no_home_directory() {
    let nowhere = CacheLocations { override_root: None, home: None, temp_dir: None };
    let r = BundleCache::resolve("b.tar.zst", Some(b"payload"), &nowhere);
    assert!(matches!(r, Err(CacheError::NoHomeDirectory)));
}

#[test]
fn resolve_names_the_entry_by_bundle_and_signature() {
    let cache = cache_for(b"foobar");
    assert_eq!(
        cache.entry(),
        "/home/u/.cache/syqure/x86_64.tar.zst/85944171f73967e8-0000000000000006"
    );
    assert_eq!(
        cache.toolchain_root(),
        "/home/u/.cache/syqure/x86_64.tar.zst/85944171f73967e8-0000000000000006/lib/codon"
    );
    assert_eq!(
        cache.staging(),
        "/home/u/.cache/syqure/x86_64.tar.zst/85944171f73967e8-0000000000000006.partial"
    );
}

#[test]
fn identical_payloads_resolve_to_one_entry() {
    let a = vec![1u8, 2, 3, 4, 5];
    let b = vec![1u8, 2, 3, 4, 5];
    assert_eq!(cache_for(&a).entry(), cache_for(&b).entry());
    assert_eq!(cache_for(&a).toolchain_root(), cache_for(&b).toolchain_root());
}

#[test]
fn distinct_payloads_resolve_to_distinct_entries() {
    let a = vec![1u8, 2, 3, 4, 5];
    let b = vec![1u8, 2, 3, 4, 6];
    let c = vec![1u8, 2, 3, 4, 5, 0];
    assert_ne!(cache_for(&a).entry(), cache_for(&b).entry());
    assert_ne!(cache_for(&a).entry(), cache_for(&c).entry());
    assert_ne!(cache_for(&a).toolchain_root(), cache_for(&b).toolchain_root());
    assert_ne!(cache_for(&a).staging(), cache_for(&b).staging());
}

#[test]
fn staging_directory_is_a_sibling_of_the_entry() {
    let locations = CacheLocations {
        override_root: Some(String::from("/srv/cache/")),
        home: None,
        temp_dir: None,
    };
    let cache = BundleCache::resolve("b", Some(b"x"), &locations).unwrap();
    assert_eq!(cache.entry(), "/srv/cache/");
    assert_eq!(cache.staging(), "/srv/cache.partial");
    assert_eq!(cache.toolchain_root(), "/srv/cache/lib/codon");
}

#[test]
fn staging_begins_with_a_probe_of_the_toolchain_directory() {
    let cache = cache_for(b"foobar");
    let (state, action) = cache.begin();
    assert_eq!(state, CacheState::Probing);
    match action {
        CacheAction::Probe { target } => assert_eq!(target, cache.toolchain_root()),
        other => panic!("unexpected action {:?}", other),
    }
}

#[test]
fn ready_entry_is_returned_at_once() {
    let cache = cache_for(b"foobar");
    let (state, _) = cache.begin();
    let (state, action) = cache.advance(state, &CacheEvent::TargetProbed { present: true }).unwrap();
    assert_eq!(state, CacheState::Finished);
    match action {
        CacheAction::Finish(Ok(root)) => assert_eq!(root, cache.toolchain_root()),
        other => panic!("unexpected action {:?}", other),
    }
}

#[test]
fn missing_entry_is_unpacked_relocated_and_published() {
    let cache = cache_for(b"foobar");
    let (state, _) = cache.begin();
    let (state, action) =
        cache.advance(state, &CacheEvent::TargetProbed { present: false }).unwrap();
    assert_eq!(state, CacheState::Unpacking);
    match action {
        CacheAction::Unpack { into } => assert_eq!(into, cache.staging()),
        other => panic!("unexpected action {:?}", other),
    }
    let (state, action) = cache.advance(state, &CacheEvent::Unpacked(Ok(()))).unwrap();
    assert_eq!(state, CacheState::Relocating);
    match action {
        CacheAction::Relocate { root } => {
            assert_eq!(root, format!("{}/lib/codon", cache.staging()))
        }
        other => panic!("unexpected action {:?}", other),
    }
    let (state, action) = cache.advance(state, &CacheEvent::Relocated(Ok(summary()))).unwrap();
    assert_eq!(state, CacheState::Publishing);
    match action {
        CacheAction::Publish { from, to } => {
            assert_eq!(from, cache.staging());
            assert_eq!(to, cache.entry());
        }
        other => panic!("unexpected action {:?}", other),
    }
    let (state, action) = cache.advance(state, &CacheEvent::Published(Ok(()))).unwrap();
    assert_eq!(state, CacheState::Finished);
    match action {
        CacheAction::Finish(Ok(root)) => assert_eq!(root, cache.toolchain_root()),
        other => panic!("unexpected action {:?}", other),
    }
}

fn expect_failure(step: Option<(CacheState, CacheAction)>, expected: &str) {
    let (state, action) = step.unwrap();
    assert_eq!(state, CacheState::Finished);
    match action {
        CacheAction::Finish(Err(CacheError::ExtractionFailed { reason })) => {
            assert_eq!(reason, expected)
        }
        other => panic!("unexpected action {:?}", other),
    }
}

#[test]
fn failed_unpacking_is_fatal() {
    let cache = cache_for(b"foobar");
    let event = CacheEvent::Unpacked(Err(String::from("disk full")));
    expect_failure(cache.advance(CacheState::Unpacking, &event), "disk full");
}

#[test]
fn failed_relocation_is_fatal() {
    let cache = cache_for(b"foobar");
    let error = RelocateError::PatchFailed {
        library: String::from("libcodonrt.dylib"),
        reason: String::from("exit status 1"),
    };
    let event = CacheEvent::Relocated(Err(error));
    expect_failure(
        cache.advance(CacheState::Relocating, &event),
        "relocation failed while patching libcodonrt.dylib: exit status 1",
    );
}

#[test]
fn failed_publishing_is_fatal() {
    let cache = cache_for(b"foobar");
    let event = CacheEvent::Published(Err(String::from("permission denied")));
    expect_failure(cache.advance(CacheState::Publishing, &event), "permission denied");
}

#[test]
fn event_that_answers_nothing_is_refused() {
    let cache = cache_for(b"foobar");
    let probed = CacheEvent::TargetProbed { present: true };
    assert!(cache.advance(CacheState::Unpacking, &probed).is_none());
    assert!(cache.advance(CacheState::Relocating, &probed).is_none());
    assert!(cache.advance(CacheState::Publishing, &probed).is_none());
    assert!(cache.advance(CacheState::Finished, &probed).is_none());
    assert!(cache.advance(CacheState::Probing, &CacheEvent::Unpacked(Ok(()))).is_none());
    assert!(cache.advance(CacheState::Probing, &CacheEvent::Published(Ok(()))).is_none());
    assert!(cache.advance(CacheState::Finished, &CacheEvent::Relocated(Ok(summary()))).is_none());
    assert!(cache.advance(CacheState::Unpacking, &CacheEvent::Published(Ok(()))).is_none());
}

fn count_unpacks(cache: &BundleCache, events: &[CacheEvent]) -> usize {
    let (mut state, _) = cache.begin();
    let mut unpacks = 0;
    for event in events {
        match cache.advance(state, event) {
            Some((next, action)) => {
                if matches!(action, CacheAction::Unpack { .. }) {
                    unpacks += 1;
                }
                state = next;
            }
            None => break,
        }
    }
    unpacks
}

#[test]
fn two_runs_in_a_row_unpack_once() {
    let cache = cache_for(b"foobar");
    let first = [
        CacheEvent::TargetProbed { present: false },
        CacheEvent::Unpacked(Ok(())),
        CacheEvent::Relocated(Ok(summary())),
        CacheEvent::Published(Ok(())),
    ];
    let second = [CacheEvent::TargetProbed { present: true }];
    assert_eq!(count_unpacks(&cache, &first), 1);
    assert_eq!(count_unpacks(&cache, &second), 0);
}

#[test]
fn archive_is_the_decompressed_payload() {
    let plain: Vec<u8> = (0..20_000u32).map(|i| (i % 251) as u8).collect();
    let packed = zstd::stream::encode_all(&plain[..], 0).unwrap();
    assert_ne!(packed, plain);
    let cache = BundleCache::resolve("b.tar.zst", Some(&packed), &home_only()).unwrap();
    assert_eq!(cache.archive().unwrap(), plain);
}

#[test]
fn archive_of_an_empty_frame_is_empty() {
    let packed = zstd::stream::encode_all(&b""[..], 0).unwrap();
    let cache = BundleCache::resolve("b.tar.zst", Some(&packed), &home_only()).unwrap();
    assert_eq!(cache.archive().unwrap(), Vec::<u8>::new());
}

#[test]
fn archive_of_a_corrupt_payload_is_an_extraction_failure() {
    let cache = cache_for(b"this is not a compressed archive");
    assert!(matches!(cache.archive(), Err(CacheError::ExtractionFailed { .. })));
}

#[test]
fn archive_of_a_truncated_payload_is_an_extraction_failure() {
    let plain: Vec<u8> = (0..20_000u32).map(|i| (i % 251) as u8).collect();
    let packed = zstd::stream::encode_all(&plain[..], 0).unwrap();
    let cut = &packed[..packed.len() / 2];
    let cache = BundleCache::resolve("b.tar.zst", Some(cut), &home_only()).unwrap();
    assert!(matches!(cache.archive(), Err(CacheError::ExtractionFailed { .. })));
}

#[test]
fn cache_errors_have_messages() {
    assert_eq!(CacheError::NoHomeDirectory.message(), "cannot determine cache directory");
    assert_eq!(CacheError::BundleUnavailable.message(), "bundle bytes are unavailable");
    let e = CacheError::ExtractionFailed { reason: String::from("truncated archive") };
    assert_eq!(e.message(), "bundle extraction failed: truncated archive");
    assert_eq!(e.clone().message(), e.message());
}

#[test]
fn payloads_with_one_signature_share_an_entry() {
    let a = [0xc1u8, 0xdb, 0x7e, 0x98, 0xcf, 0x0f, 0xd5, 0xc9];
    let b = [0x28u8, 0x7b, 0x80, 0xc0, 0xea, 0xf0, 0x49, 0x68];
    assert_eq!(cache_for(&a).entry(), cache_for(&b).entry());
}

#[test]
fn override_is_shared_by_all_payloads() {
    let locations = CacheLocations {
        override_root: Some(String::from("/srv/cache")),
        home: Some(String::from("/home/u")),
        temp_dir: None,
    };
    let a = BundleCache::resolve("b", Some(b"one"), &locations).unwrap();
    let b = BundleCache::resolve("b", Some(b"two"), &locations).unwrap();
    assert_eq!(a.entry(), b.entry());
    assert_eq!(a.toolchain_root(), "/srv/cache/lib/codon");
}
