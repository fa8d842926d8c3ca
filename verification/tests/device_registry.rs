use std::sync::atomic::{AtomicBool, AtomicUsize, Ordering};
use std::sync::Arc;

use kindlebridge::device_registry::{is_link_unavailable, DeviceRegistry, SessionCache};
use kindlebridge::provider::ProviderError;
use kindlebridge::rpc_error::{ErrorCode, RpcError};

struct FakeSession {
    online: AtomicBool,
    id: usize,
}

#[test]
fn stale_failure_cannot_invalidate_a_new_generation() {
    let mut cache = SessionCache::new();
    let connects = AtomicUsize::new(0);
    let connect = || {
        let id = connects.fetch_add(1, Ordering::AcqRel);
        Ok::<_, ()>(FakeSession {
            online: AtomicBool::new(true),
            id,
        })
    };
    let first = cache
        .acquire(connect, |session: &FakeSession| {
            session.online.load(Ordering::Acquire)
        })
        .unwrap();
    cache.invalidate(&first);
    let second = cache
        .acquire(connect, |session: &FakeSession| {
            session.online.load(Ordering::Acquire)
        })
        .unwrap();

    cache.invalidate(&first);
    let current = cache
        .acquire(connect, |session: &FakeSession| {
            session.online.load(Ordering::Acquire)
        })
        .unwrap();

    assert_eq!(current.generation, second.generation);
    assert_eq!(current.value.id, second.value.id);
    assert_eq!(connects.load(Ordering::Acquire), 2);
}

#[test]
fn a_lease_of_another_cache_drops_nothing() {
    let mut cache = SessionCache::new();
    let mut other = SessionCache::new();
    let online = |_: &u8| true;
    let kept = cache.acquire(|| Ok::<_, ()>(7), online).unwrap();
    let foreign = other.acquire(|| Ok::<_, ()>(7), online).unwrap();
    assert_eq!(kept.generation, foreign.generation);
    cache.invalidate(&foreign);
    let again = cache
        .acquire(|| -> Result<u8, ()> { panic!("connected again") }, online)
        .unwrap();
    assert!(Arc::ptr_eq(&again.value, &kept.value));
    cache.invalidate(&kept);
    let renewed = cache.acquire(|| Ok::<_, ()>(8), online).unwrap();
    assert_eq!((renewed.generation, *renewed.value), (2, 8));
    cache.invalidate_as(&renewed, false);
    cache.invalidate_as(&kept, true);
    assert_eq!(cache.acquire(|| Err(()), online).unwrap().generation, 2);
    cache.invalidate_as(&renewed, true);
    assert!(cache.acquire(|| Err(()), online).is_err());
}

#[test]
fn a_session_that_stays_online_is_connected_once() {
    let mut cache = SessionCache::new();
    let connects = AtomicUsize::new(0);
    let first = cache
        .acquire(
            || Ok::<_, ()>(connects.fetch_add(1, Ordering::AcqRel)),
            |_: &usize| true,
        )
        .unwrap();
    for _ in 0..16 {
        let lease = cache
            .acquire(
                || Ok::<_, ()>(connects.fetch_add(1, Ordering::AcqRel)),
                |_: &usize| true,
            )
            .unwrap();
        assert_eq!(lease.generation, first.generation);
        assert!(Arc::ptr_eq(&lease.value, &first.value));
    }
    assert_eq!(connects.load(Ordering::Acquire), 1);
}

#[test]
fn offline_discovery_is_not_cached() {
    let mut cache = SessionCache::new();
    let connects = AtomicUsize::new(0);
    let connect = || {
        let id = connects.fetch_add(1, Ordering::AcqRel);
        Ok::<_, ()>(FakeSession {
            online: AtomicBool::new(id > 0),
            id,
        })
    };

    assert_eq!(
        cache
            .acquire(connect, |session: &FakeSession| session
                .online
                .load(Ordering::Acquire))
            .unwrap()
            .value
            .id,
        0
    );
    assert_eq!(
        cache
            .acquire(connect, |session: &FakeSession| session
                .online
                .load(Ordering::Acquire))
            .unwrap()
            .value
            .id,
        1
    );
    assert_eq!(connects.load(Ordering::Acquire), 2);
}

#[test]
fn failed_operation_is_not_replayed_and_remote_error_is_not_a_link_failure() {
    let mut registry = DeviceRegistry::direct(Arc::new(()));
    let calls = AtomicUsize::new(0);

    let result: Result<(), RpcError> = registry.rpc(
        || Err(ProviderError::new("not needed")),
        |_: &()| true,
        |_: &()| {
            calls.fetch_add(1, Ordering::AcqRel);
            Err(RpcError::new(
                ErrorCode::ServerNotReady,
                "Remote daemon is busy",
            ))
        },
    );

    let error = result.unwrap_err();
    assert_eq!(error.code, ErrorCode::ServerNotReady);
    assert_eq!(error.message, "Remote daemon is busy");
    assert_eq!(calls.load(Ordering::Acquire), 1);
    assert!(!is_link_unavailable(&error));
}

#[test]
fn a_lost_link_drops_the_session_and_the_next_call_connects_again() {
    let mut registry = DeviceRegistry::connect_usb();
    let connects = AtomicUsize::new(0);
    let connect = || {
        connects.fetch_add(1, Ordering::AcqRel);
        Ok::<(), ProviderError>(())
    };
    let lost: Result<(), RpcError> = registry.rpc(
        connect,
        |_: &()| true,
        |_: &()| {
            Err(RpcError::new(
                ErrorCode::ServerNotReady,
                "Device link is unavailable",
            ))
        },
    );
    assert!(is_link_unavailable(&lost.unwrap_err()));
    let fine: Result<u8, RpcError> = registry.rpc(connect, |_: &()| true, |_: &()| Ok(7));
    assert_eq!(fine.unwrap(), 7);
    let kept: Result<u8, RpcError> = registry.rpc(connect, |_: &()| true, |_: &()| Ok(8));
    assert_eq!(kept.unwrap(), 8);
    assert_eq!(connects.load(Ordering::Acquire), 2);
}

#[test]
fn a_failed_connection_is_reported_without_its_private_details() {
    let mut registry: DeviceRegistry<()> = DeviceRegistry::connect_usb();
    let result: Result<(), RpcError> = registry.rpc(
        || Err(ProviderError::new("/dev/secret")),
        |_: &()| true,
        |_: &()| Ok(()),
    );
    assert_eq!(result.unwrap_err().message, "Server not ready");
}
