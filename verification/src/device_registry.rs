//! Ownership of connected sessions.
//!
//! The registry alone knows whether a session is fixed or is found again after
//! it was lost. Callers run an operation against a leased session; dropping a
//! lost session and connecting again stay behind this interface.

use crate::provider;
use crate::provider::{provider_rpc_error, ProviderError};
use crate::rpc_error::{ErrorCode, RpcError, RpcErrorView};
use crate::text::same_text;
use std::sync::Arc;
use vstd::prelude::*;

verus! {

/// A session, with the number of the connection that made it.
pub struct SessionLease<T> {
    pub generation: u64,
    pub value: Arc<T>,
}

/// Compares two references to shared values by `Arc::ptr_eq`, which holds when both
/// point to the same allocation and so to the same value. Nothing is known of it
/// otherwise: equal values can lie in different places.
#[verifier::external_body]
fn same_place<T>(left: &Arc<T>, right: &Arc<T>) -> (same: bool)
    ensures
        same ==> **left == **right,
{
    Arc::ptr_eq(left, right)
}

impl<T> SessionLease<T> {
    /// Another lease of the same session.
    pub fn share(&self) -> (lease: Self)
        ensures
            lease == *self,
    {
        SessionLease { generation: self.generation, value: self.value.clone() }
    }
}

/// The latest session, as long as it is online.
pub struct SessionCache<T> {
    generation: u64,
    current: Option<SessionLease<T>>,
}

/// The number of the connection after another; the range wraps around.
pub open spec fn next_generation(generation: u64) -> u64 {
    if generation == u64::MAX {
        0
    } else {
        (generation + 1) as u64
    }
}

impl<T> SessionCache<T> {
    /// The number of the latest connection.
    pub closed spec fn generation(&self) -> u64 {
        self.generation
    }

    /// The session that is kept.
    pub closed spec fn current(&self) -> Option<SessionLease<T>> {
        self.current
    }

    /// A cache that has never connected.
    pub fn new() -> (cache: Self)
        ensures
            cache.generation() == 0,
            cache.current() is None,
    {
        SessionCache { generation: 0, current: None }
    }

    /// Leases the kept session if it is online; no connection is made then. Otherwise
    /// it is dropped and one connection is made, which is kept only if it is online.
    pub fn acquire<E, C: FnOnce() -> Result<T, E>, O: Fn(&T) -> bool>(
        &mut self,
        connect: C,
        is_online: O,
    ) -> (lease: Result<SessionLease<T>, E>)
        requires
            (old(self).current() matches Some(kept) ==> is_online.ensures((&*kept.value,), false))
                ==> connect.requires(()),
            forall|value: &T| is_online.requires((value,)),
        ensures
            acquired(
                *old(self),
                *final(self),
                |result: Result<T, E>| connect.ensures((), result),
                |value: T, online: bool| is_online.ensures((&value,), online),
                lease,
            ),
    {
        if let Some(current) = &self.current {
            if is_online(&*current.value) {
                let lease = current.share();
                assert(self.current == Some(lease));
                return Ok(lease);
            }
        }
        self.current = None;
        let value = match connect() {
            Ok(value) => Arc::new(value),
            Err(error) => {
                return Err(error);
            },
        };
        self.generation = self.generation.wrapping_add(1);
        let lease = SessionLease { generation: self.generation, value };
        if is_online(&*lease.value) {
            self.current = Some(lease.share());
        }
        Ok(lease)
    }

    /// Drops the kept session if it is the one that failed. A failure of an earlier
    /// session leaves a later one alone, and so does one of a session that lies
    /// elsewhere.
    pub fn invalidate(&mut self, failed: &SessionLease<T>)
        ensures
            exists|same: bool|
                #![trigger invalidated(*old(self), *failed, same, *final(self))]
                invalidated(*old(self), *failed, same, *final(self)) && (same ==> (
                old(self).current() matches Some(kept) && *kept.value == *failed.value)),
    {
        let same = match &self.current {
            Some(current) => same_place(&current.value, &failed.value),
            None => false,
        };
        self.invalidate_as(failed, same);
        assert(invalidated(*old(self), *failed, same, *self));
    }

    /// Drops the kept session if it is of the connection that failed and is, as is
    /// told, the very session.
    pub fn invalidate_as(&mut self, failed: &SessionLease<T>, same: bool)
        ensures
            invalidated(*old(self), *failed, same, *final(self)),
    {
        let matches = match &self.current {
            Some(current) => current.generation == failed.generation && same,
            None => false,
        };
        if matches {
            self.current = None;
        }
    }
}

/// What a failure makes of a cache: only the very session that failed is dropped.
pub open spec fn invalidated<T>(
    before: SessionCache<T>,
    failed: SessionLease<T>,
    same: bool,
    after: SessionCache<T>,
) -> bool {
    &&& after.generation() == before.generation()
    &&& after.current() == (match before.current() {
        Some(kept) => if kept.generation == failed.generation && same {
            None
        } else {
            Some(kept)
        },
        None => None,
    })
}

/// Whether a lease can have come about so: the kept session if it was online,
/// else that of one new connection.
pub open spec fn acquired<T, E>(
    before: SessionCache<T>,
    after: SessionCache<T>,
    connected: spec_fn(Result<T, E>) -> bool,
    online: spec_fn(T, bool) -> bool,
    lease: Result<SessionLease<T>, E>,
) -> bool {
    ||| {
        &&& before.current() matches Some(kept)
        &&& online(*kept.value, true)
        &&& lease == Ok::<_, E>(kept)
        &&& after == before
    }
    ||| {
        &&& before.current() matches Some(kept) ==> online(*kept.value, false)
        &&& match lease {
            Err(error) => connected(Err(error)) && after.generation() == before.generation()
                && after.current() is None,
            Ok(made) => {
                &&& connected(Ok(*made.value))
                &&& made.generation == next_generation(before.generation())
                &&& after.generation() == made.generation
                &&& (after.current() == Some(made) && online(*made.value, true)) || (
                after.current() is None && online(*made.value, false))
            },
        }
    }
}

/// Where sessions come from.
pub enum RegistrySource<T> {
    /// One fixed session.
    Direct(Arc<T>),
    /// A session that is connected when it is needed.
    Usb(SessionCache<T>),
}

/// The owner of the sessions.
pub struct DeviceRegistry<T> {
    source: RegistrySource<T>,
}

/// Whether an error says that the link to the device is gone.
pub open spec fn link_unavailable(error: RpcErrorView) -> bool {
    error.code == ErrorCode::ServerNotReady && error.message == "Device link is unavailable"@
}

/// Whether an error says that the link to the device is gone. An error of the
/// device itself says something else.
pub fn is_link_unavailable(error: &RpcError) -> (unavailable: bool)
    ensures
        unavailable == link_unavailable(error@),
{
    match error.code {
        ErrorCode::ServerNotReady => same_text(
            error.message.as_str(),
            "Device link is unavailable",
        ),
        _ => false,
    }
}

impl<T> DeviceRegistry<T> {
    /// Where the sessions come from.
    pub closed spec fn source(&self) -> RegistrySource<T> {
        self.source
    }

    /// A registry of one fixed session.
    pub fn direct(session: Arc<T>) -> (registry: Self)
        ensures
            registry.source() == RegistrySource::Direct(session),
    {
        DeviceRegistry { source: RegistrySource::Direct(session) }
    }

    /// A registry that connects when a session is needed.
    pub fn connect_usb() -> (registry: Self)
        ensures
            registry.source() matches RegistrySource::Usb(cache) && cache.generation() == 0
                && cache.current() is None,
    {
        DeviceRegistry { source: RegistrySource::Usb(SessionCache::new()) }
    }

    /// Runs an operation once on a leased session. A fixed session and one that is kept
    /// and online need no connection. When the operation fails because the link is gone
    /// the session is dropped; the operation is not run again.
    pub fn rpc<
        R,
        C: FnOnce() -> Result<T, ProviderError>,
        O: Fn(&T) -> bool,
        F: FnOnce(&T) -> Result<R, RpcError>,
    >(&mut self, connect: C, is_online: O, operation: F) -> (result: Result<R, RpcError>)
        requires
            old(self).source() matches RegistrySource::Usb(cache) ==> ((
            cache.current() matches Some(kept) ==> is_online.ensures((&*kept.value,), false))
                ==> connect.requires(())),
            forall|value: &T| is_online.requires((value,)),
            forall|value: &T| operation.requires((value,)),
        ensures
            match old(self).source() {
                RegistrySource::Direct(session) => {
                    &&& final(self).source() == old(self).source()
                    &&& operation.ensures((&*session,), result)
                },
                RegistrySource::Usb(before) => {
                    &&& final(self).source() matches RegistrySource::Usb(after)
                    &&& rpc_through(
                        before,
                        after,
                        |outcome: Result<T, ProviderError>| connect.ensures((), outcome),
                        |value: T, online: bool| is_online.ensures((&value,), online),
                        |value: T, outcome: Result<R, RpcError>|
                            operation.ensures((&value,), outcome),
                        result,
                    )
                },
            },
    {
        match &mut self.source {
            RegistrySource::Direct(session) => operation(&**session),
            RegistrySource::Usb(sessions) => {
                let ghost before = *sessions;
                let leased = sessions.acquire(connect, is_online);
                let ghost held = *sessions;
                let ghost connected = |outcome: Result<T, ProviderError>|
                    connect.ensures((), outcome);
                let ghost online = |value: T, on: bool| is_online.ensures((&value,), on);
                assert(acquired(before, held, connected, online, leased));
                match leased {
                    Err(error) => Err(provider_rpc_error(error)),
                    Ok(lease) => {
                        let result = operation(&*lease.value);
                        let lost = match &result {
                            Ok(_) => false,
                            Err(error) => is_link_unavailable(error),
                        };
                        if lost {
                            // The lease has just come from this cache.
                            sessions.invalidate_as(&lease, true);
                        }
                        result
                    },
                }
            },
        }
    }
}

/// Whether an operation through a session cache can have ended so.
pub open spec fn rpc_through<T, R>(
    before: SessionCache<T>,
    after: SessionCache<T>,
    connected: spec_fn(Result<T, ProviderError>) -> bool,
    online: spec_fn(T, bool) -> bool,
    operated: spec_fn(T, Result<R, RpcError>) -> bool,
    result: Result<R, RpcError>,
) -> bool {
    exists|held: SessionCache<T>, leased: Result<SessionLease<T>, ProviderError>| #[trigger]
        acquired(before, held, connected, online, leased) && match leased {
            Err(error) => after == held && (result matches Err(sent) && sent@
                == provider::public_error(error@)),
            Ok(lease) => {
                &&& operated(*lease.value, result)
                &&& if result matches Err(error) && link_unavailable(error@) {
                    after.generation() == held.generation() && after.current() is None
                } else {
                    after == held
                }
            },
        }
}

/// A kept session that is online is leased again as it is, and nothing changes. No
/// connection has a part in it, so none is needed.
pub proof fn online_sessions_need_no_connection<T, E>(
    before: SessionCache<T>,
    after: SessionCache<T>,
    connected: spec_fn(Result<T, E>) -> bool,
    online: spec_fn(T, bool) -> bool,
    lease: Result<SessionLease<T>, E>,
)
    requires
        acquired(before, after, connected, online, lease),
        before.current() matches Some(kept) && !online(*kept.value, false),
    ensures
        after == before,
        lease == Ok::<_, E>(before.current()->Some_0),
        acquired(before, after, |result: Result<T, E>| false, online, lease),
{
}

/// However often a session that stays online is leased, one connection is made: the
/// first lease makes it, if there was none, and every later one is the same lease.
pub proof fn leases_share_one_connection<T, E>(
    caches: Seq<SessionCache<T>>,
    leases: Seq<SessionLease<T>>,
    connected: spec_fn(Result<T, E>) -> bool,
    online: spec_fn(T, bool) -> bool,
)
    requires
        leases.len() > 0,
        caches.len() == leases.len() + 1,
        forall|value: T| !#[trigger] online(value, false),
        forall|i: int|
            0 <= i < leases.len() ==> acquired(
                caches[i],
                #[trigger] caches[i + 1],
                connected,
                online,
                Ok::<_, E>(leases[i]),
            ),
    ensures
        forall|i: int| 0 <= i < leases.len() ==> #[trigger] leases[i] == leases[0],
        forall|i: int|
            1 <= i < leases.len() ==> acquired(
                caches[i],
                #[trigger] caches[i + 1],
                |result: Result<T, E>| false,
                online,
                Ok::<_, E>(leases[i]),
            ),
        caches.last().generation() == caches[1].generation(),
    decreases leases.len(),
{
    let last = leases.len() - 1;
    assert(acquired(caches[0], caches[0int + 1], connected, online, Ok::<_, E>(leases[0])));
    assert(acquired(caches[last], caches[last + 1], connected, online, Ok::<_, E>(leases[last])));
    if last > 0 {
        let fewer = leases.drop_last();
        let shorter = caches.drop_last();
        assert forall|i: int| 0 <= i < fewer.len() implies acquired(
            shorter[i],
            #[trigger] shorter[i + 1],
            connected,
            online,
            Ok::<_, E>(fewer[i]),
        ) by {
            assert(shorter[i + 1] == caches[i + 1]);
        }
        leases_share_one_connection(shorter, fewer, connected, online);
        kept_after_lease(
            caches[last - 1],
            caches[last - 1 + 1],
            connected,
            online,
            leases[last - 1],
        );
        online_sessions_need_no_connection(
            caches[last],
            caches[last + 1],
            connected,
            online,
            Ok::<_, E>(leases[last]),
        );
        assert forall|i: int| 0 <= i < leases.len() implies #[trigger] leases[i] == leases[0] by {
            if i < last {
                assert(fewer[i] == fewer[0]);
            } else {
                assert(fewer[last - 1] == fewer[0]);
            }
        }
        assert forall|i: int| 1 <= i < leases.len() implies acquired(
            caches[i],
            #[trigger] caches[i + 1],
            |result: Result<T, E>| false,
            online,
            Ok::<_, E>(leases[i]),
        ) by {
            if i < last {
                assert(shorter[i + 1] == caches[i + 1]);
                assert(acquired(
                    shorter[i],
                    shorter[i + 1],
                    |result: Result<T, E>| false,
                    online,
                    Ok::<_, E>(fewer[i]),
                ));
            }
        }
        assert(shorter.last() == caches[last]);
    }
}

proof fn kept_after_lease<T, E>(
    before: SessionCache<T>,
    after: SessionCache<T>,
    connected: spec_fn(Result<T, E>) -> bool,
    online: spec_fn(T, bool) -> bool,
    lease: SessionLease<T>,
)
    requires
        acquired(before, after, connected, online, Ok::<_, E>(lease)),
        !online(*lease.value, false),
    ensures
        after.current() == Some(lease),
{
}

/// A failure of an earlier session cannot drop a later one: once a new connection has
/// taken the place of a dropped session, the old lease changes nothing, wherever its
/// session lies.
pub proof fn stale_failures_leave_newer_sessions<T, E>(
    dropped: SessionCache<T>,
    first: SessionLease<T>,
    renewed: SessionCache<T>,
    second: SessionLease<T>,
    connected: spec_fn(Result<T, E>) -> bool,
    online: spec_fn(T, bool) -> bool,
    same: bool,
    after: SessionCache<T>,
)
    requires
        dropped.generation() == first.generation,
        dropped.current() is None,
        acquired(dropped, renewed, connected, online, Ok::<_, E>(second)),
        !online(*second.value, false),
        invalidated(renewed, first, same, after),
    ensures
        second.generation == next_generation(first.generation),
        after.generation() == second.generation,
        after.current() == Some(second),
{
}

/// A session whose link is gone is not used again, and one that only answered with an
/// error is kept: the next request leases it once more if it is online.
pub proof fn lost_links_are_dropped<T, R>(
    before: SessionCache<T>,
    after: SessionCache<T>,
    connected: spec_fn(Result<T, ProviderError>) -> bool,
    online: spec_fn(T, bool) -> bool,
    operated: spec_fn(T, Result<R, RpcError>) -> bool,
    result: Result<R, RpcError>,
)
    requires
        rpc_through(before, after, connected, online, operated, result),
    ensures
        result matches Err(error) ==> (error@.code == ErrorCode::ServerNotReady && error@.message
            == "Device link is unavailable"@ ==> after.current() is None
            || exists|made: Result<T, ProviderError>| made is Err && #[trigger] connected(made)),
        before.current() matches Some(kept) ==> (!online(*kept.value, false) ==> {
            &&& operated(*kept.value, result)
            &&& after.generation() == before.generation()
            &&& result is Ok ==> after == before
            &&& result matches Err(error) ==> error@.code != ErrorCode::ServerNotReady ==> after
                == before
        }),
        result is Ok ==> exists|value: T| #[trigger] operated(value, result),
{
}

/// Who asks while there is no session and none can be opened is told so, in the form that
/// clients may read, and nothing is kept.
pub proof fn failed_connections_are_told<T, R>(
    before: SessionCache<T>,
    after: SessionCache<T>,
    connected: spec_fn(Result<T, ProviderError>) -> bool,
    online: spec_fn(T, bool) -> bool,
    operated: spec_fn(T, Result<R, RpcError>) -> bool,
    result: Result<R, RpcError>,
)
    requires
        rpc_through(before, after, connected, online, operated, result),
        before.current() is None,
        forall|made: Result<T, ProviderError>| #[trigger] connected(made) ==> made is Err,
    ensures
        after.current() is None,
        after.generation() == before.generation(),
        result matches Err(sent) && exists|error: ProviderError| #[trigger]
            connected(Err::<T, ProviderError>(error)) && sent@ == provider::public_error(error@),
{
    let (held, leased) = choose|
        held: SessionCache<T>,
        leased: Result<SessionLease<T>, ProviderError>,
    | #[trigger]
        acquired(before, held, connected, online, leased) && match leased {
            Err(error) => after == held && (result matches Err(sent) && sent@
                == provider::public_error(error@)),
            Ok(lease) => {
                &&& operated(*lease.value, result)
                &&& if result matches Err(error) && link_unavailable(error@) {
                    after.generation() == held.generation() && after.current() is None
                } else {
                    after == held
                }
            },
        };
    match leased {
        Ok(lease) => {
            assert(connected(Ok(*lease.value)));
        },
        Err(error) => {
            assert(connected(Err::<T, ProviderError>(error)));
        },
    }
}

} // verus!
