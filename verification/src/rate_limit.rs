//! Limiting the number of requests that an address may make.

use std::collections::HashMap;
use vstd::prelude::*;

verus! {

broadcast use vstd::std_specs::hash::group_hash_axioms;

/// The address that a request comes from, as its number.
#[derive(Debug, Clone, Copy, PartialEq, Eq, Structural)]
pub enum ClientIp {
    V4(u32),
    V6(u128),
}

/// The requests of an address in the window that began at `start`, in seconds.
#[derive(Debug, Clone, Copy)]
pub struct Window {
    pub start: u64,
    pub count: u32,
}

/// Counts the requests of each address. In a window of `window_secs` seconds,
/// which begins with a request, an address may make `limit` requests.
pub struct RateLimitStore {
    pub limit: u32,
    pub window_secs: u64,
    pub v4: HashMap<u32, Window>,
    pub v6: HashMap<u128, Window>,
}

impl RateLimitStore {
    /// The window of an address, if it has made a request.
    pub open spec fn window(self, ip: ClientIp) -> Option<Window> {
        match ip {
            ClientIp::V4(n) => if self.v4@.contains_key(n) {
                Some(self.v4@[n])
            } else {
                None
            },
            ClientIp::V6(n) => if self.v6@.contains_key(n) {
                Some(self.v6@[n])
            } else {
                None
            },
        }
    }

    /// A store in which no address has made a request.
    pub fn new(limit: u32, window_secs: u64) -> (store: RateLimitStore)
        ensures
            store.limit == limit,
            store.window_secs == window_secs,
            forall|ip: ClientIp| #[trigger] store.window(ip) is None,
    {
        RateLimitStore { limit, window_secs, v4: HashMap::new(), v6: HashMap::new() }
    }

    /// Counts a request that comes at `now`, in seconds, and tells whether it is
    /// allowed. The windows of the other addresses stay as they are.
    pub fn check_and_increment(&mut self, ip: ClientIp, now: u64) -> (allowed: bool)
        ensures
            final(self).limit == old(self).limit,
            final(self).window_secs == old(self).window_secs,
            final(self).window(ip) == Some(
                after_request(old(self).window(ip), old(self).limit, old(self).window_secs, now).0,
            ),
            allowed == after_request(
                old(self).window(ip),
                old(self).limit,
                old(self).window_secs,
                now,
            ).1,
            forall|other: ClientIp|
                other != ip ==> #[trigger] final(self).window(other) == old(self).window(other),
    {
        let (window, allowed) = match ip {
            ClientIp::V4(n) => count_request(self.v4.get(&n), self.limit, self.window_secs, now),
            ClientIp::V6(n) => count_request(self.v6.get(&n), self.limit, self.window_secs, now),
        };
        match ip {
            ClientIp::V4(n) => {
                self.v4.insert(n, window);
            },
            ClientIp::V6(n) => {
                self.v6.insert(n, window);
            },
        }
        allowed
    }
}

/// The window after a request at `now`, and whether the request is allowed. A
/// request that comes after the window's end begins a new one.
pub open spec fn after_request(
    window: Option<Window>,
    limit: u32,
    window_secs: u64,
    now: u64,
) -> (Window, bool) {
    let current = match window {
        Some(w) => if now - w.start >= window_secs {
            Window { start: now, count: 0 }
        } else {
            w
        },
        None => Window { start: now, count: 0 },
    };
    if current.count < limit {
        (Window { start: current.start, count: (current.count + 1) as u32 }, true)
    } else {
        (current, false)
    }
}

/// Counts a request in a window.
fn count_request(window: Option<&Window>, limit: u32, window_secs: u64, now: u64) -> (out: (
    Window,
    bool,
))
    ensures
        out == after_request(
            match window {
                Some(w) => Some(*w),
                None => None,
            },
            limit,
            window_secs,
            now,
        ),
{
    let current = match window {
        Some(w) => if now >= w.start && now - w.start >= window_secs {
            Window { start: now, count: 0 }
        } else {
            *w
        },
        None => Window { start: now, count: 0 },
    };
    if current.count < limit {
        (Window { start: current.start, count: current.count + 1 }, true)
    } else {
        (current, false)
    }
}

/// The window after `n` requests at `now`.
pub open spec fn after_requests(
    window: Option<Window>,
    limit: u32,
    window_secs: u64,
    now: u64,
    n: nat,
) -> Option<Window>
    decreases n,
{
    if n == 0 {
        window
    } else {
        Some(
            after_request(
                after_requests(window, limit, window_secs, now, (n - 1) as nat),
                limit,
                window_secs,
                now,
            ).0,
        )
    }
}

/// Of the requests that a new address makes at once, as many as the limit are
/// allowed and no more.
pub proof fn law_limit_per_window(limit: u32, window_secs: u64, now: u64, n: nat)
    requires
        window_secs > 0,
    ensures
        after_request(
            after_requests(None, limit, window_secs, now, n),
            limit,
            window_secs,
            now,
        ).1 <==> n < limit,
        n > 0 ==> after_requests(None, limit, window_secs, now, n) == Some(
            Window { start: now, count: if n <= limit { n as u32 } else { limit } },
        ),
    decreases n,
{
    if n > 0 {
        law_limit_per_window(limit, window_secs, now, (n - 1) as nat);
    }
}

/// A request is allowed exactly when its address has made fewer than the limit in
/// the window that it falls into, and an allowed one counts. The window goes on
/// until its seconds are over; then, and for a new address, a request begins one
/// of its own. Nothing else changes.
pub proof fn law_request_is_counted(
    store: &mut RateLimitStore,
    ip: ClientIp,
    now: u64,
    allowed: bool,
    used: int,
    start: int,
)
    requires
        call_ensures(RateLimitStore::check_and_increment, (store, ip, now), allowed),
        match old(store).window(ip) {
            Some(w) => if now < w.start + old(store).window_secs {
                used == w.count && start == w.start
            } else {
                used == 0 && start == now
            },
            None => used == 0 && start == now,
        },
    ensures
        allowed <==> used < old(store).limit,
        final(store).window(ip) is Some,
        final(store).window(ip)->0.start == start,
        final(store).window(ip)->0.count == if allowed {
            used + 1
        } else {
            used
        },
        final(store).limit == old(store).limit,
        final(store).window_secs == old(store).window_secs,
        forall|other: ClientIp|
            other != ip ==> #[trigger] final(store).window(other) == old(store).window(other),
{
}

/// In a new store no address has made a request.
pub proof fn law_new_store_is_empty(
    limit: u32,
    window_secs: u64,
    store: RateLimitStore,
    n: u32,
    m: u128,
)
    requires
        call_ensures(RateLimitStore::new, (limit, window_secs), store),
    ensures
        store.limit == limit,
        store.window_secs == window_secs,
        !store.v4@.contains_key(n),
        !store.v6@.contains_key(m),
{
    assert(store.window(ClientIp::V4(n)) is None);
    assert(store.window(ClientIp::V6(m)) is None);
}

/// The window of an address is the one that is kept under its number, of the
/// addresses of its kind.
pub proof fn law_windows_by_address(store: RateLimitStore, n: u32, m: u128)
    ensures
        store.v4@.contains_key(n) ==> store.window(ClientIp::V4(n)) == Some(store.v4@[n]),
        !store.v4@.contains_key(n) ==> store.window(ClientIp::V4(n)) is None,
        store.v6@.contains_key(m) ==> store.window(ClientIp::V6(m)) == Some(store.v6@[m]),
        !store.v6@.contains_key(m) ==> store.window(ClientIp::V6(m)) is None,
{
}

} // verus!
