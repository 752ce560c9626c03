use musicboxd::rate_limit::{ClientIp, RateLimitStore};

fn v4(text: &str) -> ClientIp {
    let number = text
        .split('.')
        .fold(0u32, |n, part| n * 256 + part.parse::<u32>().unwrap());
    ClientIp::V4(number)
}

#[test]
fn rate_limit_allows_requests_within_limit() {
    let mut store = RateLimitStore::new(3, 60);
    let ip = v4("127.0.0.1");

    assert!(store.check_and_increment(ip, 0), "1st request should be allowed");
    assert!(store.check_and_increment(ip, 0), "2nd request should be allowed");
    assert!(store.check_and_increment(ip, 0), "3rd request should be allowed");
}

#[test]
fn rate_limit_blocks_request_exceeding_limit() {
    let mut store = RateLimitStore::new(3, 60);
    let ip = v4("127.0.0.1");

    store.check_and_increment(ip, 0);
    store.check_and_increment(ip, 0);
    store.check_and_increment(ip, 0);

    assert!(
        !store.check_and_increment(ip, 0),
        "4th request must be blocked when limit is 3"
    );
}

#[test]
fn rate_limit_tracks_ips_independently() {
    let mut store = RateLimitStore::new(1, 60);
    let ip_a = v4("10.0.0.1");
    let ip_b = v4("10.0.0.2");

    // Exhaust ip_a's quota
    assert!(store.check_and_increment(ip_a, 0), "ip_a first request allowed");
    assert!(
        !store.check_and_increment(ip_a, 0),
        "ip_a second request must be blocked"
    );

    // ip_b has its own independent counter and should still be allowed
    assert!(
        store.check_and_increment(ip_b, 0),
        "ip_b must not be affected by ip_a's exhausted quota"
    );
}

#[test]
fn a_new_window_begins_after_the_old_one() {
    let mut store = RateLimitStore::new(1, 60);
    let ip = ClientIp::V6(1);
    assert!(store.check_and_increment(ip, 100));
    assert!(!store.check_and_increment(ip, 159));
    assert!(store.check_and_increment(ip, 160));
    assert!(!store.check_and_increment(ip, 161));
}

#[test]
fn the_two_kinds_of_addresses_are_apart() {
    let mut store = RateLimitStore::new(1, 60);
    assert!(store.check_and_increment(ClientIp::V4(1), 0));
    assert!(store.check_and_increment(ClientIp::V6(1), 0));
    assert!(!store.check_and_increment(ClientIp::V4(1), 1));
}
