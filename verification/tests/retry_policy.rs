use solar_telemetry::retry::RetryPolicy;

/// Drives the policy as the outer loop would against an always-failing
/// cycle: one attempt, one recorded failure, sleep and repeat while the
/// policy allows. Returns how many attempts were made and the delays granted
/// between them.
fn drive_to_exhaustion(base_ms: u64, max_attempts: u64) -> (u64, Vec<u64>) {
    let mut policy = RetryPolicy::new(base_ms, max_attempts);
    let mut attempts = 0u64;
    let mut delays = Vec::new();
    loop {
        attempts += 1;
        match policy.on_failure() {
            Some(delay) => delays.push(delay),
            None => break,
        }
    }
    (attempts, delays)
}

#[test]
fn exhaustion_after_exactly_the_configured_attempts() {
    let (attempts, delays) = drive_to_exhaustion(10, 5);
    assert_eq!(attempts, 5);
    assert_eq!(delays.len(), 4);
}

#[test]
fn delays_follow_fibonacci_from_base() {
    let (_, delays) = drive_to_exhaustion(10, 7);
    assert_eq!(delays, vec![10, 10, 20, 30, 50, 80]);
}

#[test]
fn delays_never_decrease() {
    let (_, delays) = drive_to_exhaustion(3, 12);
    for pair in delays.windows(2) {
        assert!(pair[0] <= pair[1]);
    }
}

#[test]
fn single_attempt_policy_grants_no_delay() {
    let (attempts, delays) = drive_to_exhaustion(10, 1);
    assert_eq!(attempts, 1);
    assert!(delays.is_empty());
}

#[test]
fn delays_saturate_instead_of_overflowing() {
    let (_, delays) = drive_to_exhaustion(u64::MAX / 2 + 1, 5);
    assert_eq!(delays, vec![u64::MAX / 2 + 1, u64::MAX / 2 + 1, u64::MAX, u64::MAX]);
}
