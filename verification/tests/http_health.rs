use coupon_api_server::http::health::{readiness, redis_health, ComponentHealth};

#[test]
fn a_database_at_the_expected_migration_is_ready() {
    let (body, status) = readiness(Ok(Some(12)), Some(12), ComponentHealth::ok());
    assert_eq!(status, 200);
    assert_eq!(body.status, "ready");
    assert_eq!(body.postgres, ComponentHealth::ok());
    assert_eq!(body.migration_version, Some(12));
    assert_eq!(body.expected_migration_version, Some(12));
}

#[test]
fn a_migration_mismatch_is_not_ready_and_says_why() {
    let (body, status) = readiness(Ok(Some(11)), Some(12), ComponentHealth::ok());
    assert_eq!(status, 503);
    assert_eq!(body.status, "not_ready");
    assert_eq!(body.postgres.status, "down");
    assert_eq!(
        body.postgres.detail.as_deref(),
        Some("migration version mismatch: database at Some(11), binary expects Some(12)")
    );
    let (body, _) = readiness(Ok(None), Some(3), ComponentHealth::ok());
    assert_eq!(body.postgres.detail.as_deref(), Some("migration version mismatch: database at None, binary expects Some(3)"));
}

#[test]
fn an_unreachable_database_is_not_ready() {
    let (body, status) = readiness(Err("connection refused".to_owned()), Some(12), ComponentHealth::ok());
    assert_eq!(status, 503);
    assert_eq!(body.postgres.detail.as_deref(), Some("connection refused"));
    assert_eq!(body.migration_version, None);
}

#[test]
fn losing_redis_degrades_but_never_blocks_readiness() {
    let redis = redis_health(Some(Err("timeout".to_owned())));
    assert_eq!(redis.status, "degraded");
    let (body, status) = readiness(Ok(Some(1)), Some(1), redis.clone());
    assert_eq!(status, 200);
    assert_eq!(body.redis, redis);
    assert_eq!(redis_health(None).status, "disabled");
    assert_eq!(redis_health(None).detail.as_deref(), Some("COUPON_REDIS_URL is not configured"));
    assert_eq!(redis_health(Some(Ok(()))), ComponentHealth::ok());
}
