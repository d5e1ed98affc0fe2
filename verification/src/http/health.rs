//! Liveness and readiness.
//!
//! Liveness answers "is this process running". Readiness answers "should it receive
//! traffic": the database reachable and at the migration version the binary expects.
//! Redis is a transport and cache, so losing it degrades features but never readiness.

use vstd::prelude::*;

use crate::text::{i64_chars, int_text, push_char, push_str};

verus! {

/// What liveness reports.
#[derive(Debug, Clone, Copy, PartialEq, Eq)]
pub struct LiveResponse {
    pub status: &'static str,
    pub version: &'static str,
}

/// One dependency's state: `ok`, `degraded`, `disabled` or `down`, with the reason when
/// it is not ok.
#[derive(Debug, Clone, PartialEq, Eq)]
pub struct ComponentHealth {
    pub status: &'static str,
    pub detail: Option<String>,
}

impl ComponentHealth {
    pub fn ok() -> (c: ComponentHealth)
        ensures
            c.status@ == "ok"@,
            c.detail is None,
    {
        ComponentHealth { status: "ok", detail: None }
    }

    pub fn with(status: &'static str, detail: String) -> (c: ComponentHealth)
        ensures
            c.status@ == status@,
            c.detail matches Some(d) && d@ == detail@,
    {
        ComponentHealth { status, detail: Some(detail) }
    }
}

/// What readiness reports.
#[derive(Debug, Clone, PartialEq, Eq)]
pub struct ReadyResponse {
    /// `ready` or `not_ready`; degraded components do not change it.
    pub status: &'static str,
    pub postgres: ComponentHealth,
    pub redis: ComponentHealth,
    pub config: ComponentHealth,
    pub migration_version: Option<i64>,
    pub expected_migration_version: Option<i64>,
}

/// `{:?}` of an optional version: `Some(7)` or `None`.
pub open spec fn option_text(v: Option<i64>) -> Seq<char> {
    match v {
        Some(n) => "Some("@ + int_text(n as int) + ")"@,
        None => "None"@,
    }
}

fn push_option(s: &mut String, v: Option<i64>)
    ensures
        final(s)@ == old(s)@ + option_text(v),
{
    match v {
        Some(n) => {
            push_str(s, "Some(");
            let digits = i64_chars(n);
            let ghost before = s@;
            let mut i: usize = 0;
            while i < digits.len()
                invariant
                    0 <= i <= digits@.len(),
                    s@ == before + digits@.take(i as int),
                decreases digits@.len() - i,
            {
                push_char(s, digits[i]);
                assert(digits@.take(i + 1) == digits@.take(i as int).push(digits@[i as int]));
                i += 1;
            }
            assert(digits@.take(digits@.len() as int) == digits@);
            push_str(s, ")");
        },
        None => {
            push_str(s, "None");
        },
    }
}

/// The database's state, from the probe's outcome: the migration version it is at, or
/// the reason it could not be read.
pub open spec fn postgres_state(probe: Result<Option<i64>, Seq<char>>, expected: Option<i64>) -> (Seq<char>, Option<Seq<char>>) {
    match probe {
        Ok(applied) => if applied == expected {
            ("ok"@, None)
        } else {
            ("down"@, Some("migration version mismatch: database at "@ + option_text(applied) + ", binary expects "@ + option_text(expected)))
        },
        Err(reason) => ("down"@, Some(reason)),
    }
}

/// Readiness, with the HTTP status to answer it with: ready (200) exactly when the
/// database is reachable and at the expected migration version, otherwise 503.
pub fn readiness(probe: Result<Option<i64>, String>, expected: Option<i64>, redis: ComponentHealth) -> (r: (ReadyResponse, u16))
    ensures
        ({
            let want = postgres_state(match probe { Ok(a) => Ok(a), Err(e) => Err(e@) }, expected);
            &&& r.0.postgres.status@ == want.0
            &&& match (r.0.postgres.detail, want.1) {
                (Some(d), Some(w)) => d@ == w,
                (None, None) => true,
                _ => false,
            }
            &&& r.0.status@ == (if want.0 == "ok"@ { "ready"@ } else { "not_ready"@ })
            &&& r.1 == (if want.0 == "ok"@ { 200u16 } else { 503u16 })
        }),
        r.0.redis == redis,
        r.0.config.status@ == "ok"@,
        r.0.config.detail is None,
        r.0.migration_version == match probe { Ok(a) => a, Err(_) => None },
        r.0.expected_migration_version == expected,
{
    proof {
        reveal_strlit("ok");
        reveal_strlit("down");
    }
    let ready = match &probe {
        Ok(a) => *a == expected,
        Err(_) => false,
    };
    let (postgres, applied) = match probe {
        Ok(applied) => {
            if applied == expected {
                (ComponentHealth::ok(), applied)
            } else {
                let mut detail = "migration version mismatch: database at ".to_string();
                push_option(&mut detail, applied);
                push_str(&mut detail, ", binary expects ");
                push_option(&mut detail, expected);
                (ComponentHealth::with("down", detail), applied)
            }
        },
        Err(reason) => (ComponentHealth::with("down", reason), None),
    };
    let body = ReadyResponse {
        status: if ready { "ready" } else { "not_ready" },
        postgres,
        redis,
        config: ComponentHealth::ok(),
        migration_version: applied,
        expected_migration_version: expected,
    };
    (body, if ready { 200 } else { 503 })
}

/// Redis's state: disabled when not configured, degraded when it did not answer,
/// otherwise ok.
pub fn redis_health(probe: Option<Result<(), String>>) -> (c: ComponentHealth)
    ensures
        match probe {
            None => c.status@ == "disabled"@ && (c.detail matches Some(d) && d@ == "COUPON_REDIS_URL is not configured"@),
            Some(Ok(())) => c.status@ == "ok"@ && c.detail is None,
            Some(Err(reason)) => c.status@ == "degraded"@ && (c.detail matches Some(d) && d@ == reason@),
        },
{
    match probe {
        None => ComponentHealth::with("disabled", "COUPON_REDIS_URL is not configured".to_string()),
        Some(Ok(())) => ComponentHealth::ok(),
        Some(Err(reason)) => ComponentHealth::with("degraded", reason),
    }
}

} // verus!
