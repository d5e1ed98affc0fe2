//! What a caller presents to be authenticated.

use vstd::prelude::*;

use crate::error::{ApiError, ErrorCode};
use crate::http::concurrency::{header_chars, header_text, parse_i64, parsed_i64};
use crate::text::{string_of, trim_bounds, trimmed};

verus! {

/// The credential a request carries: a bearer token, or, while the development bypass is
/// switched on, a claimed identity.
#[derive(Debug, Clone, PartialEq, Eq)]
pub enum Credential {
    Bearer(String),
    DevBypass { firebase_uid: String, auth_age_secs: i64 },
}

/// The token of an `Authorization` value: what follows `Bearer ` or `bearer `, trimmed,
/// when anything is left.
pub open spec fn bearer_token(value: Seq<char>) -> Option<Seq<char>> {
    let rest = if value.len() >= 7 && (value.take(7) == "Bearer "@ || value.take(7) == "bearer "@) {
        Some(value.skip(7))
    } else {
        None
    };
    match rest {
        Some(r) => if trimmed(r).len() > 0 { Some(trimmed(r)) } else { None },
        None => None,
    }
}

/// How a request's headers authenticate: with the bypass on, a readable claimed identity
/// is taken as it stands, with its claimed age (zero when absent or not an integer);
/// otherwise the `Authorization` header must be readable and carry a bearer token.
pub open spec fn credential_of(
    dev_bypass: bool,
    dev_uid: Option<Seq<u8>>,
    dev_auth_age: Option<Seq<u8>>,
    authorization: Option<Seq<u8>>,
    c: Result<Credential, ApiError>,
) -> bool {
    let claimed = match dev_uid {
        Some(b) => header_text(b),
        None => None,
    };
    if dev_bypass && claimed is Some {
        let age = match dev_auth_age {
            Some(b) => match header_text(b) {
                Some(t) => match parsed_i64(t) {
                    Some(n) => n,
                    None => 0,
                },
                None => 0,
            },
            None => 0,
        };
        c matches Ok(Credential::DevBypass { firebase_uid, auth_age_secs })
            && firebase_uid@ == claimed->0 && auth_age_secs == age
    } else {
        match match authorization { Some(b) => header_text(b), None => None } {
            None => c matches Err(e) && e.code == ErrorCode::Unauthenticated,
            Some(value) => match bearer_token(value) {
                Some(token) => c matches Ok(Credential::Bearer(t)) && t@ == token,
                None => c matches Err(e) && e.code == ErrorCode::Unauthenticated
                    && e.message@ == "Authorization 헤더는 Bearer 토큰이어야 합니다."@,
            },
        }
    }
}

fn starts_with_bearer(value: &Vec<char>) -> (r: bool)
    ensures
        r == (value@.len() >= 7 && (value@.take(7) == "Bearer "@ || value@.take(7) == "bearer "@)),
{
    proof {
        reveal_strlit("Bearer ");
        reveal_strlit("bearer ");
    }
    if value.len() < 7 {
        return false;
    }
    let r = (value[0] == 'B' || value[0] == 'b') && value[1] == 'e' && value[2] == 'a' && value[3] == 'r'
        && value[4] == 'e' && value[5] == 'r' && value[6] == ' ';
    proof {
        if r {
            if value@[0] == 'B' {
                assert(value@.take(7) =~= "Bearer "@);
            } else {
                assert(value@.take(7) =~= "bearer "@);
            }
        } else {
            let t = value@.take(7);
            assert(t[0] == value@[0] && t[1] == value@[1] && t[2] == value@[2] && t[3] == value@[3]);
            assert(t[4] == value@[4] && t[5] == value@[5] && t[6] == value@[6]);
            assert("Bearer "@[0] == 'B' && "Bearer "@[1] == 'e' && "Bearer "@[2] == 'a' && "Bearer "@[3] == 'r');
            assert("Bearer "@[4] == 'e' && "Bearer "@[5] == 'r' && "Bearer "@[6] == ' ');
            assert("bearer "@[0] == 'b' && "bearer "@[1] == 'e' && "bearer "@[2] == 'a' && "bearer "@[3] == 'r');
            assert("bearer "@[4] == 'e' && "bearer "@[5] == 'r' && "bearer "@[6] == ' ');
        }
    }
    r
}

impl Credential {
    /// Read the credential from the raw headers: the claimed identity and its age (used
    /// only while `dev_bypass` is on) and `Authorization`.
    pub fn extract(
        dev_bypass: bool,
        dev_uid: Option<&[u8]>,
        dev_auth_age: Option<&[u8]>,
        authorization: Option<&[u8]>,
    ) -> (c: Result<Credential, ApiError>)
        ensures
            credential_of(
                dev_bypass,
                match dev_uid { Some(b) => Some(b@), None => None },
                match dev_auth_age { Some(b) => Some(b@), None => None },
                match authorization { Some(b) => Some(b@), None => None },
                c,
            ),
    {
        if dev_bypass {
            let claimed = match dev_uid {
                Some(b) => header_chars(b),
                None => None,
            };
            if let Some(uid) = claimed {
                let age = match dev_auth_age {
                    Some(b) => match header_chars(b) {
                        Some(t) => match parse_i64(t.as_slice()) {
                            Some(n) => n,
                            None => 0,
                        },
                        None => 0,
                    },
                    None => 0,
                };
                return Ok(Credential::DevBypass { firebase_uid: string_of(uid.as_slice()), auth_age_secs: age });
            }
        }
        let value = match authorization {
            Some(b) => match header_chars(b) {
                Some(t) => t,
                None => {
                    return Err(ApiError::new(ErrorCode::Unauthenticated));
                },
            },
            None => {
                return Err(ApiError::new(ErrorCode::Unauthenticated));
            },
        };
        if starts_with_bearer(&value) {
            let rest = crate::http::concurrency::copy_range(&value, 7, value.len());
            assert(rest@ == value@.skip(7));
            let (a, b) = trim_bounds(rest.as_slice());
            if a < b {
                return Ok(Credential::Bearer(string_of(crate::http::concurrency::copy_range(&rest, a, b).as_slice())));
            }
        }
        Err(ApiError::with_message(ErrorCode::Unauthenticated, "Authorization 헤더는 Bearer 토큰이어야 합니다."))
    }
}

} // verus!
