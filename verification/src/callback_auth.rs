//! Authorization of the platform's inbound callbacks: a `Bearer` HS256
//! token whose audience names the callback API.

use vstd::prelude::*;
use crate::error::{AppError, not_authorized};
use crate::text::{str_eq, strip_prefix};

verus! {

/// The audience the platform's callback tokens are minted for.
pub const CALLBACK_API_AUDIENCE: &'static str = "callback_api";

/// The `aud` claim of a token: one audience or several.
pub enum AudienceClaim {
    One(String),
    Many(Vec<String>),
}

impl AudienceClaim {
    /// The audiences named by the claim.
    pub open spec fn names(self) -> Seq<Seq<char>> {
        match self {
            AudienceClaim::One(s) => seq![s@],
            AudienceClaim::Many(v) => v@.map_values(|x: String| x@),
        }
    }

    /// Whether the claim names `value`.
    pub fn contains(&self, value: &str) -> (r: bool)
        ensures
            r == self.names().contains(value@),
    {
        match self {
            AudienceClaim::One(s) => {
                let r = str_eq(s.as_str(), value);
                proof {
                    if r {
                        assert(self.names()[0] == value@);
                    }
                }
                r
            },
            AudienceClaim::Many(v) => {
                let mut i: usize = 0;
                while i < v.len()
                    invariant
                        i <= v@.len(),
                        self.names() == v@.map_values(|x: String| x@),
                        forall|j: int| 0 <= j < i ==> v@[j]@ != value@,
                    decreases v@.len() - i,
                {
                    if str_eq(v[i].as_str(), value) {
                        assert(self.names()[i as int] == value@);
                        return true;
                    }
                    i = i + 1;
                }
                assert forall|j: int| 0 <= j < self.names().len() implies self.names()[j] != value@ by {
                    assert(self.names()[j] == v@[j]@);
                }
                false
            },
        }
    }
}

pub open spec fn missing_header_message() -> Seq<char> {
    "missing Authorization header"@
}

pub open spec fn not_bearer_message() -> Seq<char> {
    "Authorization header must be a Bearer token"@
}

pub open spec fn missing_audience_message() -> Seq<char> {
    "platform callback token missing expected audience"@
}

/// The token of an `Authorization: Bearer <token>` header.
pub fn bearer_token(authorization: Option<&str>) -> (r: Result<String, AppError>)
    ensures
        authorization is None ==> (r matches Err(e) && not_authorized(e, missing_header_message())),
        authorization matches Some(h) ==> match r {
            Ok(t) => h@ == "Bearer "@ + t@,
            Err(e) => !"Bearer "@.is_prefix_of(h@) && not_authorized(e, not_bearer_message()),
        },
{
    match authorization {
        None => Err(AppError::NotAuthorized(String::from_str("missing Authorization header"))),
        Some(h) => match strip_prefix(h, "Bearer ") {
            Some(t) => Ok(t),
            None => Err(AppError::NotAuthorized(String::from_str("Authorization header must be a Bearer token"))),
        },
    }
}

/// The verdict on a decoded callback token: a token that failed to decode
/// (its error text given) or that does not name the callback audience is
/// refused.
pub fn check_callback_claims(decoded: &Result<Option<AudienceClaim>, String>) -> (r: Result<(), AppError>)
    ensures
        match decoded {
            Err(msg) => r matches Err(e) && not_authorized(e, "invalid platform callback token: "@ + msg@),
            Ok(aud) => {
                let ok = aud matches Some(a) && a.names().contains(CALLBACK_API_AUDIENCE@);
                if ok { r is Ok } else { r matches Err(e) && not_authorized(e, missing_audience_message()) }
            },
        },
{
    match decoded {
        Err(msg) => {
            let mut text = String::from_str("invalid platform callback token: ");
            text.append(msg.as_str());
            Err(AppError::NotAuthorized(text))
        },
        Ok(aud) => {
            let ok = match aud {
                Some(a) => a.contains(CALLBACK_API_AUDIENCE),
                None => false,
            };
            if ok {
                Ok(())
            } else {
                Err(AppError::NotAuthorized(String::from_str("platform callback token missing expected audience")))
            }
        },
    }
}

/// Law: a callback is let through only with a `Bearer` header whose token
/// decoded to claims naming the callback audience.
pub proof fn lemma_authorized_callback(
    authorization: Option<&str>,
    token: Result<String, AppError>,
    decoded: Result<Option<AudienceClaim>, String>,
    verdict: Result<(), AppError>,
)
    requires
        authorization is None ==> (token matches Err(e) && not_authorized(e, missing_header_message())),
        authorization matches Some(h) ==> match token {
            Ok(t) => h@ == "Bearer "@ + t@,
            Err(e) => !"Bearer "@.is_prefix_of(h@) && not_authorized(e, not_bearer_message()),
        },
        match decoded {
            Err(msg) => verdict matches Err(e) && not_authorized(e, "invalid platform callback token: "@ + msg@),
            Ok(aud) => {
                let ok = aud matches Some(a) && a.names().contains(CALLBACK_API_AUDIENCE@);
                if ok { verdict is Ok } else { verdict matches Err(e) && not_authorized(e, missing_audience_message()) }
            },
        },
        token is Ok,
        verdict is Ok,
    ensures
        authorization matches Some(h) && "Bearer "@.is_prefix_of(h@),
        decoded matches Ok(Some(a)) && a.names().contains(CALLBACK_API_AUDIENCE@),
{
    let h = authorization.unwrap();
    let t = token.unwrap();
    assert(("Bearer "@ + t@).subrange(0, "Bearer "@.len() as int) =~= "Bearer "@);
}

} // verus!
