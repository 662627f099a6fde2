//! Bearer-token authentication: the claims of an accepted token, and the
//! checks of the `Authorization` header that come before the token itself.

use vstd::prelude::*;

use crate::text::str_starts_with;

verus! {

/// The claims of an accepted JWT.
pub struct Claims {
    /// Subject: the user's id (kept for tokens that carry no `user_id`).
    pub sub: String,
    /// The user's id.
    pub user_id: Option<String>,
    /// Expiration (unix timestamp).
    pub exp: usize,
    /// Issued at (unix timestamp).
    pub iat: usize,
}

impl Claims {
    /// The user the token speaks for: `user_id`, or `sub` for tokens that
    /// carry no `user_id`.
    pub open spec fn subject_view(&self) -> Seq<char> {
        match &self.user_id {
            Some(id) => id@,
            None => self.sub@,
        }
    }

    /// The user the token speaks for.
    pub fn subject(&self) -> (r: &str)
        ensures
            r@ == self.subject_view(),
    {
        match &self.user_id {
            Some(id) => id.as_str(),
            None => self.sub.as_str(),
        }
    }
}

/// An authenticated caller.
pub struct AuthUser(pub Claims);

/// A refused request; it is answered with status 401 and `message`.
pub struct AuthRejection {
    pub message: String,
}

impl AuthRejection {
    /// The HTTP status of every refusal: 401 Unauthorized.
    pub fn status_code(&self) -> (r: u16)
        ensures
            r == 401,
    {
        401
    }
}

pub open spec fn missing_header_message() -> Seq<char> {
    "Missing Authorization header"@
}

pub open spec fn bad_header_format_message() -> Seq<char> {
    "Invalid Authorization header format. Expected: Bearer <token>"@
}

/// What the header check decides: the token after `Bearer `, or the text of
/// the refusal.
pub open spec fn bearer_token_outcome(header: Option<Seq<char>>) -> Result<Seq<char>, Seq<char>> {
    match header {
        None => Err(missing_header_message()),
        Some(h) => if 7 <= h.len() && h.subrange(0, 7) == "Bearer "@ {
            Ok(h.subrange(7, h.len() as int))
        } else {
            Err(bad_header_format_message())
        },
    }
}

/// Takes the token out of the `Authorization` header (`None` when the header
/// is missing or is not text).
pub fn bearer_token(header: Option<&str>) -> (r: Result<&str, AuthRejection>)
    ensures
        match header {
            None => r matches Err(e) && Err::<Seq<char>, Seq<char>>(e.message@)
                == bearer_token_outcome(None),
            Some(h) => match r {
                Ok(t) => bearer_token_outcome(Some(h@)) == Ok::<Seq<char>, Seq<char>>(t@),
                Err(e) => bearer_token_outcome(Some(h@)) == Err::<Seq<char>, Seq<char>>(
                    e.message@,
                ),
            },
        },
{
    proof {
        reveal_strlit("Bearer ");
    }
    match header {
        None => Err(AuthRejection { message: String::from_str("Missing Authorization header") }),
        Some(h) => {
            if str_starts_with(h, "Bearer ") {
                let n = h.unicode_len();
                Ok(h.substring_char(7, n))
            } else {
                Err(
                    AuthRejection {
                        message: String::from_str(
                            "Invalid Authorization header format. Expected: Bearer <token>",
                        ),
                    },
                )
            }
        },
    }
}

/// The refusal of a token that failed validation; `detail` says why.
pub fn token_rejection(detail: &str) -> (r: AuthRejection)
    ensures
        r.message@ == "Invalid or expired token: "@ + detail@,
{
    let mut message = String::from_str("Invalid or expired token: ");
    message.append(detail);
    AuthRejection { message }
}

/// The claims of a decoded token whose `sub` and `user_id` may each be
/// missing; `None` when the token names no user at all (such a token is
/// refused with the decoder's own error, as one without `sub` always was).
pub fn claims_from_token(sub: Option<String>, user_id: Option<String>, exp: usize, iat: usize) -> (r:
    Option<Claims>)
    ensures
        (sub is None && user_id is None) ==> r is None,
        (sub is Some || user_id is Some) ==> (r matches Some(c) && c.exp == exp && c.iat == iat
            && c.user_id == user_id && c.sub@ == match sub {
            Some(s) => s@,
            None => Seq::<char>::empty(),
        }),
{
    if sub.is_none() && user_id.is_none() {
        return None;
    }
    let sub = match sub {
        Some(s) => s,
        None => String::new(),
    };
    Some(Claims { sub, user_id, exp, iat })
}

} // verus!
