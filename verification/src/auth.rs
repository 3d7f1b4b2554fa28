//! Identity resolution around the external token verifier.
//!
//! Token signatures are checked by an external collaborator against a
//! remote key set; this module holds the decisions around that call:
//! pulling the bearer token out of an authorization header value, and
//! turning the verified claims into a user id.  Missing pieces anywhere
//! on that path mean the caller is unauthenticated.

use crate::model::PaymentError;
use vstd::prelude::*;
use vstd::string::*;

verus! {

/// What follows the first space of `s`, or `None` where `s` holds no
/// space.  An authorization header value is a scheme, one space, and the
/// token; the scheme is not inspected.
pub open spec fn spec_token_after_space(s: Seq<char>) -> Option<Seq<char>>
    decreases s.len(),
{
    if s.len() == 0 {
        None
    } else if s[0] == ' ' {
        Some(s.subrange(1, s.len() as int))
    } else {
        spec_token_after_space(s.subrange(1, s.len() as int))
    }
}

/// The bearer token of an authorization header value, if one is there.
pub open spec fn spec_bearer_token(header: Option<Seq<char>>) -> Option<Seq<char>> {
    match header {
        Some(h) => spec_token_after_space(h),
        None => None,
    }
}

/// Extracts the bearer token from an authorization header value: the
/// part after the first space.  A missing header, or one without a
/// space, leaves the caller unauthenticated.
pub fn bearer_token(header: Option<&str>) -> (r: Result<String, PaymentError>)
    ensures
        r is Ok <==> spec_bearer_token(spec_header_view(header)) is Some,
        r matches Ok(t) ==> spec_bearer_token(spec_header_view(header)) matches Some(v) && t@
            == v,
        r matches Err(e) ==> e is Unauthenticated,
{
    match header {
        None => Err(PaymentError::Unauthenticated),
        Some(h) => {
            let len: usize = h.unicode_len();
            let mut i: usize = 0;
            proof {
                assert(h@.subrange(0, len as int) =~= h@);
            }
            loop
                invariant
                    header == Some(h),
                    i <= len,
                    len == h@.len(),
                    spec_token_after_space(h@) == spec_token_after_space(
                        h@.subrange(i as int, len as int),
                    ),
                decreases len - i,
            {
                if i == len {
                    proof {
                        assert(h@.subrange(i as int, len as int) =~= Seq::<char>::empty());
                    }
                    return Err(PaymentError::Unauthenticated);
                }
                let c = h.get_char(i);
                if c == ' ' {
                    proof {
                        let tail = h@.subrange(i as int, len as int);
                        assert(tail[0] == ' ');
                        assert(tail.subrange(1, tail.len() as int) =~= h@.subrange(
                            i + 1,
                            len as int,
                        ));
                        assert(spec_token_after_space(tail) == Some(
                            h@.subrange(i + 1, len as int),
                        ));
                    }
                    let token = h.substring_char(i + 1, len);
                    return Ok(String::from_str(token));
                }
                proof {
                    let tail = h@.subrange(i as int, len as int);
                    assert(tail.subrange(1, tail.len() as int) =~= h@.subrange(
                        i + 1,
                        len as int,
                    ));
                }
                i = i + 1;
            }
        },
    }
}

/// The view of an optional header value.
pub open spec fn spec_header_view(header: Option<&str>) -> Option<Seq<char>> {
    match header {
        Some(h) => Some(h@),
        None => None,
    }
}

/// Turns the subject of verified token claims into the caller's user id;
/// claims without a subject leave the caller unauthenticated.
pub fn user_id_from_claims(sub: Option<String>) -> (r: Result<String, PaymentError>)
    ensures
        sub matches Some(s) ==> r matches Ok(u) && u == s,
        sub is None ==> (r matches Err(e) && e is Unauthenticated),
{
    match sub {
        Some(s) => Ok(s),
        None => Err(PaymentError::Unauthenticated),
    }
}

/// The token-endpoint response of the identity provider, as its fields
/// reach the service.
#[derive(Debug, Clone)]
pub struct AuthenticationResponse {
    pub access_token: String,
    pub token_type: String,
    pub expires_in: u64,
}

} // verus!
