//! Bearer-token authentication of incoming requests.

use vstd::prelude::*;
use crate::config::Config;
use crate::error::AppError;
use crate::text::{has_prefix, strip_prefix, text_eq, trim, trimmed};

verus! {

/// The token that an `Authorization` header value carries: what follows
/// `Bearer `, trimmed; empty when the value does not start with `Bearer `.
pub open spec fn bearer_token(header: Seq<char>) -> Seq<char> {
    if has_prefix(header, "Bearer "@) {
        trimmed(header.skip("Bearer "@.len() as int))
    } else {
        Seq::empty()
    }
}

/// Whether a request with the given `Authorization` header value (`None`
/// when it is absent or not text) may proceed: authentication is off, or
/// the bearer token is not empty and equals the configured key (both taken
/// without surrounding white space).
pub open spec fn request_authorized(config: Config, header: Option<Seq<char>>) -> bool {
    let token = bearer_token(
        match header {
            Some(h) => h,
            None => Seq::empty(),
        },
    );
    !config.auth_enabled() || (token.len() > 0 && token == trimmed(config.api_key@))
}

/// Decides whether a request may proceed; a refused request is answered
/// with [`AppError::Unauthorized`].
pub fn auth(config: &Config, authorization: Option<&str>) -> (r: Result<(), AppError>)
    ensures
        r is Ok <==> request_authorized(
            *config,
            match authorization {
                Some(h) => Some(h@),
                None => None,
            },
        ),
        r matches Err(e) ==> e is Unauthorized,
{
    let expected = match config.auth_token() {
        None => {
            return Ok(());
        },
        Some(k) => k,
    };
    let header_val = match authorization {
        Some(h) => h,
        None => "",
    };
    let token = match strip_prefix(header_val, "Bearer ") {
        Some(rest) => trim(rest),
        None => "",
    };
    proof {
        reveal_strlit("");
        if !has_prefix(header_val@, "Bearer "@) {
            assert(token@ == Seq::<char>::empty());
        }
    }
    let key = trim(expected.as_str());
    if token.is_empty() || !text_eq(token, key) {
        return Err(AppError::Unauthorized);
    }
    Ok(())
}

/// With authentication off, every request proceeds, whatever its header.
pub proof fn lemma_auth_off_admits_all(config: Config, header: Option<Seq<char>>)
    requires
        !config.auth_enabled(),
    ensures
        request_authorized(config, header),
{
}

/// With authentication on, a request without an `Authorization` header is refused.
pub proof fn lemma_missing_header_refused(config: Config)
    requires
        config.auth_enabled(),
    ensures
        !request_authorized(config, None),
{
    reveal_strlit("Bearer ");
}

/// With authentication on, `Authorization: Bearer KEY` with the configured key
/// lets a request proceed.
pub proof fn lemma_bearer_key_admitted(config: Config, header: Seq<char>)
    requires
        config.auth_enabled(),
        header == "Bearer "@ + config.api_key@,
    ensures
        request_authorized(config, Some(header)),
{
    let p = "Bearer "@;
    assert(header.take(p.len() as int) =~= p);
    assert(header.skip(p.len() as int) =~= config.api_key@);
}

/// With authentication on, a request proceeds only if its token is the
/// configured key: a different token is refused.
pub proof fn lemma_other_token_refused(config: Config, header: Seq<char>)
    requires
        config.auth_enabled(),
        bearer_token(header) != trimmed(config.api_key@),
    ensures
        !request_authorized(config, Some(header)),
{
}

} // verus!
