use vstd::prelude::*;
use vstd::utf8::encode_utf8;

use axum::http::{HeaderMap, HeaderValue};

use crate::headers::{
    has_room_for_header, header_entries, header_map_insert, header_name_for, insert_capacity, is_valid_header_name,
    is_valid_header_value, parse_header_name, parse_header_value,
};
use crate::secrets_loaders::traits::SecretLoader;
use crate::secrets_loaders::types::{fetch_fits, AuthError, ProviderAuthMethod, SecretFetch};

verus! {

/// Whether `fetched` carries what reading the secret that `auth` needs gave,
/// for an authentication method that needs one.
pub open spec fn auth_fetch_fits(auth: ProviderAuthMethod, fetched: Option<SecretFetch>) -> bool {
    match auth {
        ProviderAuthMethod::Header { value, .. } => fetched matches Some(f) && fetch_fits(value, f),
        _ => true,
    }
}

/// Whether adding the authentication of `auth` succeeds: for a header, when
/// its secret loads and both the header's name and the secret are valid in a
/// header.
pub open spec fn auth_applies<L: SecretLoader + ?Sized>(
    auth: ProviderAuthMethod,
    secret_loader: &L,
    fetched: Option<SecretFetch>,
) -> bool {
    match auth {
        ProviderAuthMethod::Header { name, value } => match secret_loader.spec_load(
            value,
            fetched->Some_0,
        ) {
            Ok(secret) => is_valid_header_name(name@) && is_valid_header_value(secret),
            Err(_) => false,
        },
        _ => true,
    }
}

/// Whether adding the authentication of `auth` sets a header: it asks for a
/// header, and adding it succeeds.
pub open spec fn auth_inserts<L: SecretLoader + ?Sized>(
    auth: ProviderAuthMethod,
    secret_loader: &L,
    fetched: Option<SecretFetch>,
) -> bool {
    auth is Header && auth_applies(auth, secret_loader, fetched)
}

/// The header entries after the authentication of `auth` was added to
/// `entries`: for a header, its name set to the loaded secret alone.
pub open spec fn authenticated_entries<L: SecretLoader + ?Sized>(
    entries: Map<Seq<char>, Seq<Seq<u8>>>,
    auth: ProviderAuthMethod,
    secret_loader: &L,
    fetched: Option<SecretFetch>,
) -> Map<Seq<char>, Seq<Seq<u8>>> {
    match auth {
        ProviderAuthMethod::Header { name, value } => match secret_loader.spec_load(
            value,
            fetched->Some_0,
        ) {
            Ok(secret) => entries.insert(header_name_for(name@), seq![encode_utf8(secret)]),
            Err(_) => entries,
        },
        _ => entries,
    }
}

/// Adds the authentication that `auth` asks for to `headers`, where the
/// header map has room for it.
///
/// With `Header { name, value }`, the secret that `value` names is loaded
/// through `secret_loader` from `fetched`, and the header `name` is set to it,
/// replacing any values it had. The other methods add nothing. The answer is
/// `None`, with the headers unchanged, only where a header would be set but
/// the map holds so many names that adding one could outgrow it.
pub fn apply_auth_within_capacity<L: SecretLoader + ?Sized>(
    headers: &mut HeaderMap<HeaderValue>,
    auth: &ProviderAuthMethod,
    secret_loader: &L,
    fetched: Option<SecretFetch>,
) -> (r: Option<Result<(), AuthError>>)
    requires
        auth_fetch_fits(*auth, fetched),
    ensures
        r is None <==> auth_inserts(*auth, secret_loader, fetched) && header_entries(
            *old(headers),
        ).dom().len() > insert_capacity(),
        r is None ==> *final(headers) == *old(headers),
        r matches Some(res) ==> {
            &&& res is Ok <==> auth_applies(*auth, secret_loader, fetched)
            &&& res is Ok ==> header_entries(*final(headers)) == authenticated_entries(
                header_entries(*old(headers)),
                *auth,
                secret_loader,
                fetched,
            )
            &&& res is Err ==> *final(headers) == *old(headers)
            &&& match *auth {
            ProviderAuthMethod::Header { name, value } => match secret_loader.spec_load(
                value,
                fetched->Some_0,
            ) {
                Err(e) => res == Err::<(), AuthError>(AuthError::SecretLoad(e)) && *final(headers)
                    == *old(headers),
                Ok(secret) => if !is_valid_header_name(name@) {
                    res matches Err(AuthError::InvalidHeaderName(_)) && *final(headers)
                        == *old(headers)
                } else if !is_valid_header_value(secret) {
                    res matches Err(AuthError::InvalidHeaderValue(_)) && *final(headers)
                        == *old(headers)
                } else {
                    res is Ok && header_entries(*final(headers)) == header_entries(
                        *old(headers),
                    ).insert(header_name_for(name@), seq![encode_utf8(secret)])
                },
            },
            _ => res is Ok && *final(headers) == *old(headers),
        }
        },
{
    match auth {
        ProviderAuthMethod::NoAuth => Some(Ok(())),
        ProviderAuthMethod::Header { name, value } => {
            let secret = match secret_loader.load(value, fetched.unwrap()) {
                Ok(secret) => secret,
                Err(e) => {
                    return Some(Err(AuthError::from(e)));
                },
            };
            let header_name = match parse_header_name(name.as_str()) {
                Ok(n) => n,
                Err(e) => {
                    return Some(Err(AuthError::from(e)));
                },
            };
            let header_value = match parse_header_value(secret.as_str()) {
                Ok(v) => v,
                Err(e) => {
                    return Some(Err(AuthError::from(e)));
                },
            };
            if !has_room_for_header(headers) {
                return None;
            }
            header_map_insert(headers, header_name, header_value);
            Some(Ok(()))
        },
        ProviderAuthMethod::BearerToken { .. } => Some(Ok(())),
    }
}

/// Adds the authentication that `auth` asks for to `headers`.
///
/// With `Header { name, value }`, the secret that `value` names is loaded
/// through `secret_loader` from `fetched`, and the header `name` is set to it,
/// replacing any values it had. The other methods add nothing. Setting the
/// header into a map that has no room for one more name would panic, which
/// `requires` rules out.
pub fn apply_auth<L: SecretLoader + ?Sized>(
    headers: &mut HeaderMap<HeaderValue>,
    auth: &ProviderAuthMethod,
    secret_loader: &L,
    fetched: Option<SecretFetch>,
) -> (r: Result<(), AuthError>)
    requires
        auth_fetch_fits(*auth, fetched),
        auth_inserts(*auth, secret_loader, fetched) ==> header_entries(*old(headers)).dom().len()
            <= insert_capacity(),
    ensures
        r is Ok <==> auth_applies(*auth, secret_loader, fetched),
        r is Ok ==> header_entries(*final(headers)) == authenticated_entries(
            header_entries(*old(headers)),
            *auth,
            secret_loader,
            fetched,
        ),
        r is Err ==> *final(headers) == *old(headers),
        match *auth {
            ProviderAuthMethod::Header { name, value } => match secret_loader.spec_load(
                value,
                fetched->Some_0,
            ) {
                Err(e) => r == Err::<(), AuthError>(AuthError::SecretLoad(e)) && *final(headers)
                    == *old(headers),
                Ok(secret) => if !is_valid_header_name(name@) {
                    r matches Err(AuthError::InvalidHeaderName(_)) && *final(headers)
                        == *old(headers)
                } else if !is_valid_header_value(secret) {
                    r matches Err(AuthError::InvalidHeaderValue(_)) && *final(headers)
                        == *old(headers)
                } else {
                    r is Ok && header_entries(*final(headers)) == header_entries(
                        *old(headers),
                    ).insert(header_name_for(name@), seq![encode_utf8(secret)])
                },
            },
            _ => r is Ok && *final(headers) == *old(headers),
        },
{
    apply_auth_within_capacity(headers, auth, secret_loader, fetched).unwrap()
}

} // verus!

verus! {

/// Law: adding the same authentication twice leaves the headers as adding it
/// once does.
pub proof fn law_authentication_is_idempotent<L: SecretLoader + ?Sized>(
    entries: Map<Seq<char>, Seq<Seq<u8>>>,
    auth: ProviderAuthMethod,
    secret_loader: &L,
    fetched: Option<SecretFetch>,
)
    ensures
        authenticated_entries(
            authenticated_entries(entries, auth, secret_loader, fetched),
            auth,
            secret_loader,
            fetched,
        ) == authenticated_entries(entries, auth, secret_loader, fetched),
{
    let once = authenticated_entries(entries, auth, secret_loader, fetched);
    let twice = authenticated_entries(once, auth, secret_loader, fetched);
    assert(twice =~= once);
}

} // verus!
