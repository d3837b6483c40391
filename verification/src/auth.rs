use vstd::prelude::*;

use crate::errors::{auth_api_error, spec_auth_api_error, ApiError, AuthError};
use crate::model::{filter_user_record, filtered_of, FilteredUser};
use crate::password::{hash_password, password_verifies, verify_password};
use crate::token::{decode_token, encode_token, token_claims, ClaimsView};
use crate::user_store::{
    default_role, email_taken, find_user_by_email, find_user_by_id, user_id_taken, UserStore,
};

verus! {

/// How long a freshly minted token stays valid, in seconds.
pub const TOKEN_TTL_SECONDS: i64 = 3600;

/// Registration: refuse a taken email, hash the password under a fresh
/// salt, store the user, and answer with the public profile — the
/// password and its hash stay out of the response. The bound on the
/// password is a machine limit: the hasher refuses longer inputs.
pub fn register(
    store: &mut UserStore,
    firstname: &str,
    lastname: &str,
    email: &str,
    password: &str,
    new_id: u128,
    now: i64,
) -> (r: Result<FilteredUser, AuthError>)
    requires
        old(store).wf(),
        password@.len() <= 0x3FFF_FFFF,
    ensures
        final(store).wf(),
        r matches Err(_) ==> final(store)@ == old(store)@,
        (r == Err::<FilteredUser, AuthError>(AuthError::EmailTaken)) == email_taken(
            old(store)@,
            email@,
        ),
        (r == Err::<FilteredUser, AuthError>(AuthError::IdTaken)) == (!email_taken(
            old(store)@,
            email@,
        ) && user_id_taken(old(store)@, new_id as int)),
        !email_taken(old(store)@, email@) && !user_id_taken(old(store)@, new_id as int)
            ==> r matches Ok(_),
        r matches Ok(u) ==> ({
            let stored = final(store)@.last();
            &&& !email_taken(old(store)@, email@)
            &&& !user_id_taken(old(store)@, new_id as int)
            &&& final(store)@ == old(store)@.push(stored)
            &&& stored.id == new_id as int
            &&& stored.firstname == firstname@
            &&& stored.lastname == lastname@
            &&& stored.email == email@
            &&& password_verifies(password@, stored.password)
            &&& stored.role == default_role()
            &&& stored.created_at == now as int
            &&& stored.updated_at == now as int
            &&& filtered_of(u, stored)
        }),
{
    if store.find_by_email_exists(email) {
        return Err(AuthError::EmailTaken);
    }
    let hashed = hash_password(password);
    match store.create_user(firstname, lastname, email, hashed.as_str(), new_id, now) {
        Ok(u) => Ok(filter_user_record(&u)),
        Err(_) => Err(AuthError::IdTaken),
    }
}

/// Login seen from the store and the clock: an unknown email is refused
/// without saying whether email or password was wrong; a known email with
/// a password that does not verify is a conflict; otherwise a claim set
/// for the user is minted, expiring one window after `now`.
pub open spec fn login_tr(
    users: Seq<crate::model::UserView>,
    email: Seq<char>,
    password: Seq<char>,
    now: int,
) -> Result<ClaimsView, AuthError> {
    match find_user_by_email(users, email) {
        None => Err(AuthError::InvalidCredentials),
        Some(u) => if !password_verifies(password, u.password) {
            Err(AuthError::WrongPassword)
        } else {
            Ok(ClaimsView { sub: u.id, iat: now, exp: now + TOKEN_TTL_SECONDS })
        },
    }
}

/// Login: behaves exactly as `login_tr` says — correct credentials are
/// owed a token, and the token carries exactly the minted claim set under
/// `secret`. The clock bounds are machine limits: the expiry must fit the
/// signed width and must not be negative, which the token wire format
/// cannot carry.
pub fn login(store: &UserStore, email: &str, password: &str, now: i64, secret: &str) -> (r: Result<
    String,
    AuthError,
>)
    requires
        0 <= now <= i64::MAX - TOKEN_TTL_SECONDS,
    ensures
        login_tr(store@, email@, password@, now as int) matches Err(e) ==> r == Err::<
            String,
            AuthError,
        >(e),
        r matches Err(e) ==> login_tr(store@, email@, password@, now as int) == Err::<
            ClaimsView,
            AuthError,
        >(e),
        login_tr(store@, email@, password@, now as int) is Ok ==> r is Ok,
        r matches Ok(t) ==> ({
            &&& login_tr(store@, email@, password@, now as int) matches Ok(c)
            &&& token_claims(t@, secret@) == Some(c)
        }),
{
    let user = match store.find_by_email(email) {
        Some(u) => u,
        None => {
            return Err(AuthError::InvalidCredentials);
        },
    };
    if !verify_password(password, user.password.as_str()) {
        return Err(AuthError::WrongPassword);
    }
    Ok(encode_token(user.id, now, now + TOKEN_TTL_SECONDS, secret))
}

/// Authorization seen from the store, the decoded claim set and the
/// clock: no claims means a missing, malformed or forged token; an expiry
/// at or before `now` is refused; a subject no row holds is refused;
/// otherwise the subject is the resolved identity.
pub open spec fn gate_tr(
    users: Seq<crate::model::UserView>,
    decoded: Option<ClaimsView>,
    now: int,
) -> Result<int, AuthError> {
    match decoded {
        None => Err(AuthError::InvalidToken),
        Some(c) => if now >= c.exp {
            Err(AuthError::TokenExpired)
        } else if find_user_by_id(users, c.sub) is None {
            Err(AuthError::UnknownSubject)
        } else {
            Ok(c.sub)
        },
    }
}

/// The authorization gate every protected route runs: decodes the token,
/// enforces the expiry window against `now`, resolves the subject, and
/// hands the resolved identity to the handler.
pub fn gate(store: &UserStore, token: &str, now: i64, secret: &str) -> (r: Result<u128, AuthError>)
    ensures
        match r {
            Ok(uid) => gate_tr(store@, token_claims(token@, secret@), now as int) == Ok::<
                int,
                AuthError,
            >(uid as int),
            Err(e) => gate_tr(store@, token_claims(token@, secret@), now as int) == Err::<
                int,
                AuthError,
            >(e),
        },
{
    let claims = match decode_token(token, secret) {
        Some(c) => c,
        None => {
            return Err(AuthError::InvalidToken);
        },
    };
    if now >= claims.exp {
        return Err(AuthError::TokenExpired);
    }
    match store.find_by_id(claims.sub) {
        Some(_) => Ok(claims.sub),
        None => Err(AuthError::UnknownSubject),
    }
}

/// The protected profile route: a caller whose token authorizes them is
/// answered with their own public profile, password omitted.
pub fn get_me(store: &UserStore, token: &str, now: i64, secret: &str) -> (r: Result<
    FilteredUser,
    ApiError,
>)
    ensures
        match gate_tr(store@, token_claims(token@, secret@), now as int) {
            Ok(uid) => ({
                &&& r matches Ok(u)
                &&& find_user_by_id(store@, uid) matches Some(stored)
                &&& filtered_of(u, stored)
            }),
            Err(e) => r == Err::<FilteredUser, ApiError>(spec_auth_api_error(e)),
        },
{
    let uid = match gate(store, token, now, secret) {
        Ok(uid) => uid,
        Err(e) => {
            return Err(auth_api_error(&e));
        },
    };
    match store.find_by_id(uid) {
        Some(u) => Ok(filter_user_record(&u)),
        None => Err(ApiError::NotFound),
    }
}

} // verus!
