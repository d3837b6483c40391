use vstd::prelude::*;

use crate::auth::{gate, get_me, login, register, TOKEN_TTL_SECONDS};
use crate::clock::now_seconds;
use crate::errors::{auth_api_error, ApiError, NoteStoreError};
use crate::ids::fresh_id;
use crate::model::{filtered_of, FilteredUser, NoteResponse};
use crate::note_store::{find_note, note_id_idx, note_id_taken, note_title_taken, NoteStore};
use crate::password::password_verifies;
use crate::schema::{CreateNoteSchema, LoginUserSchema, RegisterUserSchema, UpdateNoteSchema};
use crate::token::token_claims;
use crate::user_store::{
    email_taken, find_user_by_email, find_user_by_id, lemma_user_id_scan_le, UserStore,
};

verus! {

/// The health route's fixed message.
pub fn health_checker_handler() -> (r: String)
    ensures
        r@ == "Build Simple CRUD API with Rust, SQLX, Postgres,and Actix Web"@,
{
    "Build Simple CRUD API with Rust, SQLX, Postgres,and Actix Web".to_owned()
}

/// Creating a note over HTTP: a taken title answers BadRequest, any other
/// store failure StoreFailure; success appends exactly one row under a
/// freshly drawn id.
pub fn create_note_handler(store: &mut NoteStore, body: &CreateNoteSchema) -> (r: Result<
    NoteResponse,
    ApiError,
>)
    requires
        old(store).wf(),
    ensures
        final(store).wf(),
        r matches Err(_) ==> final(store)@ == old(store)@,
        (r == Err::<NoteResponse, ApiError>(ApiError::BadRequest)) == note_title_taken(
            old(store)@,
            body.title@,
        ),
        r matches Err(e) ==> e == ApiError::BadRequest || e == ApiError::StoreFailure,
        r == Err::<NoteResponse, ApiError>(ApiError::StoreFailure) ==> old(store)@.len() > 0,
        r matches Ok(n) ==> ({
            let stored = final(store)@.last();
            &&& final(store)@ == old(store)@.push(stored)
            &&& n@ == stored
            &&& stored.title == body.title@
            &&& stored.content == body.content@
            &&& stored.created_at == stored.updated_at
            &&& !note_id_taken(old(store)@, stored.id)
            &&& !note_title_taken(old(store)@, body.title@)
        }),
{
    match store.create_note(body.title.as_str(), body.content.as_str()) {
        Ok(n) => Ok(n),
        Err(NoteStoreError::DuplicateTitle) => Err(ApiError::BadRequest),
        Err(NoteStoreError::DuplicateId) => Err(ApiError::StoreFailure),
    }
}

/// Reading a note over HTTP: an absent id answers NotFound.
pub fn get_note_handler(store: &NoteStore, id: u128) -> (r: Result<NoteResponse, ApiError>)
    ensures
        match r {
            Ok(n) => find_note(store@, id as int) == Some(n@),
            Err(e) => e == ApiError::NotFound && find_note(store@, id as int) is None,
        },
{
    match store.get_note_id(id) {
        Some(n) => Ok(n),
        None => Err(ApiError::NotFound),
    }
}

/// Editing a note over HTTP: the id's presence is confirmed before the
/// update is attempted, an absent id answers NotFound without touching a
/// row, and an update failure answers StoreFailure.
pub fn edit_note_handler(store: &mut NoteStore, id: u128, body: &UpdateNoteSchema) -> (r: Result<
    NoteResponse,
    ApiError,
>)
    requires
        old(store).wf(),
    ensures
        final(store).wf(),
        r matches Err(_) ==> final(store)@ == old(store)@,
        (r == Err::<NoteResponse, ApiError>(ApiError::NotFound)) == (find_note(
            old(store)@,
            id as int,
        ) is None),
        r matches Err(e) ==> e == ApiError::NotFound || e == ApiError::StoreFailure,
        r matches Ok(n) ==> ({
            let i = note_id_idx(old(store)@, id as int);
            &&& find_note(old(store)@, id as int) matches Some(prev)
            &&& n@.id == prev.id
            &&& n@.title == body.title@
            &&& n@.content == body.content@
            &&& n@.created_at == prev.created_at
            &&& final(store)@ == old(store)@.update(i, n@)
        }),
        find_note(old(store)@, id as int) is Some && (forall|k: int|
            0 <= k < old(store)@.len() && (#[trigger] old(store)@[k]).id != id as int ==> old(
                store,
            )@[k].title != body.title@) ==> r matches Ok(_),
{
    if store.get_note_id(id).is_none() {
        return Err(ApiError::NotFound);
    }
    match store.update_note(id, body.title.as_str(), body.content.as_str()) {
        Ok(Some(n)) => Ok(n),
        Ok(None) => Err(ApiError::NotFound),
        Err(_) => Err(ApiError::StoreFailure),
    }
}

/// Registration over HTTP: a body whose password the hasher would refuse
/// answers BadRequest before any other check; a taken email answers
/// Conflict; a drawn id that collides with a stored row answers
/// StoreFailure, which an empty store therefore never does; the response
/// is the public profile, which never carries the password or its hash.
pub fn register_user_handler(store: &mut UserStore, body: &RegisterUserSchema) -> (r: Result<
    FilteredUser,
    ApiError,
>)
    requires
        old(store).wf(),
    ensures
        final(store).wf(),
        r matches Err(_) ==> final(store)@ == old(store)@,
        (r == Err::<FilteredUser, ApiError>(ApiError::BadRequest)) == (body.password@.len()
            > 0x3FFF_FFFF),
        (r == Err::<FilteredUser, ApiError>(ApiError::Conflict)) == (body.password@.len()
            <= 0x3FFF_FFFF && email_taken(old(store)@, body.email@)),
        r matches Err(e) ==> e == ApiError::BadRequest || e == ApiError::Conflict || e
            == ApiError::StoreFailure,
        r == Err::<FilteredUser, ApiError>(ApiError::StoreFailure) ==> old(store)@.len() > 0,
        r matches Ok(u) ==> ({
            let stored = final(store)@.last();
            &&& !email_taken(old(store)@, body.email@)
            &&& final(store)@ == old(store)@.push(stored)
            &&& stored.firstname == body.firstname@
            &&& stored.lastname == body.lastname@
            &&& stored.email == body.email@
            &&& password_verifies(body.password@, stored.password)
            &&& filtered_of(u, stored)
        }),
{
    if body.password.as_str().unicode_len() > 0x3FFF_FFFF {
        return Err(ApiError::BadRequest);
    }
    let new_id = fresh_id();
    let now = now_seconds();
    match register(
        store,
        body.firstname.as_str(),
        body.lastname.as_str(),
        body.email.as_str(),
        body.password.as_str(),
        new_id,
        now,
    ) {
        Ok(u) => Ok(u),
        Err(e) => {
            proof {
                lemma_user_id_scan_le(old(store)@, new_id as int, 0);
            }
            Err(auth_api_error(&e))
        },
    }
}

/// Login over HTTP: an unknown email answers BadRequest without saying
/// which credential was wrong, a failed verification answers Conflict,
/// and success answers a token whose claims name the user and expire one
/// window after they were issued.
pub fn login_user_handler(store: &UserStore, body: &LoginUserSchema, secret: &str) -> (r: Result<
    String,
    ApiError,
>)
    ensures
        r == Err::<String, ApiError>(ApiError::BadRequest) ==> find_user_by_email(
            store@,
            body.email@,
        ) is None,
        r == Err::<String, ApiError>(ApiError::Conflict) ==> ({
            &&& find_user_by_email(store@, body.email@) matches Some(u)
            &&& !password_verifies(body.password@, u.password)
        }),
        r matches Err(e) ==> e == ApiError::BadRequest || e == ApiError::Conflict || e
            == ApiError::StoreFailure,
        find_user_by_email(store@, body.email@) is None ==> (r == Err::<String, ApiError>(
            ApiError::BadRequest,
        ) || r == Err::<String, ApiError>(ApiError::StoreFailure)),
        find_user_by_email(store@, body.email@) matches Some(u) ==> ({
            &&& !password_verifies(body.password@, u.password) ==> (r == Err::<String, ApiError>(
                ApiError::Conflict,
            ) || r == Err::<String, ApiError>(ApiError::StoreFailure))
            &&& password_verifies(body.password@, u.password) ==> (r is Ok || r == Err::<
                String,
                ApiError,
            >(ApiError::StoreFailure))
        }),
        r matches Ok(t) ==> ({
            &&& find_user_by_email(store@, body.email@) matches Some(u)
            &&& password_verifies(body.password@, u.password)
            &&& token_claims(t@, secret@) matches Some(c)
            &&& c.sub == u.id
            &&& c.exp == c.iat + TOKEN_TTL_SECONDS
        }),
{
    let now = now_seconds();
    if now > i64::MAX - TOKEN_TTL_SECONDS {
        return Err(ApiError::StoreFailure);
    }
    match login(store, body.email.as_str(), body.password.as_str(), now, secret) {
        Ok(t) => Ok(t),
        Err(e) => Err(auth_api_error(&e)),
    }
}

/// The protected profile route over HTTP: a caller whose token authorizes
/// them gets their own public profile; anything else answers Unauthorized.
pub fn get_me_handler(store: &UserStore, token: &str, secret: &str) -> (r: Result<
    FilteredUser,
    ApiError,
>)
    ensures
        r matches Err(e) ==> e == ApiError::Unauthorized,
        token_claims(token@, secret@) is None ==> r == Err::<FilteredUser, ApiError>(
            ApiError::Unauthorized,
        ),
        token_claims(token@, secret@) matches Some(c) && find_user_by_id(store@, c.sub) is None
            ==> r is Err,
        r matches Ok(u) ==> ({
            &&& token_claims(token@, secret@) matches Some(c)
            &&& find_user_by_id(store@, c.sub) matches Some(stored)
            &&& filtered_of(u, stored)
        }),
{
    let now = now_seconds();
    get_me(store, token, now, secret)
}

/// Logout over HTTP: the token must still authorize its holder; clearing
/// the cookie is the HTTP edge's business, since stateless tokens leave
/// nothing to revoke here.
pub fn logout_handler(store: &UserStore, token: &str, secret: &str) -> (r: Result<(), ApiError>)
    ensures
        r matches Err(e) ==> e == ApiError::Unauthorized,
        token_claims(token@, secret@) is None ==> r == Err::<(), ApiError>(ApiError::Unauthorized),
        token_claims(token@, secret@) matches Some(c) && find_user_by_id(store@, c.sub) is None
            ==> r is Err,
        r is Ok ==> ({
            &&& token_claims(token@, secret@) matches Some(c)
            &&& find_user_by_id(store@, c.sub) is Some
        }),
{
    let now = now_seconds();
    match gate(store, token, now, secret) {
        Ok(_) => Ok(()),
        Err(e) => Err(auth_api_error(&e)),
    }
}

} // verus!
