use vstd::prelude::*;

use crate::errors::{AuthError, NoteStoreError, UserStoreError};
use crate::model::{NoteView, UserView};
use crate::note_store::{
    create_note_tr, delete_note_tr, find_note, lemma_note_id_absent, lemma_note_id_no_match_scan,
    lemma_note_id_scan_le, lemma_note_id_scan_match, lemma_note_id_scan_push,
    lemma_note_title_scan_le, lemma_note_title_scan_match, note_id_idx, note_id_taken,
    note_title_idx, note_title_taken, notes_wf, update_note_tr,
};
use crate::password::password_verifies;
use crate::token::ClaimsView;
use crate::user_store::{
    create_user_tr, email_idx, find_user_by_email, find_user_by_id, lemma_email_scan_le,
    lemma_email_scan_push, lemma_user_id_scan_bound,
};
use crate::auth::{gate_tr, login_tr, TOKEN_TTL_SECONDS};

verus! {

/// Registering a second user under an email the first registration took
/// is refused as a duplicate, whatever the other fields are, and leaves
/// the store as the first registration left it.
pub proof fn lemma_register_twice_conflict(
    users: Seq<UserView>,
    firstname1: Seq<char>,
    lastname1: Seq<char>,
    email: Seq<char>,
    hash1: Seq<char>,
    id1: int,
    now1: int,
    firstname2: Seq<char>,
    lastname2: Seq<char>,
    hash2: Seq<char>,
    id2: int,
    now2: int,
)
    requires
        create_user_tr(users, firstname1, lastname1, email, hash1, id1, now1).1 is Ok,
    ensures
        ({
            let after_first = create_user_tr(users, firstname1, lastname1, email, hash1, id1, now1).0;
            let second = create_user_tr(after_first, firstname2, lastname2, email, hash2, id2, now2);
            &&& second.1 == Err::<UserView, UserStoreError>(UserStoreError::DuplicateEmail)
            &&& second.0 == after_first
        }),
{
    let first = create_user_tr(users, firstname1, lastname1, email, hash1, id1, now1);
    let stored = first.0.last();
    lemma_email_scan_push(users, stored, email, 0);
}

/// Login under an email no user holds is refused as bad credentials; the
/// refusal never says whether the email or the password was wrong.
pub proof fn lemma_login_unknown_email(
    users: Seq<UserView>,
    email: Seq<char>,
    password: Seq<char>,
    now: int,
)
    requires
        find_user_by_email(users, email) is None,
    ensures
        login_tr(users, email, password, now) == Err::<ClaimsView, AuthError>(
            AuthError::InvalidCredentials,
        ),
{
}

/// Login under a known email with a password that does not verify against
/// the stored hash is refused as a conflict.
pub proof fn lemma_login_wrong_password(
    users: Seq<UserView>,
    email: Seq<char>,
    password: Seq<char>,
    now: int,
)
    requires
        find_user_by_email(users, email) matches Some(u) && !password_verifies(
            password,
            u.password,
        ),
    ensures
        login_tr(users, email, password, now) == Err::<ClaimsView, AuthError>(
            AuthError::WrongPassword,
        ),
{
}

/// One and the same claim set, resolving to a stored user, passes the
/// gate at any instant before its expiry and is refused as expired at any
/// instant from its expiry on.
pub proof fn lemma_gate_expiry_window(users: Seq<UserView>, c: ClaimsView, now: int)
    requires
        find_user_by_id(users, c.sub) is Some,
    ensures
        now < c.exp ==> gate_tr(users, Some(c), now) == Ok::<int, AuthError>(c.sub),
        now >= c.exp ==> gate_tr(users, Some(c), now) == Err::<int, AuthError>(
            AuthError::TokenExpired,
        ),
{
}

/// A claim set minted by a successful login, presented at any instant
/// inside its expiry window, authorizes its holder as the user login
/// found.
pub proof fn lemma_login_token_grants_access(
    users: Seq<UserView>,
    email: Seq<char>,
    password: Seq<char>,
    now_login: int,
    now_present: int,
)
    requires
        login_tr(users, email, password, now_login) is Ok,
        now_present < now_login + TOKEN_TTL_SECONDS,
    ensures
        ({
            &&& login_tr(users, email, password, now_login) matches Ok(c)
            &&& gate_tr(users, Some(c), now_present) == Ok::<int, AuthError>(c.sub)
        }),
{
    lemma_email_scan_le(users, email, 0);
    let at = email_idx(users, email);
    lemma_user_id_scan_bound(users, users[at].id, 0, at);
}

/// Creating a note under a title some row already holds is refused as a
/// duplicate and changes no row; creating under a fresh title with a
/// fresh id appends exactly one row carrying the drawn id.
pub proof fn lemma_create_note_duplicate_title(
    notes: Seq<NoteView>,
    title: Seq<char>,
    content: Seq<char>,
    id: int,
    now: int,
)
    ensures
        note_title_taken(notes, title) ==> create_note_tr(notes, title, content, id, now) == (
            notes,
            Err::<NoteView, NoteStoreError>(NoteStoreError::DuplicateTitle),
        ),
        !note_title_taken(notes, title) && !note_id_taken(notes, id) ==> ({
            let (after, res) = create_note_tr(notes, title, content, id, now);
            &&& res matches Ok(n)
            &&& n.id == id
            &&& after == notes.push(n)
        }),
{
}

/// Updating an id no row holds updates nothing and answers that nothing
/// was found; updating a held id, under a title no other row holds,
/// rewrites title and content and advances `updated_at` while leaving
/// `created_at` and every other row unchanged.
pub proof fn lemma_update_note(
    notes: Seq<NoteView>,
    id: int,
    title: Seq<char>,
    content: Seq<char>,
    now: int,
)
    requires
        notes_wf(notes),
        forall|k: int|
            0 <= k < notes.len() && (#[trigger] notes[k]).id != id ==> notes[k].title != title,
    ensures
        find_note(notes, id) is None ==> update_note_tr(notes, id, title, content, now) == (
            notes,
            Ok::<Option<NoteView>, NoteStoreError>(None),
        ),
        find_note(notes, id) matches Some(n) ==> ({
            let (after, res) = update_note_tr(notes, id, title, content, now);
            let i = note_id_idx(notes, id);
            &&& res matches Ok(Some(m))
            &&& m.id == n.id
            &&& m.title == title
            &&& m.content == content
            &&& m.created_at == n.created_at
            &&& m.updated_at == now
            &&& after == notes.update(i, m)
            &&& forall|k: int| 0 <= k < notes.len() && k != i ==> after[k] == notes[k]
        }),
{
    lemma_note_id_scan_le(notes, id, 0);
    if note_id_taken(notes, id) {
        let i = note_id_idx(notes, id);
        lemma_note_id_scan_match(notes, id, 0);
        let t = note_title_idx(notes, title);
        lemma_note_title_scan_le(notes, title, 0);
        if t < notes.len() {
            lemma_note_title_scan_match(notes, title, 0);
            assert(notes[t].title == title);
            assert(notes[t].id == id);
            if t != i {
                if t < i {
                    assert(notes[t].id != notes[i].id);
                } else {
                    assert(notes[i].id != notes[t].id);
                }
            }
        }
    }
}

/// Deleting is idempotent: deleting the same id out of a well formed
/// table a second time changes nothing, and deleting an id no row holds
/// already changes nothing — either way the operation reports success.
pub proof fn lemma_delete_idempotent(notes: Seq<NoteView>, id: int)
    requires
        notes_wf(notes),
    ensures
        delete_note_tr(delete_note_tr(notes, id), id) == delete_note_tr(notes, id),
        !note_id_taken(notes, id) ==> delete_note_tr(notes, id) == notes,
{
    lemma_note_id_scan_le(notes, id, 0);
    if note_id_taken(notes, id) {
        let i = note_id_idx(notes, id);
        lemma_note_id_scan_match(notes, id, 0);
        let rest = notes.remove(i);
        assert forall|k: int| 0 <= k < rest.len() implies (#[trigger] rest[k]).id != id by {
            if k < i {
                assert(notes[k].id != notes[i].id);
            } else {
                assert(notes[i].id != notes[k + 1].id);
            }
        }
        lemma_note_id_no_match_scan(rest, id, 0);
    }
}

/// Round trip: a note just created is found again under the returned id,
/// equal to the input in title and content.
pub proof fn lemma_create_then_get(
    notes: Seq<NoteView>,
    title: Seq<char>,
    content: Seq<char>,
    id: int,
    now: int,
)
    requires
        create_note_tr(notes, title, content, id, now).1 is Ok,
    ensures
        ({
            let (after, res) = create_note_tr(notes, title, content, id, now);
            &&& res matches Ok(n)
            &&& find_note(after, id) == Some(n)
            &&& n.title == title
            &&& n.content == content
        }),
{
    let (after, res) = create_note_tr(notes, title, content, id, now);
    let n = after.last();
    lemma_note_id_scan_le(notes, id, 0);
    lemma_note_id_absent(notes, id, 0);
    lemma_note_id_scan_push(notes, n, 0);
}

} // verus!
