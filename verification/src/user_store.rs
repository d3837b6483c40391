use vstd::prelude::*;

use crate::errors::UserStoreError;
use crate::model::{UserRecord, UserView};

verus! {

/// The first position at or after `i` whose row holds `id`, or
/// `users.len()` if none does.
pub open spec fn user_id_idx_from(users: Seq<UserView>, id: int, i: int) -> int
    decreases users.len() - i,
{
    if i < 0 || i >= users.len() {
        users.len() as int
    } else if users[i].id == id {
        i
    } else {
        user_id_idx_from(users, id, i + 1)
    }
}

pub open spec fn user_id_idx(users: Seq<UserView>, id: int) -> int {
    user_id_idx_from(users, id, 0)
}

pub open spec fn user_id_taken(users: Seq<UserView>, id: int) -> bool {
    user_id_idx(users, id) < users.len()
}

/// The row holding `id`, if any.
pub open spec fn find_user_by_id(users: Seq<UserView>, id: int) -> Option<UserView> {
    if user_id_taken(users, id) {
        Some(users[user_id_idx(users, id)])
    } else {
        None
    }
}

/// The first position at or after `i` whose row holds `email`, or
/// `users.len()` if none does.
pub open spec fn email_idx_from(users: Seq<UserView>, email: Seq<char>, i: int) -> int
    decreases users.len() - i,
{
    if i < 0 || i >= users.len() {
        users.len() as int
    } else if users[i].email == email {
        i
    } else {
        email_idx_from(users, email, i + 1)
    }
}

pub open spec fn email_idx(users: Seq<UserView>, email: Seq<char>) -> int {
    email_idx_from(users, email, 0)
}

pub open spec fn email_taken(users: Seq<UserView>, email: Seq<char>) -> bool {
    email_idx(users, email) < users.len()
}

/// The row holding `email`, if any.
pub open spec fn find_user_by_email(users: Seq<UserView>, email: Seq<char>) -> Option<UserView> {
    if email_taken(users, email) {
        Some(users[email_idx(users, email)])
    } else {
        None
    }
}

/// The store's invariant: no two rows share an id, and no two share an
/// email — the two uniqueness constraints of the `users` table.
pub open spec fn users_wf(users: Seq<UserView>) -> bool {
    forall|i: int, j: int|
        0 <= i < j < users.len() ==> (#[trigger] users[i]).id != (#[trigger] users[j]).id
            && users[i].email != users[j].email
}

/// The role every registered user starts with.
pub open spec fn default_role() -> Seq<char> {
    "user"@
}

/// Creation: a taken email is a conflict, a taken id a key violation;
/// otherwise the row is appended with the default role and both
/// timestamps set to `now`.
pub open spec fn create_user_tr(
    users: Seq<UserView>,
    firstname: Seq<char>,
    lastname: Seq<char>,
    email: Seq<char>,
    password: Seq<char>,
    id: int,
    now: int,
) -> (Seq<UserView>, Result<UserView, UserStoreError>) {
    if email_taken(users, email) {
        (users, Err(UserStoreError::DuplicateEmail))
    } else if user_id_taken(users, id) {
        (users, Err(UserStoreError::DuplicateId))
    } else {
        let u = UserView {
            id,
            firstname,
            lastname,
            email,
            password,
            role: default_role(),
            created_at: now,
            updated_at: now,
        };
        (users.push(u), Ok(u))
    }
}

/// Update by email: an absent email updates nothing; otherwise first
/// name, last name and password hash are replaced and every other field
/// stays.
pub open spec fn update_user_tr(
    users: Seq<UserView>,
    email: Seq<char>,
    firstname: Seq<char>,
    lastname: Seq<char>,
    password: Seq<char>,
) -> (Seq<UserView>, Option<UserView>) {
    let i = email_idx(users, email);
    if i == users.len() {
        (users, None)
    } else {
        let u = UserView { firstname, lastname, password, ..users[i] };
        (users.update(i, u), Some(u))
    }
}

/// Deletion by email: the answer says whether a row went.
pub open spec fn delete_user_tr(users: Seq<UserView>, email: Seq<char>) -> (Seq<UserView>, bool) {
    let i = email_idx(users, email);
    if i == users.len() {
        (users, false)
    } else {
        (users.remove(i), true)
    }
}

/// The verified model of the `users` table: rows behind the uniqueness
/// constraints the schema declares.
pub struct UserStore {
    pub(crate) users: Vec<UserRecord>,
}

impl View for UserStore {
    type V = Seq<UserView>;

    closed spec fn view(&self) -> Seq<UserView> {
        Seq::new(self.users@.len(), |i: int| self.users@[i]@)
    }
}

impl UserStore {
    pub open spec fn wf(&self) -> bool {
        users_wf(self@)
    }

    /// An empty table.
    pub fn new() -> (s: UserStore)
        ensures
            s@.len() == 0,
            s.wf(),
    {
        UserStore { users: Vec::new() }
    }

    /// The position of the row holding `id`, or the table's length.
    fn idx_of_id(&self, id: u128) -> (i: usize)
        ensures
            i as int == user_id_idx(self@, id as int),
            i <= self.users.len(),
    {
        let n = self.users.len();
        let mut i: usize = 0;
        while i < n
            invariant
                0 <= i <= n,
                n == self.users.len(),
                user_id_idx(self@, id as int) == user_id_idx_from(self@, id as int, i as int),
            decreases n - i,
        {
            if self.users[i].id == id {
                return i;
            }
            i += 1;
        }
        i
    }

    /// The position of the row holding `email`, or the table's length.
    fn idx_of_email(&self, email: &str) -> (i: usize)
        ensures
            i as int == email_idx(self@, email@),
            i <= self.users.len(),
    {
        let wanted = email.to_owned();
        let n = self.users.len();
        let mut i: usize = 0;
        while i < n
            invariant
                0 <= i <= n,
                n == self.users.len(),
                wanted@ == email@,
                email_idx(self@, email@) == email_idx_from(self@, email@, i as int),
            decreases n - i,
        {
            if self.users[i].email == wanted {
                return i;
            }
            i += 1;
        }
        i
    }

    /// Whether some row holds `email`; presence is an answer, not a failure.
    pub fn find_by_email_exists(&self, email: &str) -> (r: bool)
        ensures
            r == email_taken(self@, email@),
    {
        let i = self.idx_of_email(email);
        i < self.users.len()
    }

    /// Looks a user up by email.
    pub fn find_by_email(&self, email: &str) -> (r: Option<UserRecord>)
        ensures
            match r {
                Some(u) => find_user_by_email(self@, email@) == Some(u@),
                None => find_user_by_email(self@, email@) is None,
            },
    {
        let i = self.idx_of_email(email);
        if i < self.users.len() {
            Some(clone_user(&self.users[i]))
        } else {
            None
        }
    }

    /// Looks a user up by id.
    pub fn find_by_id(&self, id: u128) -> (r: Option<UserRecord>)
        ensures
            match r {
                Some(u) => find_user_by_id(self@, id as int) == Some(u@),
                None => find_user_by_id(self@, id as int) is None,
            },
    {
        let i = self.idx_of_id(id);
        if i < self.users.len() {
            Some(clone_user(&self.users[i]))
        } else {
            None
        }
    }

    /// Inserts a new row with an already hashed password, refusing a taken
    /// email or a taken id, exactly as `create_user_tr` says.
    pub fn create_user(
        &mut self,
        firstname: &str,
        lastname: &str,
        email: &str,
        password: &str,
        new_id: u128,
        now: i64,
    ) -> (r: Result<UserRecord, UserStoreError>)
        requires
            old(self).wf(),
        ensures
            final(self).wf(),
            final(self)@ == create_user_tr(
                old(self)@,
                firstname@,
                lastname@,
                email@,
                password@,
                new_id as int,
                now as int,
            ).0,
            match r {
                Ok(u) => create_user_tr(
                    old(self)@,
                    firstname@,
                    lastname@,
                    email@,
                    password@,
                    new_id as int,
                    now as int,
                ).1 == Ok::<UserView, UserStoreError>(u@),
                Err(e) => create_user_tr(
                    old(self)@,
                    firstname@,
                    lastname@,
                    email@,
                    password@,
                    new_id as int,
                    now as int,
                ).1 == Err::<UserView, UserStoreError>(e),
            },
    {
        let e = self.idx_of_email(email);
        if e < self.users.len() {
            return Err(UserStoreError::DuplicateEmail);
        }
        let i = self.idx_of_id(new_id);
        if i < self.users.len() {
            return Err(UserStoreError::DuplicateId);
        }
        let record = UserRecord {
            id: new_id,
            firstname: firstname.to_owned(),
            lastname: lastname.to_owned(),
            email: email.to_owned(),
            password: password.to_owned(),
            role: "user".to_owned(),
            created_at: now,
            updated_at: now,
        };
        let copy = clone_user(&record);
        self.users.push(record);
        proof {
            let nv = UserView {
                id: new_id as int,
                firstname: firstname@,
                lastname: lastname@,
                email: email@,
                password: password@,
                role: default_role(),
                created_at: now as int,
                updated_at: now as int,
            };
            assert(self@ =~= old(self)@.push(nv));
            lemma_no_match_user_id(old(self)@, new_id as int);
            lemma_no_match_email(old(self)@, email@);
            let u = old(self)@.push(nv);
            assert forall|p: int, q: int| 0 <= p < q < u.len() implies (#[trigger] u[p]).id != (
            #[trigger] u[q]).id && u[p].email != u[q].email by {
                if q < old(self)@.len() {
                    assert(old(self)@[p].id != old(self)@[q].id && old(self)@[p].email != old(
                        self,
                    )@[q].email);
                } else {
                    assert(old(self)@[p].id != new_id as int);
                    assert(old(self)@[p].email != email@);
                }
            }
        }
        Ok(copy)
    }

    /// Rewrites name and password hash of the row holding `email`, exactly
    /// as `update_user_tr` says; an absent email updates nothing.
    pub fn update_user(&mut self, email: &str, firstname: &str, lastname: &str, password: &str) -> (r:
        Option<UserRecord>)
        requires
            old(self).wf(),
        ensures
            final(self).wf(),
            final(self)@ == update_user_tr(old(self)@, email@, firstname@, lastname@, password@).0,
            match r {
                Some(u) => update_user_tr(old(self)@, email@, firstname@, lastname@, password@).1
                    == Some(u@),
                None => update_user_tr(old(self)@, email@, firstname@, lastname@, password@).1
                    is None,
            },
    {
        let i = self.idx_of_email(email);
        if i == self.users.len() {
            return None;
        }
        let record = UserRecord {
            id: self.users[i].id,
            firstname: firstname.to_owned(),
            lastname: lastname.to_owned(),
            email: self.users[i].email.clone(),
            password: password.to_owned(),
            role: self.users[i].role.clone(),
            created_at: self.users[i].created_at,
            updated_at: self.users[i].updated_at,
        };
        let copy = clone_user(&record);
        self.users[i] = record;
        proof {
            let uv = UserView {
                firstname: firstname@,
                lastname: lastname@,
                password: password@,
                ..old(self)@[i as int]
            };
            assert(self@ =~= old(self)@.update(i as int, uv));
            lemma_user_update_wf(old(self)@, i as int, uv);
        }
        Some(copy)
    }

    /// Removes the row holding `email` if it is there, and answers whether
    /// one went.
    pub fn delete_user(&mut self, email: &str) -> (r: bool)
        requires
            old(self).wf(),
        ensures
            final(self).wf(),
            final(self)@ == delete_user_tr(old(self)@, email@).0,
            r == delete_user_tr(old(self)@, email@).1,
    {
        let i = self.idx_of_email(email);
        if i < self.users.len() {
            self.users.remove(i);
            proof {
                assert(self@ =~= old(self)@.remove(i as int));
                lemma_user_remove_wf(old(self)@, i as int);
            }
            true
        } else {
            false
        }
    }
}

/// A field-by-field copy of a user row.
fn clone_user(u: &UserRecord) -> (r: UserRecord)
    ensures
        r@ == u@,
{
    UserRecord {
        id: u.id,
        firstname: u.firstname.clone(),
        lastname: u.lastname.clone(),
        email: u.email.clone(),
        password: u.password.clone(),
        role: u.role.clone(),
        created_at: u.created_at,
        updated_at: u.updated_at,
    }
}

/// A scan for an email lands between its start and the table's length.
pub proof fn lemma_email_scan_le(users: Seq<UserView>, email: Seq<char>, i: int)
    requires
        0 <= i <= users.len(),
    ensures
        i <= email_idx_from(users, email, i) <= users.len(),
    decreases users.len() - i,
{
    if i < users.len() && users[i].email != email {
        lemma_email_scan_le(users, email, i + 1);
    }
}

/// A scan for an id lands between its start and the table's length.
pub proof fn lemma_user_id_scan_le(users: Seq<UserView>, id: int, i: int)
    requires
        0 <= i <= users.len(),
    ensures
        i <= user_id_idx_from(users, id, i) <= users.len(),
    decreases users.len() - i,
{
    if i < users.len() && users[i].id != id {
        lemma_user_id_scan_le(users, id, i + 1);
    }
}

/// A scan for an id lands no later than any row that holds it.
pub proof fn lemma_user_id_scan_bound(users: Seq<UserView>, id: int, i: int, k: int)
    requires
        0 <= i <= k < users.len(),
        users[k].id == id,
    ensures
        user_id_idx_from(users, id, i) <= k,
    decreases k - i,
{
    if i < k && users[i].id != id {
        lemma_user_id_scan_bound(users, id, i + 1, k);
    }
}

/// Scanning a table extended by a row holding the email finds some row.
pub proof fn lemma_email_scan_push(users: Seq<UserView>, u: UserView, email: Seq<char>, k: int)
    requires
        0 <= k <= users.len(),
        u.email == email,
    ensures
        email_idx_from(users.push(u), email, k) <= users.len(),
    decreases users.len() - k,
{
    if k < users.len() && users.push(u)[k].email != email {
        lemma_email_scan_push(users, u, email, k + 1);
    }
}

/// An index past every row says no row matches the id.
proof fn lemma_no_match_user_id(users: Seq<UserView>, id: int)
    requires
        user_id_idx(users, id) == users.len(),
    ensures
        forall|k: int| 0 <= k < users.len() ==> (#[trigger] users[k]).id != id,
{
    lemma_no_match_user_id_from(users, id, 0);
}

proof fn lemma_no_match_user_id_from(users: Seq<UserView>, id: int, i: int)
    requires
        0 <= i <= users.len(),
        user_id_idx_from(users, id, i) == users.len(),
    ensures
        forall|k: int| i <= k < users.len() ==> (#[trigger] users[k]).id != id,
    decreases users.len() - i,
{
    if i < users.len() {
        lemma_no_match_user_id_from(users, id, i + 1);
    }
}

/// An index past every row says no row matches the email.
proof fn lemma_no_match_email(users: Seq<UserView>, email: Seq<char>)
    requires
        email_idx(users, email) == users.len(),
    ensures
        forall|k: int| 0 <= k < users.len() ==> (#[trigger] users[k]).email != email,
{
    lemma_no_match_email_from(users, email, 0);
}

proof fn lemma_no_match_email_from(users: Seq<UserView>, email: Seq<char>, i: int)
    requires
        0 <= i <= users.len(),
        email_idx_from(users, email, i) == users.len(),
    ensures
        forall|k: int| i <= k < users.len() ==> (#[trigger] users[k]).email != email,
    decreases users.len() - i,
{
    if i < users.len() {
        lemma_no_match_email_from(users, email, i + 1);
    }
}

/// Rewriting a row without touching its id or email keeps the table well
/// formed.
proof fn lemma_user_update_wf(users: Seq<UserView>, i: int, u: UserView)
    requires
        users_wf(users),
        0 <= i < users.len(),
        u.id == users[i].id,
        u.email == users[i].email,
    ensures
        users_wf(users.update(i, u)),
{
    let w = users.update(i, u);
    assert forall|p: int, q: int| 0 <= p < q < w.len() implies (#[trigger] w[p]).id != (
    #[trigger] w[q]).id && w[p].email != w[q].email by {
        assert(users[p].id != users[q].id && users[p].email != users[q].email);
    }
}

/// Removing a row keeps the table well formed.
proof fn lemma_user_remove_wf(users: Seq<UserView>, i: int)
    requires
        users_wf(users),
        0 <= i < users.len(),
    ensures
        users_wf(users.remove(i)),
{
    let w = users.remove(i);
    assert forall|p: int, q: int| 0 <= p < q < w.len() implies (#[trigger] w[p]).id != (
    #[trigger] w[q]).id && w[p].email != w[q].email by {
        let p2 = if p < i {
            p
        } else {
            p + 1
        };
        let q2 = if q < i {
            q
        } else {
            q + 1
        };
        assert(users[p2].id != users[q2].id && users[p2].email != users[q2].email);
    }
}

} // verus!
