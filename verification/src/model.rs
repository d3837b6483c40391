use vstd::prelude::*;

verus! {

/// A row of the `notes` table. The id is the 128-bit value of the row's
/// UUID; timestamps are seconds since the epoch.
pub struct NoteRecord {
    pub id: u128,
    pub title: String,
    pub content: String,
    pub created_at: i64,
    pub updated_at: i64,
}

/// The mathematical view of a note row.
pub ghost struct NoteView {
    pub id: int,
    pub title: Seq<char>,
    pub content: Seq<char>,
    pub created_at: int,
    pub updated_at: int,
}

impl View for NoteRecord {
    type V = NoteView;

    open spec fn view(&self) -> NoteView {
        NoteView {
            id: self.id as int,
            title: self.title@,
            content: self.content@,
            created_at: self.created_at as int,
            updated_at: self.updated_at as int,
        }
    }
}

/// The response shape of a note; it carries the same fields as the row.
pub struct NoteResponse {
    pub id: u128,
    pub title: String,
    pub content: String,
    pub created_at: i64,
    pub updated_at: i64,
}

impl View for NoteResponse {
    type V = NoteView;

    open spec fn view(&self) -> NoteView {
        NoteView {
            id: self.id as int,
            title: self.title@,
            content: self.content@,
            created_at: self.created_at as int,
            updated_at: self.updated_at as int,
        }
    }
}

/// A row of the `users` table. The password field holds only the salted
/// hash, never the password itself.
pub struct UserRecord {
    pub id: u128,
    pub firstname: String,
    pub lastname: String,
    pub email: String,
    pub password: String,
    pub role: String,
    pub created_at: i64,
    pub updated_at: i64,
}

/// The mathematical view of a user row.
pub ghost struct UserView {
    pub id: int,
    pub firstname: Seq<char>,
    pub lastname: Seq<char>,
    pub email: Seq<char>,
    pub password: Seq<char>,
    pub role: Seq<char>,
    pub created_at: int,
    pub updated_at: int,
}

impl View for UserRecord {
    type V = UserView;

    open spec fn view(&self) -> UserView {
        UserView {
            id: self.id as int,
            firstname: self.firstname@,
            lastname: self.lastname@,
            email: self.email@,
            password: self.password@,
            role: self.role@,
            created_at: self.created_at as int,
            updated_at: self.updated_at as int,
        }
    }
}

/// The response shape of a user, with the password and the role omitted.
pub struct UserSchema {
    pub id: u128,
    pub firstname: String,
    pub lastname: String,
    pub email: String,
    pub created_at: i64,
    pub updated_at: i64,
}

/// The public profile a user sees of themselves: the row with the
/// password omitted.
pub struct FilteredUser {
    pub id: u128,
    pub firstname: String,
    pub lastname: String,
    pub email: String,
    pub role: String,
    pub created_at: i64,
    pub updated_at: i64,
}

/// Whether a user response matches a user row on every field it carries.
/// Neither response shape has a password field, so no clause mentions one.
pub open spec fn schema_of(r: UserSchema, u: UserView) -> bool {
    &&& r.id as int == u.id
    &&& r.firstname@ == u.firstname
    &&& r.lastname@ == u.lastname
    &&& r.email@ == u.email
    &&& r.created_at as int == u.created_at
    &&& r.updated_at as int == u.updated_at
}

pub open spec fn filtered_of(r: FilteredUser, u: UserView) -> bool {
    &&& r.id as int == u.id
    &&& r.firstname@ == u.firstname
    &&& r.lastname@ == u.lastname
    &&& r.email@ == u.email
    &&& r.role@ == u.role
    &&& r.created_at as int == u.created_at
    &&& r.updated_at as int == u.updated_at
}

/// Trims a user row to its response shape.
pub fn user_schema_of(u: &UserRecord) -> (r: UserSchema)
    ensures
        schema_of(r, u@),
{
    UserSchema {
        id: u.id,
        firstname: u.firstname.clone(),
        lastname: u.lastname.clone(),
        email: u.email.clone(),
        created_at: u.created_at,
        updated_at: u.updated_at,
    }
}

/// Trims a user row to the public profile, dropping the password hash.
pub fn filter_user_record(u: &UserRecord) -> (r: FilteredUser)
    ensures
        filtered_of(r, u@),
{
    FilteredUser {
        id: u.id,
        firstname: u.firstname.clone(),
        lastname: u.lastname.clone(),
        email: u.email.clone(),
        role: u.role.clone(),
        created_at: u.created_at,
        updated_at: u.updated_at,
    }
}

/// Copies a note row into its response shape.
pub fn note_response_of(n: &NoteRecord) -> (r: NoteResponse)
    ensures
        r@ == n@,
{
    NoteResponse {
        id: n.id,
        title: n.title.clone(),
        content: n.content.clone(),
        created_at: n.created_at,
        updated_at: n.updated_at,
    }
}

} // verus!
