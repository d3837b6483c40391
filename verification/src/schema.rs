use vstd::prelude::*;

verus! {

/// The request body of the register route.
pub struct RegisterUserSchema {
    pub firstname: String,
    pub lastname: String,
    pub email: String,
    pub password: String,
}

/// The request body of the login route.
pub struct LoginUserSchema {
    pub email: String,
    pub password: String,
}

/// The request body of the create-note route.
pub struct CreateNoteSchema {
    pub title: String,
    pub content: String,
}

/// The request body of the update-note route.
pub struct UpdateNoteSchema {
    pub title: String,
    pub content: String,
}

} // verus!
