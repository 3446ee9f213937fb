use vstd::prelude::*;

verus! {

/// A user as returned to API clients. The `age` field is carried as an
/// `Option` and is meant to appear in serialized output only when present.
pub struct UserDtoResponse {
    pub id: String,
    pub first_name: String,
    pub last_name: String,
    pub email: String,
    pub age: Option<u8>,
}

/// The reply to a successful creation: the server-assigned identifier.
pub struct UserIdDtoResponse {
    pub id: String,
}

/// The body of a creation request. Every field but `age` is required.
pub struct CreateUserDtoRequest {
    pub first_name: String,
    pub last_name: String,
    pub email: String,
    pub age: Option<u8>,
}

/// The body of a partial update: only the supplied fields change.
pub struct UpdateUserDtoRequest {
    pub first_name: Option<String>,
    pub last_name: Option<String>,
    pub email: Option<String>,
    pub age: Option<u8>,
}

} // verus!
