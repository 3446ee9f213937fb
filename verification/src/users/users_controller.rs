use vstd::prelude::*;
use vstd::string::*;

use crate::shared::response::{
    http_bad_request, http_no_content, http_ok, HttpReply, ResponsePayload,
};
use crate::users::dto::{CreateUserDtoRequest, UpdateUserDtoRequest};
use crate::users::object_id::is_normal_object_id;
use crate::users::users_repository::{
    created_user, dto_of, has_user_with_email, has_user_with_id, matches_id, updated_user,
    UserStore,
};
use crate::users::users_service;

verus! {

/// The `/users` resource: each handler turns a request against the
/// user collection into a status code and a response body.
///
/// Routes: list and creation on the collection, lookup, partial update
/// and deletion on one identifier. A missing or unparsable identifier
/// answers 400 with a message naming it; a duplicate email at creation
/// answers 400; deletion always answers 204.

/// Lists every user: 200 with the full array, an empty collection
/// included.
pub fn get_all(store: &UserStore) -> (r: HttpReply)
    ensures
        r.status == 200,
        (r.body matches ResponsePayload::Users(us) && us@.len() == store.users@.len() && (forall|
            i: int,
        |
            0 <= i < us@.len() ==> #[trigger] us@[i] == dto_of(store.users@[i]))),
{
    let users = store.get_all();
    http_ok(ResponsePayload::Users(users))
}

/// Looks one user up: 200 with its rendering when the identifier
/// denotes a stored user, else 400 with a message naming the
/// identifier.
pub fn get_by_id(store: &UserStore, id: &str) -> (r: HttpReply)
    ensures
        has_user_with_id(store.users@, id@) ==> r.status == 200 && (r.body
            matches ResponsePayload::User(d) && exists|i: int|
            0 <= i < store.users@.len() && #[trigger] matches_id(store.users@[i], id@) && d
                == dto_of(store.users@[i])),
        !has_user_with_id(store.users@, id@) ==> r.status == 400 && (r.body
            matches ResponsePayload::Error(e) && e.message@ == "User not found for id "@ + id@),
{
    match store.get_by_id(id) {
        Some(d) => http_ok(ResponsePayload::User(d)),
        None => http_bad_request("User not found for id ".to_owned().concat(id)),
    }
}

/// Creates a user under the generated identifier: 200 with the
/// identifier, unless some stored user already carries the requested
/// email, which answers 400.
pub fn create(store: &mut UserStore, dto: &CreateUserDtoRequest, new_id: String) -> (r: HttpReply)
    requires
        old(store).wf(),
        is_normal_object_id(new_id@),
        !has_user_with_id(old(store).users@, new_id@),
    ensures
        final(store).wf(),
        has_user_with_email(old(store).users@, dto.email@) ==> r.status == 400 && (r.body
            matches ResponsePayload::Error(e) && e.message@ == "Already exists"@) && *final(store)
            == *old(store),
        !has_user_with_email(old(store).users@, dto.email@) ==> r.status == 200 && (r.body
            matches ResponsePayload::UserId(resp) && resp.id@ == new_id@) && final(store).users@
            == old(store).users@.push(created_user(*dto, new_id)),
{
    match store.create(dto, new_id) {
        Some(resp) => http_ok(ResponsePayload::UserId(resp)),
        None => http_bad_request("Already exists".to_owned()),
    }
}

/// Applies a partial update: 200 with the post-update rendering when
/// the identifier denotes a stored user, else 400 with a message
/// naming the identifier.
pub fn update_by_id(store: &mut UserStore, id: &str, dto: &UpdateUserDtoRequest) -> (r: HttpReply)
    requires
        old(store).wf(),
    ensures
        final(store).wf(),
        !has_user_with_id(old(store).users@, id@) ==> r.status == 400 && (r.body
            matches ResponsePayload::Error(e) && e.message@ == "Generic error finding id "@ + id@)
            && *final(store) == *old(store),
        has_user_with_id(old(store).users@, id@) ==> r.status == 200 && (r.body
            matches ResponsePayload::User(d) && exists|i: int|
            0 <= i < old(store).users@.len() && #[trigger] matches_id(old(store).users@[i], id@)
                && final(store).users@ == old(store).users@.update(
                i,
                updated_user(old(store).users@[i], *dto),
            ) && d == dto_of(updated_user(old(store).users@[i], *dto))),
{
    match store.update_by_id(id, dto) {
        Some(d) => http_ok(ResponsePayload::User(d)),
        None => http_bad_request("Generic error finding id ".to_owned().concat(id)),
    }
}

/// Deletes by identifier: 204 with an empty body, whether or not the
/// identifier denoted a stored user.
pub fn delete_by_id(store: &mut UserStore, id: &str) -> (r: HttpReply)
    requires
        old(store).wf(),
    ensures
        final(store).wf(),
        r.status == 204,
        r.body is Empty,
        !has_user_with_id(old(store).users@, id@) ==> *final(store) == *old(store),
        has_user_with_id(old(store).users@, id@) ==> exists|i: int|
            0 <= i < old(store).users@.len() && #[trigger] matches_id(old(store).users@[i], id@)
                && final(store).users@ == old(store).users@.remove(i),
{
    users_service::delete_by_id(store, id);
    http_no_content()
}

} // verus!
