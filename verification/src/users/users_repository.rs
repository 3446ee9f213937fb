use vstd::prelude::*;

use crate::users::dto::{CreateUserDtoRequest, UpdateUserDtoRequest, UserDtoResponse, UserIdDtoResponse};
use crate::users::object_id::{
    is_normal_object_id, is_valid_object_id, lemma_invalid_matches_nothing,
    lemma_match_same_normal, lemma_object_id_eq_refl, object_id_eq, object_ids_match,
};
use crate::users::users_model::User;

verus! {

/// The data-access layer over the user collection, stated against an
/// in-memory model of the stored documents: a sequence of users whose
/// generated identifiers are canonical and pairwise distinct.

/// The collection's invariant: every stored identifier is in the
/// canonical form the store generates, and no identifier occurs twice.
/// Email uniqueness is not an invariant here: it is only pre-checked at
/// creation, and a partial update may bypass it.
pub open spec fn users_wf(users: Seq<User>) -> bool {
    (forall|i: int| 0 <= i < users.len() ==> (#[trigger] users[i]).wf()) && (forall|i: int, j: int|
        0 <= i < users.len() && 0 <= j < users.len() && i != j ==> (#[trigger] users[i])._id@ != (
        #[trigger] users[j])._id@)
}

/// Whether a stored user is the one a client-supplied identifier
/// denotes.
pub open spec fn matches_id(u: User, id: Seq<char>) -> bool {
    object_id_eq(id, u._id@)
}

pub open spec fn has_user_with_id(users: Seq<User>, id: Seq<char>) -> bool {
    exists|i: int| 0 <= i < users.len() && #[trigger] matches_id(users[i], id)
}

pub open spec fn has_user_with_email(users: Seq<User>, email: Seq<char>) -> bool {
    exists|i: int| 0 <= i < users.len() && (#[trigger] users[i]).email@ == email
}

/// How a stored user renders as a response body.
pub open spec fn dto_of(u: User) -> UserDtoResponse {
    UserDtoResponse {
        id: u._id,
        first_name: u.first_name,
        last_name: u.last_name,
        email: u.email,
        age: u.age,
    }
}

/// The document a creation request inserts, under the generated
/// identifier.
pub open spec fn created_user(dto: CreateUserDtoRequest, id: String) -> User {
    User {
        _id: id,
        first_name: dto.first_name,
        last_name: dto.last_name,
        email: dto.email,
        age: dto.age,
    }
}

/// A partial update: only the supplied fields change; the identifier
/// never does.
pub open spec fn updated_user(u: User, dto: UpdateUserDtoRequest) -> User {
    User {
        _id: u._id,
        first_name: match dto.first_name {
            Some(f) => f,
            None => u.first_name,
        },
        last_name: match dto.last_name {
            Some(l) => l,
            None => u.last_name,
        },
        email: match dto.email {
            Some(e) => e,
            None => u.email,
        },
        age: match dto.age {
            Some(a) => Some(a),
            None => u.age,
        },
    }
}

/// One identifier denotes at most one stored user.
pub proof fn lemma_at_most_one_id_match(users: Seq<User>, id: Seq<char>, i: int, j: int)
    requires
        users_wf(users),
        0 <= i < users.len(),
        0 <= j < users.len(),
        matches_id(users[i], id),
        matches_id(users[j], id),
    ensures
        i == j,
{
    if i != j {
        assert(users[i].wf());
        assert(users[j].wf());
        lemma_match_same_normal(id, users[i]._id@, users[j]._id@);
    }
}

/// The in-memory model of the user collection.
pub struct UserStore {
    pub users: Vec<User>,
}

impl UserStore {
    pub open spec fn wf(self) -> bool {
        users_wf(self.users@)
    }

    /// An empty collection.
    pub fn new() -> (s: Self)
        ensures
            s.wf(),
            s.users@.len() == 0,
    {
        UserStore { users: Vec::new() }
    }

    fn find_index_by_id(&self, id: &str) -> (r: Option<usize>)
        ensures
            (r matches Some(i) ==> i < self.users@.len() && matches_id(
                self.users@[i as int],
                id@,
            )),
            r is None ==> !has_user_with_id(self.users@, id@),
    {
        let n = self.users.len();
        let mut k: usize = 0;
        while k < n
            invariant
                k <= n,
                n == self.users@.len(),
                forall|j: int| 0 <= j < k ==> !#[trigger] matches_id(self.users@[j], id@),
            decreases n - k,
        {
            if object_ids_match(id, self.users[k]._id.as_str()) {
                return Some(k);
            }
            k = k + 1;
        }
        None
    }

    fn find_index_by_email(&self, email: &String) -> (r: Option<usize>)
        ensures
            (r matches Some(i) ==> i < self.users@.len() && self.users@[i as int].email@
                == email@),
            r is None ==> !has_user_with_email(self.users@, email@),
    {
        let n = self.users.len();
        let mut k: usize = 0;
        while k < n
            invariant
                k <= n,
                n == self.users@.len(),
                forall|j: int| 0 <= j < k ==> (#[trigger] self.users@[j]).email@ != email@,
            decreases n - k,
        {
            if self.users[k].email == *email {
                return Some(k);
            }
            k = k + 1;
        }
        None
    }

    fn user_to_dto(u: &User) -> (r: UserDtoResponse)
        ensures
            r == dto_of(*u),
    {
        UserDtoResponse {
            id: u._id.clone(),
            first_name: u.first_name.clone(),
            last_name: u.last_name.clone(),
            email: u.email.clone(),
            age: u.age,
        }
    }

    /// Lists every stored user, in storage order, as response bodies.
    pub fn get_all(&self) -> (r: Vec<UserDtoResponse>)
        ensures
            r@.len() == self.users@.len(),
            forall|i: int| 0 <= i < r@.len() ==> #[trigger] r@[i] == dto_of(self.users@[i]),
    {
        let n = self.users.len();
        let mut out: Vec<UserDtoResponse> = Vec::new();
        let mut k: usize = 0;
        while k < n
            invariant
                k <= n,
                n == self.users@.len(),
                out@.len() == k,
                forall|i: int| 0 <= i < k ==> #[trigger] out@[i] == dto_of(self.users@[i]),
            decreases n - k,
        {
            let d = Self::user_to_dto(&self.users[k]);
            out.push(d);
            k = k + 1;
        }
        out
    }

    /// Looks one user up by a client-supplied identifier. An identifier
    /// that is syntactically invalid, or valid but absent, finds
    /// nothing.
    pub fn get_by_id(&self, id: &str) -> (r: Option<UserDtoResponse>)
        ensures
            r is None ==> !has_user_with_id(self.users@, id@),
            (r matches Some(d) ==> exists|i: int|
                0 <= i < self.users@.len() && #[trigger] matches_id(self.users@[i], id@) && d
                    == dto_of(self.users@[i])),
    {
        match self.find_index_by_id(id) {
            None => None,
            Some(i) => {
                let d = Self::user_to_dto(&self.users[i]);
                assert(matches_id(self.users@[i as int], id@) && d == dto_of(
                    self.users@[i as int],
                ));
                Some(d)
            },
        }
    }

    /// Creates a user under a freshly generated identifier, refusing a
    /// request whose email some stored user already carries.
    pub fn create(&mut self, dto: &CreateUserDtoRequest, new_id: String) -> (r: Option<
        UserIdDtoResponse,
    >)
        requires
            old(self).wf(),
            is_normal_object_id(new_id@),
            !has_user_with_id(old(self).users@, new_id@),
        ensures
            final(self).wf(),
            has_user_with_email(old(self).users@, dto.email@) ==> r is None && *final(self)
                == *old(self),
            !has_user_with_email(old(self).users@, dto.email@) ==> (r matches Some(resp)
                && resp.id@ == new_id@ && final(self).users@ == old(self).users@.push(
                created_user(*dto, new_id),
            )),
    {
        match self.find_index_by_email(&dto.email) {
            Some(_) => None,
            None => {
                let resp = UserIdDtoResponse { id: new_id.clone() };
                let u = User {
                    _id: new_id,
                    first_name: dto.first_name.clone(),
                    last_name: dto.last_name.clone(),
                    email: dto.email.clone(),
                    age: dto.age,
                };
                let ghost prev = self.users@;
                self.users.push(u);
                proof {
                    assert(self.users@ == prev.push(created_user(*dto, new_id)));
                    assert forall|i: int, j: int|
                        0 <= i < self.users@.len() && 0 <= j < self.users@.len() && i != j implies (
                    #[trigger] self.users@[i])._id@ != (#[trigger] self.users@[j])._id@ by {
                        lemma_object_id_eq_refl(new_id@);
                        if i < prev.len() && j == prev.len() {
                            assert(!matches_id(prev[i], new_id@));
                        }
                        if j < prev.len() && i == prev.len() {
                            assert(!matches_id(prev[j], new_id@));
                        }
                    }
                    assert forall|i: int| 0 <= i < self.users@.len() implies (
                    #[trigger] self.users@[i]).wf() by {}
                }
                Some(resp)
            },
        }
    }

    /// Applies a partial update to the user an identifier denotes,
    /// returning the post-update rendering; an invalid or absent
    /// identifier updates nothing.
    pub fn update_by_id(&mut self, id: &str, dto: &UpdateUserDtoRequest) -> (r: Option<
        UserDtoResponse,
    >)
        requires
            old(self).wf(),
        ensures
            final(self).wf(),
            r is None ==> !has_user_with_id(old(self).users@, id@) && *final(self) == *old(self),
            (r matches Some(d) ==> exists|i: int|
                0 <= i < old(self).users@.len() && #[trigger] matches_id(old(self).users@[i], id@)
                    && final(self).users@ == old(self).users@.update(
                    i,
                    updated_user(old(self).users@[i], *dto),
                ) && d == dto_of(updated_user(old(self).users@[i], *dto))),
    {
        match self.find_index_by_id(id) {
            None => None,
            Some(i) => {
                let ghost prev = self.users@;
                let old_u = self.users.remove(i);
                let new_u = User {
                    _id: old_u._id,
                    first_name: match &dto.first_name {
                        Some(f) => f.clone(),
                        None => old_u.first_name,
                    },
                    last_name: match &dto.last_name {
                        Some(l) => l.clone(),
                        None => old_u.last_name,
                    },
                    email: match &dto.email {
                        Some(e) => e.clone(),
                        None => old_u.email,
                    },
                    age: match dto.age {
                        Some(a) => Some(a),
                        None => old_u.age,
                    },
                };
                let d = Self::user_to_dto(&new_u);
                assert(new_u == updated_user(prev[i as int], *dto));
                self.users.insert(i, new_u);
                proof {
                    assert(self.users@ =~= prev.update(i as int, updated_user(prev[i as int], *dto)));
                    assert forall|a: int, b: int|
                        0 <= a < self.users@.len() && 0 <= b < self.users@.len() && a != b implies (
                    #[trigger] self.users@[a])._id@ != (#[trigger] self.users@[b])._id@ by {
                        assert(prev[a]._id@ != prev[b]._id@);
                        assert(self.users@[a]._id == prev[a]._id || a == i);
                        assert(self.users@[a as int]._id@ == prev[a]._id@);
                        assert(self.users@[b as int]._id@ == prev[b]._id@);
                    }
                    assert forall|a: int| 0 <= a < self.users@.len() implies (
                    #[trigger] self.users@[a]).wf() by {
                        assert(prev[a].wf());
                        assert(self.users@[a]._id@ == prev[a]._id@);
                    }
                }
                Some(d)
            },
        }
    }

    /// Removes the user an identifier denotes, if any. Deleting an
    /// invalid or absent identifier removes nothing and is no error.
    pub fn delete_by_id(&mut self, id: &str)
        requires
            old(self).wf(),
        ensures
            final(self).wf(),
            !has_user_with_id(old(self).users@, id@) ==> *final(self) == *old(self),
            has_user_with_id(old(self).users@, id@) ==> exists|i: int|
                0 <= i < old(self).users@.len() && #[trigger] matches_id(old(self).users@[i], id@)
                    && final(self).users@ == old(self).users@.remove(i),
    {
        match self.find_index_by_id(id) {
            None => {},
            Some(i) => {
                let ghost prev = self.users@;
                self.users.remove(i);
                proof {
                    assert(matches_id(prev[i as int], id@));
                    lemma_users_wf_remove(prev, i as int);
                }
            },
        }
    }
}

/// Removing an element keeps the collection's invariant.
proof fn lemma_users_wf_remove(users: Seq<User>, i: int)
    requires
        users_wf(users),
        0 <= i < users.len(),
    ensures
        users_wf(users.remove(i)),
{
    let rest = users.remove(i);
    assert forall|a: int| 0 <= a < rest.len() implies (#[trigger] rest[a]).wf() by {
        if a < i {
            assert(rest[a] == users[a]);
        } else {
            assert(rest[a] == users[a + 1]);
        }
    }
    assert forall|a: int, b: int|
        0 <= a < rest.len() && 0 <= b < rest.len() && a != b implies (#[trigger] rest[a])._id@ != (
    #[trigger] rest[b])._id@ by {
        let a0 = if a < i {
            a
        } else {
            a + 1
        };
        let b0 = if b < i {
            b
        } else {
            b + 1
        };
        assert(rest[a] == users[a0]);
        assert(rest[b] == users[b0]);
    }
}

/// After a creation the requested email is taken: a second creation
/// with the same email is refused.
pub proof fn lemma_created_email_taken(users: Seq<User>, dto: CreateUserDtoRequest, id: String)
    ensures
        has_user_with_email(users.push(created_user(dto, id)), dto.email@),
{
    let pushed = users.push(created_user(dto, id));
    assert(pushed[users.len() as int].email@ == dto.email@);
}

/// After a creation the generated identifier denotes exactly the
/// created document: a lookup with it renders precisely the supplied
/// fields, the optional age present only where it was supplied.
pub proof fn lemma_create_then_get(users: Seq<User>, dto: CreateUserDtoRequest, id: String)
    requires
        is_normal_object_id(id@),
        !has_user_with_id(users, id@),
    ensures
        has_user_with_id(users.push(created_user(dto, id)), id@),
        forall|i: int|
            0 <= i < users.push(created_user(dto, id)).len() && #[trigger] matches_id(
                users.push(created_user(dto, id))[i],
                id@,
            ) ==> dto_of(users.push(created_user(dto, id))[i]) == (UserDtoResponse {
                id: id,
                first_name: dto.first_name,
                last_name: dto.last_name,
                email: dto.email,
                age: dto.age,
            }),
{
    let pushed = users.push(created_user(dto, id));
    lemma_object_id_eq_refl(id@);
    assert(matches_id(pushed[users.len() as int], id@));
    assert forall|i: int|
        0 <= i < pushed.len() && #[trigger] matches_id(pushed[i], id@) implies dto_of(pushed[i])
        == (UserDtoResponse {
        id: id,
        first_name: dto.first_name,
        last_name: dto.last_name,
        email: dto.email,
        age: dto.age,
    }) by {
        if i < users.len() {
            assert(matches_id(users[i], id@));
            assert(has_user_with_id(users, id@));
        }
    }
}

/// A partial update that supplies only the first name changes only the
/// first name: the identifier and every other field keep their prior
/// values.
pub proof fn lemma_update_changes_only_supplied(u: User, dto: UpdateUserDtoRequest)
    requires
        dto.last_name is None,
        dto.email is None,
        dto.age is None,
    ensures
        updated_user(u, dto)._id == u._id,
        updated_user(u, dto).last_name == u.last_name,
        updated_user(u, dto).email == u.email,
        updated_user(u, dto).age == u.age,
        dto.first_name matches Some(f) ==> updated_user(u, dto).first_name == f,
        dto.first_name is None ==> updated_user(u, dto).first_name == u.first_name,
{
}

/// A syntactically invalid identifier denotes no stored user: the
/// lookup outcome is the very one a valid but absent identifier has.
pub proof fn lemma_invalid_id_finds_nothing(users: Seq<User>, id: Seq<char>)
    requires
        users_wf(users),
        !is_valid_object_id(id),
    ensures
        !has_user_with_id(users, id),
{
    assert forall|i: int| 0 <= i < users.len() implies !#[trigger] matches_id(users[i], id) by {
        assert(users[i].wf());
        lemma_invalid_matches_nothing(id, users[i]._id@);
    }
}

/// After a deletion nothing carries the removed identifier any more:
/// a following lookup finds nothing, and a second deletion of the same
/// identifier removes nothing.
pub proof fn lemma_delete_removes_id(users: Seq<User>, id: Seq<char>, i: int)
    requires
        users_wf(users),
        0 <= i < users.len(),
        matches_id(users[i], id),
    ensures
        !has_user_with_id(users.remove(i), id),
{
    let rest = users.remove(i);
    assert forall|j: int| 0 <= j < rest.len() implies !#[trigger] matches_id(rest[j], id) by {
        let j0 = if j < i {
            j
        } else {
            j + 1
        };
        assert(rest[j] == users[j0]);
        if matches_id(users[j0], id) {
            lemma_at_most_one_id_match(users, id, i, j0);
        }
    }
}

} // verus!
