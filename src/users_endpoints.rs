//! Request handling of the users service: what each request does to the
//! store, and which status and body it answers with.

use vstd::prelude::*;
use crate::id::Id;
use crate::text::is_blank;
use crate::user::User;
use crate::username::Username;
use crate::users_repo::{UsersRepo, UsersRepoInMemory, lookup, deleted};

verus! {

/// The status of an answer.
#[derive(Clone, Copy, Debug, PartialEq, Eq, Hash, Structural)]
pub enum ApiStatus {
    Success,
    Created,
    BadRequest,
    NotFound,
    InternalServerError,
}

impl ApiStatus {
    /// The HTTP status code of the answer.
    pub open spec fn spec_code(self) -> u16 {
        match self {
            ApiStatus::Success => 200,
            ApiStatus::Created => 201,
            ApiStatus::BadRequest => 400,
            ApiStatus::NotFound => 404,
            ApiStatus::InternalServerError => 500,
        }
    }

    /// The HTTP status code of the answer.
    pub fn code(&self) -> (r: u16)
        ensures
            r == self.spec_code(),
    {
        match self {
            ApiStatus::Success => 200,
            ApiStatus::Created => 201,
            ApiStatus::BadRequest => 400,
            ApiStatus::NotFound => 404,
            ApiStatus::InternalServerError => 500,
        }
    }
}

/// An answer: its status, and its body where it has one.
#[derive(Clone, Debug, PartialEq, Eq)]
pub struct ApiResponse<T> {
    pub status_code: ApiStatus,
    pub body: Option<T>,
}

/// The body of a request that creates a user.
#[derive(Clone, Debug, PartialEq, Eq)]
pub struct CreateUserApiRequest {
    pub username: String,
}

/// The body of the answer to a request that created a user.
#[derive(Clone, Copy, Debug, PartialEq, Eq, Structural)]
pub struct CreateUserApiResponse {
    pub id: u64,
}

/// The body of a request that renames a user.
#[derive(Clone, Debug, PartialEq, Eq)]
pub struct UpdateUserApiRequest {
    pub username: String,
}

/// The body of the answer that lists all users.
#[derive(Clone, Debug, PartialEq, Eq)]
pub struct GetUsersApiResponse {
    pub users: Vec<GetUserApiResponse>,
}

/// One user, as it is answered.
#[derive(Clone, Debug, PartialEq, Eq)]
pub struct GetUserApiResponse {
    pub id: u64,
    pub username: String,
}

/// What the request handlers share: a store of users, and the identifier
/// that the next created user gets.
#[derive(Debug)]
pub struct UsersState<R: UsersRepo> {
    users_repo: R,
    next_id: u64,
}

/// `after` is `before` with the user under `id` named `name`, every other
/// user left as it was.
pub open spec fn stores_user_named(
    before: Map<u64, User>,
    after: Map<u64, User>,
    id: u64,
    name: Seq<char>,
) -> bool {
    &&& after.dom() == before.dom().insert(id)
    &&& after[id].id == Id(id)
    &&& after[id].username@ == name
    &&& forall|k: u64| k != id && #[trigger] before.contains_key(k) ==> after[k] == before[k]
}

/// `list` answers each stored user exactly once, in some order, with its
/// identifier and name.
pub open spec fn lists_users(list: Seq<GetUserApiResponse>, users: Map<u64, User>) -> bool {
    &&& list.len() == users.dom().len()
    &&& forall|i: int, j: int| 0 <= i < j < list.len() ==> list[i].id != list[j].id
    &&& forall|i: int|
        #![trigger list[i]]
        0 <= i < list.len() ==> users.contains_key(list[i].id) && users[list[i].id].id.0
            == list[i].id && users[list[i].id].username@ == list[i].username@
    &&& forall|k: u64|
        #[trigger] users.contains_key(k) ==> exists|i: int| 0 <= i < list.len() && list[i].id == k
}

impl<R: UsersRepo> UsersState<R> {
    /// The stored users, by identifier.
    pub closed spec fn users(&self) -> Map<u64, User> {
        self.users_repo.users()
    }

    /// The identifier that the next created user gets; at `u64::MAX`
    /// identifiers have run out.
    pub closed spec fn next_id(&self) -> u64 {
        self.next_id
    }

    /// Identifiers are never zero, and, while they have not run out, every
    /// stored identifier lies below the next one, so that the next one is
    /// unused.
    pub closed spec fn wf(&self) -> bool {
        &&& 1 <= self.next_id
        &&& self.next_id < u64::MAX ==> forall|k: u64|
            #[trigger] self.users().contains_key(k) ==> k < self.next_id
    }

    /// A state over `users_repo`, whose next identifier lies above every
    /// stored one.
    pub fn with_repo(users_repo: R) -> (r: UsersState<R>)
        ensures
            r.wf(),
            r.users() == users_repo.users(),
            users_repo.users().dom().len() == 0 ==> r.next_id() == 1,
    {
        let listed = users_repo.get_users();
        let mut next: u64 = 1;
        let mut i: usize = 0;
        while i < listed.len()
            invariant
                i <= listed.len(),
                1 <= next,
                listed.len() == 0 ==> next == 1,
                next < u64::MAX ==> forall|j: int| 0 <= j < i ==> #[trigger] listed[j].id.0 < next,
            decreases listed.len() - i,
        {
            let id = listed[i].id.0;
            if id >= next {
                if id == u64::MAX {
                    next = u64::MAX;
                } else {
                    next = id + 1;
                }
            }
            i = i + 1;
        }
        let r = UsersState { users_repo, next_id: next };
        proof {
            if next < u64::MAX {
                assert forall|k: u64| #[trigger] r.users().contains_key(k) implies k < next by {
                    let j = choose|j: int| 0 <= j < listed.len() && listed[j].id.0 == k;
                    assert(listed[j].id.0 < next);
                }
            }
        }
        r
    }
}

impl UsersState<UsersRepoInMemory> {
    /// A state over an empty store held in memory.
    pub fn in_memory() -> (r: UsersState<UsersRepoInMemory>)
        ensures
            r.wf(),
            r.users() == Map::<u64, User>::empty(),
            r.next_id() == 1,
    {
        UsersState::with_repo(UsersRepoInMemory::new())
    }

    /// A state over an empty store held in memory.
    pub fn new() -> (r: UsersState<UsersRepoInMemory>)
        ensures
            r.wf(),
            r.users() == Map::<u64, User>::empty(),
            r.next_id() == 1,
    {
        UsersState::in_memory()
    }
}

/// Creates a user named as the request says, under the next identifier: a
/// blank name is refused, and so is any creation once identifiers have run
/// out; otherwise the user is stored under an identifier that was unused.
pub fn create_user<R: UsersRepo>(
    state: &mut UsersState<R>,
    request: &CreateUserApiRequest,
) -> (r: ApiResponse<CreateUserApiResponse>)
    requires
        old(state).wf(),
    ensures
        final(state).wf(),
        is_blank(request.username@) ==> r == (ApiResponse::<CreateUserApiResponse> {
            status_code: ApiStatus::BadRequest,
            body: None,
        }) && final(state).users() == old(state).users() && final(state).next_id() == old(
            state,
        ).next_id(),
        !is_blank(request.username@) && old(state).next_id() == u64::MAX ==> r == (ApiResponse::<
            CreateUserApiResponse,
        > { status_code: ApiStatus::InternalServerError, body: None }) && final(state).users()
            == old(state).users() && final(state).next_id() == old(state).next_id(),
        !is_blank(request.username@) && old(state).next_id() < u64::MAX ==> {
            let id = old(state).next_id();
            &&& r == (ApiResponse {
                status_code: ApiStatus::Created,
                body: Some(CreateUserApiResponse { id }),
            })
            &&& id != 0
            &&& !old(state).users().contains_key(id)
            &&& stores_user_named(old(state).users(), final(state).users(), id, request.username@)
            &&& final(state).next_id() == id + 1
        },
{
    let user = match User::with_id(Id(state.next_id), request.username.as_str()) {
        Ok(user) => user,
        Err(_) => {
            return ApiResponse { status_code: ApiStatus::BadRequest, body: None };
        },
    };
    if state.next_id == u64::MAX {
        return ApiResponse { status_code: ApiStatus::InternalServerError, body: None };
    }
    let id = state.next_id;
    state.users_repo.save_user(&user);
    state.next_id = id + 1;
    proof {
        assert(final(state).users().dom() =~= old(state).users().dom().insert(id));
    }
    ApiResponse { status_code: ApiStatus::Created, body: Some(CreateUserApiResponse { id }) }
}

/// Renames the user under `id` as the request says: not found where no user
/// is stored there, refused where the new name is blank.
pub fn update_user<R: UsersRepo>(
    state: &mut UsersState<R>,
    id: u64,
    request: &UpdateUserApiRequest,
) -> (r: ApiStatus)
    requires
        old(state).wf(),
    ensures
        final(state).wf(),
        final(state).next_id() == old(state).next_id(),
        !old(state).users().contains_key(id) ==> r == ApiStatus::NotFound && final(state).users()
            == old(state).users(),
        old(state).users().contains_key(id) && is_blank(request.username@) ==> r
            == ApiStatus::BadRequest && final(state).users() == old(state).users(),
        old(state).users().contains_key(id) && !is_blank(request.username@) ==> r == ApiStatus::Success
            && stores_user_named(old(state).users(), final(state).users(), id, request.username@),
{
    let mut user = match state.users_repo.get_user(Id(id)) {
        Some(user) => user,
        None => {
            return ApiStatus::NotFound;
        },
    };
    let username = match Username::new(request.username.as_str()) {
        Ok(username) => username,
        Err(_) => {
            return ApiStatus::BadRequest;
        },
    };
    user.username = username;
    state.users_repo.save_user(&user);
    proof {
        assert(final(state).users().dom() =~= old(state).users().dom().insert(id));
    }
    ApiStatus::Success
}

/// Lists every stored user.
pub fn get_users<R: UsersRepo>(state: &UsersState<R>) -> (r: (ApiStatus, GetUsersApiResponse))
    ensures
        r.0 == ApiStatus::Success,
        lists_users(r.1.users@, state.users()),
{
    let stored = state.users_repo.get_users();
    let mut users: Vec<GetUserApiResponse> = Vec::new();
    let mut i: usize = 0;
    while i < stored.len()
        invariant
            i <= stored.len(),
            users.len() == i,
            forall|j: int|
                #![trigger users[j]]
                0 <= j < i ==> users[j].id == stored[j].id.0 && users[j].username@
                    == stored[j].username@,
        decreases stored.len() - i,
    {
        let user = &stored[i];
        users.push(GetUserApiResponse { id: user.id.0, username: user.username.to_string() });
        i = i + 1;
    }
    proof {
        let m = state.users();
        assert forall|k: u64| #[trigger] m.contains_key(k) implies exists|j: int|
            0 <= j < users.len() && users[j].id == k by {
            let j = choose|j: int| 0 <= j < stored.len() && stored[j].id.0 == k;
            assert(users[j].id == k);
        }
        assert forall|a: int, b: int| 0 <= a < b < users.len() implies users[a].id != users[b].id by {
            assert(stored[a].id != stored[b].id);
        }
        assert forall|j: int| 0 <= j < users.len() implies m.contains_key(#[trigger] users[j].id)
            && m[users[j].id].username@ == users[j].username@ by {
            assert(stored[j] == m[stored[j].id.0]);
        }
    }
    (ApiStatus::Success, GetUsersApiResponse { users })
}

/// The user under `id`; not found where none is stored there.
pub fn get_user<R: UsersRepo>(state: &UsersState<R>, id: u64) -> (r: ApiResponse<GetUserApiResponse>)
    ensures
        match lookup(state.users(), Id(id)) {
            Some(user) => r.status_code == ApiStatus::Success && r.body is Some && r.body->0.id == id
                && r.body->0.username@ == user.username@,
            None => r.status_code == ApiStatus::NotFound && r.body is None,
        },
{
    match state.users_repo.get_user(Id(id)) {
        Some(user) => ApiResponse {
            status_code: ApiStatus::Success,
            body: Some(GetUserApiResponse { id: user.id.0, username: user.username.into_string() }),
        },
        None => ApiResponse { status_code: ApiStatus::NotFound, body: None },
    }
}

/// Deletes the user under `id`; not found where none is stored there.
pub fn delete_user<R: UsersRepo>(state: &mut UsersState<R>, id: u64) -> (r: ApiStatus)
    requires
        old(state).wf(),
    ensures
        final(state).wf(),
        final(state).next_id() == old(state).next_id(),
        r == if old(state).users().contains_key(id) {
            ApiStatus::Success
        } else {
            ApiStatus::NotFound
        },
        final(state).users() == deleted(old(state).users(), Id(id)),
{
    let deleted_one = state.users_repo.delete_user(Id(id));
    proof {
        assert forall|k: u64| #[trigger] final(state).users().contains_key(k) implies old(
            state,
        ).users().contains_key(k) by {
            assert(final(state).users() == old(state).users().remove(id));
        }
    }
    if deleted_one {
        ApiStatus::Success
    } else {
        ApiStatus::NotFound
    }
}

} // verus!
