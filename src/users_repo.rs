//! Storage of users, keyed by their identifiers.

use vstd::prelude::*;
use std::collections::HashMap;
use crate::id::Id;
use crate::user::User;
use crate::username::Username;

verus! {

broadcast use vstd::std_specs::hash::group_hash_axioms;

/// The stored users after `user` is saved: it is added, or replaces the user
/// stored under the same identifier.
pub open spec fn saved(users: Map<u64, User>, user: User) -> Map<u64, User> {
    users.insert(user.id.0, user)
}

/// The stored users after the one under `id`, if any, is deleted.
pub open spec fn deleted(users: Map<u64, User>, id: Id) -> Map<u64, User> {
    users.remove(id.0)
}

/// The user stored under `id`, if any.
pub open spec fn lookup(users: Map<u64, User>, id: Id) -> Option<User> {
    if users.contains_key(id.0) {
        Some(users[id.0])
    } else {
        None
    }
}

/// `list` holds each stored user exactly once, in some order.
pub open spec fn is_listing(list: Seq<User>, users: Map<u64, User>) -> bool {
    &&& list.len() == users.dom().len()
    &&& distinct_ids(list)
    &&& forall|i: int|
        #![trigger list[i]]
        0 <= i < list.len() ==> users.contains_key(list[i].id.0) && users[list[i].id.0] == list[i]
    &&& forall|k: u64|
        #[trigger] users.contains_key(k) ==> exists|i: int| 0 <= i < list.len() && list[i].id.0 == k
}

/// The stored users after each user of `list` is saved in turn.
pub open spec fn saved_all(users: Map<u64, User>, list: Seq<User>) -> Map<u64, User>
    decreases list.len(),
{
    if list.len() == 0 {
        users
    } else {
        saved(saved_all(users, list.drop_last()), list.last())
    }
}

/// No two users of `list` share an identifier.
pub open spec fn distinct_ids(list: Seq<User>) -> bool {
    forall|i: int, j: int| 0 <= i < j < list.len() ==> list[i].id != list[j].id
}

/// Looking up a user right after saving it gives that user back.
pub proof fn lemma_save_then_get(users: Map<u64, User>, user: User)
    ensures
        lookup(saved(users, user), user.id) == Some(user),
{
}

/// Deleting a user right after saving it reports that one was there, and
/// looking it up afterwards finds nothing; deleting an identifier that is
/// not stored reports nothing and leaves the store as it was.
pub proof fn lemma_delete(users: Map<u64, User>, user: User, id: Id)
    ensures
        saved(users, user).contains_key(user.id.0),
        lookup(deleted(saved(users, user), user.id), user.id) == None::<User>,
        !users.contains_key(id.0) ==> deleted(users, id) == users,
{
    if !users.contains_key(id.0) {
        assert(deleted(users, id) =~= users);
    }
}

/// Saving users with distinct identifiers into an empty store stores exactly
/// those users, each under its own identifier.
proof fn lemma_saved_all_distinct(list: Seq<User>)
    requires
        distinct_ids(list),
    ensures
        saved_all(Map::empty(), list).dom().finite(),
        saved_all(Map::empty(), list).dom().len() == list.len(),
        forall|k: u64| #[trigger] saved_all(Map::empty(), list).contains_key(k) <==> exists|i: int|
            0 <= i < list.len() && list[i].id.0 == k,
        forall|i: int| 0 <= i < list.len() ==> saved_all(Map::empty(), list)[#[trigger] list[i].id.0] == list[i],
    decreases list.len(),
{
    if list.len() > 0 {
        let init = list.drop_last();
        assert(distinct_ids(init));
        lemma_saved_all_distinct(init);
        let m = saved_all(Map::<u64, User>::empty(), init);
        let last = list.last();
        assert(!m.contains_key(last.id.0)) by {
            if m.contains_key(last.id.0) {
                let i = choose|i: int| 0 <= i < init.len() && init[i].id.0 == last.id.0;
                assert(list[i].id != list[list.len() - 1].id);
            }
        }
        assert forall|k: u64| #[trigger] saved_all(Map::empty(), list).contains_key(k) implies exists|i: int|
            0 <= i < list.len() && list[i].id.0 == k by {
            if k != last.id.0 {
                let i = choose|i: int| 0 <= i < init.len() && init[i].id.0 == k;
                assert(list[i].id.0 == k);
            } else {
                assert(list[list.len() - 1].id.0 == k);
            }
        }
        assert forall|k: u64| (exists|i: int| 0 <= i < list.len() && list[i].id.0 == k) implies #[trigger] saved_all(Map::empty(), list).contains_key(k) by {
            let i = choose|i: int| 0 <= i < list.len() && list[i].id.0 == k;
            if i < list.len() - 1 {
                assert(init[i].id.0 == k);
            }
        }
        assert forall|i: int| 0 <= i < list.len() implies saved_all(Map::empty(), list)[#[trigger] list[i].id.0] == list[i] by {
            if i < list.len() - 1 {
                assert(init[i] == list[i]);
                assert(list[i].id != last.id);
            }
        }
    }
}

/// Listing the store after saving users with distinct identifiers into an
/// empty one gives exactly those users, in some order.
pub proof fn lemma_listing_after_saving_distinct(list: Seq<User>, listing: Seq<User>)
    requires
        distinct_ids(list),
        is_listing(listing, saved_all(Map::empty(), list)),
    ensures
        listing.len() == list.len(),
        listing.to_set() == list.to_set(),
{
    lemma_saved_all_distinct(list);
    let m = saved_all(Map::<u64, User>::empty(), list);
    assert forall|u: User| listing.to_set().contains(u) implies list.to_set().contains(u) by {
        let j = choose|j: int| 0 <= j < listing.len() && listing[j] == u;
        assert(m.contains_key(listing[j].id.0));
        let i = choose|i: int| 0 <= i < list.len() && list[i].id.0 == u.id.0;
        assert(list[i] == u);
    }
    assert forall|u: User| list.to_set().contains(u) implies listing.to_set().contains(u) by {
        let i = choose|i: int| 0 <= i < list.len() && list[i] == u;
        assert(m.contains_key(list[i].id.0));
        let j = choose|j: int| 0 <= j < listing.len() && listing[j].id.0 == u.id.0;
        assert(listing[j] == u);
    }
    assert(listing.to_set() =~= list.to_set());
}

/// What a store of users offers: save, look up, list and delete, all keyed by
/// the user's identifier. Every operation succeeds.
pub trait UsersRepo {
    /// The users in the store, by identifier.
    spec fn users(&self) -> Map<u64, User>;

    /// Stores `user` under its identifier, replacing any user stored there.
    fn save_user(&mut self, user: &User)
        ensures
            final(self).users() == saved(old(self).users(), *user),
    ;

    /// Removes the user stored under `id`; whether there was one.
    fn delete_user(&mut self, id: Id) -> (r: bool)
        ensures
            r == old(self).users().contains_key(id.0),
            final(self).users() == deleted(old(self).users(), id),
    ;

    /// The user stored under `id`, if any; it carries that identifier.
    fn get_user(&self, id: Id) -> (r: Option<User>)
        ensures
            r == lookup(self.users(), id),
            r matches Some(user) ==> user.id == id,
    ;

    /// A copy of every stored user, in no particular order.
    fn get_users(&self) -> (r: Vec<User>)
        ensures
            is_listing(r@, self.users()),
    ;
}

/// A store of users held in memory: each user's name, under its identifier.
#[derive(Debug)]
pub struct UsersRepoInMemory {
    names: HashMap<u64, Username>,
}

impl UsersRepoInMemory {
    /// An empty store.
    pub fn new() -> (r: UsersRepoInMemory)
        ensures
            r.users() == Map::<u64, User>::empty(),
    {
        let r = UsersRepoInMemory { names: HashMap::new() };
        assert(r.users() =~= Map::<u64, User>::empty());
        r
    }
}

impl Default for UsersRepoInMemory {
    fn default() -> (r: UsersRepoInMemory)
        ensures
            r.users() == Map::<u64, User>::empty(),
    {
        UsersRepoInMemory::new()
    }
}

impl UsersRepo for UsersRepoInMemory {
    closed spec fn users(&self) -> Map<u64, User> {
        Map::new(
            |k: u64| self.names@.contains_key(k),
            |k: u64| User { id: Id(k), username: self.names@[k] },
        )
    }

    fn save_user(&mut self, user: &User) {
        self.names.insert(user.id.0, user.username.clone());
        assert(self.users() =~= saved(old(self).users(), *user));
    }

    fn delete_user(&mut self, id: Id) -> (r: bool) {
        let r = self.names.remove(&id.0).is_some();
        assert(self.users() =~= deleted(old(self).users(), id));
        r
    }

    fn get_user(&self, id: Id) -> (r: Option<User>) {
        match self.names.get(&id.0) {
            Some(username) => Some(User { id, username: username.clone() }),
            None => None,
        }
    }

    fn get_users(&self) -> (r: Vec<User>) {
        let mut list: Vec<User> = Vec::new();
        for key in it: self.names.keys()
            invariant
                list.len() == it.index(),
                it.seq().len() == self.names@.dom().len(),
                forall|i: int, j: int|
                    0 <= i < j < it.seq().len() ==> *it.seq()[i] != *it.seq()[j],
                forall|k: u64|
                    #[trigger] self.names@.contains_key(k) ==> exists|j: int|
                        0 <= j < it.seq().len() && *it.seq()[j] == k && (j < list.len()
                            ==> list[j].id.0 == k),
                forall|i: int|
                    #![trigger list[i]]
                    0 <= i < list.len() ==> self.users().contains_key(list[i].id.0)
                        && self.users()[list[i].id.0] == list[i] && list[i].id.0 == *it.seq()[i],
        {
            match self.names.get(key) {
                Some(username) => list.push(User { id: Id(*key), username: username.clone() }),
                None => {},
            }
        }
        assert(self.users().dom() =~= self.names@.dom());
        list
    }
}

} // verus!
