//! The user store: a mapping from user id to user record.

use crate::user::{User, UserView};
use vstd::prelude::*;

verus! {

/// The mathematical contents of a store: user records keyed by id.
pub type Directory = Map<Seq<char>, UserView>;

/// Every key of the directory maps to a record that carries that key as its id.
pub open spec fn keyed_by_id(dir: Directory) -> bool {
    forall|id: Seq<char>| #[trigger] dir.contains_key(id) ==> dir[id].id == id
}

/// What recording `user` does to a directory: the record stands under its own
/// id, in place of whatever stood there before.
pub open spec fn recorded(dir: Directory, user: UserView) -> Directory {
    dir.insert(user.id, user)
}

/// What a lookup of `id` finds in a directory.
pub open spec fn found(dir: Directory, id: Seq<char>) -> Option<UserView> {
    if dir.contains_key(id) {
        Some(dir[id])
    } else {
        None
    }
}

/// Whether some record of `users` has the id `id`.
spec fn has_id(users: Seq<User>, id: Seq<char>) -> bool {
    exists|i: int| 0 <= i < users.len() && (#[trigger] users[i]).id@ == id
}

/// A position in `users` at which `id` stands, when there is one.
spec fn position_of(users: Seq<User>, id: Seq<char>) -> int {
    choose|i: int| 0 <= i < users.len() && (#[trigger] users[i]).id@ == id
}

/// No two records of `users` share an id.
spec fn distinct_ids(users: Seq<User>) -> bool {
    forall|i: int, j: int|
        0 <= i < users.len() && 0 <= j < users.len() && i != j ==> (#[trigger] users[i]).id@
            != (#[trigger] users[j]).id@
}

/// The directory that a list of records with distinct ids stands for.
spec fn directory_of(users: Seq<User>) -> Directory {
    Map::new(|id: Seq<char>| has_id(users, id), |id: Seq<char>| users[position_of(users, id)]@)
}

/// With distinct ids, the record at position `i` is the one the directory
/// holds under that record's id.
proof fn lemma_directory_at(users: Seq<User>, i: int)
    requires
        distinct_ids(users),
        0 <= i < users.len(),
    ensures
        directory_of(users).contains_key(users[i].id@),
        directory_of(users)[users[i].id@] == users[i]@,
{
    let id = users[i].id@;
    assert(has_id(users, id));
    let p = position_of(users, id);
    assert(0 <= p < users.len() && users[p].id@ == id);
    assert(p == i);
}

/// The directory of a list with distinct ids is keyed by id.
proof fn lemma_directory_keyed(users: Seq<User>)
    requires
        distinct_ids(users),
    ensures
        keyed_by_id(directory_of(users)),
{
    let dir = directory_of(users);
    assert forall|id: Seq<char>| #[trigger] dir.contains_key(id) implies dir[id].id == id by {
        let p = position_of(users, id);
        assert(0 <= p < users.len() && users[p].id@ == id);
    }
}

/// Appending a record whose id is new records it in the directory.
proof fn lemma_directory_push(users: Seq<User>, user: User)
    requires
        distinct_ids(users),
        !has_id(users, user.id@),
    ensures
        distinct_ids(users.push(user)),
        directory_of(users.push(user)) == recorded(directory_of(users), user@),
{
    let after = users.push(user);
    assert(distinct_ids(after)) by {
        assert forall|i: int, j: int|
            0 <= i < after.len() && 0 <= j < after.len() && i != j implies (#[trigger] after[i]).id@
            != (#[trigger] after[j]).id@ by {
            if i < users.len() && j < users.len() {
                assert(users[i].id@ != users[j].id@);
            } else if i < users.len() {
                assert(users[i].id@ != user.id@);
            } else {
                assert(users[j].id@ != user.id@);
            }
        }
    }
    let want = recorded(directory_of(users), user@);
    let got = directory_of(after);
    assert forall|id: Seq<char>| got.contains_key(id) <==> want.contains_key(id) by {
        if has_id(after, id) {
            let p = position_of(after, id);
            if p < users.len() {
                assert(users[p].id@ == id);
            }
        }
        if has_id(users, id) {
            let p = position_of(users, id);
            assert(after[p].id@ == id);
        }
        if id == user.id@ {
            assert(after[users.len() as int].id@ == id);
        }
    }
    assert forall|id: Seq<char>| got.contains_key(id) implies got[id] == want[id] by {
        let p = position_of(after, id);
        assert(0 <= p < after.len() && after[p].id@ == id);
        lemma_directory_at(after, p);
        if p < users.len() {
            assert(users[p].id@ == id);
            lemma_directory_at(users, p);
        }
    }
    assert(got =~= want);
}

/// Replacing the record at position `i` by one with the same id records it in
/// the directory.
proof fn lemma_directory_update(users: Seq<User>, i: int, user: User)
    requires
        distinct_ids(users),
        0 <= i < users.len(),
        users[i].id@ == user.id@,
    ensures
        distinct_ids(users.update(i, user)),
        directory_of(users.update(i, user)) == recorded(directory_of(users), user@),
{
    let after = users.update(i, user);
    assert(distinct_ids(after)) by {
        assert forall|a: int, b: int|
            0 <= a < after.len() && 0 <= b < after.len() && a != b implies (#[trigger] after[a]).id@
            != (#[trigger] after[b]).id@ by {
            assert(after[a].id@ == users[a].id@);
            assert(after[b].id@ == users[b].id@);
        }
    }
    let want = recorded(directory_of(users), user@);
    let got = directory_of(after);
    assert forall|id: Seq<char>| got.contains_key(id) <==> want.contains_key(id) by {
        if has_id(after, id) {
            let p = position_of(after, id);
            assert(users[p].id@ == id);
        }
        if has_id(users, id) {
            let p = position_of(users, id);
            assert(after[p].id@ == id);
        }
        if id == user.id@ {
            assert(after[i].id@ == id);
        }
    }
    assert forall|id: Seq<char>| got.contains_key(id) implies got[id] == want[id] by {
        let p = position_of(after, id);
        assert(0 <= p < after.len() && after[p].id@ == id);
        lemma_directory_at(after, p);
        if p != i {
            assert(users[p].id@ == id);
            lemma_directory_at(users, p);
        }
    }
    assert(got =~= want);
}

/// A mapping from user id to user record. Recording a user under an id that is
/// taken replaces the earlier record; nothing else ever leaves the store.
pub struct UserStore {
    users: Vec<User>,
}

impl View for UserStore {
    type V = Directory;

    closed spec fn view(&self) -> Directory {
        directory_of(self.users@)
    }
}

impl UserStore {
    #[verifier::type_invariant]
    spec fn well_formed(&self) -> bool {
        distinct_ids(self.users@)
    }

    /// An empty store.
    pub fn new() -> (store: UserStore)
        ensures
            store@ == Directory::empty(),
            keyed_by_id(store@),
    {
        let store = UserStore { users: Vec::new() };
        assert(store@ =~= Directory::empty());
        store
    }

    /// The position of the record with the given id, if the store has one.
    fn position(&self, id: &String) -> (at: Option<usize>)
        ensures
            match at {
                Some(i) => i < self.users@.len() && self.users@[i as int].id@ == id@,
                None => !has_id(self.users@, id@),
            },
    {
        let mut i: usize = 0;
        while i < self.users.len()
            invariant
                i <= self.users@.len(),
                forall|k: int| 0 <= k < i ==> (#[trigger] self.users@[k]).id@ != id@,
            decreases self.users@.len() - i,
        {
            if self.users[i].id == *id {
                return Some(i);
            }
            i += 1;
        }
        None
    }

    /// Records `user` under its id, replacing any record that stood there.
    pub fn insert(&mut self, user: User)
        ensures
            final(self)@ == recorded(old(self)@, user@),
            keyed_by_id(final(self)@),
    {
        proof {
            use_type_invariant(&*self);
        }
        let at = self.position(&user.id);
        let mut users: Vec<User> = Vec::new();
        std::mem::swap(&mut users, &mut self.users);
        proof {
            match at {
                Some(i) => lemma_directory_update(users@, i as int, user),
                None => lemma_directory_push(users@, user),
            }
        }
        match at {
            Some(i) => {
                users.set(i, user);
            },
            None => {
                users.push(user);
            },
        }
        proof {
            lemma_directory_keyed(users@);
        }
        self.users = users;
    }

    /// A copy of the record stored under `id`, or `None` when the store has
    /// no such key.
    pub fn lookup(&self, id: &String) -> (hit: Option<User>)
        ensures
            match hit {
                Some(user) => found(self@, id@) == Some(user@),
                None => found(self@, id@).is_none(),
            },
            keyed_by_id(self@),
    {
        proof {
            use_type_invariant(&*self);
            lemma_directory_keyed(self.users@);
        }
        match self.position(id) {
            Some(i) => {
                proof {
                    lemma_directory_at(self.users@, i as int);
                }
                Some(self.users[i].clone())
            },
            None => None,
        }
    }
}

/// A record that was just recorded is what a lookup of its id finds.
pub proof fn law_insert_then_lookup(dir: Directory, user: UserView)
    ensures
        found(recorded(dir, user), user.id) == Some(user),
{
}

/// Of two records with one id, the one recorded last is the one that a lookup
/// finds, and the directory is as if the first had never been recorded.
pub proof fn law_last_write_wins(dir: Directory, first: UserView, second: UserView)
    requires
        first.id == second.id,
    ensures
        found(recorded(recorded(dir, first), second), first.id) == Some(second),
        recorded(recorded(dir, first), second) == recorded(dir, second),
{
    assert(recorded(recorded(dir, first), second) =~= recorded(dir, second));
}

/// Recording a user changes what a lookup finds under that user's id and
/// under no other.
pub proof fn law_insert_keeps_others(dir: Directory, user: UserView, id: Seq<char>)
    requires
        id != user.id,
    ensures
        found(recorded(dir, user), id) == found(dir, id),
{
}

/// A lookup of an id that the directory does not hold finds nothing.
pub proof fn law_miss_finds_nothing(dir: Directory, id: Seq<char>)
    requires
        !dir.contains_key(id),
    ensures
        found(dir, id).is_none(),
{
}

/// Recording a user keeps the directory keyed by id.
pub proof fn law_recorded_stays_keyed(dir: Directory, user: UserView)
    requires
        keyed_by_id(dir),
    ensures
        keyed_by_id(recorded(dir, user)),
{
}

/// What a lookup finds in a directory that is keyed by id carries the id
/// that was looked up.
pub proof fn law_found_carries_id(dir: Directory, id: Seq<char>)
    requires
        keyed_by_id(dir),
    ensures
        found(dir, id) matches Some(user) ==> user.id == id,
{
}

} // verus!
