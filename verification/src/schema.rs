//! The resolvers of the GraphQL schema:
//!
//! ```text
//! type User { id: String!, name: String!, email: String! }
//! type Query { user(id: String!): User }
//! type Mutation { createUser(id: String!, name: String!, email: String!): User! }
//! ```

use crate::context::{acquire, guarded, guarded_mut, Context};
use crate::store::{found, keyed_by_id, recorded, Directory, UserStore};
use crate::user::{User, UserView};
use juniper::{DefaultScalarValue, FieldError, FieldResult};
use vstd::prelude::*;

verus! {

/// `juniper::FieldError`, the error of a resolver, carried as an opaque value.
#[verifier::external_type_specification]
#[verifier::external_body]
#[verifier::reject_recursive_types(S)]
pub struct ExFieldError<S>(FieldError<S>);

/// `juniper::DefaultScalarValue`, carried as an opaque value.
#[verifier::external_type_specification]
#[verifier::external_body]
pub struct ExDefaultScalarValue(DefaultScalarValue);

/// What `user(id)` yields on a directory: the record under `id`, or the null
/// value.
pub open spec fn user_query(dir: Directory, id: Seq<char>) -> Option<UserView> {
    found(dir, id)
}

/// The record that `createUser(id, name, email)` makes.
pub open spec fn created(id: Seq<char>, name: Seq<char>, email: Seq<char>) -> UserView {
    UserView { id, name, email }
}

/// What `createUser(id, name, email)` leaves of a directory.
pub open spec fn user_creation(
    dir: Directory,
    id: Seq<char>,
    name: Seq<char>,
    email: Seq<char>,
) -> Directory {
    recorded(dir, created(id, name, email))
}

/// `user(id)` yields the null value for an id that the directory does not
/// hold.
pub proof fn law_null_on_miss(dir: Directory, id: Seq<char>)
    requires
        !dir.contains_key(id),
    ensures
        user_query(dir, id).is_none(),
{
}

/// `user(id)` after `createUser(id, ..)` yields the record that was created.
pub proof fn law_created_user_is_read(
    dir: Directory,
    id: Seq<char>,
    name: Seq<char>,
    email: Seq<char>,
)
    ensures
        user_query(user_creation(dir, id, name, email), id) == Some(created(id, name, email)),
{
}

/// Of two `createUser` under one id, run one after the other, `user(id)`
/// yields the record of the second.
pub proof fn law_later_creation_is_read(
    dir: Directory,
    id: Seq<char>,
    first: (Seq<char>, Seq<char>),
    second: (Seq<char>, Seq<char>),
)
    ensures
        user_query(
            user_creation(user_creation(dir, id, first.0, first.1), id, second.0, second.1),
            id,
        ) == Some(created(id, second.0, second.1)),
{
}

/// The root of all queries.
pub struct Query;

/// The root of all mutations.
pub struct Mutation;

impl Query {
    /// `user(id)` resolved against a given store: the record under `id`, or
    /// the null value when the store has none. Never an error.
    pub fn user_in(store: &UserStore, id: &String) -> (resolved: FieldResult<Option<User>>)
        ensures
            resolved matches Ok(hit) && match hit {
                Some(user) => user_query(store@, id@) == Some(user@),
                None => user_query(store@, id@).is_none(),
            },
            keyed_by_id(store@),
    {
        Ok(store.lookup(id))
    }

    /// `user(id)` resolved against the shared store as it stands at the
    /// moment of the call. Never an error; a record that comes back carries
    /// the id that was asked for.
    pub fn user(context: &Context, id: String) -> (resolved: FieldResult<Option<User>>)
        ensures
            resolved matches Ok(hit) && (hit matches Some(user) ==> user.id@ == id@),
    {
        let guard = acquire(context.lock());
        Query::user_in(guarded(&guard), &id)
    }
}

impl Mutation {
    /// `createUser(id, name, email)` resolved against a given store: the new
    /// record is stored under `id`, in place of any earlier one, and returned.
    /// Never an error.
    pub fn create_user_in(
        store: &mut UserStore,
        id: String,
        name: String,
        email: String,
    ) -> (resolved: FieldResult<User>)
        ensures
            resolved matches Ok(user) && user.id == id && user.name == name && user.email == email,
            final(store)@ == user_creation(old(store)@, id@, name@, email@),
            keyed_by_id(final(store)@),
    {
        let user = User::new(id, name, email);
        store.insert(user.clone());
        Ok(user)
    }

    /// `createUser(id, name, email)` resolved against the shared store. Never
    /// an error; the record that comes back is the one that was stored.
    pub fn create_user(
        context: &Context,
        id: String,
        name: String,
        email: String,
    ) -> (resolved: FieldResult<User>)
        ensures
            resolved matches Ok(user) && user.id == id && user.name == name && user.email == email,
    {
        let mut guard = acquire(context.lock());
        Mutation::create_user_in(guarded_mut(&mut guard), id, name, email)
    }
}

} // verus!
