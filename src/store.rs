use vstd::prelude::*;
use crate::errors::{RecipeError, UserError};
use crate::recipe::{Recipe, NewRecipe, RecipeView, opt_view};
use crate::text::{lower_of, like};

verus! {

/// The contents of every recipe of a list.
pub open spec fn views(v: Seq<Recipe>) -> Seq<RecipeView> {
    v.map_values(|r: Recipe| r@)
}

/// Whether a title passes the filter of a query: no query, or, ignoring case,
/// the title matches the query followed by `%` as a SQL LIKE pattern (so a
/// query without `%`, `_` or backslash is a prefix of the title).
pub open spec fn title_matches(query: Option<Seq<char>>, title: Seq<char>) -> bool {
    match query {
        Some(q) => like(lower_of(q).push('%'), lower_of(title)),
        None => true,
    }
}

/// The recipes of `user_id` whose title passes the query, in the stored order.
pub open spec fn recipes_of(s: Seq<RecipeView>, user_id: Seq<char>, query: Option<Seq<char>>) -> Seq<RecipeView>
    decreases s.len(),
{
    if s.len() == 0 {
        Seq::empty()
    } else {
        let rest = recipes_of(s.drop_last(), user_id, query);
        if s.last().user_id == user_id && title_matches(query, s.last().title) {
            rest.push(s.last())
        } else {
            rest
        }
    }
}

/// The first recipe with the id `id`.
pub open spec fn find_recipe(s: Seq<RecipeView>, id: Seq<char>) -> Option<RecipeView>
    decreases s.len(),
{
    if s.len() == 0 {
        None
    } else if s[0].id == id {
        Some(s[0])
    } else {
        find_recipe(s.drop_first(), id)
    }
}

/// The recipes without those with the id `id`.
pub open spec fn without(s: Seq<RecipeView>, id: Seq<char>) -> Seq<RecipeView>
    decreases s.len(),
{
    if s.len() == 0 {
        Seq::empty()
    } else {
        let rest = without(s.drop_last(), id);
        if s.last().id != id {
            rest.push(s.last())
        } else {
            rest
        }
    }
}

/// The recipes with those that carry the id of `r` replaced by `r`.
pub open spec fn replaced(s: Seq<RecipeView>, r: RecipeView) -> Seq<RecipeView> {
    s.map_values(|x: RecipeView| if x.id == r.id { r } else { x })
}

/// The update `new` of the stored recipe `o`, keeping the owner of `o`.
pub open spec fn kept_owner(o: RecipeView, new: RecipeView) -> RecipeView {
    RecipeView { user_id: o.user_id, ..new }
}

/// Storage of recipes. Each operation either does what its contract states,
/// or fails with `Unknown` (the storage could not be reached) and changes nothing.
pub trait RecipeDao {
    /// The stored recipes, in the order of their insertion.
    spec fn recipes(&self) -> Seq<RecipeView>;

    /// The recipes of `user_id` whose title begins with `query`, ignoring case
    /// (see `title_matches`).
    fn get_my_recipes(&self, user_id: &str, query: Option<String>) -> (r: Result<Vec<Recipe>, RecipeError>)
        ensures
            match r {
                Ok(v) => views(v@) == recipes_of(self.recipes(), user_id@, opt_view(query)),
                Err(e) => e == RecipeError::Unknown,
            };

    /// The recipe with the id `id`.
    fn get_recipe(&self, id: &str) -> (r: Result<Recipe, RecipeError>)
        ensures
            match r {
                Ok(x) => find_recipe(self.recipes(), id@) == Some(x@),
                Err(e) => e == RecipeError::Unknown || (e == RecipeError::RecipeNotFound && find_recipe(self.recipes(), id@) is None),
            };

    /// Deletes the recipe with the id `id` with its instructions and ingredients.
    fn delete_recipe(&mut self, id: &str) -> (r: Result<(), RecipeError>)
        ensures
            match r {
                Ok(_) => final(self).recipes() == without(old(self).recipes(), id@),
                Err(e) => e == RecipeError::Unknown && final(self).recipes() == old(self).recipes(),
            };

    /// Inserts a recipe under an id that no stored recipe has.
    fn add_recipe(&mut self, new_recipe: NewRecipe) -> (r: Result<Recipe, RecipeError>)
        ensures
            match r {
                Ok(x) => {
                    &&& x@ == new_recipe@
                    &&& find_recipe(old(self).recipes(), new_recipe@.id) is None
                    &&& final(self).recipes() == old(self).recipes().push(x@)
                },
                Err(e) => e == RecipeError::Unknown && final(self).recipes() == old(self).recipes(),
            };

    /// Replaces the stored recipe that has the id of `recipe`, fields and
    /// sequences alike; the stored owner stays.
    fn update_recipe(&mut self, recipe: Recipe) -> (r: Result<Recipe, RecipeError>)
        ensures
            match r {
                Ok(x) => {
                    &&& find_recipe(old(self).recipes(), recipe@.id) matches Some(o)
                    &&& x@ == kept_owner(o, recipe@)
                    &&& final(self).recipes() == replaced(old(self).recipes(), x@)
                },
                Err(e) => final(self).recipes() == old(self).recipes() && (e == RecipeError::Unknown || (e
                    == RecipeError::RecipeNotFound && find_recipe(old(self).recipes(), recipe@.id) is None)),
            };
}

/// A user as the service shows it.
#[derive(Debug)]
pub struct User {
    pub id: String,
    pub email: String,
}

/// A stored user.
pub ghost struct UserRecord {
    pub id: Seq<char>,
    pub email: Seq<char>,
    pub password_hash: Seq<char>,
}

/// Whether a user has the address `email`.
pub open spec fn email_taken(users: Seq<UserRecord>, email: Seq<char>) -> bool {
    exists|i: int| 0 <= i < users.len() && (#[trigger] users[i]).email == email
}

/// Whether a user has the id `id`.
pub open spec fn id_taken(users: Seq<UserRecord>, id: Seq<char>) -> bool {
    exists|i: int| 0 <= i < users.len() && (#[trigger] users[i]).id == id
}

/// Whether `u` is a stored user with the address `email` and the hash `hash`.
pub open spec fn has_credentials(users: Seq<UserRecord>, email: Seq<char>, hash: Seq<char>, u: User) -> bool {
    exists|i: int|
        0 <= i < users.len() && (#[trigger] users[i]).email == email && users[i].password_hash == hash
            && users[i].id == u.id@ && u.email@ == email
}

/// Storage of users. Each operation either does what its contract states, or
/// fails with `Unknown` (the storage could not be reached) and changes nothing.
pub trait UserDao {
    /// The stored users.
    spec fn users(&self) -> Seq<UserRecord>;

    /// Stores a user; refused where the address is taken.
    fn signup(&mut self, id: String, email: String, password_hash: String) -> (r: Result<User, UserError>)
        ensures
            match r {
                Ok(u) => {
                    &&& u.id@ == id@ && u.email@ == email@
                    &&& !email_taken(old(self).users(), email@)
                    &&& final(self).users() == old(self).users().push(
                        UserRecord { id: id@, email: email@, password_hash: password_hash@ },
                    )
                },
                Err(e) => final(self).users() == old(self).users() && (e == UserError::Unknown || (e
                    == UserError::UserAlreadyExists && email_taken(old(self).users(), email@))),
            };

    /// The user with the address `email` and the hash `password_hash`.
    fn signin(&self, email: String, password_hash: String) -> (r: Result<User, UserError>)
        ensures
            match r {
                Ok(u) => has_credentials(self.users(), email@, password_hash@, u),
                Err(e) => e == UserError::Unknown || (e == UserError::BadCredentials && forall|u: User|
                    !has_credentials(self.users(), email@, password_hash@, u)),
            };

    /// The user with the id `id`.
    fn get_user(&self, id: &str) -> (r: Result<User, UserError>)
        ensures
            match r {
                Ok(u) => u.id@ == id@ && id_taken(self.users(), id@),
                Err(e) => e == UserError::Unknown || (e == UserError::UserNotFound && !id_taken(self.users(), id@)),
            };
}

} // verus!
