use vstd::prelude::*;
use crate::auth::{hash_password, password_hash_of};
use crate::errors::{DomainError, RecipeError, UserError};
use crate::ids::{new_id, is_hyphenated_uuid};
use crate::parser::{SelectParser, page_documents, recipe_of_documents, result_view};
use crate::recipe::{Recipe, RecipeView, opt_view};
use crate::store::{
    RecipeDao, UserDao, User, UserRecord, views, recipes_of, find_recipe, without, replaced,
    email_taken, id_taken, has_credentials,
};

verus! {

/// Produces upload locations for recipe photos.
pub trait ImageStore {
    /// A location where a photo with this file extension may be uploaded.
    fn get_photo_upload_url(&self, extension: &str) -> (r: Result<String, RecipeError>);
}

/// What an update of `new` by its owner field makes of the stored recipes:
/// refused where no recipe has its id or the stored one belongs to someone else.
pub open spec fn update_outcome(s: Seq<RecipeView>, new: RecipeView) -> Result<RecipeView, DomainError> {
    match find_recipe(s, new.id) {
        Some(x) => if x.user_id == new.user_id {
            Ok(new)
        } else {
            Err(DomainError::Recipe(RecipeError::RecipeDoNotbelongToUser))
        },
        None => Err(DomainError::Recipe(RecipeError::RecipeNotFound)),
    }
}

/// What a deletion of recipe `id` by `user_id` gives: refused where no recipe
/// has the id or it belongs to someone else.
pub open spec fn delete_outcome(s: Seq<RecipeView>, id: Seq<char>, user_id: Seq<char>) -> Result<(), DomainError> {
    match find_recipe(s, id) {
        Some(x) => if x.user_id == user_id {
            Ok(())
        } else {
            Err(DomainError::Recipe(RecipeError::RecipeDoNotbelongToUser))
        },
        None => Err(DomainError::Recipe(RecipeError::RecipeNotFound)),
    }
}

/// Whether an import gave what the page describes: on a recipe, that recipe
/// stored under an id no stored recipe had (or a store failure, storing
/// nothing); on a refusal by the parser, that refusal, storing nothing.
pub open spec fn import_agrees(
    expected: Result<RecipeView, RecipeError>,
    r: Result<Recipe, DomainError>,
    before: Seq<RecipeView>,
    after: Seq<RecipeView>,
) -> bool {
    match expected {
        Ok(x) => match r {
            Ok(y) => y@ == x && find_recipe(before, x.id) is None && after == before.push(x),
            Err(e) => is_unknown(e) && after == before,
        },
        Err(e) => r == Err::<Recipe, DomainError>(DomainError::Recipe(e)) && after == before,
    }
}

/// Whether an import of the page `html` from `url` for `user_id` gave what
/// the page describes, under some fresh id (see `import_agrees`).
pub open spec fn imported(
    url: Seq<char>,
    user_id: Seq<char>,
    html: Seq<char>,
    r: Result<Recipe, DomainError>,
    before: Seq<RecipeView>,
    after: Seq<RecipeView>,
) -> bool {
    exists|id: Seq<char>|
        is_hyphenated_uuid(id) && #[trigger] import_agrees(
            recipe_of_documents(url, user_id, id, page_documents(html)),
            r,
            before,
            after,
        )
}

/// The contents of a recipe returned, or the error.
pub open spec fn recipe_result(r: Result<Recipe, DomainError>) -> Result<RecipeView, DomainError> {
    match r {
        Ok(x) => Ok(x@),
        Err(e) => Err(e),
    }
}

/// Whether the error is the failure of a store that could not be reached.
pub open spec fn is_unknown(e: DomainError) -> bool {
    e == DomainError::Recipe(RecipeError::Unknown) || e == DomainError::User(UserError::Unknown)
}

/// The recipe operations, with their ownership rules.
pub struct RecipeInteractor<D: RecipeDao, U: UserDao, I: ImageStore> {
    pub recipe_dao: D,
    pub user_dao: U,
    pub parser: SelectParser,
    pub image_store: I,
}

impl<D: RecipeDao, U: UserDao, I: ImageStore> RecipeInteractor<D, U, I> {
    /// Imports the recipe of a fetched web page for `user_id`, under a fresh id.
    pub fn import_from(&mut self, url: String, user_id: String, html: &str) -> (r: Result<Recipe, DomainError>)
        ensures
            final(self).user_dao == old(self).user_dao,
            imported(url@, user_id@, html@, r, old(self).recipe_dao.recipes(), final(self).recipe_dao.recipes()),
    {
        let parsed = match self.parser.parse_from_json_ld(url.as_str(), html, user_id) {
            Ok(p) => p,
            Err(e) => {
                proof {
                    let id = choose|id: Seq<char>|
                        is_hyphenated_uuid(id) && #[trigger] recipe_of_documents(url@, user_id@, id, page_documents(html@))
                            == result_view(Err::<Recipe, RecipeError>(e));
                    assert(import_agrees(
                        recipe_of_documents(url@, user_id@, id, page_documents(html@)),
                        Err::<Recipe, DomainError>(DomainError::Recipe(e)),
                        old(self).recipe_dao.recipes(),
                        self.recipe_dao.recipes(),
                    ));
                    assert(imported(url@, user_id@, html@, Err::<Recipe, DomainError>(DomainError::Recipe(e)), old(self).recipe_dao.recipes(), self.recipe_dao.recipes()));
                }
                return Err(DomainError::Recipe(e));
            },
        };
        let ghost expected = parsed@;
        let ghost id = parsed@.id;
        assert(recipe_of_documents(url@, user_id@, id, page_documents(html@)) == Ok::<RecipeView, RecipeError>(expected));
        let new_recipe = parsed.to_new(parsed.id.clone(), parsed.user_id.clone());
        let r = match self.recipe_dao.add_recipe(new_recipe) {
            Ok(x) => Ok(x),
            Err(e) => Err(DomainError::Recipe(e)),
        };
        assert(import_agrees(
            recipe_of_documents(url@, user_id@, id, page_documents(html@)),
            r,
            old(self).recipe_dao.recipes(),
            self.recipe_dao.recipes(),
        ));
        assert(imported(url@, user_id@, html@, r, old(self).recipe_dao.recipes(), self.recipe_dao.recipes()));
        r
    }

    /// Stores a new recipe.
    pub fn add_recipe(&mut self, new_recipe: Recipe) -> (r: Result<Recipe, DomainError>)
        ensures
            final(self).user_dao == old(self).user_dao,
            match r {
                Ok(x) => x@ == new_recipe@ && final(self).recipe_dao.recipes() == old(self).recipe_dao.recipes().push(x@),
                Err(e) => is_unknown(e) && final(self).recipe_dao.recipes() == old(self).recipe_dao.recipes(),
            },
    {
        let n = new_recipe.to_new(new_recipe.id.clone(), new_recipe.user_id.clone());
        match self.recipe_dao.add_recipe(n) {
            Ok(x) => Ok(x),
            Err(e) => Err(DomainError::Recipe(e)),
        }
    }

    /// Replaces a recipe, fields and sequences, where its owner asks for it:
    /// `new_recipe.user_id` must own the stored recipe of that id.
    pub fn update_recipe(&mut self, new_recipe: Recipe) -> (r: Result<Recipe, DomainError>)
        ensures
            final(self).user_dao == old(self).user_dao,
            recipe_result(r) == update_outcome(old(self).recipe_dao.recipes(), new_recipe@) || r == Err::<Recipe, DomainError>(DomainError::Recipe(RecipeError::Unknown)),
            r is Ok ==> final(self).recipe_dao.recipes() == replaced(old(self).recipe_dao.recipes(), new_recipe@),
            r is Err ==> final(self).recipe_dao.recipes() == old(self).recipe_dao.recipes(),
    {
        let existing = match self.recipe_dao.get_recipe(new_recipe.id.as_str()) {
            Ok(x) => x,
            Err(e) => {
                return Err(DomainError::Recipe(e));
            },
        };
        if existing.user_id != new_recipe.user_id {
            return Err(DomainError::Recipe(RecipeError::RecipeDoNotbelongToUser));
        }
        match self.recipe_dao.update_recipe(new_recipe) {
            Ok(x) => Ok(x),
            Err(e) => Err(DomainError::Recipe(e)),
        }
    }

    /// Copies a recipe, whoever owns it, into a new recipe of `user_id`.
    pub fn copy_recipe(&mut self, user_id: String, recipe_id: String) -> (r: Result<Recipe, DomainError>)
        ensures
            final(self).user_dao == old(self).user_dao,
            match r {
                Ok(x) => {
                    &&& find_recipe(old(self).recipe_dao.recipes(), recipe_id@) matches Some(src)
                    &&& x@ == (RecipeView { id: x@.id, user_id: user_id@, ..src })
                    &&& is_hyphenated_uuid(x@.id)
                    &&& find_recipe(old(self).recipe_dao.recipes(), x@.id) is None
                    &&& final(self).recipe_dao.recipes() == old(self).recipe_dao.recipes().push(x@)
                },
                Err(e) => {
                    &&& final(self).recipe_dao.recipes() == old(self).recipe_dao.recipes()
                    &&& (is_unknown(e) || (e == DomainError::Recipe(RecipeError::RecipeNotFound)
                        && find_recipe(old(self).recipe_dao.recipes(), recipe_id@) is None))
                },
            },
    {
        let source = match self.recipe_dao.get_recipe(recipe_id.as_str()) {
            Ok(x) => x,
            Err(e) => {
                return Err(DomainError::Recipe(e));
            },
        };
        let id = new_id();
        let n = source.to_new(id, user_id);
        match self.recipe_dao.add_recipe(n) {
            Ok(x) => Ok(x),
            Err(e) => Err(DomainError::Recipe(e)),
        }
    }

    /// Deletes a recipe where `user_id` owns it.
    pub fn delete_recipe(&mut self, id: String, user_id: String) -> (r: Result<(), DomainError>)
        ensures
            final(self).user_dao == old(self).user_dao,
            r == delete_outcome(old(self).recipe_dao.recipes(), id@, user_id@) || r == Err::<(), DomainError>(DomainError::Recipe(RecipeError::Unknown)),
            r is Ok ==> final(self).recipe_dao.recipes() == without(old(self).recipe_dao.recipes(), id@),
            r is Err ==> final(self).recipe_dao.recipes() == old(self).recipe_dao.recipes(),
    {
        let existing = match self.recipe_dao.get_recipe(id.as_str()) {
            Ok(x) => x,
            Err(e) => {
                return Err(DomainError::Recipe(e));
            },
        };
        if existing.user_id != user_id {
            return Err(DomainError::Recipe(RecipeError::RecipeDoNotbelongToUser));
        }
        match self.recipe_dao.delete_recipe(id.as_str()) {
            Ok(_) => Ok(()),
            Err(e) => Err(DomainError::Recipe(e)),
        }
    }

    /// The recipe with the id `id`, whoever owns it.
    pub fn get_recipe(&self, id: String) -> (r: Result<Recipe, DomainError>)
        ensures
            match r {
                Ok(x) => find_recipe(self.recipe_dao.recipes(), id@) == Some(x@),
                Err(e) => is_unknown(e) || (e == DomainError::Recipe(RecipeError::RecipeNotFound)
                    && find_recipe(self.recipe_dao.recipes(), id@) is None),
            },
    {
        match self.recipe_dao.get_recipe(id.as_str()) {
            Ok(x) => Ok(x),
            Err(e) => Err(DomainError::Recipe(e)),
        }
    }

    /// The recipes of `user_id` whose title begins with `query`, ignoring
    /// case; an empty list only for a known user.
    pub fn get_my_recipes(&self, user_id: String, query: Option<String>) -> (r: Result<Vec<Recipe>, DomainError>)
        ensures
            match r {
                Ok(v) => {
                    &&& views(v@) == recipes_of(self.recipe_dao.recipes(), user_id@, opt_view(query))
                    &&& v@.len() == 0 ==> id_taken(self.user_dao.users(), user_id@)
                },
                Err(e) => is_unknown(e) || (e == DomainError::User(UserError::UserNotFound)
                    && recipes_of(self.recipe_dao.recipes(), user_id@, opt_view(query)).len() == 0
                    && !id_taken(self.user_dao.users(), user_id@)),
            },
    {
        let recipes = match self.recipe_dao.get_my_recipes(user_id.as_str(), query) {
            Ok(v) => v,
            Err(e) => {
                return Err(DomainError::Recipe(e));
            },
        };
        if recipes.len() == 0 {
            match self.user_dao.get_user(user_id.as_str()) {
                Ok(_) => {},
                Err(e) => {
                    return Err(DomainError::User(e));
                },
            }
        }
        Ok(recipes)
    }

    /// A location where a photo with this file extension may be uploaded.
    pub fn get_photo_upload_url(&self, extension: &str) -> (r: Result<String, DomainError>) {
        match self.image_store.get_photo_upload_url(extension) {
            Ok(u) => Ok(u),
            Err(e) => Err(DomainError::Recipe(e)),
        }
    }
}

/// The user operations.
pub struct UserInteractor<U: UserDao> {
    pub dao: U,
}

impl<U: UserDao> UserInteractor<U> {
    /// Registers a user under the id `id`, storing the hash of the password;
    /// refused where the address is taken.
    pub fn signup(&mut self, id: String, email: String, password: String) -> (r: Result<User, UserError>)
        ensures
            match r {
                Ok(u) => {
                    &&& u.id@ == id@ && u.email@ == email@
                    &&& !email_taken(old(self).dao.users(), email@)
                    &&& final(self).dao.users() == old(self).dao.users().push(
                        UserRecord { id: id@, email: email@, password_hash: password_hash_of(password@) },
                    )
                },
                Err(e) => final(self).dao.users() == old(self).dao.users() && (e == UserError::Unknown || (e
                    == UserError::UserAlreadyExists && email_taken(old(self).dao.users(), email@))),
            },
    {
        let hash = hash_password(password.as_str());
        self.dao.signup(id, email, hash)
    }

    /// The user with this address and password.
    pub fn signin(&self, email: String, password: String) -> (r: Result<User, UserError>)
        ensures
            match r {
                Ok(u) => has_credentials(self.dao.users(), email@, password_hash_of(password@), u),
                Err(e) => e == UserError::Unknown || (e == UserError::BadCredentials && forall|u: User|
                    !has_credentials(self.dao.users(), email@, password_hash_of(password@), u)),
            },
    {
        let hash = hash_password(password.as_str());
        self.dao.signin(email, hash)
    }
}

} // verus!
