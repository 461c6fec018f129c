use vstd::prelude::*;
use crate::auth::{generate_header, issued_for, password_hash_of};
use crate::errors::{DomainError, RecipeError, UserError};
use crate::ids::{new_id, parse_id, uuid_in, is_hyphenated_uuid};
use crate::interactor::{ImageStore, RecipeInteractor, UserInteractor, update_outcome, delete_outcome, recipe_result, is_unknown, imported};
use crate::recipe::{Recipe, RecipeView, opt_view, strings_view};
use crate::store::{RecipeDao, UserDao, User, UserRecord, views, recipes_of, find_recipe, email_taken, id_taken, has_credentials};

verus! {

/// The fields of a recipe that a client creates or updates.
#[derive(Debug)]
pub struct NewRecipeInput {
    pub title: String,
    pub description: Option<String>,
    pub cook_time_in_minute: Option<i32>,
    pub prep_time_in_minute: Option<i32>,
    pub image_url: Option<String>,
    pub recipe_yield: Option<String>,
    pub category: Option<String>,
    pub cuisine: Option<String>,
    pub instructions: Vec<String>,
    pub ingredients: Vec<String>,
    pub imported_from: Option<String>,
}

/// The recipe that an input describes, under the id `id`, owned by `user_id`.
pub open spec fn input_recipe(input: NewRecipeInput, id: Seq<char>, user_id: Seq<char>) -> RecipeView {
    RecipeView {
        id,
        user_id,
        title: input.title@,
        description: opt_view(input.description),
        cook_time_in_minute: input.cook_time_in_minute,
        prep_time_in_minute: input.prep_time_in_minute,
        image_url: opt_view(input.image_url),
        recipe_yield: opt_view(input.recipe_yield),
        category: opt_view(input.category),
        cuisine: opt_view(input.cuisine),
        instructions: strings_view(input.instructions@),
        ingredients: strings_view(input.ingredients@),
        imported_from: opt_view(input.imported_from),
    }
}

impl NewRecipeInput {
    fn into_recipe(self, id: String, user_id: String) -> (r: Recipe)
        ensures
            r@ == input_recipe(self, id@, user_id@),
    {
        Recipe {
            id,
            user_id,
            title: self.title,
            description: self.description,
            cook_time_in_minute: self.cook_time_in_minute,
            prep_time_in_minute: self.prep_time_in_minute,
            image_url: self.image_url,
            recipe_yield: self.recipe_yield,
            category: self.category,
            cuisine: self.cuisine,
            instructions: self.instructions,
            ingredients: self.ingredients,
            imported_from: self.imported_from,
        }
    }
}

/// What a request works with: the operations, the principal of the request
/// (the id of its user, nothing for an anonymous request) and the token secret.
pub struct Context<D: RecipeDao, U: UserDao, V: UserDao, I: ImageStore> {
    pub recipe_interactor: RecipeInteractor<D, U, I>,
    pub user_interactor: UserInteractor<V>,
    pub user_id: Option<String>,
    pub secret: Vec<u8>,
}

impl<D: RecipeDao, U: UserDao, V: UserDao, I: ImageStore> Context<D, U, V, I> {
    /// The user of the request; refused for an anonymous request.
    pub fn get_user(&self) -> (r: Result<String, UserError>)
        ensures
            match r {
                Ok(id) => self.user_id == Some(id),
                Err(e) => self.user_id is None && e == UserError::MustBeLogged,
            },
    {
        match &self.user_id {
            Some(id) => Ok(id.clone()),
            None => Err(UserError::MustBeLogged),
        }
    }

    /// The stored recipes.
    pub open spec fn recipes(&self) -> Seq<RecipeView> {
        self.recipe_interactor.recipe_dao.recipes()
    }

    /// Whether the stores are the same in both contexts.
    pub open spec fn same_stores(&self, other: &Self) -> bool {
        &&& self.recipe_interactor.recipe_dao.recipes() == other.recipe_interactor.recipe_dao.recipes()
        &&& self.recipe_interactor.user_dao.users() == other.recipe_interactor.user_dao.users()
        &&& self.user_interactor.dao.users() == other.user_interactor.dao.users()
    }
}

/// Whether a signup stored a user with a fresh id, the address (which no user
/// had) and the hash of the password, and `t` is a token for that user.
pub open spec fn signed_up(
    before: Seq<UserRecord>,
    after: Seq<UserRecord>,
    email: Seq<char>,
    password: Seq<char>,
    t: Seq<char>,
    secret: Seq<u8>,
) -> bool {
    exists|id: Seq<char>|
        {
            &&& is_hyphenated_uuid(id)
            &&& !email_taken(before, email)
            &&& after == before.push(UserRecord { id, email, password_hash: password_hash_of(password) })
            &&& #[trigger] issued_for(t, id, secret)
        }
}

/// Whether `t` is a token for a stored user with the address and the hash of the password.
pub open spec fn signed_in(users: Seq<UserRecord>, email: Seq<char>, password: Seq<char>, t: Seq<char>, secret: Seq<u8>) -> bool {
    exists|u: User| has_credentials(users, email, password_hash_of(password), u) && #[trigger] issued_for(t, u.id@, secret)
}

/// The queries of the API.
pub struct Query;

/// The mutations of the API.
pub struct Mutation;

/// Whether the result is the refusal of an anonymous request.
pub open spec fn must_be_logged<T>(r: Result<T, DomainError>) -> bool {
    r == Err::<T, DomainError>(DomainError::User(UserError::MustBeLogged))
}

impl Query {
    /// The version of the API.
    #[allow(non_snake_case)]
    pub fn apiVersion() -> (r: &'static str)
        ensures
            r@ == "1.0"@,
    {
        "1.0"
    }

    /// The recipes of the logged user whose title begins with `query`, ignoring case.
    pub fn get_my_recipes<D: RecipeDao, U: UserDao, V: UserDao, I: ImageStore>(
        context: &Context<D, U, V, I>,
        query: Option<String>,
    ) -> (r: Result<Vec<Recipe>, DomainError>)
        ensures
            context.user_id is None ==> must_be_logged(r),
            context.user_id matches Some(u) ==> match r {
                Ok(v) => {
                    &&& views(v@) == recipes_of(context.recipes(), u@, opt_view(query))
                    &&& v@.len() == 0 ==> id_taken(context.recipe_interactor.user_dao.users(), u@)
                },
                Err(e) => is_unknown(e) || (e == DomainError::User(UserError::UserNotFound)
                    && recipes_of(context.recipes(), u@, opt_view(query)).len() == 0
                    && !id_taken(context.recipe_interactor.user_dao.users(), u@)),
            },
    {
        let user_id = match context.get_user() {
            Ok(u) => u,
            Err(e) => {
                return Err(DomainError::User(e));
            },
        };
        context.recipe_interactor.get_my_recipes(user_id, query)
    }

    /// The recipe with the id `id`, for any caller.
    pub fn get_recipe<D: RecipeDao, U: UserDao, V: UserDao, I: ImageStore>(
        context: &Context<D, U, V, I>,
        id: String,
    ) -> (r: Result<Recipe, DomainError>)
        ensures
            match r {
                Ok(x) => find_recipe(context.recipes(), id@) == Some(x@),
                Err(e) => is_unknown(e) || (e == DomainError::Recipe(RecipeError::RecipeNotFound)
                    && find_recipe(context.recipes(), id@) is None),
            },
    {
        context.recipe_interactor.get_recipe(id)
    }
}

impl Mutation {
    /// Creates a recipe of the logged user under a fresh id.
    pub fn create_recipe<D: RecipeDao, U: UserDao, V: UserDao, I: ImageStore>(
        context: &mut Context<D, U, V, I>,
        new_recipe: NewRecipeInput,
    ) -> (r: Result<Recipe, DomainError>)
        ensures
            old(context).user_id is None ==> must_be_logged(r),
            r is Err ==> final(context).same_stores(old(context)),
            r matches Ok(x) ==> {
                &&& old(context).user_id matches Some(u)
                &&& x@ == input_recipe(new_recipe, x@.id, u@)
                &&& is_hyphenated_uuid(x@.id)
                &&& final(context).recipes() == old(context).recipes().push(x@)
            },
            r matches Err(e) ==> must_be_logged(r) || is_unknown(e),
            old(context).user_id is Some ==> (r matches Err(e) ==> is_unknown(e)),
    {
        let user_id = match context.get_user() {
            Ok(u) => u,
            Err(e) => {
                return Err(DomainError::User(e));
            },
        };
        let id = new_id();
        let recipe = new_recipe.into_recipe(id, user_id);
        context.recipe_interactor.add_recipe(recipe)
    }

    /// Replaces the fields and sequences of a recipe of the logged user.
    pub fn update_recipe<D: RecipeDao, U: UserDao, V: UserDao, I: ImageStore>(
        context: &mut Context<D, U, V, I>,
        id: String,
        new_recipe: NewRecipeInput,
    ) -> (r: Result<Recipe, DomainError>)
        ensures
            old(context).user_id is None ==> must_be_logged(r),
            r is Err ==> final(context).same_stores(old(context)),
            r matches Ok(x) ==> {
                &&& old(context).user_id matches Some(u)
                &&& uuid_in(id@) == Some(x@.id)
                &&& x@ == input_recipe(new_recipe, x@.id, u@)
                &&& update_outcome(old(context).recipes(), x@) == Ok::<RecipeView, DomainError>(x@)
            },
            is_hyphenated_uuid(id@) ==> match old(context).user_id {
                Some(u) => recipe_result(r) == update_outcome(old(context).recipes(), input_recipe(new_recipe, id@, u@))
                    || r == Err::<Recipe, DomainError>(DomainError::Recipe(RecipeError::Unknown)),
                None => true,
            },
            old(context).user_id matches Some(u) ==> match uuid_in(id@) {
                Some(key) => recipe_result(r) == update_outcome(old(context).recipes(), input_recipe(new_recipe, key, u@))
                    || r == Err::<Recipe, DomainError>(DomainError::Recipe(RecipeError::Unknown)),
                None => r == Err::<Recipe, DomainError>(DomainError::Recipe(RecipeError::RecipeNotFound)),
            },
    {
        let user_id = match context.get_user() {
            Ok(u) => u,
            Err(e) => {
                return Err(DomainError::User(e));
            },
        };
        let id = match parse_id(id.as_str()) {
            Some(i) => i,
            None => {
                return Err(DomainError::Recipe(RecipeError::RecipeNotFound));
            },
        };
        let recipe = new_recipe.into_recipe(id, user_id);
        context.recipe_interactor.update_recipe(recipe)
    }

    /// Deletes a recipe of the logged user; gives back its id.
    pub fn delete_recipe<D: RecipeDao, U: UserDao, V: UserDao, I: ImageStore>(
        context: &mut Context<D, U, V, I>,
        id: String,
    ) -> (r: Result<String, DomainError>)
        ensures
            old(context).user_id is None ==> must_be_logged(r),
            r is Err ==> final(context).same_stores(old(context)),
            r matches Ok(x) ==> {
                &&& old(context).user_id matches Some(u)
                &&& x@ == id@
                &&& delete_outcome(old(context).recipes(), id@, u@) is Ok
            },
            old(context).user_id matches Some(u) ==> (r matches Err(e) ==> Err::<(), DomainError>(e) == delete_outcome(
                old(context).recipes(),
                id@,
                u@,
            ) || is_unknown(e)),
    {
        let user_id = match context.get_user() {
            Ok(u) => u,
            Err(e) => {
                return Err(DomainError::User(e));
            },
        };
        match context.recipe_interactor.delete_recipe(id.clone(), user_id) {
            Ok(_) => Ok(id),
            Err(e) => Err(e),
        }
    }

    /// Imports for the logged user the recipe of a fetched web page.
    pub fn import_recipe<D: RecipeDao, U: UserDao, V: UserDao, I: ImageStore>(
        context: &mut Context<D, U, V, I>,
        url: String,
        html: &str,
    ) -> (r: Result<Recipe, DomainError>)
        ensures
            old(context).user_id is None ==> must_be_logged(r),
            r is Err ==> final(context).same_stores(old(context)),
            r matches Ok(x) ==> old(context).user_id matches Some(u) && x@.user_id == u@ && x@.imported_from
                == Some(url@),
            old(context).user_id matches Some(u) ==> imported(url@, u@, html@, r, old(context).recipes(), final(context).recipes()),
    {
        let user_id = match context.get_user() {
            Ok(u) => u,
            Err(e) => {
                return Err(DomainError::User(e));
            },
        };
        context.recipe_interactor.import_from(url, user_id, html)
    }

    /// Copies any recipe into a new recipe of the logged user.
    pub fn copy_recipe<D: RecipeDao, U: UserDao, V: UserDao, I: ImageStore>(
        context: &mut Context<D, U, V, I>,
        recipe_id: String,
    ) -> (r: Result<Recipe, DomainError>)
        ensures
            old(context).user_id is None ==> must_be_logged(r),
            r is Err ==> final(context).same_stores(old(context)),
            r matches Ok(x) ==> {
                &&& old(context).user_id matches Some(u)
                &&& find_recipe(old(context).recipes(), recipe_id@) matches Some(src)
                &&& x@ == (RecipeView { id: x@.id, user_id: u@, ..src })
            },
            r matches Err(e) ==> must_be_logged(r) || is_unknown(e) || (e == DomainError::Recipe(RecipeError::RecipeNotFound)
                && find_recipe(old(context).recipes(), recipe_id@) is None),
            old(context).user_id is Some ==> !must_be_logged(r),
            r matches Ok(x) ==> find_recipe(old(context).recipes(), x@.id) is None,
    {
        let user_id = match context.get_user() {
            Ok(u) => u,
            Err(e) => {
                return Err(DomainError::User(e));
            },
        };
        context.recipe_interactor.copy_recipe(user_id, recipe_id)
    }

    /// Registers a user under a fresh id; gives back a token for them.
    pub fn signup<D: RecipeDao, U: UserDao, V: UserDao, I: ImageStore>(
        context: &mut Context<D, U, V, I>,
        email: String,
        password: String,
    ) -> (r: Result<String, DomainError>)
        ensures
            match r {
                Ok(t) => signed_up(
                    old(context).user_interactor.dao.users(),
                    final(context).user_interactor.dao.users(),
                    email@,
                    password@,
                    t@,
                    old(context).secret@,
                ),
                Err(e) => e == DomainError::User(UserError::Unknown) || (e == DomainError::User(
                    UserError::UserAlreadyExists,
                ) && email_taken(old(context).user_interactor.dao.users(), email@)
                    && final(context).user_interactor.dao.users() == old(context).user_interactor.dao.users()),
            },
    {
        let id = new_id();
        let ghost uid = id@;
        let user = match context.user_interactor.signup(id, email, password) {
            Ok(u) => u,
            Err(e) => {
                return Err(DomainError::User(e));
            },
        };
        match generate_header(&user, context.secret.as_slice()) {
            Ok(t) => {
                assert(final(context).user_interactor.dao.users() == old(context).user_interactor.dao.users().push(
                        UserRecord { id: uid, email: email@, password_hash: password_hash_of(password@) }));
                assert(signed_up(
                    old(context).user_interactor.dao.users(),
                    final(context).user_interactor.dao.users(),
                    email@,
                    password@,
                    t@,
                    old(context).secret@,
                ));
                Ok(t)
            },
            Err(e) => Err(DomainError::User(e)),
        }
    }


    /// A token for the user with this address and password.
    pub fn signin<D: RecipeDao, U: UserDao, V: UserDao, I: ImageStore>(
        context: &Context<D, U, V, I>,
        email: String,
        password: String,
    ) -> (r: Result<String, DomainError>)
        ensures
            match r {
                Ok(t) => signed_in(context.user_interactor.dao.users(), email@, password@, t@, context.secret@),
                Err(e) => e == DomainError::User(UserError::Unknown) || (e == DomainError::User(UserError::BadCredentials)
                    && forall|u: User|
                    !has_credentials(context.user_interactor.dao.users(), email@, password_hash_of(password@), u)),
            },
    {
        let user = match context.user_interactor.signin(email, password) {
            Ok(u) => u,
            Err(e) => {
                return Err(DomainError::User(e));
            },
        };
        match generate_header(&user, context.secret.as_slice()) {
            Ok(t) => {
                Ok(t)
            },
            Err(e) => Err(DomainError::User(e)),
        }
    }
}

} // verus!
