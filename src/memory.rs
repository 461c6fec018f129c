use vstd::prelude::*;
use crate::errors::{RecipeError, UserError};
use crate::recipe::{Recipe, NewRecipe, RecipeView, opt_view};
use crate::store::{
    RecipeDao, UserDao, User, UserRecord, views, title_matches, recipes_of, find_recipe, without, replaced,
    email_taken, id_taken, has_credentials,
};
use crate::text::{lowercase, chars_of, like_matches, same_chars};

verus! {

/// Recipes held in memory, in the order of their insertion.
pub struct MemoryRecipeDao {
    recipes: Vec<Recipe>,
}

impl MemoryRecipeDao {
    /// An empty store.
    pub fn new() -> (r: MemoryRecipeDao)
        ensures
            r.recipes() == Seq::<RecipeView>::empty(),
    {
        let r = MemoryRecipeDao { recipes: Vec::new() };
        r
    }

    /// Whether the title passes the filter of the query.
    fn title_passes(title: &String, query: &Option<String>) -> (r: bool)
        ensures
            r == title_matches(opt_view(*query), title@),
    {
        match query {
            Some(q) => {
                let mut pattern = chars_of(lowercase(q.as_str()).as_str());
                pattern.push('%');
                like_matches(&pattern, &chars_of(lowercase(title.as_str()).as_str()))
            },
            None => true,
        }
    }

    /// Whether two texts hold the same characters.
    fn same_text(a: &String, b: &str) -> (r: bool)
        ensures
            r == (a@ == b@),
    {
        same_chars(&chars_of(a.as_str()), &chars_of(b))
    }

    /// The index of the first recipe with the id `id`.
    fn position(&self, id: &str) -> (r: Option<usize>)
        ensures
            match r {
                Some(i) => i < self.recipes@.len() && find_recipe(self.recipes(), id@) == Some(self.recipes@[i as int]@),
                None => find_recipe(self.recipes(), id@) is None,
            },
    {
        let ghost s = self.recipes();
        let mut i: usize = 0;
        assert(s.subrange(0, s.len() as int) =~= s);
        while i < self.recipes.len()
            invariant
                s == self.recipes(),
                i <= s.len(),
                s.len() == self.recipes@.len(),
                find_recipe(s, id@) == find_recipe(s.subrange(i as int, s.len() as int), id@),
            decreases s.len() - i,
        {
            assert(s.subrange(i as int, s.len() as int).drop_first() =~= s.subrange(i + 1, s.len() as int));
            if Self::same_text(&self.recipes[i].id, id) {
                return Some(i);
            }
            i = i + 1;
        }
        None
    }
}

impl RecipeDao for MemoryRecipeDao {
    closed spec fn recipes(&self) -> Seq<RecipeView> {
        views(self.recipes@)
    }

    fn get_my_recipes(&self, user_id: &str, query: Option<String>) -> (r: Result<Vec<Recipe>, RecipeError>)
        ensures
            r is Ok,
    {
        let ghost s = self.recipes();
        let mut out: Vec<Recipe> = Vec::new();
        let mut i: usize = 0;
        while i < self.recipes.len()
            invariant
                s == self.recipes(),
                i <= self.recipes@.len(),
                views(out@) =~= recipes_of(s.take(i as int), user_id@, opt_view(query)),
            decreases self.recipes@.len() - i,
        {
            let rec = &self.recipes[i];
            assert(s.take(i + 1).drop_last() =~= s.take(i as int));
            if Self::same_text(&rec.user_id, user_id) && Self::title_passes(&rec.title, &query) {
                out.push(rec.duplicate());
            }
            i = i + 1;
        }
        assert(s.take(i as int) =~= s);
        Ok(out)
    }

    fn get_recipe(&self, id: &str) -> (r: Result<Recipe, RecipeError>)
        ensures
            r is Err ==> r == Err::<Recipe, RecipeError>(RecipeError::RecipeNotFound),
    {
        match self.position(id) {
            Some(i) => Ok(self.recipes[i].duplicate()),
            None => Err(RecipeError::RecipeNotFound),
        }
    }

    fn delete_recipe(&mut self, id: &str) -> (r: Result<(), RecipeError>)
        ensures
            r is Ok,
    {
        let ghost s = self.recipes();
        let mut kept: Vec<Recipe> = Vec::new();
        let mut i: usize = 0;
        while i < self.recipes.len()
            invariant
                s == self.recipes(),
                i <= self.recipes@.len(),
                views(kept@) =~= without(s.take(i as int), id@),
            decreases self.recipes@.len() - i,
        {
            let rec = &self.recipes[i];
            assert(s.take(i + 1).drop_last() =~= s.take(i as int));
            if !Self::same_text(&rec.id, id) {
                kept.push(rec.duplicate());
            }
            i = i + 1;
        }
        assert(s.take(i as int) =~= s);
        self.recipes = kept;
        Ok(())
    }

    fn add_recipe(&mut self, new_recipe: NewRecipe) -> (r: Result<Recipe, RecipeError>)
        ensures
            find_recipe(old(self).recipes(), new_recipe@.id) is None ==> r is Ok,
    {
        match self.position(new_recipe.id.as_str()) {
            Some(_) => Err(RecipeError::Unknown),
            None => {
                let stored = Recipe::from_new(new_recipe);
                let returned = stored.duplicate();
                self.recipes.push(stored);
                Ok(returned)
            },
        }
    }

    fn update_recipe(&mut self, recipe: Recipe) -> (r: Result<Recipe, RecipeError>)
        ensures
            find_recipe(old(self).recipes(), recipe@.id) is Some ==> r is Ok,
    {
        match self.position(recipe.id.as_str()) {
            None => Err(RecipeError::RecipeNotFound),
            Some(p) => {
                let ghost s = self.recipes();
                let mut recipe = recipe;
                recipe.user_id = self.recipes[p].user_id.clone();
                let mut out: Vec<Recipe> = Vec::new();
                let mut i: usize = 0;
                while i < self.recipes.len()
                    invariant
                        s == self.recipes(),
                        i <= self.recipes@.len(),
                        out@.len() == i,
                        forall|j: int| 0 <= j < i ==> (#[trigger] out@[j])@ == (if s[j].id == recipe@.id { recipe@ } else { s[j] }),
                    decreases self.recipes@.len() - i,
                {
                    if Self::same_text(&self.recipes[i].id, recipe.id.as_str()) {
                        out.push(recipe.duplicate());
                    } else {
                        out.push(self.recipes[i].duplicate());
                    }
                    i = i + 1;
                }
                self.recipes = out;
                assert(self.recipes() =~= replaced(s, recipe@));
                Ok(recipe)
            },
        }
    }
}

/// A stored user.
pub struct UserRow {
    pub id: String,
    pub email: String,
    pub password_hash: String,
}

impl View for UserRow {
    type V = UserRecord;

    open spec fn view(&self) -> UserRecord {
        UserRecord { id: self.id@, email: self.email@, password_hash: self.password_hash@ }
    }
}

/// Users held in memory.
pub struct MemoryUserDao {
    users: Vec<UserRow>,
}

impl MemoryUserDao {
    /// An empty store.
    pub fn new() -> (r: MemoryUserDao)
        ensures
            r.users() == Seq::<UserRecord>::empty(),
    {
        let r = MemoryUserDao { users: Vec::new() };
        r
    }
}

impl UserDao for MemoryUserDao {
    closed spec fn users(&self) -> Seq<UserRecord> {
        self.users@.map_values(|u: UserRow| u@)
    }

    fn signup(&mut self, id: String, email: String, password_hash: String) -> (r: Result<User, UserError>)
        ensures
            !email_taken(old(self).users(), email@) ==> r is Ok,
    {
        let mut i: usize = 0;
        while i < self.users.len()
            invariant
                i <= self.users@.len(),
                forall|j: int| 0 <= j < i ==> (#[trigger] self.users@[j]).email@ != email@,
            decreases self.users@.len() - i,
        {
            if MemoryRecipeDao::same_text(&self.users[i].email, email.as_str()) {
                assert(self.users()[i as int].email == email@);
                return Err(UserError::UserAlreadyExists);
            }
            i = i + 1;
        }
        assert(!email_taken(self.users(), email@)) by {
            assert(forall|j: int| 0 <= j < self.users().len() ==> (#[trigger] self.users()[j]).email != email@);
        }
        let user = User { id: id.clone(), email: email.clone() };
        self.users.push(UserRow { id, email, password_hash });
        Ok(user)
    }

    fn signin(&self, email: String, password_hash: String) -> (r: Result<User, UserError>)
        ensures
            r is Err ==> r == Err::<User, UserError>(UserError::BadCredentials),
    {
        let mut i: usize = 0;
        while i < self.users.len()
            invariant
                i <= self.users@.len(),
                forall|j: int| 0 <= j < i ==> !((#[trigger] self.users@[j]).email@ == email@
                    && self.users@[j].password_hash@ == password_hash@),
            decreases self.users@.len() - i,
        {
            let row = &self.users[i];
            if row.email == email && row.password_hash == password_hash {
                let u = User { id: row.id.clone(), email: row.email.clone() };
                assert(self.users()[i as int] == row@);
                return Ok(u);
            }
            i = i + 1;
        }
        assert forall|u: User| !has_credentials(self.users(), email@, password_hash@, u) by {
            assert forall|j: int| 0 <= j < self.users().len() implies !((#[trigger] self.users()[j]).email == email@
                && self.users()[j].password_hash == password_hash@) by {
            }
        }
        Err(UserError::BadCredentials)
    }

    fn get_user(&self, id: &str) -> (r: Result<User, UserError>)
        ensures
            r is Err ==> r == Err::<User, UserError>(UserError::UserNotFound),
    {
        let mut i: usize = 0;
        while i < self.users.len()
            invariant
                i <= self.users@.len(),
                forall|j: int| 0 <= j < i ==> (#[trigger] self.users@[j]).id@ != id@,
            decreases self.users@.len() - i,
        {
            let row = &self.users[i];
            if MemoryRecipeDao::same_text(&row.id, id) {
                assert(self.users()[i as int] == row@);
                return Ok(User { id: row.id.clone(), email: row.email.clone() });
            }
            i = i + 1;
        }
        assert(!id_taken(self.users(), id@)) by {
            assert(forall|j: int| 0 <= j < self.users().len() ==> (#[trigger] self.users()[j]).id != id@);
        }
        Err(UserError::UserNotFound)
    }
}

} // verus!
