use recipes_backend::errors::{DomainError, RecipeError, UserError};
use recipes_backend::interactor::{ImageStore, RecipeInteractor, UserInteractor};
use recipes_backend::memory::{MemoryRecipeDao, MemoryUserDao};
use recipes_backend::parser::SelectParser;
use recipes_backend::recipe::{numbered_ingredients, numbered_instructions, Instruction, Ingredient, Recipe, RecipeRow};
use recipes_backend::schema::{Context, Mutation, NewRecipeInput, Query};
use recipes_backend::store::{RecipeDao, UserDao};

struct NoUploads;

impl ImageStore for NoUploads {
    fn get_photo_upload_url(&self, extension: &str) -> Result<String, RecipeError> {
        Ok(format!("https://uploads.example.org/photo.{}", extension))
    }
}

const U1: &str = "2f0194af-66e6-43f5-8e1a-2e836c9e44a8";
const U2: &str = "7d1e4c5a-1b2c-4d3e-8f90-a1b2c3d4e5f6";

fn recipe(id: &str, owner: &str, title: &str) -> Recipe {
    Recipe {
        id: String::from(id),
        user_id: String::from(owner),
        title: String::from(title),
        description: None,
        cook_time_in_minute: Some(10),
        prep_time_in_minute: None,
        image_url: None,
        recipe_yield: None,
        category: None,
        cuisine: None,
        instructions: vec![String::from("first"), String::from("second")],
        ingredients: vec![String::from("flour")],
        imported_from: None,
    }
}

fn interactor_with_users(users: &[&str]) -> RecipeInteractor<MemoryRecipeDao, MemoryUserDao, NoUploads> {
    let mut user_dao = MemoryUserDao::new();
    for (i, u) in users.iter().enumerate() {
        user_dao
            .signup(String::from(*u), format!("user{}@example.org", i), String::from("hash"))
            .unwrap();
    }
    RecipeInteractor {
        recipe_dao: MemoryRecipeDao::new(),
        user_dao,
        parser: SelectParser::new(),
        image_store: NoUploads,
    }
}

fn input(title: &str) -> NewRecipeInput {
    NewRecipeInput {
        title: String::from(title),
        description: Some(String::from("good")),
        cook_time_in_minute: Some(20),
        prep_time_in_minute: Some(5),
        image_url: None,
        recipe_yield: None,
        category: None,
        cuisine: None,
        instructions: vec![String::from("mix"), String::from("bake")],
        ingredients: vec![String::from("eggs")],
        imported_from: None,
    }
}

fn context(user: Option<&str>) -> Context<MemoryRecipeDao, MemoryUserDao, MemoryUserDao, NoUploads> {
    Context {
        recipe_interactor: interactor_with_users(&[U1, U2]),
        user_interactor: UserInteractor { dao: MemoryUserDao::new() },
        user_id: user.map(String::from),
        secret: b"SECRET".to_vec(),
    }
}

#[test]
fn created_recipe_listed_until_deleted() {
    let mut it = interactor_with_users(&[U1]);
    let created = it.add_recipe(recipe("r1", U1, "Pasta")).unwrap();
    assert_eq!(created.title, "Pasta");
    let mine = it.get_my_recipes(String::from(U1), None).unwrap();
    assert_eq!(mine.len(), 1);
    assert_eq!(mine[0].id, "r1");
    it.add_recipe(recipe("r2", U1, "Lasagna")).unwrap();
    it.delete_recipe(String::from("r2"), String::from(U1)).unwrap();
    assert_eq!(it.get_my_recipes(String::from(U1), None).unwrap().len(), 1);
    it.delete_recipe(String::from("r1"), String::from(U1)).unwrap();
    assert_eq!(it.get_my_recipes(String::from(U1), None).unwrap().len(), 0);
    assert_eq!(it.get_recipe(String::from("r1")).err(), Some(DomainError::Recipe(RecipeError::RecipeNotFound)));
}

#[test]
fn update_replaces_fields_and_sequences() {
    let mut it = interactor_with_users(&[U1]);
    it.add_recipe(recipe("r1", U1, "Pasta")).unwrap();
    let mut changed = recipe("r1", U1, "Better pasta");
    changed.instructions = vec![String::from("only step")];
    changed.ingredients = vec![];
    let updated = it.update_recipe(changed).unwrap();
    assert_eq!(updated.id, "r1");
    assert_eq!(updated.user_id, U1);
    let stored = it.get_recipe(String::from("r1")).unwrap();
    assert_eq!(stored.title, "Better pasta");
    assert_eq!(stored.instructions, vec![String::from("only step")]);
    assert!(stored.ingredients.is_empty());
}

#[test]
fn update_or_delete_of_someone_elses_recipe_is_refused() {
    let mut it = interactor_with_users(&[U1, U2]);
    it.add_recipe(recipe("r1", U1, "Pasta")).unwrap();
    let r = it.update_recipe(recipe("r1", U2, "Stolen"));
    assert_eq!(r.err(), Some(DomainError::Recipe(RecipeError::RecipeDoNotbelongToUser)));
    let r = it.delete_recipe(String::from("r1"), String::from(U2));
    assert_eq!(r.err(), Some(DomainError::Recipe(RecipeError::RecipeDoNotbelongToUser)));
    let stored = it.get_recipe(String::from("r1")).unwrap();
    assert_eq!(stored.title, "Pasta");
    assert_eq!(stored.user_id, U1);
}

#[test]
fn update_of_missing_recipe_is_not_found() {
    let mut it = interactor_with_users(&[U1]);
    let r = it.update_recipe(recipe("nope", U1, "x"));
    assert_eq!(r.err(), Some(DomainError::Recipe(RecipeError::RecipeNotFound)));
    let r = it.delete_recipe(String::from("nope"), String::from(U1));
    assert_eq!(r.err(), Some(DomainError::Recipe(RecipeError::RecipeNotFound)));
}

#[test]
fn empty_list_tells_unknown_user_apart() {
    let mut it = interactor_with_users(&[U1, U2]);
    it.add_recipe(recipe("r1", U1, "Pasta")).unwrap();
    assert_eq!(it.get_my_recipes(String::from(U2), None).unwrap().len(), 0);
    let r = it.get_my_recipes(String::from("ghost"), None);
    assert_eq!(r.err(), Some(DomainError::User(UserError::UserNotFound)));
}

#[test]
fn title_filter_is_a_case_insensitive_prefix() {
    let mut it = interactor_with_users(&[U1]);
    it.add_recipe(recipe("r1", U1, "Pasta carbonara")).unwrap();
    it.add_recipe(recipe("r2", U1, "Lasagna")).unwrap();
    let found = it.get_my_recipes(String::from(U1), Some(String::from("pasta"))).unwrap();
    assert_eq!(found.len(), 1);
    assert_eq!(found[0].title, "Pasta carbonara");
    let found = it.get_my_recipes(String::from(U1), Some(String::from("LAS"))).unwrap();
    assert_eq!(found.len(), 1);
    assert_eq!(found[0].title, "Lasagna");
    let found = it.get_my_recipes(String::from(U1), Some(String::from("carbonara"))).unwrap();
    assert!(found.is_empty());
    let found = it.get_my_recipes(String::from(U1), Some(String::new())).unwrap();
    assert_eq!(found.len(), 2);
}

#[test]
fn copy_makes_a_recipe_of_the_caller() {
    let mut it = interactor_with_users(&[U1, U2]);
    it.add_recipe(recipe("r1", U1, "Pasta")).unwrap();
    let copy = it.copy_recipe(String::from(U2), String::from("r1")).unwrap();
    assert_ne!(copy.id, "r1");
    assert_eq!(copy.id.len(), 36);
    assert_eq!(copy.user_id, U2);
    assert_eq!(copy.title, "Pasta");
    assert_eq!(copy.instructions, vec![String::from("first"), String::from("second")]);
    assert_eq!(it.get_my_recipes(String::from(U2), None).unwrap().len(), 1);
    let r = it.copy_recipe(String::from(U2), String::from("nope"));
    assert_eq!(r.err(), Some(DomainError::Recipe(RecipeError::RecipeNotFound)));
}

#[test]
fn import_stores_recipe_of_page() {
    let mut it = interactor_with_users(&[U1]);
    let html = "<html><head><script type=\"application/ld+json\">{\"@type\": \"Recipe\", \"name\": \"Soupe\", \"recipeInstructions\": [\"Chauffer\"], \"recipeIngredient\": [\"Eau\"]}</script></head></html>";
    let r = it.import_from(String::from("https://example.org/soupe"), String::from(U1), html).unwrap();
    assert_eq!(r.imported_from, Some(String::from("https://example.org/soupe")));
    assert_eq!(it.get_my_recipes(String::from(U1), None).unwrap()[0].title, "Soupe");
    let r = it.import_from(String::from("https://example.org"), String::from(U1), "<html></html>");
    assert_eq!(r.err(), Some(DomainError::Recipe(RecipeError::RecipeImportedWebsiteNotSupported)));
}

#[test]
fn duplicate_id_is_refused_by_memory_store() {
    let mut dao = MemoryRecipeDao::new();
    let n = recipe("r1", U1, "Pasta").to_new(String::from("r1"), String::from(U1));
    dao.add_recipe(n).unwrap();
    let again = recipe("r1", U1, "Pasta").to_new(String::from("r1"), String::from(U1));
    assert_eq!(dao.add_recipe(again).err(), Some(RecipeError::Unknown));
}

#[test]
fn step_rows_are_numbered_from_one() {
    let steps = vec![String::from("a"), String::from("b"), String::from("c")];
    let rows = numbered_instructions(&String::from("r1"), &steps);
    let numbers: Vec<i32> = rows.iter().map(|r| r.step_number).collect();
    assert_eq!(numbers, vec![1, 2, 3]);
    assert_eq!(rows[2].instruction, "c");
    assert_eq!(rows[0].recipe_id, "r1");
    let rows = numbered_ingredients(&String::from("r1"), &vec![]);
    assert!(rows.is_empty());
}

#[test]
fn recipe_from_rows_keeps_step_order() {
    let row = RecipeRow {
        id: String::from("r1"),
        user_id: String::from(U1),
        title: String::from("Pasta"),
        cook_time_in_minute: None,
        prep_time_in_minute: Some(3),
        description: None,
        image_url: Some(String::from("https://example.org/p.jpg")),
        recipe_yield: None,
        category: None,
        cuisine: None,
        imported_from: None,
    };
    let instructions = vec![
        Instruction { step_number: 1, recipe_id: String::from("r1"), instruction: String::from("boil") },
        Instruction { step_number: 2, recipe_id: String::from("r1"), instruction: String::from("eat") },
    ];
    let ingredients = vec![Ingredient { step_number: 1, recipe_id: String::from("r1"), ingredient: String::from("pasta") }];
    let r = Recipe::from_rows(&row, &instructions, &ingredients);
    assert_eq!(r.instructions, vec![String::from("boil"), String::from("eat")]);
    assert_eq!(r.ingredients, vec![String::from("pasta")]);
    assert_eq!(r.prep_time_in_minute, Some(3));
    assert_eq!(r.image_url, Some(String::from("https://example.org/p.jpg")));
}

#[test]
fn anonymous_requests_must_be_logged() {
    let mut ctx = context(None);
    let logged: Option<DomainError> = Some(DomainError::User(UserError::MustBeLogged));
    assert_eq!(Query::get_my_recipes(&ctx, None).err(), logged);
    assert_eq!(Mutation::create_recipe(&mut ctx, input("x")).err(), logged);
    assert_eq!(Mutation::update_recipe(&mut ctx, String::from(U1), input("x")).err(), logged);
    assert_eq!(Mutation::delete_recipe(&mut ctx, String::from("r1")).err(), logged);
    assert_eq!(Mutation::copy_recipe(&mut ctx, String::from("r1")).err(), logged);
    assert_eq!(Mutation::import_recipe(&mut ctx, String::from("https://example.org"), "<html></html>").err(), logged);
    assert_eq!(ctx.get_user().err(), Some(UserError::MustBeLogged));
}

#[test]
fn logged_user_creates_updates_and_deletes() {
    let mut ctx = context(Some(U1));
    let created = Mutation::create_recipe(&mut ctx, input("my recipe")).unwrap();
    assert_eq!(created.title, "my recipe");
    assert_eq!(created.user_id, U1);
    let listed = Query::get_my_recipes(&ctx, None).unwrap();
    assert_eq!(listed.len(), 1);
    let upper_id = created.id.to_uppercase();
    let updated = Mutation::update_recipe(&mut ctx, upper_id, input("renamed")).unwrap();
    assert_eq!(updated.id, created.id);
    assert_eq!(Query::get_recipe(&ctx, created.id.clone()).unwrap().title, "renamed");
    let bad = Mutation::update_recipe(&mut ctx, String::from("not-a-uuid"), input("x"));
    assert_eq!(bad.err(), Some(DomainError::Recipe(RecipeError::RecipeNotFound)));
    assert_eq!(Mutation::delete_recipe(&mut ctx, created.id.clone()).unwrap(), created.id);
    assert!(Query::get_my_recipes(&ctx, None).unwrap().is_empty());
}

#[test]
fn other_user_sees_no_recipes() {
    let mut ctx = context(Some(U1));
    Mutation::create_recipe(&mut ctx, input("my recipe")).unwrap();
    ctx.user_id = Some(String::from(U2));
    assert!(Query::get_my_recipes(&ctx, None).unwrap().is_empty());
    ctx.user_id = Some(String::from("3a1e4c5a-1b2c-4d3e-8f90-a1b2c3d4e5f6"));
    assert_eq!(Query::get_my_recipes(&ctx, None).err(), Some(DomainError::User(UserError::UserNotFound)));
}

#[test]
fn photo_upload_url_comes_from_the_store() {
    let it = interactor_with_users(&[]);
    assert_eq!(it.get_photo_upload_url("png").unwrap(), "https://uploads.example.org/photo.png");
}

#[test]
fn api_version() {
    assert_eq!(Query::apiVersion(), "1.0");
}

#[test]
fn title_filter_follows_like_wildcards() {
    let mut it = interactor_with_users(&[U1]);
    it.add_recipe(recipe("r1", U1, "Pasta carbonara")).unwrap();
    it.add_recipe(recipe("r2", U1, "50% whole wheat bread")).unwrap();
    let found = it.get_my_recipes(String::from(U1), Some(String::from("p_sta"))).unwrap();
    assert_eq!(found.len(), 1);
    let found = it.get_my_recipes(String::from(U1), Some(String::from("%CARBO"))).unwrap();
    assert_eq!(found[0].id, "r1");
    let found = it.get_my_recipes(String::from(U1), Some(String::from("50\\%"))).unwrap();
    assert_eq!(found.len(), 1);
    assert_eq!(found[0].id, "r2");
    let found = it.get_my_recipes(String::from(U1), Some(String::from("5\\_"))).unwrap();
    assert!(found.is_empty());
}

#[test]
fn store_update_keeps_the_stored_owner() {
    let mut dao = MemoryRecipeDao::new();
    dao.add_recipe(recipe("r1", U1, "Pasta").to_new(String::from("r1"), String::from(U1))).unwrap();
    let updated = dao.update_recipe(recipe("r1", U2, "Renamed")).unwrap();
    assert_eq!(updated.user_id, U1);
    assert_eq!(updated.title, "Renamed");
    let stored = dao.get_recipe("r1").unwrap();
    assert_eq!(stored.user_id, U1);
    assert_eq!(stored.title, "Renamed");
}

#[test]
fn update_by_created_id_returns_that_id() {
    let mut ctx = context(Some(U1));
    let created = Mutation::create_recipe(&mut ctx, input("my recipe")).unwrap();
    let mut changed = input("my recipe2");
    changed.description = Some(String::from("my desc"));
    changed.instructions = vec![String::from("ins3"), String::from("ins4")];
    let updated = Mutation::update_recipe(&mut ctx, created.id.clone(), changed).unwrap();
    assert_eq!(updated.id, created.id);
    assert_eq!(updated.title, "my recipe2");
    assert_eq!(updated.description, Some(String::from("my desc")));
    assert_eq!(updated.instructions, vec![String::from("ins3"), String::from("ins4")]);
    assert_eq!(updated.ingredients, vec![String::from("eggs")]);
}
