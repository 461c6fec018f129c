use vstd::prelude::*;

verus! {

/// A recipe with its ordered instructions and ingredients.
#[derive(Debug)]
pub struct Recipe {
    pub id: String,
    pub user_id: String,
    pub title: String,
    pub description: Option<String>,
    pub cook_time_in_minute: Option<i32>,
    pub prep_time_in_minute: Option<i32>,
    pub image_url: Option<String>,
    pub recipe_yield: Option<String>,
    pub category: Option<String>,
    pub cuisine: Option<String>,
    pub instructions: Vec<String>,
    pub ingredients: Vec<String>,
    pub imported_from: Option<String>,
}

/// A recipe handed to a store to be inserted.
#[derive(Debug)]
pub struct NewRecipe {
    pub id: String,
    pub user_id: String,
    pub title: String,
    pub description: Option<String>,
    pub cook_time_in_minute: Option<i32>,
    pub prep_time_in_minute: Option<i32>,
    pub image_url: Option<String>,
    pub recipe_yield: Option<String>,
    pub category: Option<String>,
    pub cuisine: Option<String>,
    pub instructions: Vec<String>,
    pub ingredients: Vec<String>,
    pub imported_from: Option<String>,
}

/// The contents of a recipe.
pub ghost struct RecipeView {
    pub id: Seq<char>,
    pub user_id: Seq<char>,
    pub title: Seq<char>,
    pub description: Option<Seq<char>>,
    pub cook_time_in_minute: Option<i32>,
    pub prep_time_in_minute: Option<i32>,
    pub image_url: Option<Seq<char>>,
    pub recipe_yield: Option<Seq<char>>,
    pub category: Option<Seq<char>>,
    pub cuisine: Option<Seq<char>>,
    pub instructions: Seq<Seq<char>>,
    pub ingredients: Seq<Seq<char>>,
    pub imported_from: Option<Seq<char>>,
}

/// The characters of an optional text.
pub open spec fn opt_view(o: Option<String>) -> Option<Seq<char>> {
    match o {
        Some(s) => Some(s@),
        None => None,
    }
}

/// The characters of each text of a list.
pub open spec fn strings_view(v: Seq<String>) -> Seq<Seq<char>> {
    v.map_values(|s: String| s@)
}

impl View for Recipe {
    type V = RecipeView;

    open spec fn view(&self) -> RecipeView {
        RecipeView {
            id: self.id@,
            user_id: self.user_id@,
            title: self.title@,
            description: opt_view(self.description),
            cook_time_in_minute: self.cook_time_in_minute,
            prep_time_in_minute: self.prep_time_in_minute,
            image_url: opt_view(self.image_url),
            recipe_yield: opt_view(self.recipe_yield),
            category: opt_view(self.category),
            cuisine: opt_view(self.cuisine),
            instructions: strings_view(self.instructions@),
            ingredients: strings_view(self.ingredients@),
            imported_from: opt_view(self.imported_from),
        }
    }
}

impl View for NewRecipe {
    type V = RecipeView;

    open spec fn view(&self) -> RecipeView {
        RecipeView {
            id: self.id@,
            user_id: self.user_id@,
            title: self.title@,
            description: opt_view(self.description),
            cook_time_in_minute: self.cook_time_in_minute,
            prep_time_in_minute: self.prep_time_in_minute,
            image_url: opt_view(self.image_url),
            recipe_yield: opt_view(self.recipe_yield),
            category: opt_view(self.category),
            cuisine: opt_view(self.cuisine),
            instructions: strings_view(self.instructions@),
            ingredients: strings_view(self.ingredients@),
            imported_from: opt_view(self.imported_from),
        }
    }
}

/// A copy of an optional text.
pub fn copy_opt(o: &Option<String>) -> (r: Option<String>)
    ensures
        opt_view(r) == opt_view(*o),
{
    match o {
        Some(s) => Some(s.clone()),
        None => None,
    }
}

/// A copy of a list of texts.
pub fn copy_strings(v: &Vec<String>) -> (r: Vec<String>)
    ensures
        strings_view(r@) == strings_view(v@),
{
    let mut r: Vec<String> = Vec::new();
    let mut i: usize = 0;
    while i < v.len()
        invariant
            i <= v@.len(),
            r@.len() == i,
            forall|j: int| 0 <= j < i ==> (#[trigger] r@[j])@ == v@[j]@,
        decreases v@.len() - i,
    {
        r.push(v[i].clone());
        i = i + 1;
    }
    r
}

impl Recipe {
    /// A copy of the recipe.
    pub fn duplicate(&self) -> (r: Recipe)
        ensures
            r@ == self@,
    {
        Recipe {
            id: self.id.clone(),
            user_id: self.user_id.clone(),
            title: self.title.clone(),
            description: copy_opt(&self.description),
            cook_time_in_minute: self.cook_time_in_minute,
            prep_time_in_minute: self.prep_time_in_minute,
            image_url: copy_opt(&self.image_url),
            recipe_yield: copy_opt(&self.recipe_yield),
            category: copy_opt(&self.category),
            cuisine: copy_opt(&self.cuisine),
            instructions: copy_strings(&self.instructions),
            ingredients: copy_strings(&self.ingredients),
            imported_from: copy_opt(&self.imported_from),
        }
    }

    /// The recipe that a store keeps for an inserted one.
    pub fn from_new(n: NewRecipe) -> (r: Recipe)
        ensures
            r@ == n@,
    {
        Recipe {
            id: n.id,
            user_id: n.user_id,
            title: n.title,
            description: n.description,
            cook_time_in_minute: n.cook_time_in_minute,
            prep_time_in_minute: n.prep_time_in_minute,
            image_url: n.image_url,
            recipe_yield: n.recipe_yield,
            category: n.category,
            cuisine: n.cuisine,
            instructions: n.instructions,
            ingredients: n.ingredients,
            imported_from: n.imported_from,
        }
    }

    /// The recipe as a new one to insert, under the id `id` and owned by `user_id`.
    pub fn to_new(&self, id: String, user_id: String) -> (r: NewRecipe)
        ensures
            r@ == (RecipeView { id: id@, user_id: user_id@, ..self@ }),
    {
        NewRecipe {
            id,
            user_id,
            title: self.title.clone(),
            description: copy_opt(&self.description),
            cook_time_in_minute: self.cook_time_in_minute,
            prep_time_in_minute: self.prep_time_in_minute,
            image_url: copy_opt(&self.image_url),
            recipe_yield: copy_opt(&self.recipe_yield),
            category: copy_opt(&self.category),
            cuisine: copy_opt(&self.cuisine),
            instructions: copy_strings(&self.instructions),
            ingredients: copy_strings(&self.ingredients),
            imported_from: copy_opt(&self.imported_from),
        }
    }
}

/// A row of the recipes table.
#[derive(Debug)]
pub struct RecipeRow {
    pub id: String,
    pub user_id: String,
    pub title: String,
    pub cook_time_in_minute: Option<i32>,
    pub prep_time_in_minute: Option<i32>,
    pub description: Option<String>,
    pub image_url: Option<String>,
    pub recipe_yield: Option<String>,
    pub category: Option<String>,
    pub cuisine: Option<String>,
    pub imported_from: Option<String>,
}

/// A row of the ingredients table.
#[derive(Debug)]
pub struct Ingredient {
    pub step_number: i32,
    pub recipe_id: String,
    pub ingredient: String,
}

/// An ingredient row to insert.
#[derive(Debug)]
pub struct NewIngredient {
    pub step_number: i32,
    pub recipe_id: String,
    pub ingredient: String,
}

/// A row of the instructions table.
#[derive(Debug)]
pub struct Instruction {
    pub step_number: i32,
    pub recipe_id: String,
    pub instruction: String,
}

/// An instruction row to insert.
#[derive(Debug)]
pub struct NewInstruction {
    pub step_number: i32,
    pub recipe_id: String,
    pub instruction: String,
}

/// The instruction rows of a recipe: one per step, numbered from 1 in order.
pub fn numbered_instructions(recipe_id: &String, steps: &Vec<String>) -> (r: Vec<NewInstruction>)
    requires
        steps@.len() < i32::MAX,
    ensures
        r@.len() == steps@.len(),
        forall|i: int|
            0 <= i < r@.len() ==> {
                &&& (#[trigger] r@[i]).step_number == i + 1
                &&& r@[i].recipe_id@ == recipe_id@
                &&& r@[i].instruction@ == steps@[i]@
            },
{
    let mut r: Vec<NewInstruction> = Vec::new();
    let mut i: usize = 0;
    while i < steps.len()
        invariant
            steps@.len() < i32::MAX,
            i <= steps@.len(),
            r@.len() == i,
            forall|j: int|
                0 <= j < i ==> {
                    &&& (#[trigger] r@[j]).step_number == j + 1
                    &&& r@[j].recipe_id@ == recipe_id@
                    &&& r@[j].instruction@ == steps@[j]@
                },
        decreases steps@.len() - i,
    {
        r.push(NewInstruction {
            step_number: (i + 1) as i32,
            recipe_id: recipe_id.clone(),
            instruction: steps[i].clone(),
        });
        i = i + 1;
    }
    r
}

/// The ingredient rows of a recipe: one per ingredient, numbered from 1 in order.
pub fn numbered_ingredients(recipe_id: &String, items: &Vec<String>) -> (r: Vec<NewIngredient>)
    requires
        items@.len() < i32::MAX,
    ensures
        r@.len() == items@.len(),
        forall|i: int|
            0 <= i < r@.len() ==> {
                &&& (#[trigger] r@[i]).step_number == i + 1
                &&& r@[i].recipe_id@ == recipe_id@
                &&& r@[i].ingredient@ == items@[i]@
            },
{
    let mut r: Vec<NewIngredient> = Vec::new();
    let mut i: usize = 0;
    while i < items.len()
        invariant
            items@.len() < i32::MAX,
            i <= items@.len(),
            r@.len() == i,
            forall|j: int|
                0 <= j < i ==> {
                    &&& (#[trigger] r@[j]).step_number == j + 1
                    &&& r@[j].recipe_id@ == recipe_id@
                    &&& r@[j].ingredient@ == items@[j]@
                },
        decreases items@.len() - i,
    {
        r.push(NewIngredient {
            step_number: (i + 1) as i32,
            recipe_id: recipe_id.clone(),
            ingredient: items[i].clone(),
        });
        i = i + 1;
    }
    r
}

impl Recipe {
    /// The recipe stored in a recipe row and its instruction and ingredient
    /// rows, each list given in step order.
    pub fn from_rows(row: &RecipeRow, instructions: &Vec<Instruction>, ingredients: &Vec<Ingredient>) -> (r: Recipe)
        ensures
            r@ == (RecipeView {
                id: row.id@,
                user_id: row.user_id@,
                title: row.title@,
                description: opt_view(row.description),
                cook_time_in_minute: row.cook_time_in_minute,
                prep_time_in_minute: row.prep_time_in_minute,
                image_url: opt_view(row.image_url),
                recipe_yield: opt_view(row.recipe_yield),
                category: opt_view(row.category),
                cuisine: opt_view(row.cuisine),
                instructions: instructions@.map_values(|i: Instruction| i.instruction@),
                ingredients: ingredients@.map_values(|i: Ingredient| i.ingredient@),
                imported_from: opt_view(row.imported_from),
            }),
    {
        let mut steps: Vec<String> = Vec::new();
        let mut i: usize = 0;
        while i < instructions.len()
            invariant
                i <= instructions@.len(),
                steps@.len() == i,
                forall|k: int| 0 <= k < i ==> (#[trigger] steps@[k])@ == instructions@[k].instruction@,
            decreases instructions@.len() - i,
        {
            steps.push(instructions[i].instruction.clone());
            i = i + 1;
        }
        let mut items: Vec<String> = Vec::new();
        let mut j: usize = 0;
        while j < ingredients.len()
            invariant
                j <= ingredients@.len(),
                items@.len() == j,
                forall|k: int| 0 <= k < j ==> (#[trigger] items@[k])@ == ingredients@[k].ingredient@,
            decreases ingredients@.len() - j,
        {
            items.push(ingredients[j].ingredient.clone());
            j = j + 1;
        }
        assert(strings_view(steps@) =~= instructions@.map_values(|x: Instruction| x.instruction@));
        assert(strings_view(items@) =~= ingredients@.map_values(|x: Ingredient| x.ingredient@));
        Recipe {
            id: row.id.clone(),
            user_id: row.user_id.clone(),
            title: row.title.clone(),
            description: copy_opt(&row.description),
            cook_time_in_minute: row.cook_time_in_minute,
            prep_time_in_minute: row.prep_time_in_minute,
            image_url: copy_opt(&row.image_url),
            recipe_yield: copy_opt(&row.recipe_yield),
            category: copy_opt(&row.category),
            cuisine: copy_opt(&row.cuisine),
            instructions: steps,
            ingredients: items,
            imported_from: copy_opt(&row.imported_from),
        }
    }
}

} // verus!
