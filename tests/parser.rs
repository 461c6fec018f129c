use recipes_backend::errors::RecipeError;
use recipes_backend::json::{parse_json, JsonValue};
use recipes_backend::parser::{accept_page, SelectParser};

fn page(scripts: &[&str]) -> String {
    let mut html = String::from("<html><head><title>Recette</title>");
    for s in scripts {
        html.push_str("<script type=\"application/ld+json\">");
        html.push_str(s);
        html.push_str("</script>");
    }
    html.push_str("</head><body><p>Bonjour</p></body></html>");
    html
}

const MARMITON_LIKE: &str = r#"{
  "@context": "http://schema.org",
  "@type": "Recipe",
  "name": "Pâte brisée vite faite",
  "recipeCategory": "pâte à tarte salée",
  "image": {"@type": "ImageObject", "url": "https://assets.afcdn.com/recipe/20160331/12788_w1024h768c1cx983cy1500.jpg"},
  "recipeYield": "1 pâte",
  "prepTime": "PT15M",
  "cookTime": "PT30M",
  "description": "farine, beurre, sel, sucre, eau",
  "recipeIngredient": ["300 g de farine", "150 g de beurre en dés et en pommade", "1/2 cuillère à café de sel", "3 cuillères à soupe de sucre (si pâte sucrée)", "8 cl d'eau ou de lait tiède"],
  "recipeInstructions": [
    {"@type": "HowToStep", "text": "Mélanger la farine et le sel dans un plat (et le sucre si sucre il y a)."},
    {"@type": "HowToStep", "text": "Ajouter le beurre puis l'incorporer à la farine."},
    {"@type": "HowToStep", "text": "Incorporer rapidement le lait ou l'eau."},
    {"@type": "HowToStep", "text": "Étaler la pâte sur du papier cuisson."}
  ]
}"#;

#[test]
fn parses_marmiton_style_page() {
    let parser = SelectParser::new();
    let url = "https://www.marmiton.org/recettes/recette_pate-brisee-vite-faite_31639.aspx";
    let html = page(&[r#"{"@type": "WebSite", "name": "Marmiton"}"#, MARMITON_LIKE]);
    let recipe = parser
        .parse_from_json_ld(url, &html, String::from("some_user_id"))
        .expect("Can parse recipe");
    assert_eq!(recipe.user_id, "some_user_id");
    assert_eq!(recipe.imported_from, Some(String::from(url)));
    assert_eq!(recipe.title, "Pâte brisée vite faite");
    assert_eq!(recipe.prep_time_in_minute, Some(15));
    assert_eq!(recipe.cook_time_in_minute, Some(30));
    assert_eq!(recipe.instructions.len(), 4);
    assert_eq!(
        recipe.instructions[0],
        "Mélanger la farine et le sel dans un plat (et le sucre si sucre il y a)."
    );
    assert_eq!(
        recipe.ingredients,
        vec![
            String::from("300 g de farine"),
            String::from("150 g de beurre en dés et en pommade"),
            String::from("1/2 cuillère à café de sel"),
            String::from("3 cuillères à soupe de sucre (si pâte sucrée)"),
            String::from("8 cl d'eau ou de lait tiède"),
        ]
    );
    assert_eq!(recipe.category, Some(String::from("pâte à tarte salée")));
    assert_eq!(recipe.description, Some(String::from("farine, beurre, sel, sucre, eau")));
    assert_eq!(
        recipe.image_url,
        Some(String::from("https://assets.afcdn.com/recipe/20160331/12788_w1024h768c1cx983cy1500.jpg"))
    );
    assert_eq!(recipe.cuisine, None);
    assert_eq!(recipe.recipe_yield, Some(String::from("1 pâte")));
    assert_eq!(recipe.id.len(), 36);
}

#[test]
fn parses_recipe_inside_array_with_plain_instructions() {
    let parser = SelectParser::new();
    let json = r#"[{"@type": "Recipe", "name": "Brilliant banana loaf", "recipeYield": "Cuts into 8-10 slices",
        "recipeInstructions": ["Heat oven to 180C/160C fan/gas 4.", "Butter a 2lb loaf tin and line the base and sides with baking parchment."],
        "recipeIngredient": ["140g butter"], "image": ["https://example.org/a.jpg", "https://example.org/b.jpg"]}]"#;
    let recipe = parser
        .parse_from_json_ld("https://www.bbcgoodfood.com/recipes/brilliant-banana-loaf", &page(&[json]), String::from("u"))
        .expect("Can parse recipe");
    assert_eq!(recipe.title, "Brilliant banana loaf");
    assert_eq!(recipe.recipe_yield, Some(String::from("Cuts into 8-10 slices")));
    assert_eq!(recipe.instructions[0], "Heat oven to 180C/160C fan/gas 4.");
    assert_eq!(
        recipe.instructions[1],
        "Butter a 2lb loaf tin and line the base and sides with baking parchment."
    );
    assert_eq!(recipe.image_url, Some(String::from("https://example.org/a.jpg")));
    assert_eq!(recipe.prep_time_in_minute, None);
}

#[test]
fn page_without_recipe_is_not_supported() {
    let parser = SelectParser::new();
    let r = parser.parse_from_json_ld("https://example.org", &page(&[r#"{"@type": "WebSite"}"#]), String::from("u"));
    assert_eq!(r.err(), Some(RecipeError::RecipeImportedWebsiteNotSupported));
    let r = parser.parse_from_json_ld("https://example.org", "<html><body>nothing</body></html>", String::from("u"));
    assert_eq!(r.err(), Some(RecipeError::RecipeImportedWebsiteNotSupported));
}

#[test]
fn invalid_json_block_is_skipped() {
    let parser = SelectParser::new();
    let html = page(&["{ not json", r#"{"@type": "Recipe", "name": "Soupe", "recipeInstructions": ["Chauffer"], "recipeIngredient": ["Eau"]}"#]);
    let recipe = parser.parse_from_json_ld("https://example.org", &html, String::from("u")).expect("Can parse recipe");
    assert_eq!(recipe.title, "Soupe");
}

#[test]
fn recipe_without_name_or_ingredients_is_not_supported() {
    let parser = SelectParser::new();
    let no_name = r#"{"@type": "Recipe", "recipeInstructions": ["a"], "recipeIngredient": ["b"]}"#;
    let r = parser.parse_from_json_ld("https://example.org", &page(&[no_name]), String::from("u"));
    assert_eq!(r.err(), Some(RecipeError::RecipeImportedWebsiteNotSupported));
    let no_ingredients = r#"{"@type": "Recipe", "name": "x", "recipeInstructions": ["a"]}"#;
    let r = parser.parse_from_json_ld("https://example.org", &page(&[no_ingredients]), String::from("u"));
    assert_eq!(r.err(), Some(RecipeError::RecipeImportedWebsiteNotSupported));
}

#[test]
fn recipe_from_documents_uses_given_id() {
    let parser = SelectParser::new();
    let blocks = vec![None, parse_json(r#"{"@type": "Recipe", "name": "Tarte", "recipeInstructions": [{"text": " Cuire\n au four "}], "recipeIngredient": [3]}"#)];
    let recipe = parser
        .recipe_from_json_ld("https://example.org/tarte", String::from("owner"), String::from("the-id"), &blocks)
        .expect("Can parse recipe");
    assert_eq!(recipe.id, "the-id");
    assert_eq!(recipe.user_id, "owner");
    assert_eq!(recipe.instructions, vec![String::from("Cuire  au four")]);
    assert_eq!(recipe.ingredients, vec![String::from("3")]);
    assert_eq!(recipe.imported_from, Some(String::from("https://example.org/tarte")));
}

fn text(s: &str) -> JsonValue {
    JsonValue::String(String::from(s))
}

#[test]
fn duration_in_minutes() {
    let parser = SelectParser::new();
    assert_eq!(parser.get_duration_in_minute(Some(&text("PT15M"))), Some(15));
    assert_eq!(parser.get_duration_in_minute(Some(&text("PT1H30M"))), Some(90));
    assert_eq!(parser.get_duration_in_minute(Some(&text("quinze minutes"))), None);
    assert_eq!(parser.get_duration_in_minute(Some(&JsonValue::Null)), None);
    assert_eq!(parser.get_duration_in_minute(None), None);
}

#[test]
fn string_field_gives_visible_text() {
    let parser = SelectParser::new();
    assert_eq!(parser.get_string_field(Some(&text("<b>Hello</b> world"))), Some(String::from("Hello world")));
    assert_eq!(parser.get_string_field(Some(&text("  line one\nline two  "))), Some(String::from("line one line two")));
    assert_eq!(parser.get_string_field(Some(&text("   "))), None);
    assert_eq!(parser.get_string_field(Some(&text(""))), None);
    assert_eq!(parser.get_string_field(Some(&JsonValue::Bool(true))), None);
    assert_eq!(parser.get_string_field(None), None);
}

#[test]
fn string_field_writes_numbers_in_decimal() {
    let parser = SelectParser::new();
    let six = parse_json("6").unwrap();
    assert_eq!(parser.get_string_field(Some(&six)), Some(String::from("6")));
    let half = parse_json("1.5").unwrap();
    assert_eq!(parser.get_string_field(Some(&half)), Some(String::from("1.5")));
    let negative = parse_json("-42").unwrap();
    assert_eq!(parser.get_string_field(Some(&negative)), Some(String::from("-42")));
}

#[test]
fn image_forms() {
    let parser = SelectParser::new();
    let object = parse_json(r#"{"url": "https://example.org/i.jpg", "width": 10}"#).unwrap();
    assert_eq!(parser.get_image(&object), Some(String::from("https://example.org/i.jpg")));
    assert_eq!(parser.get_image(&text("  https://example.org/s.jpg ")), Some(String::from("https://example.org/s.jpg")));
    let nested = parse_json(r#"[[{"url": "https://example.org/n.jpg"}]]"#).unwrap();
    assert_eq!(parser.get_image(&nested), Some(String::from("https://example.org/n.jpg")));
    let empty = parse_json("[]").unwrap();
    assert_eq!(parser.get_image(&empty), None);
    let without_url = parse_json(r#"{"width": 10}"#).unwrap();
    assert_eq!(parser.get_image(&without_url), None);
}

#[test]
fn parse_json_rejects_invalid_text() {
    assert!(parse_json("{").is_none());
    assert!(matches!(parse_json("null"), Some(JsonValue::Null)));
}

#[test]
fn only_a_successful_fetch_is_imported() {
    assert_eq!(accept_page(200, Some(String::from("<html></html>"))), Ok(String::from("<html></html>")));
    assert_eq!(accept_page(404, Some(String::from("missing"))), Err(RecipeError::RecipeNotImported));
    assert_eq!(accept_page(200, None), Err(RecipeError::RecipeNotImported));
}

#[test]
fn nested_json_members_are_read() {
    let v = parse_json(r#"{"a": [1, "x\"y <b>z</b>", {"b": 2.5, "c": null}], "d": true}"#).unwrap();
    let members = match v {
        JsonValue::Object(m) => m,
        _ => panic!("not an object"),
    };
    assert_eq!(members.len(), 2);
    let a = members.iter().find(|(k, _)| k == "a").unwrap();
    match &a.1 {
        JsonValue::Array(items) => {
            assert_eq!(items.len(), 3);
            assert!(matches!(&items[1], JsonValue::String(s) if s == "x\"y <b>z</b>"));
            match &items[2] {
                JsonValue::Object(inner) => {
                    assert_eq!(inner.len(), 2);
                    assert!(matches!(&inner[0].1, JsonValue::Number(n) if n.is_float && n.float_decimal == Some(String::from("2.5"))));
                    assert!(matches!(&inner[1].1, JsonValue::Null));
                }
                _ => panic!("not an object"),
            }
        }
        _ => panic!("not an array"),
    }
    let parser = SelectParser::new();
    let items = match &a.1 {
        JsonValue::Array(items) => items,
        _ => unreachable!(),
    };
    assert_eq!(parser.get_string_field(Some(&items[1])), Some(String::from("x\"y z")));
}
