use vstd::prelude::*;
use vstd::string::*;
use crate::errors::RecipeError;
use crate::html::{HtmlData, HtmlNode, html_nodes, document_text, parse_html, element_texts, selected_texts};
use crate::ids::{new_id, is_hyphenated_uuid};
use crate::json::{JsonValue, JsonView, field, first_item, is_string, get_field, get_first, string_equals, parse_json, json_of, opt_json, json_view};
use crate::recipe::{Recipe, RecipeView, opt_view, strings_view};
use crate::text::{chars_of, string_of, trimmed, joined_lines, trim_chars, join_lines};

verus! {

/// The hour and minute fields of the ISO 8601 duration that
/// iso8601_duration::Duration::parse reads in a text.
pub uninterp spec fn duration_parts(s: Seq<char>) -> Option<(i32, i32)>;

/// Relies on iso8601_duration::Duration::parse: the hours and minutes of the
/// duration, each truncated to a whole number; fails where the text is not a duration.
#[verifier::external_body]
fn parse_duration(s: &str) -> (r: Option<(i32, i32)>)
    ensures
        r == duration_parts(s@),
{
    iso8601_duration::Duration::parse(s).ok().map(|d| (d.hour as i32, d.minute as i32))
}

/// The minutes that a JSON value gives as a duration: hours times sixty plus
/// minutes; nothing where it is not a duration text or the count does not fit
/// in 32 bits.
pub open spec fn duration_minutes(v: Option<JsonView>) -> Option<i32> {
    match v {
        Some(JsonView::String(s)) => match duration_parts(s) {
            Some((h, m)) => if i32::MIN <= h * 60 + m <= i32::MAX {
                Some((h * 60 + m) as i32)
            } else {
                None
            },
            None => None,
        },
        _ => None,
    }
}

/// The text, where there is one and it is not empty.
pub open spec fn non_empty(t: Option<Seq<char>>) -> Option<Seq<char>> {
    match t {
        Some(x) => if x.len() == 0 {
            None
        } else {
            Some(x)
        },
        None => None,
    }
}

/// The text that a JSON value gives: a number written in decimal, or the
/// visible text of a string read as HTML, trimmed, with line breaks made
/// spaces; nothing where that text is empty, or for another kind of value.
pub open spec fn string_field(v: Option<JsonView>) -> Option<Seq<char>> {
    match v {
        Some(JsonView::Number(n)) => non_empty(
            if n.is_float {
                n.float_decimal
            } else {
                Some(n.decimal)
            },
        ),
        Some(JsonView::String(s)) => {
            let t = joined_lines(trimmed(document_text(html_nodes(s))));
            if t.len() == 0 {
                None
            } else {
                Some(t)
            }
        },
        _ => None,
    }
}

/// The image location that a JSON value gives: the text of the `url` member
/// of an object, a string trimmed, or the image of the first element of an array.
pub open spec fn image_of(v: JsonView) -> Option<Seq<char>>
    decreases v,
{
    match v {
        JsonView::Object(m) => string_field(field(v, "url"@)),
        JsonView::String(s) => Some(trimmed(s)),
        JsonView::Array(a) => if a.len() > 0 {
            image_of(a[0])
        } else {
            None
        },
        _ => None,
    }
}

/// The image location that an optional member gives.
pub open spec fn image_field(v: Option<JsonView>) -> Option<Seq<char>> {
    match v {
        Some(x) => image_of(x),
        None => None,
    }
}

/// The text of one instruction: the `text` member of an object, else the value itself.
pub open spec fn step_text(v: JsonView) -> Option<Seq<char>> {
    match v {
        JsonView::Object(_) => string_field(field(v, "text"@)),
        _ => string_field(Some(v)),
    }
}

/// The text of an element of the instructions (`instructions`) or of the ingredients.
pub open spec fn item_text(x: JsonView, instructions: bool) -> Option<Seq<char>> {
    if instructions {
        step_text(x)
    } else {
        string_field(Some(x))
    }
}

/// The texts of the elements of an array member, where every element gives one.
pub open spec fn texts_of(v: Option<JsonView>, instructions: bool) -> Option<Seq<Seq<char>>> {
    match v {
        Some(JsonView::Array(a)) => {
            let t = a.map_values(|x: JsonView| item_text(x, instructions));
            if forall|i: int| 0 <= i < t.len() ==> (#[trigger] t[i]) is Some {
                Some(t.map_values(|o: Option<Seq<char>>| o->0))
            } else {
                None
            }
        },
        _ => None,
    }
}

/// Whether a JSON document describes a recipe: an object of type `Recipe`,
/// or an array whose first element is one.
pub open spec fn is_candidate(v: JsonView) -> bool {
    ||| is_string(field(v, "@type"@), "Recipe"@)
    ||| match first_item(v) {
        Some(f) => is_string(field(f, "@type"@), "Recipe"@),
        None => false,
    }
}

/// The first document that describes a recipe.
pub open spec fn first_candidate(blocks: Seq<Option<JsonView>>) -> Option<JsonView>
    decreases blocks.len(),
{
    if blocks.len() == 0 {
        None
    } else {
        match blocks[0] {
            Some(v) => if is_candidate(v) {
                Some(v)
            } else {
                first_candidate(blocks.drop_first())
            },
            None => first_candidate(blocks.drop_first()),
        }
    }
}

/// The recipe object of a candidate: its first element where it is an array.
pub open spec fn recipe_object(v: JsonView) -> JsonView {
    match v {
        JsonView::Array(a) => a[0],
        _ => v,
    }
}

/// The recipe that a recipe object describes, under the id `id`, owned by
/// `user_id` and imported from `url`; nothing where its name, instructions or
/// ingredients are missing.
pub open spec fn extracted(url: Seq<char>, user_id: Seq<char>, id: Seq<char>, r: JsonView) -> Option<RecipeView> {
    match (string_field(field(r, "name"@)), texts_of(field(r, "recipeInstructions"@), true), texts_of(field(r, "recipeIngredient"@), false)) {
        (Some(title), Some(instructions), Some(ingredients)) => Some(RecipeView {
            id,
            user_id,
            title,
            description: string_field(field(r, "description"@)),
            cook_time_in_minute: duration_minutes(field(r, "cookTime"@)),
            prep_time_in_minute: duration_minutes(field(r, "prepTime"@)),
            image_url: image_field(field(r, "image"@)),
            recipe_yield: string_field(field(r, "recipeYield"@)),
            category: string_field(field(r, "recipeCategory"@)),
            cuisine: string_field(field(r, "recipeCuisine"@)),
            instructions,
            ingredients,
            imported_from: Some(url),
        }),
        _ => None,
    }
}

/// What the import makes of the JSON-LD documents of a page.
pub open spec fn recipe_of_documents(
    url: Seq<char>,
    user_id: Seq<char>,
    id: Seq<char>,
    blocks: Seq<Option<JsonView>>,
) -> Result<RecipeView, RecipeError> {
    match first_candidate(blocks) {
        Some(c) => match extracted(url, user_id, id, recipe_object(c)) {
            Some(r) => Ok(r),
            None => Err(RecipeError::RecipeImportedWebsiteNotSupported),
        },
        None => Err(RecipeError::RecipeImportedWebsiteNotSupported),
    }
}

/// The text of every JSON-LD script of a page, in document order.
pub open spec fn json_ld_scripts(html: Seq<char>) -> Seq<Seq<char>> {
    selected_texts(html, "script"@, "type"@, "application/ld+json"@)
}

/// The JSON-LD documents of a page: the text of every JSON-LD script, read
/// as JSON; nothing for a script that is not valid JSON.
pub open spec fn page_documents(html: Seq<char>) -> Seq<Option<JsonView>> {
    json_ld_scripts(html).map_values(|t: Seq<char>| json_of(t))
}

/// The contents of a list of optional documents.
pub open spec fn documents_view(blocks: Seq<Option<JsonValue>>) -> Seq<Option<JsonView>> {
    blocks.map_values(|b: Option<JsonValue>| opt_json(b))
}

/// The page that a fetch gives to the import: the body of a response of
/// status 200; any other status, or a body that could not be read, means the
/// recipe is not imported.
pub fn accept_page(status: u16, body: Option<String>) -> (r: Result<String, RecipeError>)
    ensures
        match r {
            Ok(page) => status == 200 && body == Some(page),
            Err(e) => e == RecipeError::RecipeNotImported && (status != 200 || body is None),
        },
{
    if status != 200 {
        return Err(RecipeError::RecipeNotImported);
    }
    match body {
        Some(page) => Ok(page),
        None => Err(RecipeError::RecipeNotImported),
    }
}

/// Reads recipes out of the schema.org JSON-LD data that web pages embed.
pub struct SelectParser {}

impl SelectParser {
    /// A parser; it holds no state.
    pub fn new() -> (r: SelectParser) {
        SelectParser {}
    }

    /// The minutes of an ISO 8601 duration text.
    pub fn get_duration_in_minute(&self, value: Option<&JsonValue>) -> (r: Option<i32>)
        ensures
            r == duration_minutes(opt_value(value)),
    {
        match value {
            Some(JsonValue::String(s)) => match parse_duration(s.as_str()) {
                Some((h, m)) => {
                    let total: i64 = h as i64 * 60 + m as i64;
                    if i32::MIN as i64 <= total && total <= i32::MAX as i64 {
                        Some(total as i32)
                    } else {
                        None
                    }
                },
                None => None,
            },
            _ => None,
        }
    }

    /// The text of a text node.
    pub fn extract_text_from_html<'a>(&self, data: &'a HtmlData) -> (r: Option<&'a String>)
        ensures
            match r {
                Some(t) => *data == HtmlData::Text(*t),
                None => !(data is Text),
            },
    {
        match data {
            HtmlData::Text(s) => Some(s),
            _ => None,
        }
    }

    /// The text of every text node of a parsed document, in document order.
    fn visible_text(&self, nodes: &Vec<HtmlNode>) -> (r: Vec<char>)
        ensures
            r@ == document_text(nodes@),
    {
        let mut r: Vec<char> = Vec::new();
        let mut k: usize = 0;
        while k < nodes.len()
            invariant
                k <= nodes@.len(),
                r@ == document_text(nodes@.take(k as int)),
            decreases nodes@.len() - k,
        {
            match self.extract_text_from_html(&nodes[k].data) {
                Some(t) => {
                    let mut cs = chars_of(t.as_str());
                    r.append(&mut cs);
                },
                None => {},
            }
            assert(nodes@.take(k + 1).drop_last() =~= nodes@.take(k as int));
            k = k + 1;
        }
        assert(nodes@.take(k as int) =~= nodes@);
        r
    }

    /// The text that a JSON value gives (see `string_field`).
    pub fn get_string_field(&self, value: Option<&JsonValue>) -> (r: Option<String>)
        ensures
            opt_view(r) == string_field(opt_value(value)),
    {
        match value {
            Some(JsonValue::Number(n)) => {
                let text = if n.is_float {
                    match &n.float_decimal {
                        Some(t) => t.clone(),
                        None => {
                            return None;
                        },
                    }
                } else {
                    n.decimal.clone()
                };
                if chars_of(text.as_str()).len() == 0 {
                    None
                } else {
                    Some(text)
                }
            },
            Some(JsonValue::String(s)) => {
                let nodes = parse_html(s.as_str());
                let text = self.visible_text(&nodes);
                let t = join_lines(&trim_chars(&text));
                if t.len() == 0 {
                    None
                } else {
                    Some(string_of(&t))
                }
            },
            _ => None,
        }
    }

    /// The image location that a JSON value gives (see `image_of`).
    pub fn get_image(&self, value: &JsonValue) -> (r: Option<String>)
        ensures
            opt_view(r) == image_of(value@),
        decreases value,
    {
        match value {
            JsonValue::Object(_) => {
                let url = String::from_str("url");
                self.get_string_field(get_field(value, &url))
            },
            JsonValue::String(s) => {
                let cs = chars_of(s.as_str());
                Some(string_of(&trim_chars(&cs)))
            },
            JsonValue::Array(a) => if a.len() > 0 {
                self.get_image(&a[0])
            } else {
                None
            },
            _ => None,
        }
    }
}

impl SelectParser {
    /// The text of an element of the instructions or of the ingredients.
    fn get_item_text(&self, item: &JsonValue, instructions: bool) -> (r: Option<String>)
        ensures
            opt_view(r) == item_text(item@, instructions),
    {
        if instructions {
            match item {
                JsonValue::Object(_) => {
                    let text_key = String::from_str("text");
                    self.get_string_field(get_field(item, &text_key))
                },
                _ => self.get_string_field(Some(item)),
            }
        } else {
            self.get_string_field(Some(item))
        }
    }

    /// The texts of the elements of an array member (see `texts_of`).
    fn get_texts(&self, value: Option<&JsonValue>, instructions: bool) -> (r: Option<Vec<String>>)
        ensures
            match r {
                Some(v) => texts_of(opt_value(value), instructions) == Some(strings_view(v@)),
                None => texts_of(opt_value(value), instructions) is None,
            },
    {
        match value {
            Some(JsonValue::Array(a)) => {
                proof {
                    crate::json::lemma_array_view(*a);
                }
                let ghost av = json_view(JsonValue::Array(*a))->Array_0;
                assert(opt_value(value) == Some(JsonView::Array(av)));
                let ghost t = av.map_values(|x: JsonView| item_text(x, instructions));
                let mut out: Vec<String> = Vec::new();
                let mut i: usize = 0;
                while i < a.len()
                    invariant
                        i <= a@.len(),
                        opt_value(value) == Some(JsonView::Array(av)),
                        av.len() == a@.len(),
                        forall|k: int| 0 <= k < a@.len() ==> #[trigger] av[k] == a@[k]@,
                        t == av.map_values(|x: JsonView| item_text(x, instructions)),
                        out@.len() == i,
                        forall|j: int| 0 <= j < i ==> t[j] == Some((#[trigger] out@[j])@),
                    decreases a@.len() - i,
                {
                    match self.get_item_text(&a[i], instructions) {
                        Some(s) => {
                            assert(av[i as int] == a@[i as int]@);
                            out.push(s);
                        },
                        None => {
                            assert(av[i as int] == a@[i as int]@);
                            assert(t[i as int] is None);
                            return None;
                        },
                    }
                    i = i + 1;
                }
                assert forall|j: int| 0 <= j < t.len() implies (#[trigger] t[j]) is Some by {
                    assert(t[j] == Some(out@[j]@));
                }
                assert(strings_view(out@) =~= t.map_values(|o: Option<Seq<char>>| o->0));
                Some(out)
            },
            _ => None,
        }
    }

    /// Whether a JSON document describes a recipe (see `is_candidate`).
    fn is_recipe(&self, v: &JsonValue) -> (r: bool)
        ensures
            r == is_candidate(v@),
    {
        let type_key = String::from_str("@type");
        let recipe = String::from_str("Recipe");
        if string_equals(get_field(v, &type_key), &recipe) {
            return true;
        }
        match get_first(v) {
            Some(f) => string_equals(get_field(f, &type_key), &recipe),
            None => false,
        }
    }

    /// The first document that describes a recipe (see `first_candidate`).
    fn first_recipe<'a>(&self, blocks: &'a Vec<Option<JsonValue>>) -> (r: Option<&'a JsonValue>)
        ensures
            match r {
                Some(c) => first_candidate(documents_view(blocks@)) == Some(c@) && is_candidate(c@),
                None => first_candidate(documents_view(blocks@)) is None,
            },
    {
        let ghost d = documents_view(blocks@);
        let mut i: usize = 0;
        assert(d.subrange(0, d.len() as int) =~= d);
        while i < blocks.len()
            invariant
                i <= blocks@.len(),
                d == documents_view(blocks@),
                first_candidate(d) == first_candidate(d.subrange(i as int, d.len() as int)),
            decreases blocks@.len() - i,
        {
            assert(d.subrange(i as int, d.len() as int).drop_first() =~= d.subrange(i + 1, d.len() as int));
            assert(d.subrange(i as int, d.len() as int)[0] == opt_json(blocks@[i as int]));
            match &blocks[i] {
                Some(v) => if self.is_recipe(v) {
                    return Some(v);
                },
                None => {},
            }
            i = i + 1;
        }
        None
    }

    /// The recipe that the first JSON-LD document describing one gives, under
    /// the id `id`, owned by `user_id` and imported from `url`; the documents
    /// that are not valid JSON are given as nothing.
    pub fn recipe_from_json_ld(&self, url: &str, user_id: String, id: String, blocks: &Vec<Option<JsonValue>>) -> (r: Result<Recipe, RecipeError>)
        ensures
            recipe_of_documents(url@, user_id@, id@, documents_view(blocks@)) == result_view(r),
    {
        let candidate = match self.first_recipe(blocks) {
            Some(c) => c,
            None => {
                return Err(RecipeError::RecipeImportedWebsiteNotSupported);
            },
        };
        let obj: &JsonValue = match candidate {
            JsonValue::Array(a) => {
                assert(first_item(candidate@) is Some);
                &a[0]
            },
            _ => candidate,
        };
        assert(obj@ == recipe_object(candidate@));
        let name_key = String::from_str("name");
        let title = match self.get_string_field(get_field(obj, &name_key)) {
            Some(t) => t,
            None => {
                return Err(RecipeError::RecipeImportedWebsiteNotSupported);
            },
        };
        let instructions_key = String::from_str("recipeInstructions");
        let instructions = match self.get_texts(get_field(obj, &instructions_key), true) {
            Some(t) => t,
            None => {
                return Err(RecipeError::RecipeImportedWebsiteNotSupported);
            },
        };
        let ingredients_key = String::from_str("recipeIngredient");
        let ingredients = match self.get_texts(get_field(obj, &ingredients_key), false) {
            Some(t) => t,
            None => {
                return Err(RecipeError::RecipeImportedWebsiteNotSupported);
            },
        };
        let description_key = String::from_str("description");
        let yield_key = String::from_str("recipeYield");
        let category_key = String::from_str("recipeCategory");
        let cuisine_key = String::from_str("recipeCuisine");
        let prep_key = String::from_str("prepTime");
        let cook_key = String::from_str("cookTime");
        let image_key = String::from_str("image");
        let image_url = match get_field(obj, &image_key) {
            Some(img) => self.get_image(img),
            None => None,
        };
        Ok(Recipe {
            id,
            user_id,
            title,
            description: self.get_string_field(get_field(obj, &description_key)),
            recipe_yield: self.get_string_field(get_field(obj, &yield_key)),
            category: self.get_string_field(get_field(obj, &category_key)),
            cuisine: self.get_string_field(get_field(obj, &cuisine_key)),
            prep_time_in_minute: self.get_duration_in_minute(get_field(obj, &prep_key)),
            cook_time_in_minute: self.get_duration_in_minute(get_field(obj, &cook_key)),
            instructions,
            ingredients,
            imported_from: Some(String::from_str(url)),
            image_url,
        })
    }

    /// The JSON-LD documents of a page: the text of every JSON-LD script,
    /// parsed; nothing for a script that is not valid JSON.
    fn json_ld_documents(&self, html: &str) -> (r: Vec<Option<JsonValue>>)
        ensures
            documents_view(r@) == page_documents(html@),
    {
        let scripts = element_texts(html, "script", "type", "application/ld+json");
        let ghost texts = strings_view(scripts@);
        assert(texts == json_ld_scripts(html@));
        let mut r: Vec<Option<JsonValue>> = Vec::new();
        let mut i: usize = 0;
        while i < scripts.len()
            invariant
                i <= scripts@.len(),
                texts == strings_view(scripts@),
                r@.len() == i,
                forall|j: int| 0 <= j < i ==> opt_json(#[trigger] r@[j]) == json_of(texts[j]),
            decreases scripts@.len() - i,
        {
            r.push(parse_json(scripts[i].as_str()));
            i = i + 1;
        }
        assert(documents_view(r@) =~= page_documents(html@));
        r
    }

    /// Extracts a recipe from the schema.org data of a web page, under a
    /// fresh id, owned by `user_id` and imported from `url`.
    pub fn parse_from_json_ld(&self, url: &str, html: &str, user_id: String) -> (r: Result<Recipe, RecipeError>)
        ensures
            exists|id: Seq<char>|
                is_hyphenated_uuid(id) && #[trigger] recipe_of_documents(url@, user_id@, id, page_documents(html@))
                    == result_view(r),
    {
        let blocks = self.json_ld_documents(html);
        let id = new_id();
        self.recipe_from_json_ld(url, user_id, id, &blocks)
    }
}

/// The contents of a recipe returned, or the error.
pub open spec fn result_view(r: Result<Recipe, RecipeError>) -> Result<RecipeView, RecipeError> {
    match r {
        Ok(rec) => Ok(rec@),
        Err(e) => Err(e),
    }
}

/// The value that an optional reference points to.
pub open spec fn opt_value(v: Option<&JsonValue>) -> Option<JsonView> {
    match v {
        Some(x) => Some(x@),
        None => None,
    }
}

} // verus!
