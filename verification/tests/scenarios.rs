use recipe_ld::decode::{locate, DecodeError, Field};
use recipe_ld::json::{Json, Member};
use recipe_ld::recipe::{Author, Image, Instruction, Nutrition, Recipe, VecOrString, Video};
use recipe_ld::scan::{
    parse_json_to_recipe, parse_recipe_from_blocks, recipe_in_document, require_blocks, BlockError,
    NoBlocksError, ScanError,
};

fn doc(text: &str) -> Json {
    Json::parse(text).expect("the text is JSON")
}

fn strings(items: &[&str]) -> Vec<String> {
    items.iter().map(|s| s.to_string()).collect()
}

const MINIMAL: &str = r#"{"@type":"Recipe","name":"Bread","recipeIngredient":["flour","water"],"recipeInstructions":["Mix","Bake"]}"#;

#[test]
fn parse_builds_the_tree_of_the_text() {
    let tree = doc(r#"{"b":[1,"x",null,true],"a":{"k":-2.5}}"#);
    let Json::Object(members) = tree else { panic!("an object was expected") };
    assert_eq!(members.len(), 2);
    let a = members.iter().find(|m| m.key == "a").unwrap();
    let b = members.iter().find(|m| m.key == "b").unwrap();
    let Json::Array(items) = &b.value else { panic!("an array was expected") };
    assert_eq!(items.len(), 4);
    assert!(matches!(&items[0], Json::Number(n) if n == "1"));
    assert!(matches!(&items[1], Json::Text(s) if s == "x"));
    assert!(matches!(&items[2], Json::Null));
    assert!(matches!(&items[3], Json::Bool(true)));
    let Json::Object(inner) = &a.value else { panic!("an object was expected") };
    assert_eq!(inner.len(), 1);
    assert_eq!(inner[0].key, "k");
    assert!(matches!(&inner[0].value, Json::Number(n) if n == "-2.5"));
}

#[test]
fn parse_refuses_what_is_no_json() {
    assert!(Json::parse("{not json").is_err());
    assert!(Json::parse("").is_err());
    assert!(Json::parse("[1,").is_err());
}

#[test]
fn get_finds_the_first_member_of_that_key() {
    let tree = Json::Object(vec![
        Member { key: "a".to_string(), value: Json::Text("one".to_string()) },
        Member { key: "b".to_string(), value: Json::Null },
        Member { key: "a".to_string(), value: Json::Text("two".to_string()) },
    ]);
    assert!(matches!(tree.get("a"), Some(Json::Text(s)) if s == "one"));
    assert!(matches!(tree.get("b"), Some(Json::Null)));
    assert!(tree.get("c").is_none());
    assert!(Json::Null.get("a").is_none());
    assert!(Json::Array(vec![]).get("a").is_none());
}

#[test]
fn as_text_gives_only_strings() {
    assert_eq!(Json::Text("x".to_string()).as_text().map(|s| s.as_str()), Some("x"));
    assert!(Json::Number("1".to_string()).as_text().is_none());
    assert!(Json::Null.as_text().is_none());
}

#[test]
fn decode_keeps_the_lengths_of_the_required_lists() {
    let recipe = Recipe::decode(&doc(MINIMAL)).unwrap();
    assert_eq!(recipe.name, "Bread");
    assert_eq!(recipe.ingredients, strings(&["flour", "water"]));
    assert_eq!(recipe.instructions.len(), 2);
    assert_eq!(recipe.instructions[0].text, "Mix");
    assert_eq!(recipe.instructions[1].text, "Bake");
    assert!(recipe.id.is_none());
    assert!(recipe.description.is_none());
    assert!(recipe.image.is_none());
    assert!(recipe.cook_time.is_none());
    assert!(recipe.prep_time.is_none());
    assert!(recipe.total_time.is_none());
    assert!(recipe.nutrition.is_none());
    assert!(recipe.recipe_yield.is_none());
    assert!(recipe.category.is_none());
    assert!(recipe.author.is_none());
    assert!(recipe.keywords.is_none());
    assert!(recipe.video.is_none());
}

#[test]
fn decode_accepts_empty_required_lists() {
    let recipe = Recipe::decode(&doc(
        r#"{"@type":"Recipe","name":"N","recipeIngredient":[],"recipeInstructions":[]}"#,
    ))
    .unwrap();
    assert!(recipe.ingredients.is_empty());
    assert!(recipe.instructions.is_empty());
}

#[test]
fn decode_reads_every_field() {
    let recipe = Recipe::decode(&doc(
        r#"{"@type":"Recipe","@id":"r1","name":"Bread","description":"Plain",
            "image":["a.jpg","b.jpg"],"cookTime":"PT30M","prepTime":"PT10M","totalTime":"PT40M",
            "nutrition":{"@type":"NutritionInformation","calories":"100 kcal","servingSize":"1 slice"},
            "recipeYield":"1 loaf","recipeInstructions":[{"@type":"HowToStep","text":"Mix"}],
            "recipeIngredient":["flour"],"recipeCategory":["Bread","Basics"],
            "author":{"name":"Jane","url":"http://x/jane"},"keywords":"bread, easy",
            "video":{"name":"How to","contentUrl":"http://x/v"},"unknown":42}"#,
    ))
    .unwrap();
    assert_eq!(recipe.id.as_deref(), Some("r1"));
    assert_eq!(recipe.name, "Bread");
    assert_eq!(recipe.description.as_deref(), Some("Plain"));
    assert_eq!(recipe.image.unwrap().0, strings(&["a.jpg", "b.jpg"]));
    assert_eq!(recipe.cook_time.as_deref(), Some("PT30M"));
    assert_eq!(recipe.prep_time.as_deref(), Some("PT10M"));
    assert_eq!(recipe.total_time.as_deref(), Some("PT40M"));
    let nutrition = recipe.nutrition.unwrap();
    assert_eq!(nutrition.calories.as_deref(), Some("100 kcal"));
    assert_eq!(nutrition.servingSize.as_deref(), Some("1 slice"));
    assert_eq!(recipe.recipe_yield.unwrap().0, strings(&["1 loaf"]));
    assert_eq!(recipe.instructions.len(), 1);
    assert_eq!(recipe.instructions[0].text, "Mix");
    assert_eq!(recipe.ingredients, strings(&["flour"]));
    assert_eq!(recipe.category.unwrap().0, strings(&["Bread", "Basics"]));
    let author = recipe.author.unwrap();
    assert_eq!(author.name.as_deref(), Some("Jane"));
    assert_eq!(author.url.as_deref(), Some("http://x/jane"));
    assert!(author.id.is_none());
    assert_eq!(recipe.keywords.as_deref(), Some("bread, easy"));
    assert_eq!(recipe.video.unwrap().name, "How to");
}

#[test]
fn decode_takes_null_for_absent() {
    let recipe = Recipe::decode(&doc(
        r#"{"@type":"Recipe","name":"N","recipeIngredient":[],"recipeInstructions":[],
            "@id":null,"description":null,"image":null,"cookTime":null,"prepTime":null,
            "totalTime":null,"nutrition":null,"recipeYield":null,"recipeCategory":null,
            "author":null,"keywords":null,"video":null}"#,
    ))
    .unwrap();
    assert!(recipe.id.is_none());
    assert!(recipe.description.is_none());
    assert!(recipe.image.is_none());
    assert!(recipe.nutrition.is_none());
    assert!(recipe.recipe_yield.is_none());
    assert!(recipe.category.is_none());
    assert!(recipe.author.is_none());
    assert!(recipe.video.is_none());
}

fn fault(text: &str) -> Field {
    match Recipe::decode(&doc(text)) {
        Ok(_) => panic!("the record should be refused"),
        Err(e) => e.field,
    }
}

#[test]
fn decode_names_each_fault() {
    let base = r#""name":"N","recipeIngredient":[],"recipeInstructions":[]"#;
    let with = |extra: &str| format!("{{{},{}}}", base, extra);
    assert_eq!(fault(r#"{"recipeIngredient":[],"recipeInstructions":[]}"#), Field::Name);
    assert_eq!(fault(r#"{"name":7,"recipeIngredient":[],"recipeInstructions":[]}"#), Field::Name);
    assert_eq!(fault(r#"{"name":null,"recipeIngredient":[],"recipeInstructions":[]}"#), Field::Name);
    assert_eq!(fault(&with(r#""@id":1"#)), Field::Id);
    assert_eq!(fault(&with(r#""description":["x"]"#)), Field::Description);
    assert_eq!(fault(&with(r#""cookTime":30"#)), Field::CookTime);
    assert_eq!(fault(&with(r#""prepTime":true"#)), Field::PrepTime);
    assert_eq!(fault(&with(r#""nutrition":"much""#)), Field::Nutrition);
    assert_eq!(fault(&with(r#""nutrition":{"calories":100}"#)), Field::Nutrition);
    assert_eq!(fault(&with(r#""recipeYield":4"#)), Field::RecipeYield);
    assert_eq!(fault(&with(r#""recipeCategory":{"a":"b"}"#)), Field::Category);
    assert_eq!(fault(&with(r#""totalTime":{}"#)), Field::TotalTime);
    assert_eq!(fault(&with(r#""keywords":["a","b"]"#)), Field::Keywords);
    assert_eq!(fault(&with(r#""video":{"title":"x"}"#)), Field::Video);
    assert_eq!(fault(&with(r#""video":"x""#)), Field::Video);
    assert_eq!(fault(r#"{"name":"N","recipeIngredient":[]}"#), Field::Instructions);
    assert_eq!(
        fault(r#"{"name":"N","recipeIngredient":[],"recipeInstructions":"Mix"}"#),
        Field::Instructions
    );
    assert_eq!(
        fault(r#"{"name":"N","recipeIngredient":[],"recipeInstructions":[3]}"#),
        Field::Instructions
    );
    assert_eq!(
        fault(r#"{"name":"N","recipeIngredient":[],"recipeInstructions":[{"text":3}]}"#),
        Field::Instructions
    );
    assert_eq!(fault(r#"{"name":"N","recipeInstructions":[]}"#), Field::Ingredients);
    assert_eq!(
        fault(r#"{"name":"N","recipeIngredient":"flour","recipeInstructions":[]}"#),
        Field::Ingredients
    );
    assert_eq!(
        fault(r#"{"name":"N","recipeIngredient":["flour",2],"recipeInstructions":[]}"#),
        Field::Ingredients
    );
}

#[test]
fn decode_reports_the_first_fault_in_field_order() {
    assert_eq!(fault(r#"{"keywords":1,"@id":2}"#), Field::Name);
    assert_eq!(
        fault(r#"{"name":"N","keywords":1,"cookTime":2,"recipeIngredient":[],"recipeInstructions":[]}"#),
        Field::CookTime
    );
    assert_eq!(Recipe::decode(&Json::Null).unwrap_err(), DecodeError { field: Field::Name });
}

#[test]
fn locator_returns_the_recipe_of_a_graph() {
    let tree = doc(
        r#"{"@context":"https://schema.org","@graph":[{"@type":"WebSite","name":"Site"},{"@type":"Recipe","name":"Bread"}]}"#,
    );
    let found = locate(&tree).unwrap();
    assert!(matches!(found.get("name"), Some(Json::Text(s)) if s == "Bread"));
}

#[test]
fn locator_returns_the_first_of_two_recipes() {
    let tree = doc(
        r#"{"@graph":[{"@type":"Recipe","name":"First"},{"@type":"Person"},{"@type":"Recipe","name":"Second"}]}"#,
    );
    let found = locate(&tree).unwrap();
    assert!(matches!(found.get("name"), Some(Json::Text(s)) if s == "First"));
}

#[test]
fn locator_returns_the_document_itself() {
    let tree = doc(r#"{"@type":"Recipe","name":"Top"}"#);
    let found = locate(&tree).unwrap();
    assert!(matches!(found.get("name"), Some(Json::Text(s)) if s == "Top"));
}

#[test]
fn locator_finds_nothing_where_no_record_is_a_recipe() {
    assert!(locate(&doc(r#"{"@type":"WebSite"}"#)).is_none());
    assert!(locate(&doc(r#"{"@graph":[{"@type":"WebSite"},{"@type":["Recipe"]}]}"#)).is_none());
    assert!(locate(&doc(r#"{"@graph":[]}"#)).is_none());
    assert!(locate(&doc(r#"[{"@type":"Recipe"}]"#)).is_none());
    assert!(locate(&doc(r#""Recipe""#)).is_none());
    assert!(locate(&doc(r#"{"@type":"recipe"}"#)).is_none());
}

#[test]
fn locator_prefers_the_graph_to_the_document() {
    let tree = doc(r#"{"@type":"Recipe","name":"Top","@graph":[{"@type":"Thing"}]}"#);
    assert!(locate(&tree).is_none());
    let tree = doc(r#"{"@type":"Recipe","name":"Top","@graph":"none"}"#);
    assert!(locate(&tree).is_some());
}

#[test]
fn category_scalar_becomes_a_list_of_one() {
    let list = VecOrString::decode(&doc(r#""Dessert""#)).unwrap();
    assert_eq!(list.0, strings(&["Dessert"]));
}

#[test]
fn category_array_keeps_its_order() {
    let list = VecOrString::decode(&doc(r#"["Dessert","Bread"]"#)).unwrap();
    assert_eq!(list.0, strings(&["Dessert", "Bread"]));
}

#[test]
fn string_list_stops_at_the_first_item_that_is_no_string() {
    let list = VecOrString::decode(&doc(r#"["a","b",3,"c"]"#)).unwrap();
    assert_eq!(list.0, strings(&["a", "b"]));
    let list = VecOrString::decode(&doc(r#"[null,"c"]"#)).unwrap();
    assert!(list.0.is_empty());
    let list = VecOrString::decode(&doc("[]")).unwrap();
    assert!(list.0.is_empty());
}

#[test]
fn string_list_refuses_other_kinds() {
    assert!(VecOrString::decode(&doc("4")).is_none());
    assert!(VecOrString::decode(&doc("true")).is_none());
    assert!(VecOrString::decode(&doc("null")).is_none());
    assert!(VecOrString::decode(&doc(r#"{"a":"b"}"#)).is_none());
}

#[test]
fn image_object_gives_its_id() {
    let image = Image::decode(&doc(r#"{"@id": "http://x/img.jpg"}"#));
    assert_eq!(image.0, strings(&["http://x/img.jpg"]));
    let image = Image::decode(&doc(r##"{"@context":{"a":1},"@id":"http://x/i.jpg","url":"u"}"##));
    assert_eq!(image.0, strings(&["http://x/i.jpg"]));
}

#[test]
fn image_of_an_unsupported_shape_is_empty() {
    assert!(Image::decode(&doc("12")).0.is_empty());
    assert!(Image::decode(&doc("false")).0.is_empty());
    assert!(Image::decode(&doc("null")).0.is_empty());
    assert!(Image::decode(&doc(r#"{"url":"http://x/img.jpg"}"#)).0.is_empty());
    assert!(Image::decode(&doc(r#"{"@id":7}"#)).0.is_empty());
}

#[test]
fn image_string_and_array() {
    assert_eq!(Image::decode(&doc(r#""a.jpg""#)).0, strings(&["a.jpg"]));
    assert_eq!(Image::decode(&doc(r#"["a.jpg","b.jpg"]"#)).0, strings(&["a.jpg", "b.jpg"]));
    assert_eq!(Image::decode(&doc(r#"["a.jpg",{"url":"b"},"c.jpg"]"#)).0, strings(&["a.jpg"]));
}

#[test]
fn image_number_in_a_record_is_no_error() {
    let recipe = Recipe::decode(&doc(
        r#"{"name":"N","image":5,"recipeIngredient":[],"recipeInstructions":[]}"#,
    ))
    .unwrap();
    assert!(recipe.image.unwrap().0.is_empty());
}

fn author_fields(author: &Author) -> (Option<&str>, Option<&str>, Option<&str>) {
    (author.name.as_deref(), author.url.as_deref(), author.id.as_deref())
}

#[test]
fn author_object() {
    let author = Author::decode(&doc(r#"{"name": "Jane", "@id": "u1"}"#));
    assert_eq!(author_fields(&author), (Some("Jane"), None, Some("u1")));
}

#[test]
fn author_array_of_one_object() {
    let author = Author::decode(&doc(r#"[{"name":"Jane"}]"#));
    assert_eq!(author_fields(&author), (Some("Jane"), None, None));
    let author = Author::decode(&doc(r#"[{"name": "Jane", "@id": "u1"}]"#));
    assert_eq!(author_fields(&author), (Some("Jane"), None, Some("u1")));
    let author = Author::decode(&doc(r#"[{"name":"Jane","url":"http://j"},{"name":"Joe"}]"#));
    assert_eq!(author_fields(&author), (Some("Jane"), Some("http://j"), None));
}

#[test]
fn author_of_other_shapes_is_blank() {
    for text in ["null", "3", r#""Jane""#, "[]", r#"["Jane"]"#, r#"[{"name":"Jane","age":3}]"#] {
        let author = Author::decode(&doc(text));
        assert_eq!(author_fields(&author), (None, None, None));
    }
    assert_eq!(author_fields(&Author::blank()), (None, None, None));
}

#[test]
fn author_object_ignores_other_members() {
    let author = Author::decode(&doc(r#"{"@type":"Person","name":"Jane","age":3,"url":4}"#));
    assert_eq!(author_fields(&author), (Some("Jane"), None, None));
}

#[test]
fn author_is_never_a_fault_of_the_record() {
    let recipe = Recipe::decode(&doc(
        r#"{"name":"N","author":17,"recipeIngredient":[],"recipeInstructions":[]}"#,
    ))
    .unwrap();
    assert_eq!(author_fields(&recipe.author.unwrap()), (None, None, None));
}

#[test]
fn instructions_mix_strings_and_objects() {
    let recipe = Recipe::decode(&doc(
        r#"{"name":"N","recipeIngredient":[],
            "recipeInstructions":["Preheat oven",{"text":"Bake","name":"Step 2"}]}"#,
    ))
    .unwrap();
    assert_eq!(recipe.instructions.len(), 2);
    let first = &recipe.instructions[0];
    assert_eq!(first.text, "Preheat oven");
    assert!(first.image.is_none() && first.name.is_none() && first.url.is_none());
    assert!(first.video.is_none());
    let second = &recipe.instructions[1];
    assert_eq!(second.text, "Bake");
    assert_eq!(second.name.as_deref(), Some("Step 2"));
    assert!(second.image.is_none() && second.url.is_none() && second.video.is_none());
}

#[test]
fn instruction_object_without_text_has_the_empty_text() {
    let step = Instruction::decode(&doc(
        r#"{"@type":"HowToStep","name":"One","image":"i.jpg","url":"http://s","video":"v","extra":[1]}"#,
    ))
    .unwrap();
    assert_eq!(step.text, "");
    assert_eq!(step.name.as_deref(), Some("One"));
    assert_eq!(step.image.as_deref(), Some("i.jpg"));
    assert_eq!(step.url.as_deref(), Some("http://s"));
    assert!(step.video.is_none());
}

#[test]
fn instruction_refuses_other_kinds() {
    assert!(Instruction::decode(&doc("1")).is_none());
    assert!(Instruction::decode(&doc("null")).is_none());
    assert!(Instruction::decode(&doc(r#"["Mix"]"#)).is_none());
    assert!(Instruction::decode(&doc(r#"{"text":null}"#)).is_none());
    assert!(Instruction::decode(&doc(r#"{"text":"Mix","url":{"@id":"u"}}"#)).is_none());
}

#[test]
fn nutrition_and_video_records() {
    let n = Nutrition::decode(&doc(r#"{"calories":"10","fat":3}"#)).unwrap();
    assert_eq!(n.calories.as_deref(), Some("10"));
    assert!(n.servingSize.is_none());
    let n = Nutrition::decode(&doc(r#"{"calories":null,"servingSize":"1 cup"}"#)).unwrap();
    assert!(n.calories.is_none());
    assert_eq!(n.servingSize.as_deref(), Some("1 cup"));
    assert!(Nutrition::decode(&doc(r#"{"servingSize":1}"#)).is_none());
    assert!(Nutrition::decode(&doc("[]")).is_none());
    assert_eq!(Video::decode(&doc(r#"{"name":"Clip"}"#)).unwrap().name, "Clip");
    assert!(Video::decode(&doc(r#"{"name":null}"#)).is_none());
    assert!(Video::decode(&doc("{}")).is_none());
}

#[test]
fn document_outcomes() {
    assert_eq!(recipe_in_document(&doc(MINIMAL)).unwrap().name, "Bread");
    assert_eq!(
        recipe_in_document(&doc(r#"{"@type":"Thing"}"#)).unwrap_err(),
        BlockError::NoRecipeFound
    );
    assert_eq!(
        recipe_in_document(&doc(r#"{"@type":"Recipe"}"#)).unwrap_err(),
        BlockError::MalformedRecipe(DecodeError { field: Field::Name })
    );
}

#[test]
fn block_outcomes() {
    assert_eq!(parse_json_to_recipe(MINIMAL).unwrap().name, "Bread");
    assert_eq!(parse_json_to_recipe("{not json").unwrap_err(), BlockError::JsonSyntax);
    assert_eq!(parse_json_to_recipe("[]").unwrap_err(), BlockError::NoRecipeFound);
    assert_eq!(
        parse_json_to_recipe(r#"{"@graph":[{"@type":"Recipe","name":"N"}]}"#).unwrap_err(),
        BlockError::MalformedRecipe(DecodeError { field: Field::Instructions })
    );
}

#[test]
fn a_block_that_is_no_json_is_skipped() {
    let blocks = strings(&["{not json", MINIMAL]);
    assert_eq!(parse_recipe_from_blocks(&blocks).unwrap().name, "Bread");
}

#[test]
fn blocks_without_a_recipe_give_no_recipe_found() {
    let blocks = strings(&[
        r#"{"@type":"WebSite"}"#,
        "{not json",
        r#"{"@graph":[{"@type":"Person"},{"@type":"Organization"}]}"#,
    ]);
    assert_eq!(parse_recipe_from_blocks(&blocks).unwrap_err(), ScanError::NoRecipeFound);
    assert_eq!(parse_recipe_from_blocks(&Vec::new()).unwrap_err(), ScanError::NoRecipeFound);
}

#[test]
fn the_first_recipe_of_the_blocks_wins() {
    let second = MINIMAL.replace("Bread", "Cake");
    let blocks = strings(&[r#"{"@type":"WebSite"}"#, MINIMAL, &second]);
    assert_eq!(parse_recipe_from_blocks(&blocks).unwrap().name, "Bread");
}

#[test]
fn a_malformed_recipe_ends_the_scan() {
    let blocks = strings(&[r#"{"@type":"WebSite"}"#, r#"{"@type":"Recipe","name":1}"#, MINIMAL]);
    assert_eq!(
        parse_recipe_from_blocks(&blocks).unwrap_err(),
        ScanError::MalformedRecipe(DecodeError { field: Field::Name })
    );
}

#[test]
fn a_page_without_blocks_is_refused() {
    assert_eq!(require_blocks(Vec::new()).unwrap_err(), NoBlocksError);
    assert_eq!(require_blocks(strings(&["{}"])).unwrap(), strings(&["{}"]));
}

#[test]
fn defaults_are_blank() {
    let step = Instruction::default();
    assert_eq!(step.text, "");
    assert!(step.image.is_none() && step.name.is_none() && step.url.is_none());
    assert!(step.video.is_none());
    assert_eq!(author_fields(&Author::default()), (None, None, None));
}

#[test]
fn parse_keeps_nested_trees() {
    let tree = doc(r#"[[["deep"]],{"a":{"b":{"c":[]}}}]"#);
    let Json::Array(items) = tree else { panic!("an array was expected") };
    assert_eq!(items.len(), 2);
    let Json::Array(one) = &items[0] else { panic!("an array was expected") };
    let Json::Array(two) = &one[0] else { panic!("an array was expected") };
    assert!(matches!(&two[..], [Json::Text(s)] if s == "deep"));
    let c = items[1].get("a").and_then(|a| a.get("b")).and_then(|b| b.get("c"));
    assert!(matches!(c, Some(Json::Array(inner)) if inner.is_empty()));
}

#[test]
fn parse_keeps_the_last_of_two_members_of_one_key() {
    let tree = doc(r#"{"name":"first","name":"second"}"#);
    let Json::Object(members) = &tree else { panic!("an object was expected") };
    assert_eq!(members.len(), 1);
    assert!(matches!(tree.get("name"), Some(Json::Text(s)) if s == "second"));
}
