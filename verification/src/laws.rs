//! What holds of the locator, the field rules and the scan, for all inputs.

use vstd::prelude::*;
use crate::json::{JsonModel, member};
use crate::fields::{
    all_text_values, author_of, blank_author, image_list_of, ingredients_of, instructions_of,
    leading_texts, optional_nutrition_of,
    optional_string_list_of, optional_text_of, optional_video_of, required_text_of,
    string_list_of,
};
use crate::decode::{decoded, first_recipe, is_recipe, located};
use crate::parse::parsed;
use crate::scan::{BlockError, ScanError, block_result, block_results, scan_result};
use crate::recipe::RecipeModel;

verus! {

/// The strings that a list of items holds, where each is a string.
pub open spec fn texts_in(items: Seq<JsonModel>) -> Seq<Seq<char>> {
    Seq::new(items.len(), |i: int| items[i]->Text_0)
}

/// Whether every item is a string.
pub open spec fn all_texts(items: Seq<JsonModel>) -> bool {
    forall|i: int| 0 <= i < items.len() ==> (#[trigger] items[i]) is Text
}

/// The locator returns the first recipe record of a list: the item at `k`,
/// where that is a recipe record and no item before it is one.
pub proof fn lemma_first_recipe_is_first_match(items: Seq<JsonModel>, k: int)
    requires
        0 <= k < items.len(),
        is_recipe(items[k]),
        forall|j: int| 0 <= j < k ==> !is_recipe(#[trigger] items[j]),
    ensures
        first_recipe(items) == Some(items[k]),
    decreases items.len(),
{
    if k > 0 {
        let rest = items.drop_first();
        assert(!is_recipe(items[0]));
        assert(rest[k - 1] == items[k]);
        assert forall|j: int| 0 <= j < k - 1 implies !is_recipe(#[trigger] rest[j]) by {
            assert(rest[j] == items[j + 1]);
        }
        lemma_first_recipe_is_first_match(rest, k - 1);
    }
}

/// The locator finds nothing in a list none of whose items is a recipe
/// record.
pub proof fn lemma_no_recipe_in_list(items: Seq<JsonModel>)
    requires
        forall|j: int| 0 <= j < items.len() ==> !is_recipe(#[trigger] items[j]),
    ensures
        first_recipe(items) is None,
    decreases items.len(),
{
    if items.len() > 0 {
        let rest = items.drop_first();
        assert(!is_recipe(items[0]));
        assert forall|j: int| 0 <= j < rest.len() implies !is_recipe(#[trigger] rest[j]) by {
            assert(rest[j] == items[j + 1]);
        }
        lemma_no_recipe_in_list(rest);
    }
}

/// In a document whose `@graph` is an array, the locator returns the first
/// item that is a recipe record, whatever comes before or after it.
pub proof fn lemma_locator_first_match(doc: JsonModel, graph: Seq<JsonModel>, k: int)
    requires
        member(doc, "@graph"@) == Some(JsonModel::Array(graph)),
        0 <= k < graph.len(),
        is_recipe(graph[k]),
        forall|j: int| 0 <= j < k ==> !is_recipe(#[trigger] graph[j]),
    ensures
        located(doc) == Some(graph[k]),
{
    lemma_first_recipe_is_first_match(graph, k);
}

/// An array of strings only is read, as a list that may come as one bare
/// string, to those strings in their order.
pub proof fn lemma_string_array_keeps_order(items: Seq<JsonModel>)
    requires
        all_texts(items),
    ensures
        leading_texts(items) == texts_in(items),
        string_list_of(JsonModel::Array(items)) == Some(texts_in(items)),
    decreases items.len(),
{
    if items.len() == 0 {
        assert(leading_texts(items) =~= texts_in(items));
    } else {
        let rest = items.drop_first();
        assert(items[0] is Text);
        assert forall|j: int| 0 <= j < rest.len() implies (#[trigger] rest[j]) is Text by {
            assert(rest[j] == items[j + 1]);
        }
        lemma_string_array_keeps_order(rest);
        assert(seq![items[0]->Text_0] + texts_in(rest) =~= texts_in(items));
    }
}

/// A bare string is read, as a list that may come as one bare string, to
/// the list of that one string.
pub proof fn lemma_bare_string_is_list_of_one(s: Seq<char>)
    ensures
        string_list_of(JsonModel::Text(s)) == Some(seq![s]),
{
}

/// The image list of a value that is no string, array or object is empty.
pub proof fn lemma_image_of_other_kinds_is_empty(value: JsonModel)
    requires
        !(value is Text),
        !(value is Array),
        !(value is Object),
    ensures
        image_list_of(value) == Seq::<Seq<char>>::empty(),
{
}

/// An array whose first item is an object of strings only names the author
/// that the object alone names.
pub proof fn lemma_author_of_array_is_author_of_first(items: Seq<JsonModel>)
    requires
        items.len() > 0,
        items[0] matches JsonModel::Object(members) && all_text_values(members),
    ensures
        author_of(JsonModel::Array(items)) == author_of(items[0]),
{
}

/// A value that is no object or array names the blank author.
pub proof fn lemma_author_of_other_kinds_is_blank(value: JsonModel)
    requires
        !(value is Array),
        !(value is Object),
    ensures
        author_of(value) == blank_author(),
{
}

/// A record that is read has as many ingredients and steps as the arrays
/// under `recipeIngredient` and `recipeInstructions` have items.
pub proof fn lemma_decode_keeps_lengths(
    record: JsonModel,
    ingredients: Seq<JsonModel>,
    instructions: Seq<JsonModel>,
)
    requires
        member(record, "recipeIngredient"@) == Some(JsonModel::Array(ingredients)),
        member(record, "recipeInstructions"@) == Some(JsonModel::Array(instructions)),
        decoded(record) is Ok,
    ensures
        decoded(record)->Ok_0.ingredients.len() == ingredients.len(),
        decoded(record)->Ok_0.instructions.len() == instructions.len(),
{
}

/// A record is read exactly when its name is a string, its ingredients are
/// an array of strings, its steps are an array of steps, and each of its
/// other strict fields is absent, null or of the kind that its rule takes.
pub proof fn lemma_decode_succeeds_exactly(record: JsonModel)
    ensures
        decoded(record) is Ok <==> {
            &&& required_text_of(member(record, "name"@)) is Some
            &&& ingredients_of(member(record, "recipeIngredient"@)) is Some
            &&& instructions_of(member(record, "recipeInstructions"@)) is Some
            &&& optional_text_of(member(record, "@id"@)) is Some
            &&& optional_text_of(member(record, "description"@)) is Some
            &&& optional_text_of(member(record, "cookTime"@)) is Some
            &&& optional_text_of(member(record, "prepTime"@)) is Some
            &&& optional_text_of(member(record, "totalTime"@)) is Some
            &&& optional_text_of(member(record, "keywords"@)) is Some
            &&& optional_nutrition_of(member(record, "nutrition"@)) is Some
            &&& optional_string_list_of(member(record, "recipeYield"@)) is Some
            &&& optional_string_list_of(member(record, "recipeCategory"@)) is Some
            &&& optional_video_of(member(record, "video"@)) is Some
        },
{
}

/// A record with a string for its name, an array of strings for its
/// ingredients, an array of steps for its steps, and none of the other
/// strict fields is read, and keeps the lengths of both arrays.
pub proof fn lemma_required_fields_suffice(
    record: JsonModel,
    ingredients: Seq<JsonModel>,
    instructions: Seq<JsonModel>,
)
    requires
        member(record, "name"@) matches Some(v) && v is Text,
        member(record, "recipeIngredient"@) == Some(JsonModel::Array(ingredients)),
        member(record, "recipeInstructions"@) == Some(JsonModel::Array(instructions)),
        ingredients_of(Some(JsonModel::Array(ingredients))) is Some,
        instructions_of(Some(JsonModel::Array(instructions))) is Some,
        member(record, "@id"@) is None,
        member(record, "description"@) is None,
        member(record, "cookTime"@) is None,
        member(record, "prepTime"@) is None,
        member(record, "totalTime"@) is None,
        member(record, "keywords"@) is None,
        member(record, "nutrition"@) is None,
        member(record, "recipeYield"@) is None,
        member(record, "recipeCategory"@) is None,
        member(record, "video"@) is None,
    ensures
        decoded(record) is Ok,
        decoded(record)->Ok_0.ingredients.len() == ingredients.len(),
        decoded(record)->Ok_0.instructions.len() == instructions.len(),
{
}

/// A scan whose first block is no JSON, or holds no recipe record, comes to
/// what the scan of the later blocks comes to.
pub proof fn lemma_scan_passes_over(blocks: Seq<Seq<char>>)
    requires
        blocks.len() > 0,
        block_result(blocks[0]) is Err,
        !(block_result(blocks[0])->Err_0 is MalformedRecipe),
    ensures
        scan_result(blocks) == scan_result(blocks.drop_first()),
{
    assert(block_results(blocks).drop_first() =~= block_results(blocks.drop_first()));
}

/// A scan whose first block holds a recipe that is read comes to that
/// recipe; one whose first block holds a recipe record that cannot be read
/// comes to that fault.
pub proof fn lemma_scan_stops(blocks: Seq<Seq<char>>)
    requires
        blocks.len() > 0,
    ensures
        block_result(blocks[0]) matches Ok(recipe) ==> scan_result(blocks) == Ok::<
            RecipeModel,
            ScanError,
        >(recipe),
        block_result(blocks[0]) matches Err(BlockError::MalformedRecipe(e)) ==> scan_result(blocks)
            == Err::<RecipeModel, ScanError>(ScanError::MalformedRecipe(e)),
{
}

/// A scan of blocks of which none holds a recipe record finds no recipe.
pub proof fn lemma_scan_without_recipe(blocks: Seq<Seq<char>>)
    requires
        forall|i: int|
            0 <= i < blocks.len() ==> (#[trigger] parsed(blocks[i]) matches Some(doc) ==> located(
                doc,
            ) is None),
    ensures
        scan_result(blocks) == Err::<RecipeModel, ScanError>(ScanError::NoRecipeFound),
    decreases blocks.len(),
{
    if blocks.len() > 0 {
        let rest = blocks.drop_first();
        assert(parsed(blocks[0]) matches Some(doc) ==> located(doc) is None);
        assert forall|i: int| 0 <= i < rest.len() implies (#[trigger] parsed(rest[i]) matches Some(
            doc,
        ) ==> located(doc) is None) by {
            assert(rest[i] == blocks[i + 1]);
            assert(parsed(blocks[i + 1]) matches Some(doc) ==> located(doc) is None);
        }
        lemma_scan_without_recipe(rest);
        lemma_scan_passes_over(blocks);
    }
}

} // verus!
