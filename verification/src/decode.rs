//! Finding the recipe record of a document and reading it field by field.

use vstd::prelude::*;
use crate::json::{Json, JsonModel, member, models, lemma_array_view};
use crate::recipe::{
    Author, AuthorModel, Image, Nutrition, Recipe, RecipeModel, VecOrString, Video, opt_view,
};
use crate::fields::{
    author_of, image_list_of, ingredient_list, ingredients_of, instruction_list, instructions_of,
    optional_nutrition_of, optional_string_list_of, optional_text, optional_text_of,
    optional_video_of, required_text, required_text_of,
};

verus! {

/// A field of the recipe whose value can be refused.
#[derive(Clone, Copy, Debug, PartialEq, Eq, Structural)]
pub enum Field {
    Name,
    Id,
    Description,
    CookTime,
    PrepTime,
    Nutrition,
    RecipeYield,
    Instructions,
    Ingredients,
    Category,
    TotalTime,
    Keywords,
    Video,
}

/// Why a record that calls itself a recipe could not be read: the first
/// field, in the order of [`Field`], that is missing though required or has
/// a kind that its rule refuses.
#[derive(Clone, Copy, Debug, PartialEq, Eq, Structural)]
pub struct DecodeError {
    pub field: Field,
}

/// Whether the `@type` of a value is the string `Recipe`.
pub open spec fn is_recipe(value: JsonModel) -> bool {
    member(value, "@type"@) == Some(JsonModel::Text("Recipe"@))
}

/// The first item that is a recipe record.
pub open spec fn first_recipe(items: Seq<JsonModel>) -> Option<JsonModel>
    decreases items.len(),
{
    if items.len() == 0 {
        None
    } else if is_recipe(items[0]) {
        Some(items[0])
    } else {
        first_recipe(items.drop_first())
    }
}

/// The recipe record of a document: where `@graph` is an array, its first
/// recipe record; else the document itself, where it is one.
pub open spec fn located(doc: JsonModel) -> Option<JsonModel> {
    match member(doc, "@graph"@) {
        Some(JsonModel::Array(items)) => first_recipe(items),
        _ => if is_recipe(doc) {
            Some(doc)
        } else {
            None
        },
    }
}

/// An optional image list: absent or null gives nothing, any other value
/// its image list.
pub open spec fn optional_image_of(field: Option<JsonModel>) -> Option<Seq<Seq<char>>> {
    match field {
        None => None,
        Some(JsonModel::Null) => None,
        Some(value) => Some(image_list_of(value)),
    }
}

/// An optional author: absent or null gives nothing, any other value its
/// author.
pub open spec fn optional_author_of(field: Option<JsonModel>) -> Option<AuthorModel> {
    match field {
        None => None,
        Some(JsonModel::Null) => None,
        Some(value) => Some(author_of(value)),
    }
}

/// The first field of `record` that cannot be read, if there is one.
pub open spec fn first_fault(record: JsonModel) -> Option<Field> {
    if required_text_of(member(record, "name"@)) is None {
        Some(Field::Name)
    } else if optional_text_of(member(record, "@id"@)) is None {
        Some(Field::Id)
    } else if optional_text_of(member(record, "description"@)) is None {
        Some(Field::Description)
    } else if optional_text_of(member(record, "cookTime"@)) is None {
        Some(Field::CookTime)
    } else if optional_text_of(member(record, "prepTime"@)) is None {
        Some(Field::PrepTime)
    } else if optional_nutrition_of(member(record, "nutrition"@)) is None {
        Some(Field::Nutrition)
    } else if optional_string_list_of(member(record, "recipeYield"@)) is None {
        Some(Field::RecipeYield)
    } else if instructions_of(member(record, "recipeInstructions"@)) is None {
        Some(Field::Instructions)
    } else if ingredients_of(member(record, "recipeIngredient"@)) is None {
        Some(Field::Ingredients)
    } else if optional_string_list_of(member(record, "recipeCategory"@)) is None {
        Some(Field::Category)
    } else if optional_text_of(member(record, "totalTime"@)) is None {
        Some(Field::TotalTime)
    } else if optional_text_of(member(record, "keywords"@)) is None {
        Some(Field::Keywords)
    } else if optional_video_of(member(record, "video"@)) is None {
        Some(Field::Video)
    } else {
        None
    }
}

/// The recipe that a record without a fault holds.
pub open spec fn recipe_of(record: JsonModel) -> RecipeModel {
    RecipeModel {
        name: required_text_of(member(record, "name"@))->Some_0,
        id: optional_text_of(member(record, "@id"@))->Some_0,
        description: optional_text_of(member(record, "description"@))->Some_0,
        image: optional_image_of(member(record, "image"@)),
        cook_time: optional_text_of(member(record, "cookTime"@))->Some_0,
        prep_time: optional_text_of(member(record, "prepTime"@))->Some_0,
        nutrition: optional_nutrition_of(member(record, "nutrition"@))->Some_0,
        recipe_yield: optional_string_list_of(member(record, "recipeYield"@))->Some_0,
        instructions: instructions_of(member(record, "recipeInstructions"@))->Some_0,
        ingredients: ingredients_of(member(record, "recipeIngredient"@))->Some_0,
        category: optional_string_list_of(member(record, "recipeCategory"@))->Some_0,
        author: optional_author_of(member(record, "author"@)),
        total_time: optional_text_of(member(record, "totalTime"@))->Some_0,
        keywords: optional_text_of(member(record, "keywords"@))->Some_0,
        video: optional_video_of(member(record, "video"@))->Some_0,
    }
}

/// What reading a record gives: its recipe, or its first fault.
pub open spec fn decoded(record: JsonModel) -> Result<RecipeModel, DecodeError> {
    match first_fault(record) {
        Some(field) => Err(DecodeError { field }),
        None => Ok(recipe_of(record)),
    }
}

/// Whether the `@type` of `value` is the string `Recipe`.
pub fn has_recipe_type(value: &Json) -> (yes: bool)
    ensures
        yes == is_recipe(value@),
{
    match value.get("@type") {
        Some(Json::Text(s)) => crate::json::key_is(s, "Recipe"),
        _ => false,
    }
}

/// Finds the recipe record of a document, as [`located`] defines it.
pub fn locate(doc: &Json) -> (found: Option<&Json>)
    ensures
        match found {
            Some(record) => located(doc@) == Some(record@),
            None => located(doc@) is None,
        },
{
    match doc.get("@graph") {
        Some(Json::Array(items)) => {
            let ghost all = models(items@);
            proof {
                lemma_array_view(*items);
                assert(all.skip(0) =~= all);
            }
            let mut i: usize = 0;
            while i < items.len()
                invariant
                    i <= items.len(),
                    all == models(items@),
                    member(doc@, "@graph"@) == Some(JsonModel::Array(all)),
                    first_recipe(all) == first_recipe(all.skip(i as int)),
                decreases items.len() - i,
            {
                proof {
                    assert(all.skip(i as int).drop_first() =~= all.skip(i + 1));
                    assert(all.skip(i as int)[0] == items@[i as int]@);
                }
                if has_recipe_type(&items[i]) {
                    return Some(&items[i]);
                }
                i += 1;
            }
            None
        },
        _ => if has_recipe_type(doc) {
            Some(doc)
        } else {
            None
        },
    }
}

/// Reads the member `key` of `record` as an optional list that may come as
/// one bare string.
pub fn optional_string_list(record: &Json, key: &str) -> (r: Option<Option<VecOrString>>)
    ensures
        match r {
            Some(list) => optional_string_list_of(member(record@, key@)) == Some(opt_view(list)),
            None => optional_string_list_of(member(record@, key@)) is None,
        },
{
    match record.get(key) {
        None => Some(None),
        Some(Json::Null) => Some(None),
        Some(value) => match VecOrString::decode(value) {
            Some(list) => Some(Some(list)),
            None => None,
        },
    }
}

/// Reads the member `key` of `record` as an optional nutrition record.
pub fn optional_nutrition(record: &Json, key: &str) -> (r: Option<Option<Nutrition>>)
    ensures
        match r {
            Some(n) => optional_nutrition_of(member(record@, key@)) == Some(opt_view(n)),
            None => optional_nutrition_of(member(record@, key@)) is None,
        },
{
    match record.get(key) {
        None => Some(None),
        Some(Json::Null) => Some(None),
        Some(value) => match Nutrition::decode(value) {
            Some(n) => Some(Some(n)),
            None => None,
        },
    }
}

/// Reads the member `key` of `record` as an optional video record.
pub fn optional_video(record: &Json, key: &str) -> (r: Option<Option<Video>>)
    ensures
        match r {
            Some(v) => optional_video_of(member(record@, key@)) == Some(opt_view(v)),
            None => optional_video_of(member(record@, key@)) is None,
        },
{
    match record.get(key) {
        None => Some(None),
        Some(Json::Null) => Some(None),
        Some(value) => match Video::decode(value) {
            Some(v) => Some(Some(v)),
            None => None,
        },
    }
}

/// Reads the member `key` of `record` as an optional image list.
pub fn optional_image(record: &Json, key: &str) -> (r: Option<Image>)
    ensures
        opt_view(r) == optional_image_of(member(record@, key@)),
{
    match record.get(key) {
        None => None,
        Some(Json::Null) => None,
        Some(value) => Some(Image::decode(value)),
    }
}

/// Reads the member `key` of `record` as an optional author.
pub fn optional_author(record: &Json, key: &str) -> (r: Option<Author>)
    ensures
        opt_view(r) == optional_author_of(member(record@, key@)),
{
    match record.get(key) {
        None => None,
        Some(Json::Null) => None,
        Some(value) => Some(Author::decode(value)),
    }
}

impl Recipe {
    /// Reads a record into the canonical recipe, as [`decoded`] defines it:
    /// the recipe where no field has a fault, else the first fault.
    pub fn decode(record: &Json) -> (r: Result<Recipe, DecodeError>)
        ensures
            match r {
                Ok(recipe) => decoded(record@) == Ok::<RecipeModel, DecodeError>(recipe@),
                Err(e) => decoded(record@) == Err::<RecipeModel, DecodeError>(e),
            },
    {
        let name = match required_text(record, "name") {
            Some(x) => x,
            None => {
                return Err(DecodeError { field: Field::Name });
            },
        };
        let id = match optional_text(record, "@id") {
            Some(x) => x,
            None => {
                return Err(DecodeError { field: Field::Id });
            },
        };
        let description = match optional_text(record, "description") {
            Some(x) => x,
            None => {
                return Err(DecodeError { field: Field::Description });
            },
        };
        let image = optional_image(record, "image");
        let cook_time = match optional_text(record, "cookTime") {
            Some(x) => x,
            None => {
                return Err(DecodeError { field: Field::CookTime });
            },
        };
        let prep_time = match optional_text(record, "prepTime") {
            Some(x) => x,
            None => {
                return Err(DecodeError { field: Field::PrepTime });
            },
        };
        let nutrition = match optional_nutrition(record, "nutrition") {
            Some(x) => x,
            None => {
                return Err(DecodeError { field: Field::Nutrition });
            },
        };
        let recipe_yield = match optional_string_list(record, "recipeYield") {
            Some(x) => x,
            None => {
                return Err(DecodeError { field: Field::RecipeYield });
            },
        };
        let instructions = match instruction_list(record, "recipeInstructions") {
            Some(x) => x,
            None => {
                return Err(DecodeError { field: Field::Instructions });
            },
        };
        let ingredients = match ingredient_list(record, "recipeIngredient") {
            Some(x) => x,
            None => {
                return Err(DecodeError { field: Field::Ingredients });
            },
        };
        let category = match optional_string_list(record, "recipeCategory") {
            Some(x) => x,
            None => {
                return Err(DecodeError { field: Field::Category });
            },
        };
        let author = optional_author(record, "author");
        let total_time = match optional_text(record, "totalTime") {
            Some(x) => x,
            None => {
                return Err(DecodeError { field: Field::TotalTime });
            },
        };
        let keywords = match optional_text(record, "keywords") {
            Some(x) => x,
            None => {
                return Err(DecodeError { field: Field::Keywords });
            },
        };
        let video = match optional_video(record, "video") {
            Some(x) => x,
            None => {
                return Err(DecodeError { field: Field::Video });
            },
        };
        Ok(
            Recipe {
                name,
                id,
                description,
                image,
                cook_time,
                prep_time,
                nutrition,
                recipe_yield,
                instructions,
                ingredients,
                category,
                author,
                total_time,
                keywords,
                video,
            },
        )
    }
}

} // verus!
