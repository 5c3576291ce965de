//! Scanning the JSON-LD blocks of a page, in order, for the first recipe.

use vstd::prelude::*;
use crate::json::{Json, JsonModel};
use crate::parse::parsed;
use crate::recipe::{Recipe, RecipeModel, texts};
use crate::decode::{DecodeError, decoded, locate, located};

verus! {

/// What one block came to, where it gave no recipe.
#[derive(Clone, Copy, Debug, PartialEq, Eq, Structural)]
pub enum BlockError {
    /// The block is no JSON document.
    JsonSyntax,
    /// The document holds no recipe record.
    NoRecipeFound,
    /// The document holds a recipe record that cannot be read.
    MalformedRecipe(DecodeError),
}

/// Why a page gave no recipe.
#[derive(Clone, Copy, Debug, PartialEq, Eq, Structural)]
pub enum ScanError {
    /// No block holds a recipe record.
    NoRecipeFound,
    /// The first recipe record found cannot be read.
    MalformedRecipe(DecodeError),
}

/// A page without a single JSON-LD block.
#[derive(Clone, Copy, Debug, PartialEq, Eq, Structural)]
pub struct NoBlocksError;

/// What a parsed document comes to.
pub open spec fn document_result(doc: JsonModel) -> Result<RecipeModel, BlockError> {
    match located(doc) {
        None => Err(BlockError::NoRecipeFound),
        Some(record) => match decoded(record) {
            Ok(recipe) => Ok(recipe),
            Err(e) => Err(BlockError::MalformedRecipe(e)),
        },
    }
}

/// What the outcome of parsing a block comes to.
pub open spec fn parse_result(outcome: Option<JsonModel>) -> Result<RecipeModel, BlockError> {
    match outcome {
        None => Err(BlockError::JsonSyntax),
        Some(doc) => document_result(doc),
    }
}

/// What one block comes to.
pub open spec fn block_result(text: Seq<char>) -> Result<RecipeModel, BlockError> {
    parse_result(parsed(text))
}

/// What a list of block outcomes comes to: the first recipe, or the first
/// malformed one, whichever comes first; blocks that are no JSON or hold no
/// recipe record are passed over.
pub open spec fn first_outcome(outcomes: Seq<Result<RecipeModel, BlockError>>) -> Result<
    RecipeModel,
    ScanError,
>
    decreases outcomes.len(),
{
    if outcomes.len() == 0 {
        Err(ScanError::NoRecipeFound)
    } else {
        match outcomes[0] {
            Ok(recipe) => Ok(recipe),
            Err(BlockError::MalformedRecipe(e)) => Err(ScanError::MalformedRecipe(e)),
            Err(_) => first_outcome(outcomes.drop_first()),
        }
    }
}

/// What the blocks of a page come to, one by one.
pub open spec fn block_results(blocks: Seq<Seq<char>>) -> Seq<Result<RecipeModel, BlockError>> {
    Seq::new(blocks.len(), |i: int| block_result(blocks[i]))
}

/// What a page comes to.
pub open spec fn scan_result(blocks: Seq<Seq<char>>) -> Result<RecipeModel, ScanError> {
    first_outcome(block_results(blocks))
}

/// Whether an outcome is the given result.
pub open spec fn gives<E>(r: Result<Recipe, E>, expected: Result<RecipeModel, E>) -> bool {
    match r {
        Ok(recipe) => expected == Ok::<RecipeModel, E>(recipe@),
        Err(e) => expected == Err::<RecipeModel, E>(e),
    }
}

/// Finds and reads the recipe record of a parsed document.
pub fn recipe_in_document(doc: &Json) -> (r: Result<Recipe, BlockError>)
    ensures
        gives(r, document_result(doc@)),
{
    match locate(doc) {
        None => Err(BlockError::NoRecipeFound),
        Some(record) => match Recipe::decode(record) {
            Ok(recipe) => Ok(recipe),
            Err(e) => Err(BlockError::MalformedRecipe(e)),
        },
    }
}

/// Reads the recipe of one block of text.
pub fn parse_json_to_recipe(raw_json_ld: &str) -> (r: Result<Recipe, BlockError>)
    ensures
        gives(r, block_result(raw_json_ld@)),
{
    match Json::parse(raw_json_ld) {
        Err(_) => Err(BlockError::JsonSyntax),
        Ok(doc) => recipe_in_document(&doc),
    }
}

/// Scans the blocks of a page in order and returns the first recipe. A
/// block that is no JSON, or holds no recipe record, is passed over; a
/// recipe record that cannot be read ends the scan with its fault.
pub fn parse_recipe_from_blocks(blocks: &Vec<String>) -> (r: Result<Recipe, ScanError>)
    ensures
        gives(r, scan_result(texts(blocks@))),
{
    let ghost all = block_results(texts(blocks@));
    proof {
        assert(all.skip(0) =~= all);
    }
    let mut i: usize = 0;
    while i < blocks.len()
        invariant
            i <= blocks.len(),
            all == block_results(texts(blocks@)),
            first_outcome(all) == first_outcome(all.skip(i as int)),
        decreases blocks.len() - i,
    {
        proof {
            assert(all.skip(i as int).drop_first() =~= all.skip(i + 1));
            assert(all.skip(i as int)[0] == block_result(blocks@[i as int]@));
        }
        match parse_json_to_recipe(blocks[i].as_str()) {
            Ok(recipe) => {
                return Ok(recipe);
            },
            Err(BlockError::MalformedRecipe(e)) => {
                return Err(ScanError::MalformedRecipe(e));
            },
            Err(_) => {},
        }
        i += 1;
    }
    Err(ScanError::NoRecipeFound)
}

/// Refuses a page that has no JSON-LD block at all, so that it can be told
/// from a page whose blocks hold no recipe.
pub fn require_blocks(blocks: Vec<String>) -> (r: Result<Vec<String>, NoBlocksError>)
    ensures
        match r {
            Ok(kept) => blocks@.len() > 0 && kept == blocks,
            Err(_) => blocks@.len() == 0,
        },
{
    if blocks.len() == 0 {
        Err(NoBlocksError)
    } else {
        Ok(blocks)
    }
}

} // verus!
