//! From the text of a page to its recipe: the JSON-LD blocks are collected
//! by `scraper`, the rest is the scan.

use vstd::prelude::*;
use crate::decode::DecodeError;
use crate::recipe::{Recipe, RecipeModel, texts};
use crate::scan::{ScanError, gives, parse_recipe_from_blocks, require_blocks, scan_result};

verus! {

/// Why a page gave no recipe.
#[derive(Clone, Copy, Debug, PartialEq, Eq, Structural)]
pub enum PageError {
    /// The selector for the JSON-LD blocks was refused.
    Selector,
    /// The page has no JSON-LD block.
    NoLDData,
    /// No block holds a recipe record.
    NoRecipeFound,
    /// The first recipe record found cannot be read.
    MalformedRecipe(DecodeError),
}

/// Why a page gave no JSON-LD blocks.
#[derive(Clone, Copy, Debug, PartialEq, Eq, Structural)]
pub enum ExtractError {
    /// The selector for the JSON-LD blocks was refused.
    Selector,
    /// The page has no JSON-LD block.
    NoLDData,
}

/// The selector of the JSON-LD blocks of a page.
pub open spec fn ld_json_selector() -> Seq<char> {
    "script[type=\"application/ld+json\"]"@
}

/// The inner HTML of the elements of a page that a selector selects, in
/// document order, as `scraper` gives them; nothing where `scraper` refuses
/// the selector. Nothing more is said of it here.
pub uninterp spec fn selected(page: Seq<char>, selector: Seq<char>) -> Option<Seq<Seq<char>>>;

/// The texts of an optional list of blocks.
pub open spec fn selection_texts(found: Option<Vec<String>>) -> Option<Seq<Seq<char>>> {
    match found {
        Some(blocks) => Some(texts(blocks@)),
        None => None,
    }
}

/// Calls `scraper`: `Selector::parse` on `selector`, `Html::parse_document`
/// on `page`, then `Html::select`, taking `ElementRef::inner_html` of each
/// element that it yields, in its order. `None` where the selector is
/// refused. Trusted: the outcome depends on the two texts alone, and is the
/// one that [`selected`] names.
#[verifier::external_body]
fn select_inner_html(page: &str, selector: &str) -> (found: Option<Vec<String>>)
    ensures
        selection_texts(found) == selected(page@, selector@),
{
    let selector = scraper::Selector::parse(selector).ok()?;
    let html = scraper::Html::parse_document(page);
    Some(html.select(&selector).map(|element| element.inner_html()).collect())
}

/// What a selection comes to as a list of blocks: an empty one is refused.
pub open spec fn extract_result(found: Option<Seq<Seq<char>>>) -> Result<
    Seq<Seq<char>>,
    ExtractError,
> {
    match found {
        None => Err(ExtractError::Selector),
        Some(blocks) => if blocks.len() == 0 {
            Err(ExtractError::NoLDData)
        } else {
            Ok(blocks)
        },
    }
}

/// What a selection comes to: the outcome of the scan of its blocks, where
/// it has any.
pub open spec fn selection_result(found: Option<Seq<Seq<char>>>) -> Result<RecipeModel, PageError> {
    match found {
        None => Err(PageError::Selector),
        Some(blocks) => if blocks.len() == 0 {
            Err(PageError::NoLDData)
        } else {
            match scan_result(blocks) {
                Ok(recipe) => Ok(recipe),
                Err(ScanError::NoRecipeFound) => Err(PageError::NoRecipeFound),
                Err(ScanError::MalformedRecipe(e)) => Err(PageError::MalformedRecipe(e)),
            }
        },
    }
}

/// Whether a list of blocks, or the error in its place, is the given
/// result.
pub open spec fn gives_blocks(
    r: Result<Vec<String>, ExtractError>,
    expected: Result<Seq<Seq<char>>, ExtractError>,
) -> bool {
    match r {
        Ok(blocks) => expected == Ok::<Seq<Seq<char>>, ExtractError>(texts(blocks@)),
        Err(e) => expected == Err::<Seq<Seq<char>>, ExtractError>(e),
    }
}

/// Turns what the selection of the JSON-LD elements gave into the list of
/// blocks, refusing an empty one.
pub fn blocks_of_selection(found: Option<Vec<String>>) -> (r: Result<Vec<String>, ExtractError>)
    ensures
        gives_blocks(r, extract_result(selection_texts(found))),
        r matches Ok(blocks) ==> found == Some(blocks),
{
    match found {
        None => Err(ExtractError::Selector),
        Some(blocks) => match require_blocks(blocks) {
            Ok(kept) => Ok(kept),
            Err(_) => Err(ExtractError::NoLDData),
        },
    }
}

/// Collects the contents of the `script` elements of type
/// `application/ld+json` of a page, in document order. A page without any
/// is refused.
pub fn extract_json_ld_from_html(page: &str) -> (r: Result<Vec<String>, ExtractError>)
    ensures
        gives_blocks(r, extract_result(selected(page@, ld_json_selector()))),
{
    blocks_of_selection(select_inner_html(page, "script[type=\"application/ld+json\"]"))
}

/// Scans what the selection of the JSON-LD elements gave, as
/// [`selection_result`] defines it.
pub fn recipe_of_selection(found: Option<Vec<String>>) -> (r: Result<Recipe, PageError>)
    ensures
        gives(r, selection_result(selection_texts(found))),
{
    match blocks_of_selection(found) {
        Err(ExtractError::Selector) => Err(PageError::Selector),
        Err(ExtractError::NoLDData) => Err(PageError::NoLDData),
        Ok(blocks) => match parse_recipe_from_blocks(&blocks) {
            Ok(recipe) => Ok(recipe),
            Err(ScanError::NoRecipeFound) => Err(PageError::NoRecipeFound),
            Err(ScanError::MalformedRecipe(e)) => Err(PageError::MalformedRecipe(e)),
        },
    }
}

/// Finds the recipe of a page: collects its JSON-LD blocks and scans them
/// in order.
pub fn parse_recipe_from_page(page: &str) -> (r: Result<Recipe, PageError>)
    ensures
        gives(r, selection_result(selected(page@, ld_json_selector()))),
{
    recipe_of_selection(select_inner_html(page, "script[type=\"application/ld+json\"]"))
}

} // verus!
