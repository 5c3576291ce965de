//! The canonical recipe and its parts, each with its mathematical model.

use vstd::prelude::*;

verus! {

/// The text of an optional string.
pub open spec fn opt_text(o: Option<String>) -> Option<Seq<char>> {
    match o {
        Some(s) => Some(s@),
        None => None,
    }
}

/// The texts of a list of strings, in order.
pub open spec fn texts(v: Seq<String>) -> Seq<Seq<char>> {
    Seq::new(v.len(), |i: int| v[i]@)
}

#[derive(Debug)]
#[allow(non_snake_case)]
pub struct Nutrition {
    pub calories: Option<String>,
    pub servingSize: Option<String>,
}

pub struct NutritionModel {
    pub calories: Option<Seq<char>>,
    pub serving_size: Option<Seq<char>>,
}

impl View for Nutrition {
    type V = NutritionModel;

    open spec fn view(&self) -> NutritionModel {
        NutritionModel {
            calories: opt_text(self.calories),
            serving_size: opt_text(self.servingSize),
        }
    }
}

#[derive(Debug)]
pub struct Video {
    pub name: String,
}

pub struct VideoModel {
    pub name: Seq<char>,
}

impl View for Video {
    type V = VideoModel;

    open spec fn view(&self) -> VideoModel {
        VideoModel { name: self.name@ }
    }
}

/// One step of a recipe.
#[derive(Debug)]
pub struct Instruction {
    pub text: String,
    pub image: Option<String>,
    pub name: Option<String>,
    pub url: Option<String>,
    pub video: Option<String>,
}

pub struct InstructionModel {
    pub text: Seq<char>,
    pub image: Option<Seq<char>>,
    pub name: Option<Seq<char>>,
    pub url: Option<Seq<char>>,
    pub video: Option<Seq<char>>,
}

impl View for Instruction {
    type V = InstructionModel;

    open spec fn view(&self) -> InstructionModel {
        InstructionModel {
            text: self.text@,
            image: opt_text(self.image),
            name: opt_text(self.name),
            url: opt_text(self.url),
            video: opt_text(self.video),
        }
    }
}

impl Default for Instruction {
    /// The step with the empty text and nothing else.
    fn default() -> (step: Instruction)
        ensures
            step@ == (InstructionModel {
                text: Seq::empty(),
                image: None,
                name: None,
                url: None,
                video: None,
            }),
    {
        Instruction { text: String::new(), image: None, name: None, url: None, video: None }
    }
}

/// The models of a list of steps, in order.
pub open spec fn steps(v: Seq<Instruction>) -> Seq<InstructionModel> {
    Seq::new(v.len(), |i: int| v[i]@)
}

#[derive(Debug)]
pub struct Author {
    pub name: Option<String>,
    pub url: Option<String>,
    pub id: Option<String>,
}

pub struct AuthorModel {
    pub name: Option<Seq<char>>,
    pub url: Option<Seq<char>>,
    pub id: Option<Seq<char>>,
}

impl View for Author {
    type V = AuthorModel;

    open spec fn view(&self) -> AuthorModel {
        AuthorModel { name: opt_text(self.name), url: opt_text(self.url), id: opt_text(self.id) }
    }
}

impl Default for Author {
    /// The author with no field set.
    fn default() -> (author: Author)
        ensures
            author@ == (AuthorModel { name: None, url: None, id: None }),
    {
        Author { name: None, url: None, id: None }
    }
}

/// A list of strings that a document may give as one bare string.
#[derive(Debug)]
pub struct VecOrString(pub Vec<String>);

impl View for VecOrString {
    type V = Seq<Seq<char>>;

    open spec fn view(&self) -> Seq<Seq<char>> {
        texts(self.0@)
    }
}

/// A list of image addresses.
#[derive(Debug)]
pub struct Image(pub Vec<String>);

impl View for Image {
    type V = Seq<Seq<char>>;

    open spec fn view(&self) -> Seq<Seq<char>> {
        texts(self.0@)
    }
}

/// The canonical recipe.
#[derive(Debug)]
pub struct Recipe {
    pub name: String,
    pub id: Option<String>,
    pub description: Option<String>,
    pub image: Option<Image>,
    pub cook_time: Option<String>,
    pub prep_time: Option<String>,
    pub nutrition: Option<Nutrition>,
    pub recipe_yield: Option<VecOrString>,
    pub instructions: Vec<Instruction>,
    pub ingredients: Vec<String>,
    pub category: Option<VecOrString>,
    pub author: Option<Author>,
    pub total_time: Option<String>,
    pub keywords: Option<String>,
    pub video: Option<Video>,
}

pub struct RecipeModel {
    pub name: Seq<char>,
    pub id: Option<Seq<char>>,
    pub description: Option<Seq<char>>,
    pub image: Option<Seq<Seq<char>>>,
    pub cook_time: Option<Seq<char>>,
    pub prep_time: Option<Seq<char>>,
    pub nutrition: Option<NutritionModel>,
    pub recipe_yield: Option<Seq<Seq<char>>>,
    pub instructions: Seq<InstructionModel>,
    pub ingredients: Seq<Seq<char>>,
    pub category: Option<Seq<Seq<char>>>,
    pub author: Option<AuthorModel>,
    pub total_time: Option<Seq<char>>,
    pub keywords: Option<Seq<char>>,
    pub video: Option<VideoModel>,
}

/// The model of an optional value that has a view.
pub open spec fn opt_view<T: View>(o: Option<T>) -> Option<T::V> {
    match o {
        Some(x) => Some(x@),
        None => None,
    }
}

impl View for Recipe {
    type V = RecipeModel;

    open spec fn view(&self) -> RecipeModel {
        RecipeModel {
            name: self.name@,
            id: opt_text(self.id),
            description: opt_text(self.description),
            image: opt_view(self.image),
            cook_time: opt_text(self.cook_time),
            prep_time: opt_text(self.prep_time),
            nutrition: opt_view(self.nutrition),
            recipe_yield: opt_view(self.recipe_yield),
            instructions: steps(self.instructions@),
            ingredients: texts(self.ingredients@),
            category: opt_view(self.category),
            author: opt_view(self.author),
            total_time: opt_text(self.total_time),
            keywords: opt_text(self.keywords),
            video: opt_view(self.video),
        }
    }
}

} // verus!
