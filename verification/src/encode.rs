//! Writing a recipe back as a JSON-LD record, and the proof that reading
//! the record gives the recipe again.

use vstd::prelude::*;
use crate::json::{
    Json, JsonModel, Member, Members, lemma_array_view, lemma_lookup_absent, lemma_lookup_at,
    lemma_lookup_joined, lemma_object_view, lookup, member, member_models, models,
};
use crate::recipe::{
    Author, AuthorModel, Image, Instruction, InstructionModel, Nutrition, NutritionModel, Recipe,
    RecipeModel, VecOrString, Video, VideoModel, opt_text, steps, texts,
};
use crate::fields::{
    author_of, image_list_of, ingredients_of, instruction_of, instructions_of, nutrition_of,
    string_list_of, video_of,
};
use crate::decode::{DecodeError, decoded, first_fault, located, recipe_of};
use crate::laws::{all_texts, lemma_string_array_keeps_order, texts_in};

verus! {

/// An optional string as a value: the string, or null.
pub open spec fn text_or_null(o: Option<Seq<char>>) -> JsonModel {
    match o {
        Some(s) => JsonModel::Text(s),
        None => JsonModel::Null,
    }
}

/// A list of strings as an array.
pub open spec fn text_array(list: Seq<Seq<char>>) -> JsonModel {
    JsonModel::Array(Seq::new(list.len(), |i: int| JsonModel::Text(list[i])))
}

/// An optional list of strings as a value: the array, or null.
pub open spec fn array_or_null(o: Option<Seq<Seq<char>>>) -> JsonModel {
    match o {
        Some(list) => text_array(list),
        None => JsonModel::Null,
    }
}

/// An optional string as an optional value.
pub open spec fn optional_text_value(o: Option<Seq<char>>) -> Option<JsonModel> {
    match o {
        Some(s) => Some(JsonModel::Text(s)),
        None => None,
    }
}

/// An optional string as the members that it adds to an object: one, or
/// none.
pub open spec fn optional_member(key: Seq<char>, o: Option<Seq<char>>) -> Members {
    match o {
        Some(s) => seq![(key, JsonModel::Text(s))],
        None => Seq::empty(),
    }
}

/// A step as an object: its text, and each of `name`, `image` and `url` that
/// it has.
pub open spec fn instruction_json(step: InstructionModel) -> JsonModel {
    JsonModel::Object(
        seq![("text"@, JsonModel::Text(step.text))] + optional_member("name"@, step.name)
            + optional_member("image"@, step.image) + optional_member("url"@, step.url),
    )
}

/// The steps as an array of objects.
pub open spec fn instruction_array(list: Seq<InstructionModel>) -> JsonModel {
    JsonModel::Array(Seq::new(list.len(), |i: int| instruction_json(list[i])))
}

pub open spec fn nutrition_json(n: NutritionModel) -> JsonModel {
    JsonModel::Object(
        seq![
            ("calories"@, text_or_null(n.calories)),
            ("servingSize"@, text_or_null(n.serving_size)),
        ],
    )
}

pub open spec fn video_json(v: VideoModel) -> JsonModel {
    JsonModel::Object(seq![("name"@, JsonModel::Text(v.name))])
}

pub open spec fn author_json(a: AuthorModel) -> JsonModel {
    JsonModel::Object(
        seq![
            ("name"@, text_or_null(a.name)),
            ("url"@, text_or_null(a.url)),
            ("@id"@, text_or_null(a.id)),
        ],
    )
}

/// The members of the record of a recipe: its type, then one member for
/// each field, null where the field is absent, each list as an array.
pub open spec fn encoded_members(r: RecipeModel) -> Members {
    seq![
        ("@type"@, JsonModel::Text("Recipe"@)),
        ("name"@, JsonModel::Text(r.name)),
        ("@id"@, text_or_null(r.id)),
        ("description"@, text_or_null(r.description)),
        ("image"@, array_or_null(r.image)),
        ("cookTime"@, text_or_null(r.cook_time)),
        ("prepTime"@, text_or_null(r.prep_time)),
        (
            "nutrition"@,
            match r.nutrition {
                Some(n) => nutrition_json(n),
                None => JsonModel::Null,
            },
        ),
        ("recipeYield"@, array_or_null(r.recipe_yield)),
        ("recipeInstructions"@, instruction_array(r.instructions)),
        ("recipeIngredient"@, text_array(r.ingredients)),
        ("recipeCategory"@, array_or_null(r.category)),
        (
            "author"@,
            match r.author {
                Some(a) => author_json(a),
                None => JsonModel::Null,
            },
        ),
        ("totalTime"@, text_or_null(r.total_time)),
        ("keywords"@, text_or_null(r.keywords)),
        (
            "video"@,
            match r.video {
                Some(v) => video_json(v),
                None => JsonModel::Null,
            },
        ),
    ]
}

/// The JSON-LD record of a recipe.
pub open spec fn encoded(r: RecipeModel) -> JsonModel {
    JsonModel::Object(encoded_members(r))
}

/// Whether a recipe is one that reading can give: no step has a video.
pub open spec fn canonical(r: RecipeModel) -> bool {
    forall|i: int| 0 <= i < r.instructions.len() ==> (#[trigger] r.instructions[i]).video is None
}

/// Looking a key up among the members that an optional string adds.
pub proof fn lemma_lookup_optional_member(name: Seq<char>, o: Option<Seq<char>>, key: Seq<char>)
    ensures
        lookup(optional_member(name, o), key) == if key == name && o is Some {
            Some(JsonModel::Text(o->Some_0))
        } else {
            None
        },
{
    reveal_with_fuel(lookup, 2);
    if o is Some {
        assert(optional_member(name, o).drop_first().len() == 0);
    }
}

/// The four keys of a step are four different texts.
pub proof fn lemma_step_keys_differ()
    ensures
        "text"@ != "name"@,
        "text"@ != "image"@,
        "text"@ != "url"@,
        "name"@ != "image"@,
        "name"@ != "url"@,
        "image"@ != "url"@,
{
    reveal_strlit("text");
    reveal_strlit("name");
    reveal_strlit("image");
    reveal_strlit("url");
    assert("text"@[0] == 't' && "name"@[0] == 'n' && "image"@[0] == 'i' && "url"@[0] == 'u');
}

/// Reading the object of a step without a video gives the step again.
pub proof fn lemma_instruction_round_trip(step: InstructionModel)
    requires
        step.video is None,
    ensures
        instruction_of(instruction_json(step)) == Some(step),
{
    let head: Members = seq![("text"@, JsonModel::Text(step.text))];
    let n = optional_member("name"@, step.name);
    let i = optional_member("image"@, step.image);
    let u = optional_member("url"@, step.url);
    let all = head + n + i + u;
    lemma_step_keys_differ();
    reveal_with_fuel(lookup, 2);
    assert(head.drop_first().len() == 0);
    assert forall|key: Seq<char>|
        lookup(all, key) == if key == "text"@ {
            Some(JsonModel::Text(step.text))
        } else if key == "name"@ && step.name is Some {
            Some(JsonModel::Text(step.name->Some_0))
        } else if key == "image"@ && step.image is Some {
            Some(JsonModel::Text(step.image->Some_0))
        } else if key == "url"@ && step.url is Some {
            Some(JsonModel::Text(step.url->Some_0))
        } else {
            None
        } by {
        lemma_lookup_joined(head + n + i, u, key);
        lemma_lookup_joined(head + n, i, key);
        lemma_lookup_joined(head, n, key);
        lemma_lookup_optional_member("name"@, step.name, key);
        lemma_lookup_optional_member("image"@, step.image, key);
        lemma_lookup_optional_member("url"@, step.url, key);
    }
    assert(lookup(all, "text"@) == Some(JsonModel::Text(step.text)));
    assert(lookup(all, "name"@) == optional_text_value(step.name));
    assert(lookup(all, "image"@) == optional_text_value(step.image));
    assert(lookup(all, "url"@) == optional_text_value(step.url));
}

/// Reading the array of a list of strings, as a list that may come as one
/// bare string, gives the list again.
pub proof fn lemma_text_array_round_trip(list: Seq<Seq<char>>)
    ensures
        string_list_of(text_array(list)) == Some(list),
        image_list_of(text_array(list)) == list,
        ingredients_of(Some(text_array(list))) == Some(list),
{
    let items = text_array(list)->Array_0;
    assert(all_texts(items));
    lemma_string_array_keeps_order(items);
    assert(texts_in(items) =~= list);
}

/// Reading the object of nutrition facts gives the facts again.
pub proof fn lemma_nutrition_round_trip(n: NutritionModel)
    ensures
        nutrition_of(nutrition_json(n)) == Some(n),
{
    reveal_strlit("calories");
    reveal_strlit("servingSize");
    assert("calories"@.len() == 8 && "servingSize"@.len() == 11);
    let m = nutrition_json(n)->Object_0;
    lemma_lookup_at(m, "calories"@, 0);
    lemma_lookup_at(m, "servingSize"@, 1);
}

/// Reading the object of a video gives the video again.
pub proof fn lemma_video_round_trip(v: VideoModel)
    ensures
        video_of(video_json(v)) == Some(v),
{
    lemma_lookup_at(video_json(v)->Object_0, "name"@, 0);
}

/// Reading the object of an author gives the author again.
pub proof fn lemma_author_round_trip(a: AuthorModel)
    ensures
        author_of(author_json(a)) == a,
{
    reveal_strlit("name");
    reveal_strlit("url");
    reveal_strlit("@id");
    assert("url"@.len() == 3 && "@id"@.len() == 3 && "name"@.len() == 4);
    assert("url"@[0] == 'u' && "@id"@[0] == '@');
    let m = author_json(a)->Object_0;
    lemma_lookup_at(m, "name"@, 0);
    lemma_lookup_at(m, "url"@, 1);
    lemma_lookup_at(m, "@id"@, 2);
}

/// Reading the array of steps without a video gives the steps again.
pub proof fn lemma_instruction_array_round_trip(list: Seq<InstructionModel>)
    requires
        forall|i: int| 0 <= i < list.len() ==> (#[trigger] list[i]).video is None,
    ensures
        instructions_of(Some(instruction_array(list))) == Some(list),
{
    let items = instruction_array(list)->Array_0;
    assert forall|i: int| 0 <= i < items.len() implies instruction_of(#[trigger] items[i]) == Some(
        list[i],
    ) by {
        assert(list[i].video is None);
        lemma_instruction_round_trip(list[i]);
    }
    assert(Seq::new(items.len(), |i: int| instruction_of(items[i])->Some_0) =~= list);
}

/// What each key of the record of a recipe holds, and that the record has
/// no `@graph`.
pub proof fn lemma_encoded_members(r: RecipeModel)
    ensures
        member(encoded(r), "@graph"@) is None,
        member(encoded(r), "@type"@) == Some(JsonModel::Text("Recipe"@)),
        member(encoded(r), "name"@) == Some(JsonModel::Text(r.name)),
        member(encoded(r), "@id"@) == Some(text_or_null(r.id)),
        member(encoded(r), "description"@) == Some(text_or_null(r.description)),
        member(encoded(r), "image"@) == Some(array_or_null(r.image)),
        member(encoded(r), "cookTime"@) == Some(text_or_null(r.cook_time)),
        member(encoded(r), "prepTime"@) == Some(text_or_null(r.prep_time)),
        member(encoded(r), "nutrition"@) == Some(encoded_members(r)[7].1),
        member(encoded(r), "recipeYield"@) == Some(array_or_null(r.recipe_yield)),
        member(encoded(r), "recipeInstructions"@) == Some(instruction_array(r.instructions)),
        member(encoded(r), "recipeIngredient"@) == Some(text_array(r.ingredients)),
        member(encoded(r), "recipeCategory"@) == Some(array_or_null(r.category)),
        member(encoded(r), "author"@) == Some(encoded_members(r)[12].1),
        member(encoded(r), "totalTime"@) == Some(text_or_null(r.total_time)),
        member(encoded(r), "keywords"@) == Some(text_or_null(r.keywords)),
        member(encoded(r), "video"@) == Some(encoded_members(r)[15].1),
{
    reveal_strlit("@graph");
    reveal_strlit("@type");
    reveal_strlit("name");
    reveal_strlit("@id");
    reveal_strlit("description");
    reveal_strlit("image");
    reveal_strlit("cookTime");
    reveal_strlit("prepTime");
    reveal_strlit("nutrition");
    reveal_strlit("recipeYield");
    reveal_strlit("recipeInstructions");
    reveal_strlit("recipeIngredient");
    reveal_strlit("recipeCategory");
    reveal_strlit("author");
    reveal_strlit("totalTime");
    reveal_strlit("keywords");
    reveal_strlit("video");
    assert("@id"@.len() == 3 && "name"@.len() == 4);
    assert("@type"@.len() == 5 && "image"@.len() == 5 && "video"@.len() == 5);
    assert("@graph"@.len() == 6 && "author"@.len() == 6);
    assert("cookTime"@.len() == 8 && "prepTime"@.len() == 8 && "keywords"@.len() == 8);
    assert("nutrition"@.len() == 9 && "totalTime"@.len() == 9);
    assert("description"@.len() == 11 && "recipeYield"@.len() == 11);
    assert("recipeCategory"@.len() == 14 && "recipeIngredient"@.len() == 16);
    assert("recipeInstructions"@.len() == 18);
    assert("@graph"@[0] == '@' && "author"@[0] == 'a');
    assert("@type"@[0] == '@' && "image"@[0] == 'i' && "video"@[0] == 'v');
    assert("description"@[0] == 'd' && "recipeYield"@[0] == 'r');
    assert("cookTime"@[0] == 'c' && "prepTime"@[0] == 'p' && "keywords"@[0] == 'k');
    assert("nutrition"@[0] == 'n' && "totalTime"@[0] == 't');
    let m = encoded_members(r);
    lemma_lookup_absent(m, "@graph"@);
    lemma_lookup_at(m, "@type"@, 0);
    lemma_lookup_at(m, "name"@, 1);
    lemma_lookup_at(m, "@id"@, 2);
    lemma_lookup_at(m, "description"@, 3);
    lemma_lookup_at(m, "image"@, 4);
    lemma_lookup_at(m, "cookTime"@, 5);
    lemma_lookup_at(m, "prepTime"@, 6);
    lemma_lookup_at(m, "nutrition"@, 7);
    lemma_lookup_at(m, "recipeYield"@, 8);
    lemma_lookup_at(m, "recipeInstructions"@, 9);
    lemma_lookup_at(m, "recipeIngredient"@, 10);
    lemma_lookup_at(m, "recipeCategory"@, 11);
    lemma_lookup_at(m, "author"@, 12);
    lemma_lookup_at(m, "totalTime"@, 13);
    lemma_lookup_at(m, "keywords"@, 14);
    lemma_lookup_at(m, "video"@, 15);
}

/// The locator finds the record of a recipe, and reading it gives the
/// recipe again, where no step of it has a video.
pub proof fn lemma_round_trip(r: RecipeModel)
    requires
        canonical(r),
    ensures
        located(encoded(r)) == Some(encoded(r)),
        decoded(encoded(r)) == Ok::<RecipeModel, DecodeError>(r),
{
    let record = encoded(r);
    lemma_encoded_members(r);
    lemma_text_array_round_trip(r.ingredients);
    lemma_instruction_array_round_trip(r.instructions);
    if r.image is Some {
        lemma_text_array_round_trip(r.image->Some_0);
    }
    if r.recipe_yield is Some {
        lemma_text_array_round_trip(r.recipe_yield->Some_0);
    }
    if r.category is Some {
        lemma_text_array_round_trip(r.category->Some_0);
    }
    if r.nutrition is Some {
        lemma_nutrition_round_trip(r.nutrition->Some_0);
    }
    if r.author is Some {
        lemma_author_round_trip(r.author->Some_0);
    }
    if r.video is Some {
        lemma_video_round_trip(r.video->Some_0);
    }
    assert(first_fault(record) is None);
    let back = recipe_of(record);
    assert(back.image == r.image);
    assert(back.nutrition == r.nutrition);
    assert(back.recipe_yield == r.recipe_yield);
    assert(back.category == r.category);
    assert(back.author == r.author);
    assert(back.video == r.video);
    assert(back.instructions == r.instructions);
    assert(back.ingredients == r.ingredients);
    assert(back == r);
}

/// A recipe that reading gave has no step with a video.
pub proof fn lemma_decoded_is_canonical(record: JsonModel)
    requires
        decoded(record) is Ok,
    ensures
        canonical(decoded(record)->Ok_0),
{
}

/// Reading a record, writing the recipe back and reading that gives the
/// same recipe.
pub proof fn lemma_decode_encode_decode(record: JsonModel)
    requires
        decoded(record) is Ok,
    ensures
        decoded(encoded(decoded(record)->Ok_0)) == decoded(record),
{
    lemma_decoded_is_canonical(record);
    lemma_round_trip(decoded(record)->Ok_0);
}

/// A member of an object under the key `key`.
fn entry(key: &str, value: Json) -> (m: Member)
    ensures
        m.key@ == key@,
        m.value == value,
{
    Member { key: key.to_owned(), value }
}

/// A string as a value.
fn text_json(s: &String) -> (json: Json)
    ensures
        json@ == JsonModel::Text(s@),
{
    Json::Text(s.clone())
}

/// An optional string as a value.
fn optional_text_json(o: &Option<String>) -> (json: Json)
    ensures
        json@ == text_or_null(opt_text(*o)),
{
    match o {
        Some(s) => text_json(s),
        None => Json::Null,
    }
}

/// A list of strings as an array.
fn list_json(list: &Vec<String>) -> (json: Json)
    ensures
        json@ == text_array(texts(list@)),
{
    let mut out: Vec<Json> = Vec::new();
    let mut i: usize = 0;
    while i < list.len()
        invariant
            i <= list.len(),
            out@.len() == i,
            forall|j: int| 0 <= j < i ==> (#[trigger] out@[j])@ == JsonModel::Text(list@[j]@),
        decreases list.len() - i,
    {
        out.push(text_json(&list[i]));
        i += 1;
    }
    proof {
        lemma_array_view(out);
        assert(models(out@) =~= text_array(texts(list@))->Array_0);
    }
    Json::Array(out)
}

impl Instruction {
    /// Writes the step as an object: its text, and each of `name`, `image`
    /// and `url` that it has. A video is not written.
    pub fn encode(&self) -> (json: Json)
        ensures
            json@ == instruction_json(self@),
    {
        let mut members: Vec<Member> = Vec::new();
        members.push(entry("text", text_json(&self.text)));
        let ghost head = member_models(members@);
        proof {
            assert(head =~= seq![("text"@, JsonModel::Text(self.text@))]);
        }
        match &self.name {
            Some(s) => {
                members.push(entry("name", text_json(s)));
            },
            None => {},
        }
        let ghost named = member_models(members@);
        proof {
            assert(named =~= head + optional_member("name"@, opt_text(self.name)));
        }
        match &self.image {
            Some(s) => {
                members.push(entry("image", text_json(s)));
            },
            None => {},
        }
        let ghost imaged = member_models(members@);
        proof {
            assert(imaged =~= named + optional_member("image"@, opt_text(self.image)));
        }
        match &self.url {
            Some(s) => {
                members.push(entry("url", text_json(s)));
            },
            None => {},
        }
        proof {
            assert(member_models(members@) =~= imaged + optional_member("url"@, opt_text(self.url)));
            lemma_object_view(members);
        }
        Json::Object(members)
    }
}

/// The steps as an array of objects.
fn instruction_list_json(list: &Vec<Instruction>) -> (json: Json)
    ensures
        json@ == instruction_array(steps(list@)),
{
    let mut out: Vec<Json> = Vec::new();
    let mut i: usize = 0;
    while i < list.len()
        invariant
            i <= list.len(),
            out@.len() == i,
            forall|j: int| 0 <= j < i ==> (#[trigger] out@[j])@ == instruction_json(list@[j]@),
        decreases list.len() - i,
    {
        out.push(list[i].encode());
        i += 1;
    }
    proof {
        lemma_array_view(out);
        assert(models(out@) =~= instruction_array(steps(list@))->Array_0);
    }
    Json::Array(out)
}

impl Nutrition {
    /// Writes the facts as an object, null for an absent one.
    pub fn encode(&self) -> (json: Json)
        ensures
            json@ == nutrition_json(self@),
    {
        let mut members: Vec<Member> = Vec::new();
        members.push(entry("calories", optional_text_json(&self.calories)));
        members.push(entry("servingSize", optional_text_json(&self.servingSize)));
        proof {
            lemma_object_view(members);
            assert(member_models(members@) =~= nutrition_json(self@)->Object_0);
        }
        Json::Object(members)
    }
}

impl Video {
    /// Writes the video as an object.
    pub fn encode(&self) -> (json: Json)
        ensures
            json@ == video_json(self@),
    {
        let mut members: Vec<Member> = Vec::new();
        members.push(entry("name", text_json(&self.name)));
        proof {
            lemma_object_view(members);
            assert(member_models(members@) =~= video_json(self@)->Object_0);
        }
        Json::Object(members)
    }
}

impl Author {
    /// Writes the author as an object, null for an absent field.
    pub fn encode(&self) -> (json: Json)
        ensures
            json@ == author_json(self@),
    {
        let mut members: Vec<Member> = Vec::new();
        members.push(entry("name", optional_text_json(&self.name)));
        members.push(entry("url", optional_text_json(&self.url)));
        members.push(entry("@id", optional_text_json(&self.id)));
        proof {
            lemma_object_view(members);
            assert(member_models(members@) =~= author_json(self@)->Object_0);
        }
        Json::Object(members)
    }
}

impl VecOrString {
    /// Writes the list as an array of strings.
    pub fn encode(&self) -> (json: Json)
        ensures
            json@ == text_array(self@),
    {
        list_json(&self.0)
    }
}

impl Image {
    /// Writes the addresses as an array of strings.
    pub fn encode(&self) -> (json: Json)
        ensures
            json@ == text_array(self@),
    {
        list_json(&self.0)
    }
}

impl Recipe {
    /// Writes the recipe as a JSON-LD record of type `Recipe`, as
    /// [`encoded`] defines it: one member for each field, null where the
    /// field is absent, each list as an array.
    pub fn encode(&self) -> (json: Json)
        ensures
            json@ == encoded(self@),
    {
        let image = match &self.image {
            Some(list) => list.encode(),
            None => Json::Null,
        };
        let nutrition = match &self.nutrition {
            Some(n) => n.encode(),
            None => Json::Null,
        };
        let recipe_yield = match &self.recipe_yield {
            Some(list) => list.encode(),
            None => Json::Null,
        };
        let category = match &self.category {
            Some(list) => list.encode(),
            None => Json::Null,
        };
        let author = match &self.author {
            Some(a) => a.encode(),
            None => Json::Null,
        };
        let video = match &self.video {
            Some(v) => v.encode(),
            None => Json::Null,
        };
        let mut members: Vec<Member> = Vec::new();
        members.push(entry("@type", Json::Text("Recipe".to_owned())));
        members.push(entry("name", text_json(&self.name)));
        members.push(entry("@id", optional_text_json(&self.id)));
        members.push(entry("description", optional_text_json(&self.description)));
        members.push(entry("image", image));
        members.push(entry("cookTime", optional_text_json(&self.cook_time)));
        members.push(entry("prepTime", optional_text_json(&self.prep_time)));
        members.push(entry("nutrition", nutrition));
        members.push(entry("recipeYield", recipe_yield));
        members.push(entry("recipeInstructions", instruction_list_json(&self.instructions)));
        members.push(entry("recipeIngredient", list_json(&self.ingredients)));
        members.push(entry("recipeCategory", category));
        members.push(entry("author", author));
        members.push(entry("totalTime", optional_text_json(&self.total_time)));
        members.push(entry("keywords", optional_text_json(&self.keywords)));
        members.push(entry("video", video));
        proof {
            lemma_object_view(members);
            assert(member_models(members@) =~= encoded_members(self@));
        }
        Json::Object(members)
    }
}

} // verus!
