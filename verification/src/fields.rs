//! The shape rules of the single fields: what each accepts, what it makes of
//! it, and where it gives up.

use vstd::prelude::*;
use crate::json::{
    Json, JsonModel, Member, lemma_array_view, lemma_object_view, lookup, member, member_models,
    models,
};
use crate::recipe::{
    Author, AuthorModel, Image, Instruction, InstructionModel, Nutrition, NutritionModel,
    VecOrString, Video, VideoModel, opt_text, steps, texts,
};

verus! {

/// The texts of an optional optional string.
pub open spec fn opt_opt_text(o: Option<Option<String>>) -> Option<Option<Seq<char>>> {
    match o {
        Some(inner) => Some(opt_text(inner)),
        None => None,
    }
}

/// A plain optional string: absent or null gives nothing, a string gives
/// itself, any other kind is refused (the outer `None`).
pub open spec fn optional_text_of(field: Option<JsonModel>) -> Option<Option<Seq<char>>> {
    match field {
        None => Some(None),
        Some(JsonModel::Null) => Some(None),
        Some(JsonModel::Text(s)) => Some(Some(s)),
        Some(_) => None,
    }
}

/// A plain required string: only a string is accepted.
pub open spec fn required_text_of(field: Option<JsonModel>) -> Option<Seq<char>> {
    match field {
        Some(JsonModel::Text(s)) => Some(s),
        _ => None,
    }
}

/// A string member of a step: absent gives nothing, a string gives itself,
/// any other kind (null too) is refused.
pub open spec fn strict_text_of(field: Option<JsonModel>) -> Option<Option<Seq<char>>> {
    match field {
        None => Some(None),
        Some(JsonModel::Text(s)) => Some(Some(s)),
        Some(_) => None,
    }
}

/// A string member where a wrong kind counts as absent.
pub open spec fn lenient_text_of(field: Option<JsonModel>) -> Option<Seq<char>> {
    match field {
        Some(JsonModel::Text(s)) => Some(s),
        _ => None,
    }
}

/// The strings at the front of `items`, up to the first item that is no
/// string.
pub open spec fn leading_texts(items: Seq<JsonModel>) -> Seq<Seq<char>>
    decreases items.len(),
{
    if items.len() == 0 {
        Seq::empty()
    } else {
        match items[0] {
            JsonModel::Text(s) => seq![s] + leading_texts(items.drop_first()),
            _ => Seq::empty(),
        }
    }
}

/// A list that may come as one bare string: a string gives a list of one, an
/// array gives its leading strings, any other kind is refused.
pub open spec fn string_list_of(value: JsonModel) -> Option<Seq<Seq<char>>> {
    match value {
        JsonModel::Text(s) => Some(seq![s]),
        JsonModel::Array(items) => Some(leading_texts(items)),
        _ => None,
    }
}

/// An optional list that may come as one bare string.
pub open spec fn optional_string_list_of(field: Option<JsonModel>) -> Option<Option<Seq<Seq<char>>>> {
    match field {
        None => Some(None),
        Some(JsonModel::Null) => Some(None),
        Some(value) => match string_list_of(value) {
            Some(list) => Some(Some(list)),
            None => None,
        },
    }
}

/// The image addresses of a value, whatever its kind: a string gives a list
/// of one, an array its leading strings, an object the string under `@id` if
/// it has one, anything else the empty list.
pub open spec fn image_list_of(value: JsonModel) -> Seq<Seq<char>> {
    match value {
        JsonModel::Text(s) => seq![s],
        JsonModel::Array(items) => leading_texts(items),
        JsonModel::Object(members) => match lookup(members, "@id"@) {
            Some(JsonModel::Text(s)) => seq![s],
            _ => Seq::empty(),
        },
        _ => Seq::empty(),
    }
}

/// The author with no field set.
pub open spec fn blank_author() -> AuthorModel {
    AuthorModel { name: None, url: None, id: None }
}

/// The author that the members of an object name.
pub open spec fn author_from(members: Seq<(Seq<char>, JsonModel)>) -> AuthorModel {
    AuthorModel {
        name: lenient_text_of(lookup(members, "name"@)),
        url: lenient_text_of(lookup(members, "url"@)),
        id: lenient_text_of(lookup(members, "@id"@)),
    }
}

/// Whether every member holds a string.
pub open spec fn all_text_values(members: Seq<(Seq<char>, JsonModel)>) -> bool {
    forall|i: int| 0 <= i < members.len() ==> (#[trigger] members[i]).1 is Text
}

/// The author of a value, whatever its kind: an object names it; an array
/// names it by its first item, where that is an object of strings only;
/// anything else gives the blank author.
pub open spec fn author_of(value: JsonModel) -> AuthorModel {
    match value {
        JsonModel::Object(members) => author_from(members),
        JsonModel::Array(items) => if items.len() > 0 {
            match items[0] {
                JsonModel::Object(members) => if all_text_values(members) {
                    author_from(members)
                } else {
                    blank_author()
                },
                _ => blank_author(),
            }
        } else {
            blank_author()
        },
        _ => blank_author(),
    }
}

/// The text of a step given as an optional member: the empty text where the
/// member is absent.
pub open spec fn text_or_empty(o: Option<Seq<char>>) -> Seq<char> {
    match o {
        Some(s) => s,
        None => Seq::empty(),
    }
}

/// Whether the members of a step can be read: each of `text`, `name`,
/// `image` and `url` is absent or a string.
pub open spec fn step_readable(members: Seq<(Seq<char>, JsonModel)>) -> bool {
    &&& strict_text_of(lookup(members, "text"@)) is Some
    &&& strict_text_of(lookup(members, "name"@)) is Some
    &&& strict_text_of(lookup(members, "image"@)) is Some
    &&& strict_text_of(lookup(members, "url"@)) is Some
}

/// One step: a bare string is its text; an object gives `text`, `name`,
/// `image` and `url`, other members being ignored; any other kind is
/// refused.
pub open spec fn instruction_of(value: JsonModel) -> Option<InstructionModel> {
    match value {
        JsonModel::Text(s) => Some(
            InstructionModel { text: s, image: None, name: None, url: None, video: None },
        ),
        JsonModel::Object(members) => if step_readable(members) {
            Some(
                InstructionModel {
                    text: text_or_empty(strict_text_of(lookup(members, "text"@))->Some_0),
                    image: strict_text_of(lookup(members, "image"@))->Some_0,
                    name: strict_text_of(lookup(members, "name"@))->Some_0,
                    url: strict_text_of(lookup(members, "url"@))->Some_0,
                    video: None,
                },
            )
        } else {
            None
        },
        _ => None,
    }
}

/// The steps of a recipe: an array each of whose items is a step.
pub open spec fn instructions_of(field: Option<JsonModel>) -> Option<Seq<InstructionModel>> {
    match field {
        Some(JsonModel::Array(items)) => if forall|i: int|
            0 <= i < items.len() ==> instruction_of(#[trigger] items[i]) is Some {
            Some(Seq::new(items.len(), |i: int| instruction_of(items[i])->Some_0))
        } else {
            None
        },
        _ => None,
    }
}

/// The ingredients of a recipe: an array each of whose items is a string.
pub open spec fn ingredients_of(field: Option<JsonModel>) -> Option<Seq<Seq<char>>> {
    match field {
        Some(JsonModel::Array(items)) => if forall|i: int|
            0 <= i < items.len() ==> (#[trigger] items[i]) is Text {
            Some(Seq::new(items.len(), |i: int| items[i]->Text_0))
        } else {
            None
        },
        _ => None,
    }
}

/// The nutrition facts of an object: `calories` and `servingSize`, each a
/// plain optional string.
pub open spec fn nutrition_of(value: JsonModel) -> Option<NutritionModel> {
    match value {
        JsonModel::Object(members) => match (
            optional_text_of(lookup(members, "calories"@)),
            optional_text_of(lookup(members, "servingSize"@)),
        ) {
            (Some(calories), Some(serving_size)) => Some(NutritionModel { calories, serving_size }),
            _ => None,
        },
        _ => None,
    }
}

/// An optional nutrition record.
pub open spec fn optional_nutrition_of(field: Option<JsonModel>) -> Option<Option<NutritionModel>> {
    match field {
        None => Some(None),
        Some(JsonModel::Null) => Some(None),
        Some(value) => match nutrition_of(value) {
            Some(n) => Some(Some(n)),
            None => None,
        },
    }
}

/// The video of an object: its `name`, a required string.
pub open spec fn video_of(value: JsonModel) -> Option<VideoModel> {
    match value {
        JsonModel::Object(members) => match required_text_of(lookup(members, "name"@)) {
            Some(name) => Some(VideoModel { name }),
            None => None,
        },
        _ => None,
    }
}

/// An optional video record.
pub open spec fn optional_video_of(field: Option<JsonModel>) -> Option<Option<VideoModel>> {
    match field {
        None => Some(None),
        Some(JsonModel::Null) => Some(None),
        Some(value) => match video_of(value) {
            Some(v) => Some(Some(v)),
            None => None,
        },
    }
}

/// Reads the member `key` of `record` as a plain optional string.
pub fn optional_text(record: &Json, key: &str) -> (r: Option<Option<String>>)
    ensures
        opt_opt_text(r) == optional_text_of(member(record@, key@)),
{
    match record.get(key) {
        None => Some(None),
        Some(value) => match value {
            Json::Null => Some(None),
            Json::Text(s) => Some(Some(s.clone())),
            _ => None,
        },
    }
}

/// Reads the member `key` of `record` as a plain required string.
pub fn required_text(record: &Json, key: &str) -> (r: Option<String>)
    ensures
        opt_text(r) == required_text_of(member(record@, key@)),
{
    match record.get(key) {
        Some(Json::Text(s)) => Some(s.clone()),
        _ => None,
    }
}

/// Reads the member `key` of a step.
pub fn strict_text(record: &Json, key: &str) -> (r: Option<Option<String>>)
    ensures
        opt_opt_text(r) == strict_text_of(member(record@, key@)),
{
    match record.get(key) {
        None => Some(None),
        Some(value) => match value {
            Json::Text(s) => Some(Some(s.clone())),
            _ => None,
        },
    }
}

/// Reads the member `key` of `record`, a wrong kind counting as absent.
pub fn lenient_text(record: &Json, key: &str) -> (r: Option<String>)
    ensures
        opt_text(r) == lenient_text_of(member(record@, key@)),
{
    match record.get(key) {
        Some(Json::Text(s)) => Some(s.clone()),
        _ => None,
    }
}

/// Collects the strings at the front of `items`.
pub fn leading_strings(items: &Vec<Json>) -> (out: Vec<String>)
    ensures
        texts(out@) == leading_texts(models(items@)),
{
    let mut out: Vec<String> = Vec::new();
    let ghost all = models(items@);
    let mut i: usize = 0;
    proof {
        assert(all.skip(0) =~= all);
        assert(texts(out@) + leading_texts(all) =~= leading_texts(all));
    }
    while i < items.len()
        invariant
            i <= items.len(),
            all == models(items@),
            leading_texts(all) == texts(out@) + leading_texts(all.skip(i as int)),
        decreases items.len() - i,
    {
        proof {
            assert(all.skip(i as int).drop_first() =~= all.skip(i + 1));
            assert(all.skip(i as int)[0] == items@[i as int]@);
        }
        match &items[i] {
            Json::Text(s) => {
                let ghost before = out@;
                out.push(s.clone());
                proof {
                    assert(texts(out@) =~= texts(before) + seq![s@]);
                    assert(texts(out@) + leading_texts(all.skip(i + 1)) =~= texts(before) + (seq![s@]
                        + leading_texts(all.skip(i + 1))));
                }
            },
            _ => {
                proof {
                    assert(texts(out@) + Seq::<Seq<char>>::empty() =~= texts(out@));
                }
                return out;
            },
        }
        i += 1;
    }
    proof {
        assert(texts(out@) + Seq::<Seq<char>>::empty() =~= texts(out@));
    }
    out
}

impl VecOrString {
    /// Reads a list that may come as one bare string, as
    /// [`string_list_of`] defines it.
    pub fn decode(value: &Json) -> (r: Option<VecOrString>)
        ensures
            match r {
                Some(list) => string_list_of(value@) == Some(list@),
                None => string_list_of(value@) is None,
            },
    {
        match value {
            Json::Text(s) => {
                let mut out: Vec<String> = Vec::new();
                out.push(s.clone());
                proof {
                    assert(texts(out@) =~= seq![s@]);
                }
                Some(VecOrString(out))
            },
            Json::Array(items) => {
                proof {
                    lemma_array_view(*items);
                }
                Some(VecOrString(leading_strings(items)))
            },
            _ => None,
        }
    }
}

impl Image {
    /// Reads the image addresses of a value of any kind, as
    /// [`image_list_of`] defines it.
    pub fn decode(value: &Json) -> (image: Image)
        ensures
            image@ == image_list_of(value@),
    {
        let mut out: Vec<String> = Vec::new();
        match value {
            Json::Text(s) => {
                out.push(s.clone());
                proof {
                    assert(texts(out@) =~= seq![s@]);
                }
            },
            Json::Array(items) => {
                proof {
                    lemma_array_view(*items);
                }
                out = leading_strings(items);
            },
            Json::Object(_) => {
                match lenient_text(value, "@id") {
                    Some(s) => {
                        out.push(s);
                        proof {
                            assert(texts(out@) =~= seq![s@]);
                        }
                    },
                    None => {
                        proof {
                            assert(texts(out@) =~= Seq::<Seq<char>>::empty());
                        }
                    },
                }
            },
            _ => {
                proof {
                    assert(texts(out@) =~= Seq::<Seq<char>>::empty());
                }
            },
        }
        Image(out)
    }
}

/// Whether every member of an object holds a string.
fn holds_only_strings(members: &Vec<Member>) -> (all: bool)
    ensures
        all == all_text_values(member_models(members@)),
{
    let mut i: usize = 0;
    while i < members.len()
        invariant
            i <= members.len(),
            forall|j: int| 0 <= j < i ==> (#[trigger] member_models(members@)[j]).1 is Text,
        decreases members.len() - i,
    {
        proof {
            assert(member_models(members@)[i as int].1 == members@[i as int].value@);
        }
        match &members[i].value {
            Json::Text(_) => {},
            _ => {
                return false;
            },
        }
        i += 1;
    }
    true
}

impl Author {
    /// The author with no field set.
    pub fn blank() -> (author: Author)
        ensures
            author@ == blank_author(),
    {
        Author { name: None, url: None, id: None }
    }

    /// Reads `name`, `url` and `@id` from an object.
    fn from_object(value: &Json) -> (author: Author)
        requires
            value@ is Object,
        ensures
            author@ == author_from(value@->Object_0),
    {
        Author {
            name: lenient_text(value, "name"),
            url: lenient_text(value, "url"),
            id: lenient_text(value, "@id"),
        }
    }

    /// Reads the author of a value of any kind, as [`author_of`] defines
    /// it.
    pub fn decode(value: &Json) -> (author: Author)
        ensures
            author@ == author_of(value@),
    {
        match value {
            Json::Object(_) => Author::from_object(value),
            Json::Array(items) => {
                proof {
                    lemma_array_view(*items);
                }
                if items.len() == 0 {
                    return Author::blank();
                }
                let first = &items[0];
                proof {
                    assert(models(items@)[0] == first@);
                }
                match first {
                    Json::Object(members) => {
                        proof {
                            lemma_object_view(*members);
                        }
                        if holds_only_strings(members) {
                            Author::from_object(first)
                        } else {
                            Author::blank()
                        }
                    },
                    _ => Author::blank(),
                }
            },
            _ => Author::blank(),
        }
    }
}

impl Instruction {
    /// Reads one step, as [`instruction_of`] defines it.
    pub fn decode(value: &Json) -> (r: Option<Instruction>)
        ensures
            match r {
                Some(step) => instruction_of(value@) == Some(step@),
                None => instruction_of(value@) is None,
            },
    {
        match value {
            Json::Text(s) => Some(
                Instruction { text: s.clone(), image: None, name: None, url: None, video: None },
            ),
            Json::Object(_) => {
                let text = strict_text(value, "text");
                let name = strict_text(value, "name");
                let image = strict_text(value, "image");
                let url = strict_text(value, "url");
                match (text, name, image, url) {
                    (Some(text), Some(name), Some(image), Some(url)) => {
                        let text = match text {
                            Some(t) => t,
                            None => String::new(),
                        };
                        Some(Instruction { text, image, name, url, video: None })
                    },
                    _ => None,
                }
            },
            _ => None,
        }
    }
}

/// Reads the member `key` of `record` as the steps of a recipe.
pub fn instruction_list(record: &Json, key: &str) -> (r: Option<Vec<Instruction>>)
    ensures
        match r {
            Some(list) => instructions_of(member(record@, key@)) == Some(steps(list@)),
            None => instructions_of(member(record@, key@)) is None,
        },
{
    match record.get(key) {
        Some(Json::Array(items)) => {
            proof {
                lemma_array_view(*items);
            }
            let ghost all = models(items@);
            let mut out: Vec<Instruction> = Vec::new();
            let mut i: usize = 0;
            while i < items.len()
                invariant
                    i <= items.len(),
                    all == models(items@),
                    member(record@, key@) == Some(JsonModel::Array(all)),
                    out@.len() == i,
                    forall|j: int| 0 <= j < i ==> instruction_of(#[trigger] all[j]) == Some(out@[j]@),
                decreases items.len() - i,
            {
                proof {
                    assert(all[i as int] == items@[i as int]@);
                }
                match Instruction::decode(&items[i]) {
                    Some(step) => {
                        out.push(step);
                    },
                    None => {
                        proof {
                            assert(instruction_of(all[i as int]) is None);
                        }
                        return None;
                    },
                }
                i += 1;
            }
            proof {
                assert(steps(out@) =~= Seq::new(all.len(), |i: int| instruction_of(all[i])->Some_0));
            }
            Some(out)
        },
        _ => None,
    }
}

/// Reads the member `key` of `record` as the ingredients of a recipe.
pub fn ingredient_list(record: &Json, key: &str) -> (r: Option<Vec<String>>)
    ensures
        match r {
            Some(list) => ingredients_of(member(record@, key@)) == Some(texts(list@)),
            None => ingredients_of(member(record@, key@)) is None,
        },
{
    match record.get(key) {
        Some(Json::Array(items)) => {
            proof {
                lemma_array_view(*items);
            }
            let ghost all = models(items@);
            let mut out: Vec<String> = Vec::new();
            let mut i: usize = 0;
            while i < items.len()
                invariant
                    i <= items.len(),
                    all == models(items@),
                    member(record@, key@) == Some(JsonModel::Array(all)),
                    out@.len() == i,
                    forall|j: int| 0 <= j < i ==> (#[trigger] all[j]) == JsonModel::Text(out@[j]@),
                decreases items.len() - i,
            {
                proof {
                    assert(all[i as int] == items@[i as int]@);
                }
                match &items[i] {
                    Json::Text(s) => {
                        out.push(s.clone());
                    },
                    _ => {
                        proof {
                            assert(!(all[i as int] is Text));
                        }
                        return None;
                    },
                }
                i += 1;
            }
            proof {
                assert(texts(out@) =~= Seq::new(all.len(), |i: int| all[i]->Text_0));
            }
            Some(out)
        },
        _ => None,
    }
}

impl Nutrition {
    /// Reads the nutrition facts of an object, as [`nutrition_of`] defines
    /// them.
    pub fn decode(value: &Json) -> (r: Option<Nutrition>)
        ensures
            match r {
                Some(n) => nutrition_of(value@) == Some(n@),
                None => nutrition_of(value@) is None,
            },
    {
        match value {
            Json::Object(_) => {
                let calories = optional_text(value, "calories");
                let serving = optional_text(value, "servingSize");
                match (calories, serving) {
                    (Some(calories), Some(serving)) => Some(
                        Nutrition { calories, servingSize: serving },
                    ),
                    _ => None,
                }
            },
            _ => None,
        }
    }
}

impl Video {
    /// Reads the video of an object, as [`video_of`] defines it.
    pub fn decode(value: &Json) -> (r: Option<Video>)
        ensures
            match r {
                Some(v) => video_of(value@) == Some(v@),
                None => video_of(value@) is None,
            },
    {
        match value {
            Json::Object(_) => match required_text(value, "name") {
                Some(name) => Some(Video { name }),
                None => None,
            },
            _ => None,
        }
    }
}

} // verus!
