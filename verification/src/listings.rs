//! Game families, the hot list and search results, as their endpoints return them.
use vstd::prelude::*;

use crate::decode::{
    result_view, set_once, unexpected_link, unexpected_link_message, vacant, FieldError,
    FieldErrorView,
};
use crate::models::{Game, ItemType, NameType};
use crate::text::{concat, int_parse_error_text, parse_outcome, parse_unsigned};

verus! {

broadcast use vstd::string::group_string_axioms;

/// The message for a number field whose text does not parse.
pub open spec fn u64_field_message(e: crate::text::IntParseError) -> Seq<char> {
    "failed to parse value a u64: "@ + int_parse_error_text(e)
}

/// Reads the text of a number field.
pub fn parse_u64_field(s: &str) -> (r: Result<u64, FieldError>)
    ensures
        result_view(r) == match parse_outcome(s@, u64::MAX as nat) {
            Ok(n) => Ok::<u64, FieldErrorView>(n as u64),
            Err(e) => Err(FieldErrorView::Custom(u64_field_message(e))),
        },
{
    match parse_unsigned(s, u64::MAX) {
        Ok(n) => Ok(n),
        Err(e) => {
            let m = e.message();
            Err(FieldError::Custom(concat("failed to parse value a u64: ", m.as_str())))
        },
    }
}

/// A family of games, such as a series, with the games in it.
#[derive(Clone, Debug)]
pub struct GameFamily {
    /// The ID of the family.
    pub id: u64,
    /// The name of the family.
    pub name: String,
    /// Alternate names of the family.
    pub alternate_names: Vec<String>,
    /// A link to a jpg image for the family, if it has one.
    pub image: Option<String>,
    /// A link to a jpg thumbnail image for the family, if it has one.
    pub thumbnail: Option<String>,
    /// A description of the family.
    pub description: String,
    /// The games in the family.
    pub games: Vec<Game>,
}

/// An item on the hot list.
#[derive(Clone, Debug)]
pub struct HotItem {
    /// The ID of the item.
    pub id: u64,
    /// Its place on the hot list, from 1.
    pub rank: u64,
    /// A link to a jpg thumbnail image for the item.
    pub thumbnail: String,
    /// The name of the item.
    pub name: String,
    /// The year the item was published.
    pub year_published: i64,
}

/// The hot list: the items most viewed on the site lately.
#[derive(Clone, Debug)]
pub struct HotList {
    /// The items, in the order of the list.
    pub items: Vec<HotItem>,
}

/// A game on the hot list of games.
#[derive(Clone, Debug)]
pub struct HotListGame {
    /// The ID of the game.
    pub id: u64,
    /// Its place on the hot list, from 1.
    pub rank: u64,
    /// A link to a jpg thumbnail image for the game, if it has one.
    pub thumbnail: Option<String>,
    /// The name of the game.
    pub name: String,
    /// The year the game was published.
    pub year_published: i64,
}

/// A result of a search.
#[derive(Clone, Debug)]
pub struct SearchResult {
    /// The ID of the item.
    pub id: u64,
    /// The type of the item.
    pub item_type: ItemType,
    /// The name of the item.
    pub name: String,
    /// The year the item was published, when the API gives one.
    pub year_published: Option<i64>,
}

/// The results of a search.
#[derive(Clone, Debug)]
pub struct SearchResults {
    /// The results, in the order the API gives them.
    pub results: Vec<SearchResult>,
}

/// The first field of a game family that must be given and was not, if any.
pub open spec fn family_missing(f: GameFamilyFieldsView) -> Option<Seq<char>> {
    if f.id is None {
        Some("id"@)
    } else if f.name is None {
        Some("name"@)
    } else if f.thumbnail is None {
        Some("thumbnail"@)
    } else if f.image is None {
        Some("image"@)
    } else if f.description is None {
        Some("description"@)
    } else {
        None
    }
}

/// The error that finishing a game family gives, if any.
pub open spec fn family_finish_error(f: GameFamilyFieldsView) -> Option<FieldErrorView> {
    match family_missing(f) {
        Some(n) => Some(FieldErrorView::Missing(n)),
        None => None,
    }
}

/// Whether a game family is the one that these fields make.
pub open spec fn family_built(x: GameFamily, f: GameFamilyFieldsView) -> bool {
    &&& x.id == f.id.unwrap()
    &&& x.name == f.name.unwrap()
    &&& x.alternate_names@ == f.alternate_names
    &&& x.image == f.image.unwrap()
    &&& x.thumbnail == f.thumbnail.unwrap()
    &&& x.description == f.description.unwrap()
    &&& x.games@ == f.games
}

/// The kinds of field of a game family, as the keys of its XML object.
#[derive(Clone, Copy, Debug, PartialEq, Eq, Structural)]
pub enum GameFamilyField {
    /// The `id` field.
    Id,
    /// The `image` field.
    Image,
    /// The `thumbnail` field.
    Thumbnail,
    /// The `description` field.
    Description,
    /// A `name` field, primary or alternate.
    Name,
    /// A `link` field.
    Link,
    /// The `type` field.
    Type,
}

/// The value of a field of a game family, read from the XML.
#[derive(Clone, Debug)]
pub enum GameFamilyValue {
    /// The `id` field: its ID.
    Id(u64),
    /// The `image` field: the link to its image, if any.
    Image(Option<String>),
    /// The `thumbnail` field: the link to its thumbnail, if any.
    Thumbnail(Option<String>),
    /// The `description` field: its description.
    Description(String),
    /// A `name` field: a primary or an alternate name.
    Name(NameType, String),
    /// A `link` field: a game of the family.
    Link(ItemType, u64, String),
    /// The `type` field, always `boardgamefamily`, which is read and dropped.
    Type(String),
}

/// The fields of a game family read so far.
#[derive(Clone, Debug)]
pub struct GameFamilyFields {
    id: Option<u64>,
    image: Option<Option<String>>,
    thumbnail: Option<Option<String>>,
    description: Option<String>,
    name: Option<String>,
    alternate_names: Vec<String>,
    games: Vec<Game>,
}

/// The fields of a game family read so far, as mathematical values.
#[verifier::ext_equal]
pub ghost struct GameFamilyFieldsView {
    /// The `id` field, once read: its ID.
    pub id: Option<u64>,
    /// The `image` field, once read: the link to its image, if any.
    pub image: Option<Option<String>>,
    /// The `thumbnail` field, once read: the link to its thumbnail, if any.
    pub thumbnail: Option<Option<String>>,
    /// The `description` field, once read: its description.
    pub description: Option<String>,
    /// The primary name, once read.
    pub name: Option<String>,
    /// The alternate names read so far.
    pub alternate_names: Seq<String>,
    /// The games read so far.
    pub games: Seq<Game>,
}

impl View for GameFamilyFields {
    type V = GameFamilyFieldsView;

    closed spec fn view(&self) -> GameFamilyFieldsView {
        GameFamilyFieldsView {
            id: self.id,
            image: self.image,
            thumbnail: self.thumbnail,
            description: self.description,
            name: self.name,
            alternate_names: self.alternate_names@,
            games: self.games@,
        }
    }
}

/// Whether a key may come next: a field that may be given once is refused when it was
/// given already.
pub open spec fn family_key_check(f: GameFamilyFieldsView, key: GameFamilyField) -> Result<(), FieldErrorView> {
    match key {
        GameFamilyField::Id => if f.id is Some {
            Err(FieldErrorView::Duplicate("id"@))
        } else {
            Ok(())
        },
        GameFamilyField::Image => if f.image is Some {
            Err(FieldErrorView::Duplicate("image"@))
        } else {
            Ok(())
        },
        GameFamilyField::Thumbnail => if f.thumbnail is Some {
            Err(FieldErrorView::Duplicate("thumbnail"@))
        } else {
            Ok(())
        },
        GameFamilyField::Description => if f.description is Some {
            Err(FieldErrorView::Duplicate("description"@))
        } else {
            Ok(())
        },
        GameFamilyField::Name => Ok(()),
        GameFamilyField::Link => Ok(()),
        GameFamilyField::Type => Ok(()),
    }
}

/// The fields after one more value is read, or the error that the value brings.
pub open spec fn family_accept(f: GameFamilyFieldsView, value: GameFamilyValue) -> Result<GameFamilyFieldsView, FieldErrorView> {
    match value {
        GameFamilyValue::Id(x) => if f.id is Some {
            Err(FieldErrorView::Duplicate("id"@))
        } else {
            Ok(GameFamilyFieldsView { id: Some(x), ..f })
        },
        GameFamilyValue::Image(x) => if f.image is Some {
            Err(FieldErrorView::Duplicate("image"@))
        } else {
            Ok(GameFamilyFieldsView { image: Some(x), ..f })
        },
        GameFamilyValue::Thumbnail(x) => if f.thumbnail is Some {
            Err(FieldErrorView::Duplicate("thumbnail"@))
        } else {
            Ok(GameFamilyFieldsView { thumbnail: Some(x), ..f })
        },
        GameFamilyValue::Description(x) => if f.description is Some {
            Err(FieldErrorView::Duplicate("description"@))
        } else {
            Ok(GameFamilyFieldsView { description: Some(x), ..f })
        },
        GameFamilyValue::Name(t, x) => match t {
            NameType::Primary => if f.name is Some {
                Err(FieldErrorView::Duplicate("name type=\"primary\""@))
            } else {
                Ok(GameFamilyFieldsView { name: Some(x), ..f })
            },
            NameType::Alternate => Ok(GameFamilyFieldsView { alternate_names: f.alternate_names.push(x), ..f }),
        },
        GameFamilyValue::Link(t, id, x) => match t {
            ItemType::BoardGameFamily => Ok(GameFamilyFieldsView { games: f.games.push(Game { id, name: x }), ..f }),
            _ => Err(FieldErrorView::Custom(unexpected_link_message(t, "game family"@))),
        },
        GameFamilyValue::Type(_) => Ok(f),
    }
}

/// The key under which a value is given.
pub open spec fn family_value_key(v: GameFamilyValue) -> GameFamilyField {
    match v {
        GameFamilyValue::Id(..) => GameFamilyField::Id,
        GameFamilyValue::Image(..) => GameFamilyField::Image,
        GameFamilyValue::Thumbnail(..) => GameFamilyField::Thumbnail,
        GameFamilyValue::Description(..) => GameFamilyField::Description,
        GameFamilyValue::Name(..) => GameFamilyField::Name,
        GameFamilyValue::Link(..) => GameFamilyField::Link,
        GameFamilyValue::Type(..) => GameFamilyField::Type,
    }
}

/// Law: the check made when a key of a game family is read refuses exactly what taking its
/// value would refuse as given twice: when the check fails, taking the value fails alike.
pub proof fn law_family_key_check_agrees(f: GameFamilyFieldsView, v: GameFamilyValue)
    ensures
        family_key_check(f, family_value_key(v)) matches Err(e) ==> family_accept(f, v)
            == Err::<GameFamilyFieldsView, FieldErrorView>(e),
{
}

impl GameFamilyFields {
    /// No field read yet.
    pub fn new() -> (r: Self)
        ensures
            r@ == (GameFamilyFieldsView {
                id: None,
                image: None,
                thumbnail: None,
                description: None,
                name: None,
                alternate_names: Seq::<String>::empty(),
                games: Seq::<Game>::empty(),
            }),
    {
        GameFamilyFields {
            id: None,
            image: None,
            thumbnail: None,
            description: None,
            name: None,
            alternate_names: Vec::new(),
            games: Vec::new(),
        }
    }

    /// Checks that a key may come next, before its value is read.
    pub fn check_key(&self, key: GameFamilyField) -> (r: Result<(), FieldError>)
        ensures
            result_view(r) == family_key_check(self@, key),
    {
        match key {
            GameFamilyField::Id => vacant(&self.id, "id"),
            GameFamilyField::Image => vacant(&self.image, "image"),
            GameFamilyField::Thumbnail => vacant(&self.thumbnail, "thumbnail"),
            GameFamilyField::Description => vacant(&self.description, "description"),
            GameFamilyField::Name => Ok(()),
            GameFamilyField::Link => Ok(()),
            GameFamilyField::Type => Ok(()),
        }
    }

    /// Takes the value of one more field.
    pub fn accept(&mut self, value: GameFamilyValue) -> (r: Result<(), FieldError>)
        ensures
            match family_accept(old(self)@, value) {
                Ok(f) => r is Ok && final(self)@ == f,
                Err(e) => r matches Err(x) && x@ == e && final(self)@ == old(self)@,
            },
    {
        match value {
            GameFamilyValue::Id(x) => set_once(&mut self.id, x, "id"),
            GameFamilyValue::Image(x) => set_once(&mut self.image, x, "image"),
            GameFamilyValue::Thumbnail(x) => set_once(&mut self.thumbnail, x, "thumbnail"),
            GameFamilyValue::Description(x) => set_once(&mut self.description, x, "description"),
            GameFamilyValue::Name(t, x) => match t {
                NameType::Primary => set_once(&mut self.name, x, "name type=\"primary\""),
                NameType::Alternate => {
                    self.alternate_names.push(x);
                    Ok(())
                },
            },
            GameFamilyValue::Link(t, id, x) => match t {
                ItemType::BoardGameFamily => {
                    self.games.push(Game { id, name: x });
                    Ok(())
                },
                _ => Err(unexpected_link(t, "game family")),
            },
            GameFamilyValue::Type(_) => Ok(()),
        }
    }

    /// The finished value, once every field that must be given was read.
    pub fn finish(self) -> (r: Result<GameFamily, FieldError>)
        ensures
            match family_finish_error(self@) {
                Some(e) => r matches Err(x) && x@ == e,
                None => r matches Ok(x) && family_built(x, self@),
            },
    {
        let ghost f = self@;
        let id = match self.id {
            Some(x) => x,
            None => {
                return Err(FieldError::Missing("id"));
            },
        };
        let name = match self.name {
            Some(x) => x,
            None => {
                return Err(FieldError::Missing("name"));
            },
        };
        let thumbnail = match self.thumbnail {
            Some(x) => x,
            None => {
                return Err(FieldError::Missing("thumbnail"));
            },
        };
        let image = match self.image {
            Some(x) => x,
            None => {
                return Err(FieldError::Missing("image"));
            },
        };
        let description = match self.description {
            Some(x) => x,
            None => {
                return Err(FieldError::Missing("description"));
            },
        };
        Ok(GameFamily {
            id: id,
            name: name,
            alternate_names: self.alternate_names,
            image: image,
            thumbnail: thumbnail,
            description: description,
            games: self.games,
        })
    }
}

/// The first field of an item of the hot list that must be given and was not, if any.
pub open spec fn hot_item_missing(f: HotItemFieldsView) -> Option<Seq<char>> {
    if f.id is None {
        Some("id"@)
    } else if f.rank is None {
        Some("rank"@)
    } else if f.thumbnail is None {
        Some("thumbnail"@)
    } else if f.name is None {
        Some("name"@)
    } else if f.year_published is None {
        Some("yearpublished"@)
    } else {
        None
    }
}

/// The error that finishing an item of the hot list gives, if any.
pub open spec fn hot_item_finish_error(f: HotItemFieldsView) -> Option<FieldErrorView> {
    match hot_item_missing(f) {
        Some(n) => Some(FieldErrorView::Missing(n)),
        None => None,
    }
}

/// Whether an item of the hot list is the one that these fields make.
pub open spec fn hot_item_built(x: HotItem, f: HotItemFieldsView) -> bool {
    &&& x.id == f.id.unwrap()
    &&& x.rank == f.rank.unwrap()
    &&& x.thumbnail == f.thumbnail.unwrap()
    &&& x.name == f.name.unwrap()
    &&& x.year_published == f.year_published.unwrap()
}

/// The kinds of field of an item of the hot list, as the keys of its XML object.
#[derive(Clone, Copy, Debug, PartialEq, Eq, Structural)]
pub enum HotItemField {
    /// The `thumbnail` field.
    Thumbnail,
    /// The `name` field.
    Name,
    /// The `yearpublished` field.
    YearPublished,
    /// The `id` field.
    Id,
    /// The `rank` field.
    Rank,
}

/// The value of a field of an item of the hot list, read from the XML.
#[derive(Clone, Debug)]
pub enum HotItemValue {
    /// The `thumbnail` field: the link to its thumbnail.
    Thumbnail(String),
    /// The `name` field: its name.
    Name(String),
    /// The `yearpublished` field: the year it was published.
    YearPublished(i64),
    /// The `id` field, as the text of a number.
    Id(String),
    /// The `rank` field, as the text of a number.
    Rank(String),
}

/// The fields of an item of the hot list read so far.
#[derive(Clone, Debug)]
pub struct HotItemFields {
    thumbnail: Option<String>,
    name: Option<String>,
    year_published: Option<i64>,
    id: Option<u64>,
    rank: Option<u64>,
}

/// The fields of an item of the hot list read so far, as mathematical values.
#[verifier::ext_equal]
pub ghost struct HotItemFieldsView {
    /// The `thumbnail` field, once read: the link to its thumbnail.
    pub thumbnail: Option<String>,
    /// The `name` field, once read: its name.
    pub name: Option<String>,
    /// The `yearpublished` field, once read: the year it was published.
    pub year_published: Option<i64>,
    /// The ID, once read.
    pub id: Option<u64>,
    /// The place on the list, once read.
    pub rank: Option<u64>,
}

impl View for HotItemFields {
    type V = HotItemFieldsView;

    closed spec fn view(&self) -> HotItemFieldsView {
        HotItemFieldsView {
            thumbnail: self.thumbnail,
            name: self.name,
            year_published: self.year_published,
            id: self.id,
            rank: self.rank,
        }
    }
}

/// Whether a key may come next: a field that may be given once is refused when it was
/// given already.
pub open spec fn hot_item_key_check(f: HotItemFieldsView, key: HotItemField) -> Result<(), FieldErrorView> {
    match key {
        HotItemField::Thumbnail => if f.thumbnail is Some {
            Err(FieldErrorView::Duplicate("thumbnail"@))
        } else {
            Ok(())
        },
        HotItemField::Name => if f.name is Some {
            Err(FieldErrorView::Duplicate("name"@))
        } else {
            Ok(())
        },
        HotItemField::YearPublished => if f.year_published is Some {
            Err(FieldErrorView::Duplicate("yearpublished"@))
        } else {
            Ok(())
        },
        HotItemField::Id => if f.id is Some {
            Err(FieldErrorView::Duplicate("id"@))
        } else {
            Ok(())
        },
        HotItemField::Rank => if f.rank is Some {
            Err(FieldErrorView::Duplicate("rank"@))
        } else {
            Ok(())
        },
    }
}

/// The fields after one more value is read, or the error that the value brings.
pub open spec fn hot_item_accept(f: HotItemFieldsView, value: HotItemValue) -> Result<HotItemFieldsView, FieldErrorView> {
    match value {
        HotItemValue::Thumbnail(x) => if f.thumbnail is Some {
            Err(FieldErrorView::Duplicate("thumbnail"@))
        } else {
            Ok(HotItemFieldsView { thumbnail: Some(x), ..f })
        },
        HotItemValue::Name(x) => if f.name is Some {
            Err(FieldErrorView::Duplicate("name"@))
        } else {
            Ok(HotItemFieldsView { name: Some(x), ..f })
        },
        HotItemValue::YearPublished(x) => if f.year_published is Some {
            Err(FieldErrorView::Duplicate("yearpublished"@))
        } else {
            Ok(HotItemFieldsView { year_published: Some(x), ..f })
        },
        HotItemValue::Id(x) => if f.id is Some {
            Err(FieldErrorView::Duplicate("id"@))
        } else {
            match parse_outcome(x@, u64::MAX as nat) {
                Ok(n) => Ok(HotItemFieldsView { id: Some(n as u64), ..f }),
                Err(e) => Err(FieldErrorView::Custom(u64_field_message(e))),
            }
        },
        HotItemValue::Rank(x) => if f.rank is Some {
            Err(FieldErrorView::Duplicate("rank"@))
        } else {
            match parse_outcome(x@, u64::MAX as nat) {
                Ok(n) => Ok(HotItemFieldsView { rank: Some(n as u64), ..f }),
                Err(e) => Err(FieldErrorView::Custom(u64_field_message(e))),
            }
        },
    }
}

/// The key under which a value is given.
pub open spec fn hot_item_value_key(v: HotItemValue) -> HotItemField {
    match v {
        HotItemValue::Thumbnail(..) => HotItemField::Thumbnail,
        HotItemValue::Name(..) => HotItemField::Name,
        HotItemValue::YearPublished(..) => HotItemField::YearPublished,
        HotItemValue::Id(..) => HotItemField::Id,
        HotItemValue::Rank(..) => HotItemField::Rank,
    }
}

/// Law: the check made when a key of an item of the hot list is read refuses exactly what taking its
/// value would refuse as given twice: when the check fails, taking the value fails alike.
pub proof fn law_hot_item_key_check_agrees(f: HotItemFieldsView, v: HotItemValue)
    ensures
        hot_item_key_check(f, hot_item_value_key(v)) matches Err(e) ==> hot_item_accept(f, v)
            == Err::<HotItemFieldsView, FieldErrorView>(e),
{
}

impl HotItemFields {
    /// No field read yet.
    pub fn new() -> (r: Self)
        ensures
            r@ == (HotItemFieldsView {
                thumbnail: None,
                name: None,
                year_published: None,
                id: None,
                rank: None,
            }),
    {
        HotItemFields {
            thumbnail: None,
            name: None,
            year_published: None,
            id: None,
            rank: None,
        }
    }

    /// Checks that a key may come next, before its value is read.
    pub fn check_key(&self, key: HotItemField) -> (r: Result<(), FieldError>)
        ensures
            result_view(r) == hot_item_key_check(self@, key),
    {
        match key {
            HotItemField::Thumbnail => vacant(&self.thumbnail, "thumbnail"),
            HotItemField::Name => vacant(&self.name, "name"),
            HotItemField::YearPublished => vacant(&self.year_published, "yearpublished"),
            HotItemField::Id => vacant(&self.id, "id"),
            HotItemField::Rank => vacant(&self.rank, "rank"),
        }
    }

    /// Takes the value of one more field.
    pub fn accept(&mut self, value: HotItemValue) -> (r: Result<(), FieldError>)
        ensures
            match hot_item_accept(old(self)@, value) {
                Ok(f) => r is Ok && final(self)@ == f,
                Err(e) => r matches Err(x) && x@ == e && final(self)@ == old(self)@,
            },
    {
        match value {
            HotItemValue::Thumbnail(x) => set_once(&mut self.thumbnail, x, "thumbnail"),
            HotItemValue::Name(x) => set_once(&mut self.name, x, "name"),
            HotItemValue::YearPublished(x) => set_once(&mut self.year_published, x, "yearpublished"),
            HotItemValue::Id(x) => {
                if self.id.is_some() {
                    return Err(FieldError::Duplicate("id"));
                }
                let n = parse_u64_field(x.as_str())?;
                self.id = Some(n);
                Ok(())
            },
            HotItemValue::Rank(x) => {
                if self.rank.is_some() {
                    return Err(FieldError::Duplicate("rank"));
                }
                let n = parse_u64_field(x.as_str())?;
                self.rank = Some(n);
                Ok(())
            },
        }
    }

    /// The finished value, once every field that must be given was read.
    pub fn finish(self) -> (r: Result<HotItem, FieldError>)
        ensures
            match hot_item_finish_error(self@) {
                Some(e) => r matches Err(x) && x@ == e,
                None => r matches Ok(x) && hot_item_built(x, self@),
            },
    {
        let ghost f = self@;
        let id = match self.id {
            Some(x) => x,
            None => {
                return Err(FieldError::Missing("id"));
            },
        };
        let rank = match self.rank {
            Some(x) => x,
            None => {
                return Err(FieldError::Missing("rank"));
            },
        };
        let thumbnail = match self.thumbnail {
            Some(x) => x,
            None => {
                return Err(FieldError::Missing("thumbnail"));
            },
        };
        let name = match self.name {
            Some(x) => x,
            None => {
                return Err(FieldError::Missing("name"));
            },
        };
        let year_published = match self.year_published {
            Some(x) => x,
            None => {
                return Err(FieldError::Missing("yearpublished"));
            },
        };
        Ok(HotItem {
            id: id,
            rank: rank,
            thumbnail: thumbnail,
            name: name,
            year_published: year_published,
        })
    }
}

/// The first field of a game of the hot list that must be given and was not, if any.
pub open spec fn hot_game_missing(f: HotListGameFieldsView) -> Option<Seq<char>> {
    if f.id is None {
        Some("id"@)
    } else if f.rank is None {
        Some("rank"@)
    } else if f.name is None {
        Some("name"@)
    } else if f.year_published is None {
        Some("yearpublished"@)
    } else {
        None
    }
}

/// The error that finishing a game of the hot list gives, if any.
pub open spec fn hot_game_finish_error(f: HotListGameFieldsView) -> Option<FieldErrorView> {
    match hot_game_missing(f) {
        Some(n) => Some(FieldErrorView::Missing(n)),
        None => None,
    }
}

/// Whether a game of the hot list is the one that these fields make.
pub open spec fn hot_game_built(x: HotListGame, f: HotListGameFieldsView) -> bool {
    &&& x.id == f.id.unwrap()
    &&& x.rank == f.rank.unwrap()
    &&& x.thumbnail == f.thumbnail
    &&& x.name == f.name.unwrap()
    &&& x.year_published == f.year_published.unwrap()
}

/// The kinds of field of a game of the hot list, as the keys of its XML object.
#[derive(Clone, Copy, Debug, PartialEq, Eq, Structural)]
pub enum HotListGameField {
    /// The `thumbnail` field.
    Thumbnail,
    /// The `name` field.
    Name,
    /// The `yearpublished` field.
    YearPublished,
    /// The `id` field.
    Id,
    /// The `rank` field.
    Rank,
}

/// The value of a field of a game of the hot list, read from the XML.
#[derive(Clone, Debug)]
pub enum HotListGameValue {
    /// The `thumbnail` field: the link to its thumbnail.
    Thumbnail(String),
    /// The `name` field: its name.
    Name(String),
    /// The `yearpublished` field: the year it was published.
    YearPublished(i64),
    /// The `id` field, as the text of a number.
    Id(String),
    /// The `rank` field, as the text of a number.
    Rank(String),
}

/// The fields of a game of the hot list read so far.
#[derive(Clone, Debug)]
pub struct HotListGameFields {
    thumbnail: Option<String>,
    name: Option<String>,
    year_published: Option<i64>,
    id: Option<u64>,
    rank: Option<u64>,
}

/// The fields of a game of the hot list read so far, as mathematical values.
#[verifier::ext_equal]
pub ghost struct HotListGameFieldsView {
    /// The `thumbnail` field, once read: the link to its thumbnail.
    pub thumbnail: Option<String>,
    /// The `name` field, once read: its name.
    pub name: Option<String>,
    /// The `yearpublished` field, once read: the year it was published.
    pub year_published: Option<i64>,
    /// The ID, once read.
    pub id: Option<u64>,
    /// The place on the list, once read.
    pub rank: Option<u64>,
}

impl View for HotListGameFields {
    type V = HotListGameFieldsView;

    closed spec fn view(&self) -> HotListGameFieldsView {
        HotListGameFieldsView {
            thumbnail: self.thumbnail,
            name: self.name,
            year_published: self.year_published,
            id: self.id,
            rank: self.rank,
        }
    }
}

/// Whether a key may come next: a field that may be given once is refused when it was
/// given already.
pub open spec fn hot_game_key_check(f: HotListGameFieldsView, key: HotListGameField) -> Result<(), FieldErrorView> {
    match key {
        HotListGameField::Thumbnail => if f.thumbnail is Some {
            Err(FieldErrorView::Duplicate("thumbnail"@))
        } else {
            Ok(())
        },
        HotListGameField::Name => if f.name is Some {
            Err(FieldErrorView::Duplicate("name"@))
        } else {
            Ok(())
        },
        HotListGameField::YearPublished => if f.year_published is Some {
            Err(FieldErrorView::Duplicate("yearpublished"@))
        } else {
            Ok(())
        },
        HotListGameField::Id => if f.id is Some {
            Err(FieldErrorView::Duplicate("id"@))
        } else {
            Ok(())
        },
        HotListGameField::Rank => if f.rank is Some {
            Err(FieldErrorView::Duplicate("rank"@))
        } else {
            Ok(())
        },
    }
}

/// The fields after one more value is read, or the error that the value brings.
pub open spec fn hot_game_accept(f: HotListGameFieldsView, value: HotListGameValue) -> Result<HotListGameFieldsView, FieldErrorView> {
    match value {
        HotListGameValue::Thumbnail(x) => if f.thumbnail is Some {
            Err(FieldErrorView::Duplicate("thumbnail"@))
        } else {
            Ok(HotListGameFieldsView { thumbnail: Some(x), ..f })
        },
        HotListGameValue::Name(x) => if f.name is Some {
            Err(FieldErrorView::Duplicate("name"@))
        } else {
            Ok(HotListGameFieldsView { name: Some(x), ..f })
        },
        HotListGameValue::YearPublished(x) => if f.year_published is Some {
            Err(FieldErrorView::Duplicate("yearpublished"@))
        } else {
            Ok(HotListGameFieldsView { year_published: Some(x), ..f })
        },
        HotListGameValue::Id(x) => if f.id is Some {
            Err(FieldErrorView::Duplicate("id"@))
        } else {
            match parse_outcome(x@, u64::MAX as nat) {
                Ok(n) => Ok(HotListGameFieldsView { id: Some(n as u64), ..f }),
                Err(e) => Err(FieldErrorView::Custom(u64_field_message(e))),
            }
        },
        HotListGameValue::Rank(x) => if f.rank is Some {
            Err(FieldErrorView::Duplicate("rank"@))
        } else {
            match parse_outcome(x@, u64::MAX as nat) {
                Ok(n) => Ok(HotListGameFieldsView { rank: Some(n as u64), ..f }),
                Err(e) => Err(FieldErrorView::Custom(u64_field_message(e))),
            }
        },
    }
}

/// The key under which a value is given.
pub open spec fn hot_game_value_key(v: HotListGameValue) -> HotListGameField {
    match v {
        HotListGameValue::Thumbnail(..) => HotListGameField::Thumbnail,
        HotListGameValue::Name(..) => HotListGameField::Name,
        HotListGameValue::YearPublished(..) => HotListGameField::YearPublished,
        HotListGameValue::Id(..) => HotListGameField::Id,
        HotListGameValue::Rank(..) => HotListGameField::Rank,
    }
}

/// Law: the check made when a key of a game of the hot list is read refuses exactly what taking its
/// value would refuse as given twice: when the check fails, taking the value fails alike.
pub proof fn law_hot_game_key_check_agrees(f: HotListGameFieldsView, v: HotListGameValue)
    ensures
        hot_game_key_check(f, hot_game_value_key(v)) matches Err(e) ==> hot_game_accept(f, v)
            == Err::<HotListGameFieldsView, FieldErrorView>(e),
{
}

impl HotListGameFields {
    /// No field read yet.
    pub fn new() -> (r: Self)
        ensures
            r@ == (HotListGameFieldsView {
                thumbnail: None,
                name: None,
                year_published: None,
                id: None,
                rank: None,
            }),
    {
        HotListGameFields {
            thumbnail: None,
            name: None,
            year_published: None,
            id: None,
            rank: None,
        }
    }

    /// Checks that a key may come next, before its value is read.
    pub fn check_key(&self, key: HotListGameField) -> (r: Result<(), FieldError>)
        ensures
            result_view(r) == hot_game_key_check(self@, key),
    {
        match key {
            HotListGameField::Thumbnail => vacant(&self.thumbnail, "thumbnail"),
            HotListGameField::Name => vacant(&self.name, "name"),
            HotListGameField::YearPublished => vacant(&self.year_published, "yearpublished"),
            HotListGameField::Id => vacant(&self.id, "id"),
            HotListGameField::Rank => vacant(&self.rank, "rank"),
        }
    }

    /// Takes the value of one more field.
    pub fn accept(&mut self, value: HotListGameValue) -> (r: Result<(), FieldError>)
        ensures
            match hot_game_accept(old(self)@, value) {
                Ok(f) => r is Ok && final(self)@ == f,
                Err(e) => r matches Err(x) && x@ == e && final(self)@ == old(self)@,
            },
    {
        match value {
            HotListGameValue::Thumbnail(x) => set_once(&mut self.thumbnail, x, "thumbnail"),
            HotListGameValue::Name(x) => set_once(&mut self.name, x, "name"),
            HotListGameValue::YearPublished(x) => set_once(&mut self.year_published, x, "yearpublished"),
            HotListGameValue::Id(x) => {
                if self.id.is_some() {
                    return Err(FieldError::Duplicate("id"));
                }
                let n = parse_u64_field(x.as_str())?;
                self.id = Some(n);
                Ok(())
            },
            HotListGameValue::Rank(x) => {
                if self.rank.is_some() {
                    return Err(FieldError::Duplicate("rank"));
                }
                let n = parse_u64_field(x.as_str())?;
                self.rank = Some(n);
                Ok(())
            },
        }
    }

    /// The finished value, once every field that must be given was read.
    pub fn finish(self) -> (r: Result<HotListGame, FieldError>)
        ensures
            match hot_game_finish_error(self@) {
                Some(e) => r matches Err(x) && x@ == e,
                None => r matches Ok(x) && hot_game_built(x, self@),
            },
    {
        let ghost f = self@;
        let id = match self.id {
            Some(x) => x,
            None => {
                return Err(FieldError::Missing("id"));
            },
        };
        let rank = match self.rank {
            Some(x) => x,
            None => {
                return Err(FieldError::Missing("rank"));
            },
        };
        let name = match self.name {
            Some(x) => x,
            None => {
                return Err(FieldError::Missing("name"));
            },
        };
        let year_published = match self.year_published {
            Some(x) => x,
            None => {
                return Err(FieldError::Missing("yearpublished"));
            },
        };
        Ok(HotListGame {
            id: id,
            rank: rank,
            thumbnail: self.thumbnail,
            name: name,
            year_published: year_published,
        })
    }
}

/// The first field of a search result that must be given and was not, if any.
pub open spec fn search_result_missing(f: SearchResultFieldsView) -> Option<Seq<char>> {
    if f.id is None {
        Some("id"@)
    } else if f.item_type is None {
        Some("item_type"@)
    } else if f.name is None {
        Some("name"@)
    } else {
        None
    }
}

/// The error that finishing a search result gives, if any.
pub open spec fn search_result_finish_error(f: SearchResultFieldsView) -> Option<FieldErrorView> {
    match search_result_missing(f) {
        Some(n) => Some(FieldErrorView::Missing(n)),
        None => None,
    }
}

/// Whether a search result is the one that these fields make.
pub open spec fn search_result_built(x: SearchResult, f: SearchResultFieldsView) -> bool {
    &&& x.id == f.id.unwrap()
    &&& x.item_type == f.item_type.unwrap()
    &&& x.name == f.name.unwrap()
    &&& x.year_published == f.year_published
}

/// The kinds of field of a search result, as the keys of its XML object.
#[derive(Clone, Copy, Debug, PartialEq, Eq, Structural)]
pub enum SearchResultField {
    /// The `type` field.
    Type,
    /// The `name` field.
    Name,
    /// The `yearpublished` field.
    YearPublished,
    /// The `id` field.
    Id,
}

/// The value of a field of a search result, read from the XML.
#[derive(Clone, Debug)]
pub enum SearchResultValue {
    /// The `type` field: the type of the item.
    Type(ItemType),
    /// The `name` field: its name.
    Name(String),
    /// The `yearpublished` field: the year it was published.
    YearPublished(i64),
    /// The `id` field, as the text of a number.
    Id(String),
}

/// The fields of a search result read so far.
#[derive(Clone, Debug)]
pub struct SearchResultFields {
    item_type: Option<ItemType>,
    name: Option<String>,
    year_published: Option<i64>,
    id: Option<u64>,
}

/// The fields of a search result read so far, as mathematical values.
#[verifier::ext_equal]
pub ghost struct SearchResultFieldsView {
    /// The `type` field, once read: the type of the item.
    pub item_type: Option<ItemType>,
    /// The `name` field, once read: its name.
    pub name: Option<String>,
    /// The `yearpublished` field, once read: the year it was published.
    pub year_published: Option<i64>,
    /// The ID, once read.
    pub id: Option<u64>,
}

impl View for SearchResultFields {
    type V = SearchResultFieldsView;

    closed spec fn view(&self) -> SearchResultFieldsView {
        SearchResultFieldsView {
            item_type: self.item_type,
            name: self.name,
            year_published: self.year_published,
            id: self.id,
        }
    }
}

/// Whether a key may come next: a field that may be given once is refused when it was
/// given already.
pub open spec fn search_result_key_check(f: SearchResultFieldsView, key: SearchResultField) -> Result<(), FieldErrorView> {
    match key {
        SearchResultField::Type => if f.item_type is Some {
            Err(FieldErrorView::Duplicate("type"@))
        } else {
            Ok(())
        },
        SearchResultField::Name => if f.name is Some {
            Err(FieldErrorView::Duplicate("name"@))
        } else {
            Ok(())
        },
        SearchResultField::YearPublished => if f.year_published is Some {
            Err(FieldErrorView::Duplicate("yearpublished"@))
        } else {
            Ok(())
        },
        SearchResultField::Id => if f.id is Some {
            Err(FieldErrorView::Duplicate("id"@))
        } else {
            Ok(())
        },
    }
}

/// The fields after one more value is read, or the error that the value brings.
pub open spec fn search_result_accept(f: SearchResultFieldsView, value: SearchResultValue) -> Result<SearchResultFieldsView, FieldErrorView> {
    match value {
        SearchResultValue::Type(x) => if f.item_type is Some {
            Err(FieldErrorView::Duplicate("type"@))
        } else {
            Ok(SearchResultFieldsView { item_type: Some(x), ..f })
        },
        SearchResultValue::Name(x) => if f.name is Some {
            Err(FieldErrorView::Duplicate("name"@))
        } else {
            Ok(SearchResultFieldsView { name: Some(x), ..f })
        },
        SearchResultValue::YearPublished(x) => if f.year_published is Some {
            Err(FieldErrorView::Duplicate("yearpublished"@))
        } else {
            Ok(SearchResultFieldsView { year_published: Some(x), ..f })
        },
        SearchResultValue::Id(x) => if f.id is Some {
            Err(FieldErrorView::Duplicate("id"@))
        } else {
            match parse_outcome(x@, u64::MAX as nat) {
                Ok(n) => Ok(SearchResultFieldsView { id: Some(n as u64), ..f }),
                Err(e) => Err(FieldErrorView::Custom(u64_field_message(e))),
            }
        },
    }
}

/// The key under which a value is given.
pub open spec fn search_result_value_key(v: SearchResultValue) -> SearchResultField {
    match v {
        SearchResultValue::Type(..) => SearchResultField::Type,
        SearchResultValue::Name(..) => SearchResultField::Name,
        SearchResultValue::YearPublished(..) => SearchResultField::YearPublished,
        SearchResultValue::Id(..) => SearchResultField::Id,
    }
}

/// Law: the check made when a key of a search result is read refuses exactly what taking its
/// value would refuse as given twice: when the check fails, taking the value fails alike.
pub proof fn law_search_result_key_check_agrees(f: SearchResultFieldsView, v: SearchResultValue)
    ensures
        search_result_key_check(f, search_result_value_key(v)) matches Err(e) ==> search_result_accept(f, v)
            == Err::<SearchResultFieldsView, FieldErrorView>(e),
{
}

impl SearchResultFields {
    /// No field read yet.
    pub fn new() -> (r: Self)
        ensures
            r@ == (SearchResultFieldsView {
                item_type: None,
                name: None,
                year_published: None,
                id: None,
            }),
    {
        SearchResultFields {
            item_type: None,
            name: None,
            year_published: None,
            id: None,
        }
    }

    /// Checks that a key may come next, before its value is read.
    pub fn check_key(&self, key: SearchResultField) -> (r: Result<(), FieldError>)
        ensures
            result_view(r) == search_result_key_check(self@, key),
    {
        match key {
            SearchResultField::Type => vacant(&self.item_type, "type"),
            SearchResultField::Name => vacant(&self.name, "name"),
            SearchResultField::YearPublished => vacant(&self.year_published, "yearpublished"),
            SearchResultField::Id => vacant(&self.id, "id"),
        }
    }

    /// Takes the value of one more field.
    pub fn accept(&mut self, value: SearchResultValue) -> (r: Result<(), FieldError>)
        ensures
            match search_result_accept(old(self)@, value) {
                Ok(f) => r is Ok && final(self)@ == f,
                Err(e) => r matches Err(x) && x@ == e && final(self)@ == old(self)@,
            },
    {
        match value {
            SearchResultValue::Type(x) => set_once(&mut self.item_type, x, "type"),
            SearchResultValue::Name(x) => set_once(&mut self.name, x, "name"),
            SearchResultValue::YearPublished(x) => set_once(&mut self.year_published, x, "yearpublished"),
            SearchResultValue::Id(x) => {
                if self.id.is_some() {
                    return Err(FieldError::Duplicate("id"));
                }
                let n = parse_u64_field(x.as_str())?;
                self.id = Some(n);
                Ok(())
            },
        }
    }

    /// The finished value, once every field that must be given was read.
    pub fn finish(self) -> (r: Result<SearchResult, FieldError>)
        ensures
            match search_result_finish_error(self@) {
                Some(e) => r matches Err(x) && x@ == e,
                None => r matches Ok(x) && search_result_built(x, self@),
            },
    {
        let ghost f = self@;
        let id = match self.id {
            Some(x) => x,
            None => {
                return Err(FieldError::Missing("id"));
            },
        };
        let item_type = match self.item_type {
            Some(x) => x,
            None => {
                return Err(FieldError::Missing("item_type"));
            },
        };
        let name = match self.name {
            Some(x) => x,
            None => {
                return Err(FieldError::Missing("name"));
            },
        };
        Ok(SearchResult {
            id: id,
            item_type: item_type,
            name: name,
            year_published: self.year_published,
        })
    }
}

/// Law: each value of a game family goes to its own field: the ID, image, thumbnail,
/// description and primary name each fill their field once, a second one being refused as
/// given twice; an alternate name and a game link are added at the end of their lists; and a
/// finished family takes each field from the value read for it.
pub proof fn law_family_values_go_to_their_fields(f: GameFamilyFieldsView, x: GameFamily)
    ensures
        forall|v: u64| #[trigger] family_accept(f, GameFamilyValue::Id(v)) == if f.id is Some {
            Err::<GameFamilyFieldsView, FieldErrorView>(FieldErrorView::Duplicate("id"@))
        } else {
            Ok::<GameFamilyFieldsView, FieldErrorView>((GameFamilyFieldsView { id: Some(v), ..f }))
        },
        forall|v: Option<String>| #[trigger] family_accept(f, GameFamilyValue::Image(v)) == if f.image is Some {
            Err::<GameFamilyFieldsView, FieldErrorView>(FieldErrorView::Duplicate("image"@))
        } else {
            Ok::<GameFamilyFieldsView, FieldErrorView>((GameFamilyFieldsView { image: Some(v), ..f }))
        },
        forall|v: Option<String>| #[trigger] family_accept(f, GameFamilyValue::Thumbnail(v)) == if f.thumbnail is Some {
            Err::<GameFamilyFieldsView, FieldErrorView>(FieldErrorView::Duplicate("thumbnail"@))
        } else {
            Ok::<GameFamilyFieldsView, FieldErrorView>((GameFamilyFieldsView { thumbnail: Some(v), ..f }))
        },
        forall|v: String| #[trigger] family_accept(f, GameFamilyValue::Description(v)) == if f.description is Some {
            Err::<GameFamilyFieldsView, FieldErrorView>(FieldErrorView::Duplicate("description"@))
        } else {
            Ok::<GameFamilyFieldsView, FieldErrorView>((GameFamilyFieldsView { description: Some(v), ..f }))
        },
        forall|id: u64, name: String| #[trigger] family_accept(f, GameFamilyValue::Link(ItemType::BoardGameFamily, id, name)) == Ok::<GameFamilyFieldsView, FieldErrorView>((GameFamilyFieldsView { games: f.games.push(Game { id, name }), ..f })),
        family_built(x, f) ==> (x.id == f.id.unwrap()),
        family_built(x, f) ==> (x.name == f.name.unwrap()),
        family_built(x, f) ==> (x.alternate_names@ == f.alternate_names),
        family_built(x, f) ==> (x.image == f.image.unwrap()),
        family_built(x, f) ==> (x.thumbnail == f.thumbnail.unwrap()),
        family_built(x, f) ==> (x.description == f.description.unwrap()),
        family_built(x, f) ==> (x.games@ == f.games),
{
}

/// Law: each value of a hot item goes to its own field, once, a second one being refused as
/// given twice; and a finished hot item takes each field from the value read for it.
pub proof fn law_hot_item_values_go_to_their_fields(f: HotItemFieldsView, x: HotItem)
    ensures
        forall|v: String| #[trigger] hot_item_accept(f, HotItemValue::Thumbnail(v)) == if f.thumbnail is Some {
            Err::<HotItemFieldsView, FieldErrorView>(FieldErrorView::Duplicate("thumbnail"@))
        } else {
            Ok::<HotItemFieldsView, FieldErrorView>((HotItemFieldsView { thumbnail: Some(v), ..f }))
        },
        forall|v: String| #[trigger] hot_item_accept(f, HotItemValue::Name(v)) == if f.name is Some {
            Err::<HotItemFieldsView, FieldErrorView>(FieldErrorView::Duplicate("name"@))
        } else {
            Ok::<HotItemFieldsView, FieldErrorView>((HotItemFieldsView { name: Some(v), ..f }))
        },
        forall|v: i64| #[trigger] hot_item_accept(f, HotItemValue::YearPublished(v)) == if f.year_published is Some {
            Err::<HotItemFieldsView, FieldErrorView>(FieldErrorView::Duplicate("yearpublished"@))
        } else {
            Ok::<HotItemFieldsView, FieldErrorView>((HotItemFieldsView { year_published: Some(v), ..f }))
        },
        hot_item_built(x, f) ==> (x.id == f.id.unwrap()),
        hot_item_built(x, f) ==> (x.rank == f.rank.unwrap()),
        hot_item_built(x, f) ==> (x.thumbnail == f.thumbnail.unwrap()),
        hot_item_built(x, f) ==> (x.name == f.name.unwrap()),
        hot_item_built(x, f) ==> (x.year_published == f.year_published.unwrap()),
{
}

/// Law: each value of a game of a hot list goes to its own field, once, a second one being
/// refused as given twice; and a finished game takes each field from the value read for it.
pub proof fn law_hot_game_values_go_to_their_fields(f: HotListGameFieldsView, x: HotListGame)
    ensures
        forall|v: String| #[trigger] hot_game_accept(f, HotListGameValue::Thumbnail(v)) == if f.thumbnail is Some {
            Err::<HotListGameFieldsView, FieldErrorView>(FieldErrorView::Duplicate("thumbnail"@))
        } else {
            Ok::<HotListGameFieldsView, FieldErrorView>((HotListGameFieldsView { thumbnail: Some(v), ..f }))
        },
        forall|v: String| #[trigger] hot_game_accept(f, HotListGameValue::Name(v)) == if f.name is Some {
            Err::<HotListGameFieldsView, FieldErrorView>(FieldErrorView::Duplicate("name"@))
        } else {
            Ok::<HotListGameFieldsView, FieldErrorView>((HotListGameFieldsView { name: Some(v), ..f }))
        },
        forall|v: i64| #[trigger] hot_game_accept(f, HotListGameValue::YearPublished(v)) == if f.year_published is Some {
            Err::<HotListGameFieldsView, FieldErrorView>(FieldErrorView::Duplicate("yearpublished"@))
        } else {
            Ok::<HotListGameFieldsView, FieldErrorView>((HotListGameFieldsView { year_published: Some(v), ..f }))
        },
        hot_game_built(x, f) ==> (x.id == f.id.unwrap()),
        hot_game_built(x, f) ==> (x.rank == f.rank.unwrap()),
        hot_game_built(x, f) ==> (x.thumbnail == f.thumbnail),
        hot_game_built(x, f) ==> (x.name == f.name.unwrap()),
        hot_game_built(x, f) ==> (x.year_published == f.year_published.unwrap()),
{
}

/// Law: each value of a search result goes to its own field, once, a second one being refused
/// as given twice; and a finished result takes each field from the value read for it, the
/// year being none when no year was read.
pub proof fn law_search_result_values_go_to_their_fields(f: SearchResultFieldsView, x: SearchResult)
    ensures
        forall|v: ItemType| #[trigger] search_result_accept(f, SearchResultValue::Type(v)) == if f.item_type is Some {
            Err::<SearchResultFieldsView, FieldErrorView>(FieldErrorView::Duplicate("type"@))
        } else {
            Ok::<SearchResultFieldsView, FieldErrorView>((SearchResultFieldsView { item_type: Some(v), ..f }))
        },
        forall|v: String| #[trigger] search_result_accept(f, SearchResultValue::Name(v)) == if f.name is Some {
            Err::<SearchResultFieldsView, FieldErrorView>(FieldErrorView::Duplicate("name"@))
        } else {
            Ok::<SearchResultFieldsView, FieldErrorView>((SearchResultFieldsView { name: Some(v), ..f }))
        },
        forall|v: i64| #[trigger] search_result_accept(f, SearchResultValue::YearPublished(v)) == if f.year_published is Some {
            Err::<SearchResultFieldsView, FieldErrorView>(FieldErrorView::Duplicate("yearpublished"@))
        } else {
            Ok::<SearchResultFieldsView, FieldErrorView>((SearchResultFieldsView { year_published: Some(v), ..f }))
        },
        search_result_built(x, f) ==> (x.id == f.id.unwrap()),
        search_result_built(x, f) ==> (x.item_type == f.item_type.unwrap()),
        search_result_built(x, f) ==> (x.name == f.name.unwrap()),
        search_result_built(x, f) ==> (x.year_published == f.year_published),
{
}

} // verus!
