//! Versions of a game, such as translations, with their publishers, languages and size.
use vstd::prelude::*;

use crate::decode::{
    result_view, set_once, unexpected_link, unexpected_link_message, vacant, FieldError,
    FieldErrorView,
};
use crate::models::{Game, GameArtist, GamePublisher, ItemType, Language, NameType};

verus! {

/// The dimensions of a game, in inches.
///
/// `F` is the type of a length: the API gives them as floating point numbers.
#[derive(Clone, Copy, Debug, PartialEq, Eq)]
pub struct Dimensions<F> {
    /// The width of the game.
    pub width: F,
    /// The length of the game.
    pub length: F,
    /// The depth of the game.
    pub depth: F,
}

/// A version of a game, often a translation, with the link to the original.
///
/// `F` is the type of a length or weight: the API gives them as floating point numbers.
#[derive(Clone, Debug)]
pub struct GameVersion<F> {
    /// The ID of this version.
    pub id: u64,
    /// The name of this version.
    pub name: String,
    /// Alternate names of this version.
    pub alternate_names: Vec<String>,
    /// The year this version was first published.
    pub year_published: i64,
    /// A link to a jpg image for this version.
    pub image: String,
    /// A link to a jpg thumbnail image for this version.
    pub thumbnail: String,
    /// The name and ID of the game this version is of.
    pub original_game: Game,
    /// The publishers of this version.
    pub publishers: Vec<GamePublisher>,
    /// The artists of this version.
    pub artists: Vec<GameArtist>,
    /// The languages this version supports.
    pub languages: Vec<Language>,
    /// The dimensions of the game in inches, when the API gives them.
    pub dimensions: Option<Dimensions<F>>,
    /// The weight of the game in pounds, when the API gives it.
    pub weight: Option<F>,
    /// Product code for the game, when the API gives one.
    pub product_code: Option<String>,
}

/// Whether the dimensions are all given or all left out.
pub open spec fn dimensions_consistent<F>(width: Option<F>, length: Option<F>, depth: Option<F>) -> bool {
    (width is Some && length is Some && depth is Some) || (width is None && length is None && depth is None)
}

/// The message for dimensions of which only some are given.
pub open spec fn dimensions_message() -> Seq<char> {
    "Invalid game dimensions, some but not all of width, length, depth, were set."@
}

/// The first field of a game version that must be given and was not, if any.
pub open spec fn version_missing<F>(f: GameVersionFieldsView<F>) -> Option<Seq<char>> {
    if f.id is None {
        Some("id"@)
    } else if f.name is None {
        Some("name"@)
    } else if f.year_published is None {
        Some("yearpublished"@)
    } else if f.image is None {
        Some("image"@)
    } else if f.thumbnail is None {
        Some("thumbnail"@)
    } else if f.original_game is None {
        Some("link with type \"boardgameversion\""@)
    } else if f.width is None {
        Some("width"@)
    } else if f.length is None {
        Some("length"@)
    } else if f.depth is None {
        Some("depth"@)
    } else if f.weight is None {
        Some("weight"@)
    } else if f.product_code is None {
        Some("productcode"@)
    } else {
        None
    }
}

/// The error that finishing a game version gives, if any.
pub open spec fn version_finish_error<F>(f: GameVersionFieldsView<F>) -> Option<FieldErrorView> {
    match version_missing(f) {
        Some(n) => Some(FieldErrorView::Missing(n)),
        None => if dimensions_consistent(f.width.unwrap(), f.length.unwrap(), f.depth.unwrap()) {
            None
        } else {
            Some(FieldErrorView::Custom(dimensions_message()))
        },
    }
}

/// Whether a game version is the one that these fields make.
pub open spec fn version_built<F>(x: GameVersion<F>, f: GameVersionFieldsView<F>) -> bool {
    &&& x.id == f.id.unwrap()
    &&& x.name == f.name.unwrap()
    &&& x.alternate_names@ == f.alternate_names
    &&& x.year_published == f.year_published.unwrap()
    &&& x.image == f.image.unwrap()
    &&& x.thumbnail == f.thumbnail.unwrap()
    &&& x.original_game == f.original_game.unwrap()
    &&& x.publishers@ == f.publishers
    &&& x.artists@ == f.artists
    &&& x.languages@ == f.languages
    &&& x.dimensions == if f.width.unwrap() is Some && f.length.unwrap() is Some && f.depth.unwrap() is Some {
            Some(Dimensions { width: f.width.unwrap().unwrap(), length: f.length.unwrap().unwrap(), depth: f.depth.unwrap().unwrap() })
        } else {
            None
        }
    &&& x.weight == f.weight.unwrap()
    &&& x.product_code == f.product_code.unwrap()
}

/// The kinds of field of a game version, as the keys of its XML object.
#[derive(Clone, Copy, Debug, PartialEq, Eq, Structural)]
pub enum GameVersionField {
    /// The `id` field.
    Id,
    /// The `image` field.
    Image,
    /// The `thumbnail` field.
    Thumbnail,
    /// The `width` field.
    Width,
    /// The `length` field.
    Length,
    /// The `depth` field.
    Depth,
    /// The `weight` field.
    Weight,
    /// The `yearpublished` field.
    YearPublished,
    /// A `name` field, primary or alternate.
    Name,
    /// A `link` field.
    Link,
    /// The `productcode` field.
    ProductCode,
    /// The `type` field.
    Type,
}

/// The value of a field of a game version, read from the XML.
#[derive(Clone, Debug)]
pub enum GameVersionValue<F> {
    /// The `id` field: its ID.
    Id(u64),
    /// The `image` field: the link to its image.
    Image(String),
    /// The `thumbnail` field: the link to its thumbnail.
    Thumbnail(String),
    /// The `width` field: its width, `None` when the API gives zero.
    Width(Option<F>),
    /// The `length` field: its length, `None` when the API gives zero.
    Length(Option<F>),
    /// The `depth` field: its depth, `None` when the API gives zero.
    Depth(Option<F>),
    /// The `weight` field: its weight, `None` when the API gives zero.
    Weight(Option<F>),
    /// The `yearpublished` field: the year it was published.
    YearPublished(i64),
    /// A `name` field: a primary or an alternate name.
    Name(NameType, String),
    /// A `link` field: the type, ID and name of a linked item.
    Link(ItemType, u64, String),
    /// The `productcode` field: the product code, empty when there is none.
    ProductCode(String),
    /// The `type` field, always `boardgameversion`, which is read and dropped.
    Type(String),
}

/// The fields of a game version read so far.
#[derive(Clone, Debug)]
pub struct GameVersionFields<F> {
    id: Option<u64>,
    image: Option<String>,
    thumbnail: Option<String>,
    width: Option<Option<F>>,
    length: Option<Option<F>>,
    depth: Option<Option<F>>,
    weight: Option<Option<F>>,
    year_published: Option<i64>,
    name: Option<String>,
    original_game: Option<Game>,
    product_code: Option<Option<String>>,
    alternate_names: Vec<String>,
    publishers: Vec<GamePublisher>,
    artists: Vec<GameArtist>,
    languages: Vec<Language>,
}

/// The fields of a game version read so far, as mathematical values.
#[verifier::ext_equal]
pub ghost struct GameVersionFieldsView<F> {
    /// The `id` field, once read: its ID.
    pub id: Option<u64>,
    /// The `image` field, once read: the link to its image.
    pub image: Option<String>,
    /// The `thumbnail` field, once read: the link to its thumbnail.
    pub thumbnail: Option<String>,
    /// The `width` field, once read: its width, `None` when the API gives zero.
    pub width: Option<Option<F>>,
    /// The `length` field, once read: its length, `None` when the API gives zero.
    pub length: Option<Option<F>>,
    /// The `depth` field, once read: its depth, `None` when the API gives zero.
    pub depth: Option<Option<F>>,
    /// The `weight` field, once read: its weight, `None` when the API gives zero.
    pub weight: Option<Option<F>>,
    /// The `yearpublished` field, once read: the year it was published.
    pub year_published: Option<i64>,
    /// The primary name, once read.
    pub name: Option<String>,
    /// The game this is a version of, once read.
    pub original_game: Option<Game>,
    /// The product code, once read: `None` when the API gives an empty one.
    pub product_code: Option<Option<String>>,
    /// The alternate names read so far.
    pub alternate_names: Seq<String>,
    /// The publishers read so far.
    pub publishers: Seq<GamePublisher>,
    /// The artists read so far.
    pub artists: Seq<GameArtist>,
    /// The languages read so far.
    pub languages: Seq<Language>,
}

impl<F> View for GameVersionFields<F> {
    type V = GameVersionFieldsView<F>;

    closed spec fn view(&self) -> GameVersionFieldsView<F> {
        GameVersionFieldsView {
            id: self.id,
            image: self.image,
            thumbnail: self.thumbnail,
            width: self.width,
            length: self.length,
            depth: self.depth,
            weight: self.weight,
            year_published: self.year_published,
            name: self.name,
            original_game: self.original_game,
            product_code: self.product_code,
            alternate_names: self.alternate_names@,
            publishers: self.publishers@,
            artists: self.artists@,
            languages: self.languages@,
        }
    }
}

/// Whether a key may come next: a field that may be given once is refused when it was
/// given already.
pub open spec fn version_key_check<F>(f: GameVersionFieldsView<F>, key: GameVersionField) -> Result<(), FieldErrorView> {
    match key {
        GameVersionField::Id => if f.id is Some {
            Err(FieldErrorView::Duplicate("id"@))
        } else {
            Ok(())
        },
        GameVersionField::Image => if f.image is Some {
            Err(FieldErrorView::Duplicate("image"@))
        } else {
            Ok(())
        },
        GameVersionField::Thumbnail => if f.thumbnail is Some {
            Err(FieldErrorView::Duplicate("thumbnail"@))
        } else {
            Ok(())
        },
        GameVersionField::Width => if f.width is Some {
            Err(FieldErrorView::Duplicate("width"@))
        } else {
            Ok(())
        },
        GameVersionField::Length => if f.length is Some {
            Err(FieldErrorView::Duplicate("length"@))
        } else {
            Ok(())
        },
        GameVersionField::Depth => if f.depth is Some {
            Err(FieldErrorView::Duplicate("depth"@))
        } else {
            Ok(())
        },
        GameVersionField::Weight => if f.weight is Some {
            Err(FieldErrorView::Duplicate("weight"@))
        } else {
            Ok(())
        },
        GameVersionField::YearPublished => if f.year_published is Some {
            Err(FieldErrorView::Duplicate("yearpublished"@))
        } else {
            Ok(())
        },
        GameVersionField::Name => Ok(()),
        GameVersionField::Link => Ok(()),
        GameVersionField::ProductCode => if f.product_code is Some {
            Err(FieldErrorView::Duplicate("product_code"@))
        } else {
            Ok(())
        },
        GameVersionField::Type => Ok(()),
    }
}

/// The fields after one more value is read, or the error that the value brings.
pub open spec fn version_accept<F>(f: GameVersionFieldsView<F>, value: GameVersionValue<F>) -> Result<GameVersionFieldsView<F>, FieldErrorView> {
    match value {
        GameVersionValue::Id(x) => if f.id is Some {
            Err(FieldErrorView::Duplicate("id"@))
        } else {
            Ok(GameVersionFieldsView { id: Some(x), ..f })
        },
        GameVersionValue::Image(x) => if f.image is Some {
            Err(FieldErrorView::Duplicate("image"@))
        } else {
            Ok(GameVersionFieldsView { image: Some(x), ..f })
        },
        GameVersionValue::Thumbnail(x) => if f.thumbnail is Some {
            Err(FieldErrorView::Duplicate("thumbnail"@))
        } else {
            Ok(GameVersionFieldsView { thumbnail: Some(x), ..f })
        },
        GameVersionValue::Width(x) => if f.width is Some {
            Err(FieldErrorView::Duplicate("width"@))
        } else {
            Ok(GameVersionFieldsView { width: Some(x), ..f })
        },
        GameVersionValue::Length(x) => if f.length is Some {
            Err(FieldErrorView::Duplicate("length"@))
        } else {
            Ok(GameVersionFieldsView { length: Some(x), ..f })
        },
        GameVersionValue::Depth(x) => if f.depth is Some {
            Err(FieldErrorView::Duplicate("depth"@))
        } else {
            Ok(GameVersionFieldsView { depth: Some(x), ..f })
        },
        GameVersionValue::Weight(x) => if f.weight is Some {
            Err(FieldErrorView::Duplicate("weight"@))
        } else {
            Ok(GameVersionFieldsView { weight: Some(x), ..f })
        },
        GameVersionValue::YearPublished(x) => if f.year_published is Some {
            Err(FieldErrorView::Duplicate("yearpublished"@))
        } else {
            Ok(GameVersionFieldsView { year_published: Some(x), ..f })
        },
        GameVersionValue::Name(t, x) => match t {
            NameType::Primary => if f.name is Some {
                Err(FieldErrorView::Duplicate("name type=\"primary\""@))
            } else {
                Ok(GameVersionFieldsView { name: Some(x), ..f })
            },
            NameType::Alternate => Ok(GameVersionFieldsView { alternate_names: f.alternate_names.push(x), ..f }),
        },
        GameVersionValue::Link(t, id, x) => match t {
            ItemType::BoardGameVersion => if f.original_game is Some {
                Err(FieldErrorView::Duplicate("link with type \"boardgameversion\""@))
            } else {
                Ok(GameVersionFieldsView { original_game: Some(Game { id, name: x }), ..f })
            },
            ItemType::BoardGamePublisher => Ok(GameVersionFieldsView { publishers: f.publishers.push(GamePublisher { id, name: x }), ..f }),
            ItemType::BoardGameArtist => Ok(GameVersionFieldsView { artists: f.artists.push(GameArtist { id, name: x }), ..f }),
            ItemType::Language => Ok(GameVersionFieldsView { languages: f.languages.push(Language { id, name: x }), ..f }),
            _ => Err(FieldErrorView::Custom(unexpected_link_message(t, "version"@))),
        },
        GameVersionValue::ProductCode(x) => if f.product_code is Some {
            Err(FieldErrorView::Duplicate("product_code"@))
        } else {
            Ok(GameVersionFieldsView { product_code: Some(if x@.len() == 0 { None } else { Some(x) }), ..f })
        },
        GameVersionValue::Type(_) => Ok(f),
    }
}

/// The key under which a value is given.
pub open spec fn version_value_key<F>(v: GameVersionValue<F>) -> GameVersionField {
    match v {
        GameVersionValue::Id(..) => GameVersionField::Id,
        GameVersionValue::Image(..) => GameVersionField::Image,
        GameVersionValue::Thumbnail(..) => GameVersionField::Thumbnail,
        GameVersionValue::Width(..) => GameVersionField::Width,
        GameVersionValue::Length(..) => GameVersionField::Length,
        GameVersionValue::Depth(..) => GameVersionField::Depth,
        GameVersionValue::Weight(..) => GameVersionField::Weight,
        GameVersionValue::YearPublished(..) => GameVersionField::YearPublished,
        GameVersionValue::Name(..) => GameVersionField::Name,
        GameVersionValue::Link(..) => GameVersionField::Link,
        GameVersionValue::ProductCode(..) => GameVersionField::ProductCode,
        GameVersionValue::Type(..) => GameVersionField::Type,
    }
}

/// Law: the check made when a key of a game version is read refuses exactly what taking its
/// value would refuse as given twice: when the check fails, taking the value fails alike.
pub proof fn law_version_key_check_agrees<F>(f: GameVersionFieldsView<F>, v: GameVersionValue<F>)
    ensures
        version_key_check(f, version_value_key(v)) matches Err(e) ==> version_accept(f, v)
            == Err::<GameVersionFieldsView<F>, FieldErrorView>(e),
{
}

impl<F> GameVersionFields<F> {
    /// No field read yet.
    pub fn new() -> (r: Self)
        ensures
            r@ == (GameVersionFieldsView::<F> {
                id: None,
                image: None,
                thumbnail: None,
                width: None,
                length: None,
                depth: None,
                weight: None,
                year_published: None,
                name: None,
                original_game: None,
                product_code: None,
                alternate_names: Seq::<String>::empty(),
                publishers: Seq::<GamePublisher>::empty(),
                artists: Seq::<GameArtist>::empty(),
                languages: Seq::<Language>::empty(),
            }),
    {
        GameVersionFields {
            id: None,
            image: None,
            thumbnail: None,
            width: None,
            length: None,
            depth: None,
            weight: None,
            year_published: None,
            name: None,
            original_game: None,
            product_code: None,
            alternate_names: Vec::new(),
            publishers: Vec::new(),
            artists: Vec::new(),
            languages: Vec::new(),
        }
    }

    /// Checks that a key may come next, before its value is read.
    pub fn check_key(&self, key: GameVersionField) -> (r: Result<(), FieldError>)
        ensures
            result_view(r) == version_key_check(self@, key),
    {
        match key {
            GameVersionField::Id => vacant(&self.id, "id"),
            GameVersionField::Image => vacant(&self.image, "image"),
            GameVersionField::Thumbnail => vacant(&self.thumbnail, "thumbnail"),
            GameVersionField::Width => vacant(&self.width, "width"),
            GameVersionField::Length => vacant(&self.length, "length"),
            GameVersionField::Depth => vacant(&self.depth, "depth"),
            GameVersionField::Weight => vacant(&self.weight, "weight"),
            GameVersionField::YearPublished => vacant(&self.year_published, "yearpublished"),
            GameVersionField::Name => Ok(()),
            GameVersionField::Link => Ok(()),
            GameVersionField::ProductCode => vacant(&self.product_code, "product_code"),
            GameVersionField::Type => Ok(()),
        }
    }

    /// Takes the value of one more field.
    pub fn accept(&mut self, value: GameVersionValue<F>) -> (r: Result<(), FieldError>)
        ensures
            match version_accept(old(self)@, value) {
                Ok(f) => r is Ok && final(self)@ == f,
                Err(e) => r matches Err(x) && x@ == e && final(self)@ == old(self)@,
            },
    {
        match value {
            GameVersionValue::Id(x) => set_once(&mut self.id, x, "id"),
            GameVersionValue::Image(x) => set_once(&mut self.image, x, "image"),
            GameVersionValue::Thumbnail(x) => set_once(&mut self.thumbnail, x, "thumbnail"),
            GameVersionValue::Width(x) => set_once(&mut self.width, x, "width"),
            GameVersionValue::Length(x) => set_once(&mut self.length, x, "length"),
            GameVersionValue::Depth(x) => set_once(&mut self.depth, x, "depth"),
            GameVersionValue::Weight(x) => set_once(&mut self.weight, x, "weight"),
            GameVersionValue::YearPublished(x) => set_once(&mut self.year_published, x, "yearpublished"),
            GameVersionValue::Name(t, x) => match t {
                NameType::Primary => set_once(&mut self.name, x, "name type=\"primary\""),
                NameType::Alternate => {
                    self.alternate_names.push(x);
                    Ok(())
                },
            },
            GameVersionValue::Link(t, id, x) => match t {
                ItemType::BoardGameVersion => set_once(
                    &mut self.original_game,
                    Game { id, name: x },
                    "link with type \"boardgameversion\"",
                ),
                ItemType::BoardGamePublisher => {
                    self.publishers.push(GamePublisher { id, name: x });
                    Ok(())
                },
                ItemType::BoardGameArtist => {
                    self.artists.push(GameArtist { id, name: x });
                    Ok(())
                },
                ItemType::Language => {
                    self.languages.push(Language { id, name: x });
                    Ok(())
                },
                _ => Err(unexpected_link(t, "version")),
            },
            GameVersionValue::ProductCode(x) => {
                let code = if x.as_str().is_empty() {
                    None
                } else {
                    Some(x)
                };
                set_once(&mut self.product_code, code, "product_code")
            },
            GameVersionValue::Type(_) => Ok(()),
        }
    }

    /// The finished value, once every field that must be given was read.
    pub fn finish(self) -> (r: Result<GameVersion<F>, FieldError>)
        ensures
            match version_finish_error(self@) {
                Some(e) => r matches Err(x) && x@ == e,
                None => r matches Ok(x) && version_built(x, self@),
            },
    {
        let ghost f = self@;
        let id = match self.id {
            Some(x) => x,
            None => {
                return Err(FieldError::Missing("id"));
            },
        };
        let name = match self.name {
            Some(x) => x,
            None => {
                return Err(FieldError::Missing("name"));
            },
        };
        let year_published = match self.year_published {
            Some(x) => x,
            None => {
                return Err(FieldError::Missing("yearpublished"));
            },
        };
        let image = match self.image {
            Some(x) => x,
            None => {
                return Err(FieldError::Missing("image"));
            },
        };
        let thumbnail = match self.thumbnail {
            Some(x) => x,
            None => {
                return Err(FieldError::Missing("thumbnail"));
            },
        };
        let original_game = match self.original_game {
            Some(x) => x,
            None => {
                return Err(FieldError::Missing("link with type \"boardgameversion\""));
            },
        };
        let width = match self.width {
            Some(x) => x,
            None => {
                return Err(FieldError::Missing("width"));
            },
        };
        let length = match self.length {
            Some(x) => x,
            None => {
                return Err(FieldError::Missing("length"));
            },
        };
        let depth = match self.depth {
            Some(x) => x,
            None => {
                return Err(FieldError::Missing("depth"));
            },
        };
        let weight = match self.weight {
            Some(x) => x,
            None => {
                return Err(FieldError::Missing("weight"));
            },
        };
        let product_code = match self.product_code {
            Some(x) => x,
            None => {
                return Err(FieldError::Missing("productcode"));
            },
        };
        let dimensions = match (width, length, depth) {
            (Some(w), Some(l), Some(d)) => Some(Dimensions { width: w, length: l, depth: d }),
            (None, None, None) => None,
            _ => {
                return Err(
                    FieldError::Custom(
                        crate::text::owned(
                            "Invalid game dimensions, some but not all of width, length, depth, were set.",
                        ),
                    ),
                );
            },
        };
        Ok(GameVersion {
            id: id,
            name: name,
            alternate_names: self.alternate_names,
            year_published: year_published,
            image: image,
            thumbnail: thumbnail,
            original_game: original_game,
            publishers: self.publishers,
            artists: self.artists,
            languages: self.languages,
            dimensions: dimensions,
            weight: weight,
            product_code: product_code,
        })
    }
}

/// Law: each value of a game version goes to its own field, once, a second one being refused
/// as given twice, and each link to its own list; and a finished version takes each field from
/// the value read for it.
pub proof fn law_version_values_go_to_their_fields<F>(f: GameVersionFieldsView<F>, x: GameVersion<F>)
    ensures
        forall|v: u64| #[trigger] version_accept(f, GameVersionValue::Id(v)) == if f.id is Some {
            Err::<GameVersionFieldsView<F>, FieldErrorView>(FieldErrorView::Duplicate("id"@))
        } else {
            Ok::<GameVersionFieldsView<F>, FieldErrorView>((GameVersionFieldsView { id: Some(v), ..f }))
        },
        forall|v: String| #[trigger] version_accept(f, GameVersionValue::Image(v)) == if f.image is Some {
            Err::<GameVersionFieldsView<F>, FieldErrorView>(FieldErrorView::Duplicate("image"@))
        } else {
            Ok::<GameVersionFieldsView<F>, FieldErrorView>((GameVersionFieldsView { image: Some(v), ..f }))
        },
        forall|v: String| #[trigger] version_accept(f, GameVersionValue::Thumbnail(v)) == if f.thumbnail is Some {
            Err::<GameVersionFieldsView<F>, FieldErrorView>(FieldErrorView::Duplicate("thumbnail"@))
        } else {
            Ok::<GameVersionFieldsView<F>, FieldErrorView>((GameVersionFieldsView { thumbnail: Some(v), ..f }))
        },
        forall|v: Option<F>| #[trigger] version_accept(f, GameVersionValue::Width(v)) == if f.width is Some {
            Err::<GameVersionFieldsView<F>, FieldErrorView>(FieldErrorView::Duplicate("width"@))
        } else {
            Ok::<GameVersionFieldsView<F>, FieldErrorView>((GameVersionFieldsView { width: Some(v), ..f }))
        },
        forall|v: Option<F>| #[trigger] version_accept(f, GameVersionValue::Length(v)) == if f.length is Some {
            Err::<GameVersionFieldsView<F>, FieldErrorView>(FieldErrorView::Duplicate("length"@))
        } else {
            Ok::<GameVersionFieldsView<F>, FieldErrorView>((GameVersionFieldsView { length: Some(v), ..f }))
        },
        forall|v: Option<F>| #[trigger] version_accept(f, GameVersionValue::Depth(v)) == if f.depth is Some {
            Err::<GameVersionFieldsView<F>, FieldErrorView>(FieldErrorView::Duplicate("depth"@))
        } else {
            Ok::<GameVersionFieldsView<F>, FieldErrorView>((GameVersionFieldsView { depth: Some(v), ..f }))
        },
        forall|v: Option<F>| #[trigger] version_accept(f, GameVersionValue::Weight(v)) == if f.weight is Some {
            Err::<GameVersionFieldsView<F>, FieldErrorView>(FieldErrorView::Duplicate("weight"@))
        } else {
            Ok::<GameVersionFieldsView<F>, FieldErrorView>((GameVersionFieldsView { weight: Some(v), ..f }))
        },
        forall|v: i64| #[trigger] version_accept(f, GameVersionValue::YearPublished(v)) == if f.year_published is Some {
            Err::<GameVersionFieldsView<F>, FieldErrorView>(FieldErrorView::Duplicate("yearpublished"@))
        } else {
            Ok::<GameVersionFieldsView<F>, FieldErrorView>((GameVersionFieldsView { year_published: Some(v), ..f }))
        },
        forall|id: u64, name: String| #[trigger] version_accept(f, GameVersionValue::Link(ItemType::BoardGamePublisher, id, name)) == Ok::<GameVersionFieldsView<F>, FieldErrorView>((GameVersionFieldsView { publishers: f.publishers.push(GamePublisher { id, name }), ..f })),
        forall|id: u64, name: String| #[trigger] version_accept(f, GameVersionValue::Link(ItemType::BoardGameArtist, id, name)) == Ok::<GameVersionFieldsView<F>, FieldErrorView>((GameVersionFieldsView { artists: f.artists.push(GameArtist { id, name }), ..f })),
        forall|id: u64, name: String| #[trigger] version_accept(f, GameVersionValue::Link(ItemType::Language, id, name)) == Ok::<GameVersionFieldsView<F>, FieldErrorView>((GameVersionFieldsView { languages: f.languages.push(Language { id, name }), ..f })),
        version_built(x, f) ==> (x.id == f.id.unwrap()),
        version_built(x, f) ==> (x.name == f.name.unwrap()),
        version_built(x, f) ==> (x.alternate_names@ == f.alternate_names),
        version_built(x, f) ==> (x.year_published == f.year_published.unwrap()),
        version_built(x, f) ==> (x.image == f.image.unwrap()),
        version_built(x, f) ==> (x.thumbnail == f.thumbnail.unwrap()),
        version_built(x, f) ==> (x.original_game == f.original_game.unwrap()),
        version_built(x, f) ==> (x.publishers@ == f.publishers),
        version_built(x, f) ==> (x.artists@ == f.artists),
        version_built(x, f) ==> (x.languages@ == f.languages),
        version_built(x, f) ==> (x.dimensions == if f.width.unwrap() is Some && f.length.unwrap() is Some && f.depth.unwrap() is Some {
                Some(Dimensions { width: f.width.unwrap().unwrap(), length: f.length.unwrap().unwrap(), depth: f.depth.unwrap().unwrap() })
            } else {
                None
            }),
        version_built(x, f) ==> (x.weight == f.weight.unwrap()),
        version_built(x, f) ==> (x.product_code == f.product_code.unwrap()),
{
}

} // verus!
